use pawn_runtime::chat::ChatMessage;
use pawn_runtime::component::{complete_call, ComponentError, LoadedComponent};
use pawn_runtime::resolver::{EntryPath, ExportKind};
use pawn_runtime::runtime::Runtime;
use pawn_runtime::value::{
    chat_params, first_message, message_record, prepare_results, record_message, Value,
};

const EMPTY_COMPONENT: &str = "(component)";

const FUNCTION_COMPONENT: &str = r#"
(component
  (core module $m
    (func (export "f") (result i32) i32.const 7)
  )
  (core instance $i (instantiate $m))
  (func (export "run") (result u32) (canon lift (core func $i "f")))
)
"#;

const CHAT_COMPONENT: &str = r#"
(component
  (core module $m
    (func (export "f") (result i32) i32.const 7)
  )
  (core instance $i (instantiate $m))
  (func $h (result u32) (canon lift (core func $i "f")))
  (instance $chat (export "handle" (func $h)))
  (export "chat" (instance $chat))
)
"#;

#[test]
fn empty_binary_is_a_caller_error() {
    let rt = Runtime::new().expect("runtime");
    let r = LoadedComponent::with_runtime(&[], &rt);
    assert!(matches!(r, Err(ComponentError::ReadWasmFailed)));
}

#[test]
fn undecodable_binary_is_a_creation_failure() {
    let rt = Runtime::new().expect("runtime");
    let r = LoadedComponent::with_runtime(b"definitely not a component", &rt);
    assert!(matches!(r, Err(ComponentError::WasmComponentCreationFailed { .. })));
}

#[test]
fn component_without_exports_resolves_to_not_found() {
    let rt = Runtime::new().expect("runtime");
    let c = LoadedComponent::with_runtime(EMPTY_COMPONENT.as_bytes(), &rt).expect("loads");
    assert!(c.exports.is_empty());
    let r = c.resolve(None, "handle");
    match r {
        Err(ComponentError::FunctionExportNotFound { name }) => assert_eq!(name, "handle"),
        _ => panic!("an exhausted scan must report FunctionExportNotFound"),
    }
}

#[test]
fn direct_function_export_is_read_and_resolved() {
    let rt = Runtime::new().expect("runtime");
    let c = LoadedComponent::with_runtime(FUNCTION_COMPONENT.as_bytes(), &rt).expect("loads");
    assert_eq!(c.exports.len(), 1);
    assert_eq!(c.exports[0].name, "run");
    assert!(matches!(c.exports[0].kind, ExportKind::Function));
    let entry = c.resolve(None, "run").expect("resolves");
    assert_eq!(entry.index, 0);
    assert_eq!(entry.path, EntryPath::Direct);
}

#[test]
fn sub_interface_with_handle_is_read_and_resolved() {
    let rt = Runtime::new().expect("runtime");
    let c = LoadedComponent::with_runtime(CHAT_COMPONENT.as_bytes(), &rt).expect("loads");
    assert_eq!(c.exports.len(), 1);
    assert_eq!(c.exports[0].name, "chat");
    match &c.exports[0].kind {
        ExportKind::Instance { functions } => {
            assert_eq!(functions.len(), 1);
            assert_eq!(functions[0], "handle");
        },
        _ => panic!("the chat export must be a sub-interface"),
    }
    let entry = c.resolve(Some("chat"), "handle").expect("resolves");
    assert_eq!(entry.index, 0);
    assert_eq!(entry.path, EntryPath::InstanceHandle);
    let miss = c.resolve(Some("other"), "handle");
    assert!(matches!(miss, Err(ComponentError::FunctionExportNotFound { .. })));
}

const ORDERED_COMPONENT: &str = r#"
(component
  (core module $m
    (func (export "f") (result i32) i32.const 7)
  )
  (core instance $i (instantiate $m))
  (func $h (result u32) (canon lift (core func $i "f")))
  (instance $b (export "handle" (func $h)))
  (export "b" (instance $b))
  (func (export "a") (result u32) (canon lift (core func $i "f")))
)
"#;

#[test]
fn declaration_order_wins_over_lexicographic_order_in_a_real_binary() {
    // Exports declared as ["b" (sub-interface with handle), "a" (function)]:
    // the callable under "b" wins although "a" sorts first.
    let rt = Runtime::new().expect("runtime");
    let c = LoadedComponent::with_runtime(ORDERED_COMPONENT.as_bytes(), &rt).expect("loads");
    assert_eq!(c.exports.len(), 2);
    assert_eq!(c.exports[0].name, "b");
    assert_eq!(c.exports[1].name, "a");
    let entry = c.resolve(None, "handle").expect("resolves");
    assert_eq!(entry.index, 0);
    assert_eq!(entry.path, EntryPath::InstanceHandle);
}

#[test]
fn components_from_one_runtime_are_independent() {
    let rt = Runtime::new().expect("runtime");
    let c1 = LoadedComponent::with_runtime(CHAT_COMPONENT.as_bytes(), &rt).expect("first loads");
    let c2 = LoadedComponent::with_runtime(CHAT_COMPONENT.as_bytes(), &rt).expect("second loads");
    let e1 = c1.resolve(Some("chat"), "handle").expect("first resolves");
    let e2 = c2.resolve(Some("chat"), "handle").expect("second resolves");
    assert_eq!(e1, e2);
}

#[test]
fn call_outcomes_are_classified() {
    let filled = vec![Value::Str("ok".to_string())];
    let r = complete_call(Ok(filled));
    match r {
        Ok(results) => {
            assert_eq!(results.len(), 1);
            assert!(matches!(&results[0], Value::Str(s) if s == "ok"));
        },
        Err(_) => panic!("a filled result list passes through"),
    }
}

// The end-to-end contract of a trivial echo module: handle(provider, model,
// key, messages) returns one record whose role is "assistant" and whose
// content echoes the last input message's content.
fn echo_module(params: &Vec<Value>) -> Vec<Value> {
    assert_eq!(params.len(), 4);
    let messages = match &params[3] {
        Value::List(items) => items,
        _ => panic!("fourth parameter must be the message list"),
    };
    let last = record_message(messages.last().expect("at least one message")).expect("a record");
    vec![message_record(
        &ChatMessage { role: "assistant".to_string(), content: last.content },
    )]
}

#[test]
fn end_to_end_echo_scenario() {
    let rt = Runtime::new().expect("runtime");
    let c = LoadedComponent::with_runtime(CHAT_COMPONENT.as_bytes(), &rt).expect("loads");
    let entry = c.resolve(Some("chat"), "handle").expect("resolves the chat handle");
    assert_eq!(entry.path, EntryPath::InstanceHandle);

    let conversation = vec![
        ChatMessage { role: "system".to_string(), content: "echo".to_string() },
        ChatMessage { role: "user".to_string(), content: "hello sandbox".to_string() },
    ];
    let params = chat_params("echo", "test-model", "SECRET-REDACTED", &conversation);

    // One result is declared; its slot is pre-allocated, then the double
    // fills it.
    let slots = prepare_results(1);
    assert_eq!(slots.len(), 1);
    let results = echo_module(&params);
    assert_eq!(results.len(), slots.len());

    let reply = first_message(&results).expect("one record result");
    assert_eq!(reply.role, "assistant");
    assert_eq!(reply.content, "hello sandbox");
}
