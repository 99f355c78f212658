use pawn_runtime::chat::ChatMessage;
use pawn_runtime::value::{
    chat_params, field_text, first_message, message_record, prepare_results, record_message,
    Field, Value,
};

fn msg(role: &str, content: &str) -> ChatMessage {
    ChatMessage { role: role.to_string(), content: content.to_string() }
}

#[test]
fn message_round_trips_through_its_record() {
    let m = msg("user", "hello there");
    let v = message_record(&m);
    let back = record_message(&v).expect("the record carries the message");
    assert_eq!(back.role, "user");
    assert_eq!(back.content, "hello there");
}

#[test]
fn non_record_values_carry_no_message() {
    assert!(record_message(&Value::Str("hi".to_string())).is_none());
    assert!(record_message(&Value::Absent).is_none());
    assert!(record_message(&Value::List(Vec::new())).is_none());
}

#[test]
fn record_without_content_carries_no_message() {
    let v = Value::Record(vec![Field { name: "role".to_string(), text: "user".to_string() }]);
    assert!(record_message(&v).is_none());
}

#[test]
fn first_field_of_a_name_wins() {
    let fields = vec![
        Field { name: "role".to_string(), text: "first".to_string() },
        Field { name: "role".to_string(), text: "second".to_string() },
    ];
    assert_eq!(field_text(&fields, "role").expect("present"), "first");
    assert!(field_text(&fields, "content").is_none());
}

#[test]
fn chat_params_have_the_declared_shape() {
    let messages = vec![msg("system", "be brief"), msg("user", "hi")];
    let params = chat_params("echo", "test-model", "SECRET-REDACTED", &messages);
    assert_eq!(params.len(), 4);
    assert!(matches!(&params[0], Value::Str(s) if s == "echo"));
    assert!(matches!(&params[1], Value::Str(s) if s == "test-model"));
    assert!(matches!(&params[2], Value::Str(s) if s == "SECRET-REDACTED"));
    match &params[3] {
        Value::List(items) => {
            assert_eq!(items.len(), 2);
            let first = record_message(&items[0]).expect("first message record");
            assert_eq!(first.role, "system");
            assert_eq!(first.content, "be brief");
            let second = record_message(&items[1]).expect("second message record");
            assert_eq!(second.role, "user");
            assert_eq!(second.content, "hi");
        },
        _ => panic!("fourth parameter must be the message list"),
    }
}

#[test]
fn result_slots_are_preallocated_to_the_declared_arity() {
    let slots = prepare_results(2);
    assert_eq!(slots.len(), 2);
    assert!(matches!(slots[0], Value::Absent));
    assert!(matches!(slots[1], Value::Absent));
    assert!(prepare_results(0).is_empty());
}

#[test]
fn first_message_skips_messageless_results() {
    let results = vec![
        Value::Absent,
        Value::Str("noise".to_string()),
        message_record(&msg("assistant", "answer")),
    ];
    let m = first_message(&results).expect("one result carries a message");
    assert_eq!(m.role, "assistant");
    assert_eq!(m.content, "answer");
    assert!(first_message(&vec![Value::Absent]).is_none());
}
