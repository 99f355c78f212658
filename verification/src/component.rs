//! Loading a component binary and classifying everything around one call.
//!
//! A [`LoadedComponent`] pairs a compiled binary with the model of its export graph
//! and a reference to the [`Runtime`] that compiled it; it must not outlive
//! that runtime.  Loading validates the binary (an absent or empty binary is
//! a caller error, reported distinctly from a decode failure), compiles it,
//! and reads its export graph once.  Resolution over that graph, result-slot
//! pre-allocation and failure classification are verified; only the
//! compilation and the export-graph read are trusted.

use vstd::prelude::*;
use crate::resolver::{
    resolve_export, spec_namespace, spec_resolution, Export, ExportKind, ResolvedEntry,
};
use crate::runtime::Runtime;
use crate::value::Value;

verus! {

#[verifier::external_type_specification]
#[verifier::external_body]
pub struct ExComponent(wasmtime::component::Component);

#[verifier::external_type_specification]
#[verifier::external_body]
pub struct ExComponentItem(wasmtime::component::types::ComponentItem);

/// Errors of loading, resolving and calling a component.
#[derive(Debug)]
pub enum ComponentError {
    /// The binary does not decode as a component.
    WasmComponentCreationFailed { source: wasmtime::Error },
    /// Instantiation against the linker failed (for instance, the binary
    /// imports something the host does not grant).
    WasmComponentInstantiateFailed { source: wasmtime::Error },
    /// A host-capability surface could not be attached to the linker.
    WasiLinkingFailed { source: wasmtime::Error },
    /// The binary is absent or empty: a caller error, not a decode failure.
    ReadWasmFailed,
    /// No runtime was supplied for the component.
    RuntimeSetFailed,
    /// A resolved function could not be initialized.
    ComponentFunctionInitializeFailed { name: String, source: wasmtime::Error },
    /// The scan exhausted every export without a match.
    FunctionExportNotFound { name: String },
    /// The call was made and the sandboxed code failed or trapped.
    ComponentFunctionCallFailed { source: wasmtime::Error },
    /// The requested module export was not found.
    ModuleExportNotFound { name: String },
    /// The requested handler export was not found.
    HandlerExportNotFound { name: String },
    /// The call exceeded the runtime's execution-time ceiling; distinct from
    /// a call failure so callers can tell a hung plugin from an erring one.
    ComponentFunctionCallTimedOut { max_execution_time_millis: u64 },
}

/// Relies on `wasmtime::component::Component::new`: compiles (decodes and
/// validates) a binary against the engine; whether a given binary decodes is
/// wasmtime's decision, so nothing is promised about the outcome.
#[verifier::external_body]
fn compile_component(engine: &wasmtime::Engine, wasm: &[u8]) -> Result<
    wasmtime::component::Component,
    wasmtime::Error,
> {
    wasmtime::component::Component::new(engine, wasm)
}

/// Relies on `wasmtime::component::Component::component_type` and
/// `types::Component::exports`: the component's named exports, in
/// declaration order.
#[verifier::external_body]
fn component_export_items(
    component: &wasmtime::component::Component,
    engine: &wasmtime::Engine,
) -> Vec<(String, wasmtime::component::types::ComponentItem)> {
    component
        .component_type()
        .exports(engine)
        .map(|(name, ext)| (name.to_owned(), ext.ty))
        .collect()
}

/// The tag of an export item, one per variant of
/// `wasmtime::component::types::ComponentItem`.
#[derive(Debug, Clone, Copy, PartialEq, Eq, Structural)]
pub enum RawItemKind {
    Func,
    CoreFunc,
    Module,
    Component,
    Instance,
    Type,
    Resource,
}

/// Relies on matching `wasmtime::component::types::ComponentItem`: one tag
/// per variant, nothing else read.
#[verifier::external_body]
fn item_kind_tag(item: &wasmtime::component::types::ComponentItem) -> RawItemKind {
    match item {
        wasmtime::component::types::ComponentItem::ComponentFunc(_) => RawItemKind::Func,
        wasmtime::component::types::ComponentItem::CoreFunc(_) => RawItemKind::CoreFunc,
        wasmtime::component::types::ComponentItem::Module(_) => RawItemKind::Module,
        wasmtime::component::types::ComponentItem::Component(_) => RawItemKind::Component,
        wasmtime::component::types::ComponentItem::ComponentInstance(_) => RawItemKind::Instance,
        wasmtime::component::types::ComponentItem::Type(_) => RawItemKind::Type,
        wasmtime::component::types::ComponentItem::Resource(_) => RawItemKind::Resource,
    }
}

/// Relies on `wasmtime::component::types::ComponentInstance::exports`: the
/// sub-interface's named exports, in declaration order; `None` for any other
/// item.
#[verifier::external_body]
fn instance_export_items(
    item: &wasmtime::component::types::ComponentItem,
    engine: &wasmtime::Engine,
) -> Option<Vec<(String, wasmtime::component::types::ComponentItem)>> {
    match item {
        wasmtime::component::types::ComponentItem::ComponentInstance(instance) => Some(
            instance.exports(engine).map(|(name, ext)| (name.to_owned(), ext.ty)).collect(),
        ),
        _ => None,
    }
}

/// The names of the function exports among `items`, in order.
fn function_names(
    items: &Vec<(String, wasmtime::component::types::ComponentItem)>,
) -> Vec<String> {
    let mut names: Vec<String> = Vec::new();
    let mut i: usize = 0;
    while i < items.len()
        decreases items@.len() - i,
    {
        if item_kind_tag(&items[i].1) == RawItemKind::Func {
            names.push(items[i].0.clone());
        }
        i = i + 1;
    }
    names
}

/// Classifies the raw export items into the export-graph model, keeping
/// every name and the declaration order; a nested sub-interface carries the
/// names of its function exports.
fn build_exports(
    raw: &Vec<(String, wasmtime::component::types::ComponentItem)>,
    engine: &wasmtime::Engine,
) -> (r: Vec<Export>)
    ensures
        r@.len() == raw@.len(),
        forall|i: int| 0 <= i < raw@.len() ==> (#[trigger] r@[i]).name@ == raw@[i].0@,
{
    let mut exports: Vec<Export> = Vec::new();
    let mut i: usize = 0;
    while i < raw.len()
        invariant
            i <= raw@.len(),
            exports@.len() == i,
            forall|j: int| 0 <= j < i ==> (#[trigger] exports@[j]).name@ == raw@[j].0@,
        decreases raw@.len() - i,
    {
        let kind = match item_kind_tag(&raw[i].1) {
            RawItemKind::Func => ExportKind::Function,
            RawItemKind::Instance => {
                let functions = match instance_export_items(&raw[i].1, engine) {
                    Some(inner) => function_names(&inner),
                    None => Vec::new(),
                };
                ExportKind::Instance { functions }
            },
            RawItemKind::CoreFunc => ExportKind::CoreFunction,
            RawItemKind::Module => ExportKind::Module,
            RawItemKind::Component => ExportKind::Module,
            RawItemKind::Type => ExportKind::Type,
            RawItemKind::Resource => ExportKind::Resource,
        };
        exports.push(Export { name: raw[i].0.clone(), kind });
        i = i + 1;
    }
    exports
}

/// A loaded component: the compiled binary, the model of its export graph,
/// and the runtime it was compiled by.
pub struct LoadedComponent<'a> {
    /// The compiled component image.
    pub component: wasmtime::component::Component,
    /// The component's export graph, in declaration order.
    pub exports: Vec<Export>,
    /// The runtime that compiled the component; the component must not
    /// outlive it.
    pub runtime: &'a Runtime,
}

impl<'a> LoadedComponent<'a> {
    /// Loads a component from its binary: rejects an empty binary before
    /// anything else, compiles it, and reads its export graph once.
    pub fn with_runtime(wasm: &[u8], runtime: &'a Runtime) -> (r: Result<
        LoadedComponent<'a>,
        ComponentError,
    >)
        ensures
            wasm@.len() == 0 <==> (r matches Err(e) && e is ReadWasmFailed),
            r matches Err(e) ==> e is ReadWasmFailed || e is WasmComponentCreationFailed,
            r matches Ok(c) ==> c.runtime == runtime,
    {
        if wasm.len() == 0 {
            return Err(ComponentError::ReadWasmFailed);
        }
        match compile_component(&runtime.engine, wasm) {
            Ok(component) => {
                let raw = component_export_items(&component, &runtime.engine);
                let exports = build_exports(&raw, &runtime.engine);
                Ok(LoadedComponent { component, exports, runtime })
            },
            Err(source) => Err(ComponentError::WasmComponentCreationFailed { source }),
        }
    }

    /// Resolves one callable entry point: the first export, in declaration
    /// order, that passes the namespace filter and either is a function or
    /// is a sub-interface following the handle convention.
    pub fn resolve(&self, namespace: Option<&str>, function_name: &str) -> (r: Result<
        ResolvedEntry,
        ComponentError,
    >)
        ensures
            match r {
                Ok(entry) => spec_resolution(self.exports@, spec_namespace(namespace)) == Some(
                    entry.index as int,
                ) && entry.index < self.exports@.len() && (entry.path is Direct
                    <==> self.exports@[entry.index as int].kind is Function),
                Err(e) => spec_resolution(self.exports@, spec_namespace(namespace)) is None && (
                e matches ComponentError::FunctionExportNotFound { name } && name@
                    == function_name@),
            },
    {
        match resolve_export(&self.exports, namespace) {
            Some(entry) => Ok(entry),
            None => Err(ComponentError::FunctionExportNotFound { name: function_name.to_owned() }),
        }
    }
}

/// Classifies the outcome of the one asynchronous call: a filled result list
/// passes through unchanged, an underlying failure becomes
/// [`ComponentError::ComponentFunctionCallFailed`] carrying its cause.
pub fn complete_call(outcome: Result<Vec<Value>, wasmtime::Error>) -> (r: Result<
    Vec<Value>,
    ComponentError,
>)
    ensures
        outcome matches Ok(results) ==> (r matches Ok(filled) && filled == results),
        outcome matches Err(_) ==> (r matches Err(e) && e is ComponentFunctionCallFailed),
{
    match outcome {
        Ok(results) => Ok(results),
        Err(source) => Err(ComponentError::ComponentFunctionCallFailed { source }),
    }
}

} // verus!
