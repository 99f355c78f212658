//! Per-instantiation capability state.
//!
//! Each component instantiation owns exactly one [`State`]: a resource handle
//! table, a generic-I/O (WASI) context and an outbound-HTTP context.  The
//! state is constructed fresh for every instantiation and handed into its
//! store by exclusive ownership, so no handle registered by one component is
//! ever visible to another, and no state is reused after a call completes.

use vstd::prelude::*;

verus! {

#[verifier::external_type_specification]
#[verifier::external_body]
pub struct ExResourceTable(wasmtime::component::ResourceTable);

#[verifier::external_type_specification]
#[verifier::external_body]
pub struct ExWasiCtx(wasmtime_wasi::WasiCtx);

#[verifier::external_type_specification]
#[verifier::external_body]
pub struct ExWasiHttpCtx(wasmtime_wasi_http::WasiHttpCtx);

/// Relies on `wasmtime::component::ResourceTable::new`: an empty handle
/// table.
#[verifier::external_body]
fn fresh_resource_table() -> wasmtime::component::ResourceTable {
    wasmtime::component::ResourceTable::new()
}

/// Relies on `wasmtime_wasi::WasiCtxBuilder::new` and its `build`: a
/// default-deny WASI context — no filesystem, environment or inherited
/// stream is granted unless the builder is told to grant it, and here it is
/// not.
#[verifier::external_body]
fn fresh_wasi_ctx() -> wasmtime_wasi::WasiCtx {
    wasmtime_wasi::WasiCtxBuilder::new().build()
}

/// Relies on `wasmtime_wasi_http::WasiHttpCtx::new`: a fresh outbound-HTTP
/// capability context.
#[verifier::external_body]
fn fresh_http_ctx() -> wasmtime_wasi_http::WasiHttpCtx {
    wasmtime_wasi_http::WasiHttpCtx::new()
}

/// The capability bundle granted to exactly one component instantiation.
pub struct State {
    /// Host-side resources exposed into the sandbox as opaque handles.
    pub table: wasmtime::component::ResourceTable,
    /// The generic-I/O capability context (default-deny).
    pub ctx: wasmtime_wasi::WasiCtx,
    /// The outbound-HTTP capability context; there is no inbound-server
    /// capability.
    pub http: wasmtime_wasi_http::WasiHttpCtx,
}

impl State {
    /// Fresh state: an empty handle table, a default-deny I/O context and a
    /// fresh HTTP context.
    pub fn new() -> State {
        State { table: fresh_resource_table(), ctx: fresh_wasi_ctx(), http: fresh_http_ctx() }
    }
}

} // verus!
