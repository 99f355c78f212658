//! A host runtime for untrusted WebAssembly components.
//!
//! The crate configures a bounded (pooling) or on-demand execution engine,
//! loads component binaries, resolves callable entry points inside a
//! component's self-described export graph, and marshals primitive values
//! across the host/sandbox boundary.  Compilation and execution are done by
//! `wasmtime`; every decision around those calls (resource-limit arithmetic,
//! allocation-strategy fallback, export resolution, result pre-allocation,
//! error classification) is verified here.

pub mod chat;
pub mod component;
pub mod config;
pub mod limits;
pub mod resolver;
pub mod runtime;
pub mod state;
pub mod text;
pub mod value;
