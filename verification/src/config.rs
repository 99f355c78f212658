//! Configuration consumed from outside the runtime core.
//!
//! A small set of scalar knobs: where the component binary lives, which
//! namespace and entry point to resolve, and the provider, credential and
//! model strings forwarded as invocation arguments.  Loading these from disk
//! is the embedder's concern; the runtime only carries the values.

use vstd::prelude::*;

verus! {

/// Everything a chat invocation needs to know.
#[derive(Debug, Clone)]
pub struct ChatConfig {
    pub component_wasm_path: String,
    pub component_handler: String,
    pub component_handle_function: String,
    pub provider: String,
    pub api_key: String,
    pub model: String,
}

/// Top-level configuration: for now only the chat section.
#[derive(Debug, Clone)]
pub struct HostConfig {
    pub chat: ChatConfig,
}

} // verus!
