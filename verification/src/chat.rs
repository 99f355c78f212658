//! Chat-completion data shapes and provider endpoints.
//!
//! These are the primitive values the host forwards into a component's
//! `handle` entry point and reads back from it.  The shapes themselves carry
//! no behaviour; the one computation, [`get_chat_endpoint`], maps a provider
//! name to its completion endpoint.

use vstd::prelude::*;
use crate::text::str_eq;

verus! {

broadcast use vstd::string::group_string_axioms;

/// One message of a conversation: a role (`"system"`, `"user"` or
/// `"assistant"`) and its text content.
#[derive(Debug, Clone)]
pub struct ChatMessage {
    pub role: String,
    pub content: String,
}

/// Error returned by [`ChatMessageBuilder::build`] when a field was never
/// set.
#[derive(Debug, Clone, PartialEq, Eq, Structural)]
pub enum ChatMessageBuilderError {
    UninitializedField,
}

/// Step-by-step construction of a [`ChatMessage`]; both fields must be set
/// before [`ChatMessageBuilder::build`] succeeds.
#[derive(Debug, Clone)]
pub struct ChatMessageBuilder {
    pub role: Option<String>,
    pub content: Option<String>,
}

impl ChatMessageBuilder {
    /// Sets the role field.
    pub fn role(self, role: String) -> (r: ChatMessageBuilder)
        ensures
            r.role == Some(role),
            r.content == self.content,
    {
        ChatMessageBuilder { role: Some(role), content: self.content }
    }

    /// Sets the content field.
    pub fn content(self, content: String) -> (r: ChatMessageBuilder)
        ensures
            r.content == Some(content),
            r.role == self.role,
    {
        ChatMessageBuilder { role: self.role, content: Some(content) }
    }

    /// Produces the message once both fields are set; reports an
    /// uninitialized field otherwise.
    pub fn build(self) -> (r: Result<ChatMessage, ChatMessageBuilderError>)
        ensures
            self.role is Some && self.content is Some <==> r is Ok,
            r matches Ok(m) ==> Some(m.role) == self.role && Some(m.content) == self.content,
            r matches Err(e) ==> e == ChatMessageBuilderError::UninitializedField,
    {
        match (self.role, self.content) {
            (Some(role), Some(content)) => Ok(ChatMessage { role, content }),
            _ => Err(ChatMessageBuilderError::UninitializedField),
        }
    }
}

impl ChatMessage {
    /// An empty builder: no field set yet.
    pub fn builder() -> (r: ChatMessageBuilder)
        ensures
            r.role is None,
            r.content is None,
    {
        ChatMessageBuilder { role: None, content: None }
    }
}

/// One completion choice inside a provider response.
#[derive(Debug, Clone)]
pub struct ChatChoice {
    pub index: u32,
    pub message: ChatMessage,
    pub finish_reason: String,
}

/// Token accounting attached to a provider response.
#[derive(Debug, Clone)]
pub struct ChatUsage {
    pub completion_tokens: u32,
    pub prompt_tokens: u32,
    pub total_tokens: u32,
}

/// A provider's response to a completion request.
#[derive(Debug, Clone)]
pub struct ChatResponse {
    pub object: String,
    pub created: u64,
    pub choices: Vec<ChatChoice>,
    pub model: Option<String>,
    pub usage: Option<ChatUsage>,
}

/// The completion endpoint of each supported provider, `None` for any other
/// provider name.
pub fn get_chat_endpoint(provider: &str) -> (r: Option<String>)
    ensures
        r is Some <==> provider@ == "gemini"@ || provider@ == "openai"@,
        provider@ == "gemini"@ ==> (r matches Some(u) && u@
            == "https://generativelanguage.googleapis.com/v1beta/chat/completions"@),
        provider@ == "openai"@ ==> (r matches Some(u) && u@
            == "https://api.openai.com/v1/chat/completions"@),
{
    proof {
        reveal_strlit("gemini");
        reveal_strlit("openai");
        assert("gemini"@[0] != "openai"@[0]);
    }
    if str_eq(provider, "gemini") {
        Some("https://generativelanguage.googleapis.com/v1beta/chat/completions".to_owned())
    } else if str_eq(provider, "openai") {
        Some("https://api.openai.com/v1/chat/completions".to_owned())
    } else {
        None
    }
}

} // verus!
