//! Canonical request values: chat messages and generation requests.

use vstd::prelude::*;
use vstd::string::*;

verus! {

/// Identifier of one inbound generation request.
#[derive(Debug, Clone, Copy, PartialEq, Eq, Hash, Structural)]
pub struct RequestId(pub u64);

/// Identifier of one vocabulary token.
#[derive(Debug, Clone, Copy, PartialEq, Eq, Hash, Structural)]
pub struct TokenId(pub u32);

/// Author of one chat message.
#[derive(Debug, Clone, Copy, PartialEq, Eq, Structural)]
pub enum ChatRole {
    System,
    User,
    Assistant,
    Tool,
}

/// Lower-case wire name of a role.
pub open spec fn role_wire_name(r: ChatRole) -> Seq<char> {
    match r {
        ChatRole::System => "system"@,
        ChatRole::User => "user"@,
        ChatRole::Assistant => "assistant"@,
        ChatRole::Tool => "tool"@,
    }
}

/// Capitalised label of a role, as used by the generic chat template.
pub open spec fn role_label(r: ChatRole) -> Seq<char> {
    match r {
        ChatRole::System => "System"@,
        ChatRole::User => "User"@,
        ChatRole::Assistant => "Assistant"@,
        ChatRole::Tool => "Tool"@,
    }
}

impl ChatRole {
    /// Lower-case wire name (`system`, `user`, `assistant`, `tool`).
    pub fn wire_name(&self) -> (r: &'static str)
        ensures
            r@ == role_wire_name(*self),
    {
        match self {
            ChatRole::System => "system",
            ChatRole::User => "user",
            ChatRole::Assistant => "assistant",
            ChatRole::Tool => "tool",
        }
    }

    /// Capitalised label (`System`, `User`, ...).
    pub fn label(&self) -> (r: &'static str)
        ensures
            r@ == role_label(*self),
    {
        match self {
            ChatRole::System => "System",
            ChatRole::User => "User",
            ChatRole::Assistant => "Assistant",
            ChatRole::Tool => "Tool",
        }
    }
}

/// One message of a chat conversation.
#[derive(Debug, Clone)]
pub struct ChatMessage {
    pub role: ChatRole,
    pub content: String,
    pub images: Option<Vec<String>>,
}

impl ChatMessage {
    /// A system message with the given content.
    pub fn system(content: &str) -> (r: ChatMessage)
        ensures
            r.role == ChatRole::System,
            r.content@ == content@,
            r.images is None,
    {
        ChatMessage { role: ChatRole::System, content: String::from_str(content), images: None }
    }

    /// A user message with the given content.
    pub fn user(content: &str) -> (r: ChatMessage)
        ensures
            r.role == ChatRole::User,
            r.content@ == content@,
            r.images is None,
    {
        ChatMessage { role: ChatRole::User, content: String::from_str(content), images: None }
    }

    /// An assistant message with the given content.
    pub fn assistant(content: &str) -> (r: ChatMessage)
        ensures
            r.role == ChatRole::Assistant,
            r.content@ == content@,
            r.images is None,
    {
        ChatMessage { role: ChatRole::Assistant, content: String::from_str(content), images: None }
    }
}

/// Options of one generation request that the gateway forwards to the engine.
#[derive(Debug, Clone, Copy, PartialEq, Eq, Structural)]
pub struct GenerateOptions {
    pub stream: bool,
    pub max_tokens: Option<usize>,
    pub return_logprobs: bool,
    pub echo_prompt: bool,
}

impl GenerateOptions {
    /// No streaming, no token limit, no echo, no log-probabilities.
    pub fn new() -> (r: GenerateOptions)
        ensures
            !r.stream && r.max_tokens is None && !r.return_logprobs && !r.echo_prompt,
    {
        GenerateOptions { stream: false, max_tokens: None, return_logprobs: false, echo_prompt: false }
    }
}

/// A canonical generation request; built once per inbound call.
#[derive(Debug, Clone)]
pub struct GenerateRequest {
    pub id: RequestId,
    pub model: String,
    pub prompt: String,
    pub options: GenerateOptions,
}

impl GenerateRequest {
    /// A request with default options.
    pub fn new(id: u64, model: String, prompt: String) -> (r: GenerateRequest)
        ensures
            r.id == RequestId(id),
            r.model@ == model@,
            r.prompt@ == prompt@,
            !r.options.stream && r.options.max_tokens is None,
            !r.options.return_logprobs && !r.options.echo_prompt,
    {
        GenerateRequest { id: RequestId(id), model, prompt, options: GenerateOptions::new() }
    }

    /// The same request with the given streaming flag.
    pub fn with_stream(self, stream: bool) -> (r: GenerateRequest)
        ensures
            r.id == self.id,
            r.model@ == self.model@,
            r.prompt@ == self.prompt@,
            r.options == (GenerateOptions { stream, ..self.options }),
    {
        let mut r = self;
        r.options.stream = stream;
        r
    }

    /// The same request with the given token limit.
    pub fn with_max_tokens(self, max_tokens: usize) -> (r: GenerateRequest)
        ensures
            r.id == self.id,
            r.model@ == self.model@,
            r.prompt@ == self.prompt@,
            r.options == (GenerateOptions { max_tokens: Some(max_tokens), ..self.options }),
    {
        let mut r = self;
        r.options.max_tokens = Some(max_tokens);
        r
    }
}

/// A canonical chat request; built once per inbound call.
#[derive(Debug, Clone)]
pub struct ChatRequest {
    pub id: RequestId,
    pub model: String,
    pub messages: Vec<ChatMessage>,
    pub options: GenerateOptions,
}

impl ChatRequest {
    /// A chat request with default options.
    pub fn new(id: u64, model: String, messages: Vec<ChatMessage>) -> (r: ChatRequest)
        ensures
            r.id == RequestId(id),
            r.model@ == model@,
            r.messages@ == messages@,
            !r.options.stream && r.options.max_tokens is None,
            !r.options.return_logprobs && !r.options.echo_prompt,
    {
        ChatRequest { id: RequestId(id), model, messages, options: GenerateOptions::new() }
    }

    /// The conversation as one prompt, `Role: content` lines separated by
    /// blank lines.
    pub fn to_prompt(&self) -> (r: String)
        ensures
            r@ == crate::templates::simple_prompt(self.messages@),
    {
        crate::templates::messages_to_prompt(self.messages.as_slice())
    }
}

} // verus!
