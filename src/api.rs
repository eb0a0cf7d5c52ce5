//! The values that travel on the inbound wire, one struct per JSON shape of
//! the Ollama and OpenAI dialects. They carry no behaviour; `gateway` builds
//! them.

use vstd::prelude::*;

use crate::request::ChatMessage;

verus! {

/// Ollama `/api/generate` answer, or one frame of its stream.
#[derive(Debug, Clone)]
pub struct GenerateApiResponse {
    pub model: String,
    pub response: String,
    pub done: bool,
    pub total_duration: Option<u64>,
    pub eval_count: Option<usize>,
}

/// Ollama `/api/chat` answer, or one frame of its stream.
#[derive(Debug, Clone)]
pub struct ChatApiResponse {
    pub model: String,
    pub message: ChatMessage,
    pub done: bool,
    pub total_duration: Option<u64>,
    pub eval_count: Option<usize>,
}

/// One entry of `/api/tags`.
#[derive(Debug, Clone)]
pub struct ModelInfo {
    pub name: String,
    pub size: u64,
    pub digest: String,
}

/// `/api/tags` answer.
#[derive(Debug, Clone)]
pub struct TagsResponse {
    pub models: Vec<ModelInfo>,
}

/// `/api/show` request.
#[derive(Debug, Clone)]
pub struct ShowApiRequest {
    pub model: String,
    pub verbose: bool,
}

/// Descriptive details of a served model.
#[derive(Debug, Clone)]
pub struct ModelDetails {
    pub parent_model: String,
    pub format: String,
    pub family: String,
    pub parameter_size: String,
    pub quantization_level: String,
}

/// `/api/show` answer.
#[derive(Debug, Clone)]
pub struct ShowApiResponse {
    pub modelfile: String,
    pub parameters: String,
    pub template: Option<String>,
    pub details: ModelDetails,
}

/// `/api/pull` request.
#[derive(Debug, Clone)]
pub struct PullApiRequest {
    pub model: String,
    pub stream: bool,
}

/// `/api/pull` answer, or one progress frame of its stream.
#[derive(Debug, Clone)]
pub struct PullApiResponse {
    pub status: String,
    pub digest: Option<String>,
    pub total: Option<u64>,
    pub completed: Option<u64>,
}

/// OpenAI chat completion answer.
#[derive(Debug, Clone)]
pub struct OpenAIChatResponse {
    pub id: String,
    pub object: String,
    pub created: u64,
    pub model: String,
    pub choices: Vec<OpenAIChoice>,
    pub usage: Option<OpenAIUsage>,
}

/// One choice of an OpenAI chat completion.
#[derive(Debug, Clone)]
pub struct OpenAIChoice {
    pub index: usize,
    pub message: ChatMessage,
    pub finish_reason: String,
}

/// Token accounting of an OpenAI chat completion.
#[derive(Debug, Clone, Copy, PartialEq, Eq, Structural)]
pub struct OpenAIUsage {
    pub prompt_tokens: usize,
    pub completion_tokens: usize,
    pub total_tokens: usize,
}

/// One frame of a streamed OpenAI chat completion.
#[derive(Debug, Clone)]
pub struct OpenAIChatChunk {
    pub id: String,
    pub object: String,
    pub created: u64,
    pub model: String,
    pub choices: Vec<OpenAIChunkChoice>,
}

/// The single choice of a streamed OpenAI frame.
#[derive(Debug, Clone)]
pub struct OpenAIChunkChoice {
    pub index: usize,
    pub delta: OpenAIDelta,
    pub finish_reason: Option<String>,
}

/// What a streamed OpenAI frame adds to the message.
#[derive(Debug, Clone)]
pub struct OpenAIDelta {
    pub role: Option<String>,
    pub content: Option<String>,
}

/// `/api/version` answer.
#[derive(Debug, Clone)]
pub struct VersionResponse {
    pub version: String,
}

/// One running model of `/api/ps`.
#[derive(Debug, Clone)]
pub struct ProcessInfo {
    pub name: String,
    pub model: String,
    pub size: u64,
    pub digest: Option<String>,
    pub details: ModelDetails,
    pub expires_at: Option<String>,
    pub size_vram: Option<u64>,
}

/// `/api/ps` answer.
#[derive(Debug, Clone)]
pub struct PsResponse {
    pub models: Vec<ProcessInfo>,
}

} // verus!
