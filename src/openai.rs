//! The OpenAI-compatible backend surface: its completion values, and how an
//! engine that speaks it maps them onto the canonical request and response.

use vstd::prelude::*;
use vstd::string::*;

use crate::error::Error;
use crate::request::{role_wire_name, ChatMessage as CanonicalMessage, GenerateRequest, RequestId};
use crate::response::{saturating_sum, GenerateResponse, GenerationStats};
use crate::text::{has_prefix, str_starts_with};
use crate::client::{lemma_line_end_bounds, line_at, line_end, read_line};

verus! {

/// Token accounting of a completion.
#[derive(Debug, Clone, Copy, PartialEq, Eq, Structural)]
pub struct Usage {
    pub prompt_tokens: usize,
    pub completion_tokens: usize,
    pub total_tokens: usize,
}

/// One choice of a text completion.
#[derive(Debug, Clone)]
pub struct CompletionChoice {
    pub text: String,
    pub index: usize,
    pub finish_reason: Option<String>,
}

/// A text completion.
#[derive(Debug, Clone)]
pub struct CompletionResponse {
    pub id: String,
    pub object: String,
    pub created: u64,
    pub model: String,
    pub choices: Vec<CompletionChoice>,
    pub usage: Usage,
}

/// One choice of a streamed text completion.
#[derive(Debug, Clone)]
pub struct CompletionChoiceChunk {
    pub text: String,
    pub index: usize,
    pub finish_reason: Option<String>,
}

/// One frame of a streamed text completion.
#[derive(Debug, Clone)]
pub struct CompletionChunk {
    pub id: String,
    pub object: String,
    pub created: u64,
    pub model: String,
    pub choices: Vec<CompletionChoiceChunk>,
}

/// A chat message in the OpenAI shape: the role as its wire name.
#[derive(Debug, Clone)]
pub struct ChatMessage {
    pub role: String,
    pub content: String,
}

/// One choice of a chat completion.
#[derive(Debug, Clone)]
pub struct ChatCompletionChoice {
    pub index: usize,
    pub message: ChatMessage,
    pub finish_reason: Option<String>,
}

/// A chat completion.
#[derive(Debug, Clone)]
pub struct ChatCompletionResponse {
    pub id: String,
    pub object: String,
    pub created: u64,
    pub model: String,
    pub choices: Vec<ChatCompletionChoice>,
    pub usage: Usage,
}

/// The canonical result of a text completion: the first choice's text (none
/// without a choice), the usage counts, finished, for the first choice's reason.
pub fn completion_to_response(request: &GenerateRequest, resp: &CompletionResponse) -> (r: GenerateResponse)
    ensures
        r.id == request.id,
        r.model@ == request.model@,
        r.text@ == (if resp.choices@.len() > 0 { resp.choices@[0].text@ } else { Seq::empty() }),
        r.stats.prompt_tokens == resp.usage.prompt_tokens,
        r.stats.generated_tokens == resp.usage.completion_tokens,
        r.stats.total_tokens == saturating_sum(resp.usage.prompt_tokens, resp.usage.completion_tokens),
        r.finished,
        r.finish_reason == (if resp.choices@.len() > 0 { resp.choices@[0].finish_reason } else { None::<String> }),
{
    let stats = GenerationStats::with_counts(resp.usage.prompt_tokens, resp.usage.completion_tokens);
    let (text, reason) = if resp.choices.len() > 0 {
        (resp.choices[0].text.clone(), resp.choices[0].finish_reason.clone())
    } else {
        (String::new(), None)
    };
    GenerateResponse {
        id: request.id,
        model: request.model.clone(),
        text,
        stats,
        finished: true,
        finish_reason: reason,
    }
}

/// The canonical stream chunk for a streamed completion frame: the first
/// choice's text, finished exactly when that choice carries a reason.
pub fn chunk_to_response(id: RequestId, model: &str, chunk: &CompletionChunk) -> (r: GenerateResponse)
    ensures
        r.id == id,
        r.model@ == model@,
        r.text@ == (if chunk.choices@.len() > 0 { chunk.choices@[0].text@ } else { Seq::empty() }),
        r.finish_reason == (if chunk.choices@.len() > 0 { chunk.choices@[0].finish_reason } else { None::<String> }),
        r.finished == r.finish_reason is Some,
{
    let (text, reason) = if chunk.choices.len() > 0 {
        (chunk.choices[0].text.clone(), chunk.choices[0].finish_reason.clone())
    } else {
        (String::new(), None)
    };
    let finished = reason.is_some();
    GenerateResponse {
        id,
        model: String::from_str(model),
        text,
        stats: GenerationStats::new(0, 0),
        finished,
        finish_reason: reason,
    }
}

/// Canonical messages in the OpenAI shape, in order, roles by wire name.
pub fn to_openai_messages(messages: &[CanonicalMessage]) -> (r: Vec<ChatMessage>)
    ensures
        r@.len() == messages@.len(),
        forall|i: int| 0 <= i < r@.len() ==> {
            &&& (#[trigger] r@[i]).role@ == role_wire_name(messages@[i].role)
            &&& r@[i].content@ == messages@[i].content@
        },
{
    let mut out: Vec<ChatMessage> = Vec::new();
    let mut i: usize = 0;
    while i < messages.len()
        invariant
            i <= messages@.len(),
            out@.len() == i,
            forall|k: int| 0 <= k < i ==> {
                &&& (#[trigger] out@[k]).role@ == role_wire_name(messages@[k].role)
                &&& out@[k].content@ == messages@[k].content@
            },
        decreases messages@.len() - i,
    {
        let m = &messages[i];
        out.push(ChatMessage { role: String::from_str(m.role.wire_name()), content: m.content.clone() });
        i = i + 1;
    }
    out
}

/// What one piece of a completion event stream holds.
#[derive(Debug, Clone)]
pub enum SsePayload {
    /// No `data: ` line.
    Nothing,
    /// The end marker `data: [DONE]`.
    Done,
    /// The payload of the first `data: ` line.
    Data(String),
}

/// The payload of the first `data: ` line at or after position `i`.
pub open spec fn first_data_from(s: Seq<char>, i: int) -> Option<Seq<char>>
    decreases s.len() - i via first_data_from_decreases
{
    if i < 0 || i >= s.len() {
        None
    } else if has_prefix(line_at(s, i), "data: "@) {
        Some(line_at(s, i).skip(6))
    } else if line_end(s, i) >= s.len() {
        None
    } else {
        first_data_from(s, line_end(s, i) + 1)
    }
}

#[via_fn]
proof fn first_data_from_decreases(s: Seq<char>, i: int) {
    if 0 <= i < s.len() {
        lemma_line_end_bounds(s, i);
    }
}

/// The payload of the first `data: ` line of a piece of an event stream.
pub fn first_data_line(s: &str) -> (r: Option<String>)
    ensures
        match r {
            Some(d) => first_data_from(s@, 0) == Some(d@),
            None => first_data_from(s@, 0) is None,
        },
{
    let len = s.unicode_len();
    let mut i: usize = 0;
    while i < len
        invariant
            len == s@.len(),
            i <= len,
            first_data_from(s@, 0) == first_data_from(s@, i as int),
        decreases len - i,
    {
        let (line, e) = read_line(s, len, i);
        let line = line.as_str();
        if str_starts_with(line, "data: ") {
            let n = line.unicode_len();
            proof {
                reveal_strlit("data: ");
            }
            let payload = line.substring_char(6, n);
            assert(payload@ =~= line@.skip(6));
            return Some(String::from_str(payload));
        }
        if e >= len {
            return None;
        }
        i = e + 1;
    }
    None
}

/// The end marker of a completion event stream.
pub open spec fn is_done_marker(d: Seq<char>) -> bool {
    d == "[DONE]"@
}

/// Reads a piece of a completion event stream: nothing, the end marker, or
/// the payload to decode.
pub fn sse_payload(s: &str) -> (r: SsePayload)
    ensures
        match first_data_from(s@, 0) {
            None => r is Nothing,
            Some(d) => if is_done_marker(d) { r is Done } else { r matches SsePayload::Data(x) && x@ == d },
        },
{
    match first_data_line(s) {
        None => SsePayload::Nothing,
        Some(d) => {
            let done = String::from_str("[DONE]");
            if d == done {
                SsePayload::Done
            } else {
                SsePayload::Data(d)
            }
        },
    }
}

/// Takes the decoding of a completion frame: the frame as a stream chunk,
/// or `ModelLoadFailed` with the decoder's words.
pub fn decoded_chunk(id: RequestId, model: &str, decoded: Result<CompletionChunk, String>) -> (r: Result<GenerateResponse, Error>)
    ensures
        match decoded {
            Ok(chunk) => r matches Ok(resp) && resp.id == id && resp.model@ == model@
                && resp.text@ == (if chunk.choices@.len() > 0 { chunk.choices@[0].text@ } else { Seq::empty() }),
            Err(e) => r matches Err(Error::ModelLoadFailed(m)) && m@ == "Failed to parse chunk: "@ + e@,
        },
{
    match decoded {
        Ok(chunk) => Ok(chunk_to_response(id, model, &chunk)),
        Err(e) => {
            let mut m = String::from_str("Failed to parse chunk: ");
            m.append(e.as_str());
            Err(Error::ModelLoadFailed(m))
        },
    }
}

} // verus!
