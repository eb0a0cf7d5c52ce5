//! The engine client's own state and decisions: the handle map, the
//! requests it sends to the backend, and how it reads what comes back.
//! The HTTP exchange itself is made by the caller.

use vstd::prelude::*;
use vstd::string::*;

use crate::error::Error;
use crate::request::{GenerateRequest, RequestId};
use crate::response::{saturating_sum, GenerateResponse, GenerationStats};
use crate::text::{decimal, has_prefix, str_starts_with, u64_to_decimal};

verus! {

broadcast use vstd::std_specs::hash::group_hash_axioms;

/// Opaque identifier of a model loaded through one engine client.
#[derive(Debug, Clone, Copy, PartialEq, Eq, Hash, Structural)]
pub struct ModelHandle(pub u64);

/// Context length asked for when a model is loaded.
pub const LOAD_MAX_LENGTH: usize = 32768;

/// Body of a load request.
#[derive(Debug, Clone)]
pub struct LoadModelRequest {
    pub model_path: String,
    pub max_length: usize,
}

/// Body of the backend's answer to a load request.
#[derive(Debug, Clone)]
pub struct LoadModelResponse {
    pub model_id: String,
    pub status: String,
}

/// Body of a generation request.
#[derive(Debug, Clone)]
pub struct GenerateRequestPayload {
    pub model_id: String,
    pub prompt: String,
    pub max_tokens: Option<usize>,
    pub stream: bool,
}

/// Body of the backend's answer to a non-streaming generation request.
#[derive(Debug, Clone)]
pub struct GenerateResponsePayload {
    pub text: String,
    pub tokens_generated: usize,
    pub prompt_tokens: usize,
}

/// How one HTTP exchange with the backend ended.
#[derive(Debug, Clone)]
pub enum Exchange<T> {
    /// The request could not be sent or no answer came; the transport's words.
    Unreachable(String),
    /// The backend answered with a status outside 2xx.
    Rejected { status: String, body: String },
    /// A 2xx answer whose body could not be read; the parser's words.
    Malformed(String),
    /// A 2xx answer and its body.
    Received(T),
}

/// The diagnostic text kept for a failed exchange.
pub open spec fn failure_text<T>(x: Exchange<T>) -> Seq<char> {
    match x {
        Exchange::Unreachable(e) => "HTTP request failed: "@ + e@,
        Exchange::Rejected { status, body } => "Status "@ + status@ + ": "@ + body@,
        Exchange::Malformed(e) => "Failed to parse response: "@ + e@,
        Exchange::Received(_) => Seq::empty(),
    }
}

fn describe_failure<T>(x: &Exchange<T>) -> (r: String)
    ensures
        r@ == failure_text(*x),
{
    match x {
        Exchange::Unreachable(e) => {
            let mut r = String::from_str("HTTP request failed: ");
            r.append(e.as_str());
            r
        },
        Exchange::Rejected { status, body } => {
            let mut r = String::from_str("Status ");
            r.append(status.as_str());
            r.append(": ");
            r.append(body.as_str());
            r
        },
        Exchange::Malformed(e) => {
            let mut r = String::from_str("Failed to parse response: ");
            r.append(e.as_str());
            r
        },
        Exchange::Received(_) => String::new(),
    }
}

/// The text of an optional string.
pub open spec fn opt_text(o: Option<String>) -> Option<Seq<char>> {
    match o {
        Some(s) => Some(s@),
        None => None,
    }
}

/// What the `text` member of a JSON object holds, when the input is a JSON
/// object with a string there.
pub uninterp spec fn text_field_of(json: Seq<char>) -> Option<Seq<char>>;

/// What the member `field` of a JSON object holds, when the input is a JSON
/// object with a boolean there.
pub uninterp spec fn bool_field_of(json: Seq<char>, field: Seq<char>) -> Option<bool>;

/// Relies on `serde_json::from_str` into a `Value`, then `Value::get("text")`
/// and `Value::as_str`: the string member `text` of a JSON object.
#[verifier::external_body]
fn json_text_field(json: &str) -> (r: Option<String>)
    ensures
        opt_text(r) == text_field_of(json@),
{
    let value: serde_json::Value = serde_json::from_str(json).ok()?;
    let text = value.get("text")?.as_str()?;
    Some(text.to_string())
}

/// Relies on `serde_json::from_str` into a `Value`, then `Value::get(field)`
/// and `Value::as_bool`: the boolean member `field` of a JSON object.
#[verifier::external_body]
fn json_bool_field(json: &str, field: &str) -> (r: Option<bool>)
    ensures
        r == bool_field_of(json@, field@),
{
    let value: serde_json::Value = serde_json::from_str(json).ok()?;
    value.get(field)?.as_bool()
}

/// Position of the first line feed at or after `i`, or the end of `s`.
pub open spec fn line_end(s: Seq<char>, i: int) -> int
    decreases s.len() - i,
{
    if i >= s.len() || s[i] == '\n' {
        i
    } else {
        line_end(s, i + 1)
    }
}

/// The line that starts at `i`: up to the next line feed, without a
/// carriage return that stands right before that line feed.
pub open spec fn line_at(s: Seq<char>, i: int) -> Seq<char> {
    let e = line_end(s, i);
    let raw = s.subrange(i, e);
    if e < s.len() && raw.len() > 0 && raw.last() == '\r' {
        raw.drop_last()
    } else {
        raw
    }
}

/// The text of the first `data: ` line, from position `i` on, whose payload
/// is a JSON object with a string `text`.
pub open spec fn data_text_from(s: Seq<char>, i: int) -> Option<Seq<char>>
    decreases s.len() - i via data_text_from_decreases
{
    if i < 0 || i >= s.len() {
        None
    } else {
        let line = line_at(s, i);
        if has_prefix(line, "data: "@) && text_field_of(line.skip(6)) is Some {
            text_field_of(line.skip(6))
        } else if line_end(s, i) >= s.len() {
            None
        } else {
            data_text_from(s, line_end(s, i) + 1)
        }
    }
}

/// The text a piece of a backend event stream contributes: that of its
/// first usable `data: ` line, or nothing.
pub open spec fn chunk_text(s: Seq<char>) -> Seq<char> {
    match data_text_from(s, 0) {
        Some(t) => t,
        None => Seq::empty(),
    }
}

#[via_fn]
proof fn data_text_from_decreases(s: Seq<char>, i: int) {
    if 0 <= i < s.len() {
        lemma_line_end_bounds(s, i);
    }
}

pub(crate) proof fn lemma_line_end_bounds(s: Seq<char>, i: int)
    requires
        0 <= i <= s.len(),
    ensures
        i <= line_end(s, i) <= s.len(),
        line_end(s, i) < s.len() ==> s[line_end(s, i)] == '\n',
        forall|k: int| i <= k < line_end(s, i) ==> s[k] != '\n',
    decreases s.len() - i,
{
    if i < s.len() && s[i] != '\n' {
        lemma_line_end_bounds(s, i + 1);
    }
}

fn find_line_end(s: &str, len: usize, i: usize) -> (r: usize)
    requires
        len == s@.len(),
        i <= len,
    ensures
        r == line_end(s@, i as int),
{
    let mut j = i;
    while j < len && s.get_char(j) != '\n'
        invariant
            len == s@.len(),
            i <= j <= len,
            line_end(s@, i as int) == line_end(s@, j as int),
        decreases len - j,
    {
        j = j + 1;
    }
    j
}

/// The line that starts at `i`, and the position of the line feed that ends it.
pub(crate) fn read_line(s: &str, len: usize, i: usize) -> (r: (String, usize))
    requires
        len == s@.len(),
        i < len,
    ensures
        r.0@ == line_at(s@, i as int),
        r.1 == line_end(s@, i as int),
        i <= r.1 <= len,
{
    let e = find_line_end(s, len, i);
    proof {
        lemma_line_end_bounds(s@, i as int);
    }
    let line = if e < len && e > i && s.get_char(e - 1) == '\r' {
        s.substring_char(i, e - 1)
    } else {
        s.substring_char(i, e)
    };
    proof {
        if e < len && e > i && s@[e - 1] == '\r' {
            assert(s@.subrange(i as int, e as int).drop_last() =~= s@.subrange(i as int, e - 1));
        }
    }
    (String::from_str(line), e)
}

/// The text that one piece of a backend event stream contributes, read as
/// `parse_stream_chunk` reads it.
pub fn stream_chunk_text(s: &str) -> (r: String)
    ensures
        r@ == chunk_text(s@),
{
    let len = s.unicode_len();
    let mut i: usize = 0;
    while i < len
        invariant
            len == s@.len(),
            i <= len,
            data_text_from(s@, 0) == data_text_from(s@, i as int),
        decreases len - i,
    {
        let (line, e) = read_line(s, len, i);
        let line = line.as_str();
        if str_starts_with(line, "data: ") {
            let n = line.unicode_len();
            proof {
                reveal_strlit("data: ");
            }
            let payload = line.substring_char(6, n);
            assert(payload@ =~= line@.skip(6));
            match json_text_field(payload) {
                Some(t) => {
                    return t;
                },
                None => {},
            }
        }
        if e >= len {
            return String::new();
        }
        i = e + 1;
    }
    String::new()
}

/// The stream chunk for one piece of a backend event stream: an unfinished
/// result carrying the text of the first usable `data: ` line, or no text.
pub fn parse_stream_chunk(id: RequestId, model: &str, piece: &str) -> (r: GenerateResponse)
    ensures
        r.id == id,
        r.model@ == model@,
        r.text@ == chunk_text(piece@),
        !r.finished,
        r.finish_reason is None,
{
    GenerateResponse::new(id, String::from_str(model)).with_text(stream_chunk_text(piece))
}

/// Whether a health body reports the engine available: its member `field`
/// is `true`. A body that is not JSON, or lacks a boolean there, is unhealthy.
pub fn health_from_body(body: &str, field: &str) -> (r: bool)
    ensures
        r == (bool_field_of(body@, field@) == Some(true)),
{
    match json_bool_field(body, field) {
        Some(b) => b,
        None => false,
    }
}

/// The bookkeeping of a client of one backend's REST surface: where the
/// backend listens, and which model id each minted handle stands for.
pub struct HttpEngineClient {
    pub service_url: String,
    pub engine_name: String,
    pub loaded_models: std::collections::HashMap<u64, String>,
    pub next_handle: u64,
}

/// `base` followed by `path`.
pub open spec fn endpoint(base: Seq<char>, path: Seq<char>) -> Seq<char> {
    base + path
}

impl HttpEngineClient {
    /// Every handle in the map was minted before the next one, and handles start at 1.
    pub open spec fn wf(&self) -> bool {
        &&& self.next_handle >= 1
        &&& forall|h: u64| self.loaded_models@.contains_key(h) ==> 1 <= h < self.next_handle
    }

    /// The model id a handle stands for, if any.
    pub open spec fn model_of(&self, h: u64) -> Option<Seq<char>> {
        if self.loaded_models@.contains_key(h) {
            Some(self.loaded_models@[h]@)
        } else {
            None
        }
    }

    /// A client of the backend at `service_url` with no model loaded.
    pub fn new(service_url: &str, engine_name: &str) -> (r: HttpEngineClient)
        ensures
            r.wf(),
            r.service_url@ == service_url@,
            r.engine_name@ == engine_name@,
            r.loaded_models@ == Map::<u64, String>::empty(),
            r.next_handle == 1,
    {
        HttpEngineClient {
            service_url: String::from_str(service_url),
            engine_name: String::from_str(engine_name),
            loaded_models: std::collections::HashMap::new(),
            next_handle: 1,
        }
    }

    /// Mints a handle never handed out before.
    pub fn next_model_handle(&mut self) -> (r: ModelHandle)
        requires
            old(self).wf(),
            old(self).next_handle < u64::MAX,
        ensures
            final(self).wf(),
            r.0 == old(self).next_handle,
            final(self).next_handle == old(self).next_handle + 1,
            final(self).loaded_models@ == old(self).loaded_models@,
            final(self).service_url@ == old(self).service_url@,
            final(self).engine_name@ == old(self).engine_name@,
    {
        let h = self.next_handle;
        self.next_handle = h + 1;
        ModelHandle(h)
    }

    /// The model id a handle stands for; a local lookup.
    pub fn get_model_id(&self, handle: ModelHandle) -> (r: Option<String>)
        ensures
            opt_text(r) == self.model_of(handle.0),
    {
        match self.loaded_models.get(&handle.0) {
            Some(id) => Some(id.clone()),
            None => None,
        }
    }

    fn url(&self, path: &str) -> (r: String)
        ensures
            r@ == endpoint(self.service_url@, path@),
    {
        let mut r = self.service_url.clone();
        r.append(path);
        r
    }

    /// Where load requests go.
    pub fn load_url(&self) -> (r: String)
        ensures
            r@ == endpoint(self.service_url@, "/models/load"@),
    {
        self.url("/models/load")
    }

    /// Where generation requests go, streaming or not.
    pub fn generate_url(&self) -> (r: String)
        ensures
            r@ == endpoint(self.service_url@, "/generate"@),
    {
        self.url("/generate")
    }

    /// Where the health probe goes.
    pub fn health_url(&self) -> (r: String)
        ensures
            r@ == endpoint(self.service_url@, "/health"@),
    {
        self.url("/health")
    }

    /// Where the unload request for a model id goes.
    pub fn unload_url(&self, model_id: &str) -> (r: String)
        ensures
            r@ == endpoint(self.service_url@, "/models/unload?model_id="@) + model_id@,
    {
        let mut r = self.url("/models/unload?model_id=");
        r.append(model_id);
        r
    }

    /// The body of a load request for a model path.
    pub fn load_request(path: &str) -> (r: LoadModelRequest)
        ensures
            r.model_path@ == path@,
            r.max_length == LOAD_MAX_LENGTH,
    {
        LoadModelRequest { model_path: String::from_str(path), max_length: LOAD_MAX_LENGTH }
    }

    /// Takes the outcome of a load request. A received answer mints a fresh
    /// handle for the reported model id; any failure is `ModelLoadFailed`
    /// with the diagnostics kept, and changes nothing.
    pub fn finish_load(&mut self, outcome: Exchange<LoadModelResponse>) -> (r: Result<ModelHandle, Error>)
        requires
            old(self).wf(),
            old(self).next_handle < u64::MAX,
        ensures
            final(self).wf(),
            final(self).service_url@ == old(self).service_url@,
            final(self).engine_name@ == old(self).engine_name@,
            match outcome {
                Exchange::Received(resp) => {
                    &&& r == Ok::<ModelHandle, Error>(ModelHandle(old(self).next_handle))
                    &&& !old(self).loaded_models@.contains_key(old(self).next_handle)
                    &&& final(self).loaded_models@ == old(self).loaded_models@.insert(old(self).next_handle, resp.model_id)
                    &&& final(self).next_handle == old(self).next_handle + 1
                },
                _ => {
                    &&& r matches Err(Error::ModelLoadFailed(m)) && m@ == failure_text(outcome)
                    &&& final(self).loaded_models@ == old(self).loaded_models@
                    &&& final(self).next_handle == old(self).next_handle
                },
            },
    {
        match outcome {
            Exchange::Received(resp) => {
                let h = self.next_model_handle();
                self.loaded_models.insert(h.0, resp.model_id);
                Ok(h)
            },
            _ => Err(Error::ModelLoadFailed(describe_failure(&outcome))),
        }
    }

    /// The model id to unload for a handle, or `ModelNotFound` when the
    /// handle is not in the map.
    pub fn unload_target(&self, handle: ModelHandle) -> (r: Result<String, Error>)
        ensures
            match self.model_of(handle.0) {
                Some(id) => r matches Ok(s) && s@ == id,
                None => r matches Err(Error::ModelNotFound(m))
                    && m@ == "Handle "@ + decimal(handle.0 as nat) + " not found"@,
            },
    {
        match self.loaded_models.get(&handle.0) {
            Some(id) => Ok(id.clone()),
            None => {
                let mut m = String::from_str("Handle ");
                let n = u64_to_decimal(handle.0);
                m.append(n.as_str());
                m.append(" not found");
                Err(Error::ModelNotFound(m))
            },
        }
    }

    /// Takes the outcome of an unload request: the mapping goes only once
    /// the backend has accepted; a failure is `InferenceFailed` and changes
    /// nothing.
    pub fn finish_unload(&mut self, handle: ModelHandle, outcome: Exchange<()>) -> (r: Result<(), Error>)
        requires
            old(self).wf(),
        ensures
            final(self).wf(),
            final(self).next_handle == old(self).next_handle,
            final(self).service_url@ == old(self).service_url@,
            final(self).engine_name@ == old(self).engine_name@,
            match outcome {
                Exchange::Received(_) => {
                    &&& r is Ok
                    &&& final(self).loaded_models@ == old(self).loaded_models@.remove(handle.0)
                },
                _ => {
                    &&& r matches Err(Error::InferenceFailed(m)) && m@ == failure_text(outcome)
                    &&& final(self).loaded_models@ == old(self).loaded_models@
                },
            },
    {
        match outcome {
            Exchange::Received(_) => {
                self.loaded_models.remove(&handle.0);
                Ok(())
            },
            _ => Err(Error::InferenceFailed(describe_failure(&outcome))),
        }
    }

    /// The body of a generation request.
    pub fn generate_payload(request: &GenerateRequest, stream: bool) -> (r: GenerateRequestPayload)
        ensures
            r.model_id@ == request.model@,
            r.prompt@ == request.prompt@,
            r.max_tokens == request.options.max_tokens,
            r.stream == stream,
    {
        GenerateRequestPayload {
            model_id: request.model.clone(),
            prompt: request.prompt.clone(),
            max_tokens: request.options.max_tokens,
            stream,
        }
    }

    /// Takes the outcome of a non-streaming generation request: the
    /// backend's text as a finished result, or `InferenceFailed`.
    pub fn finish_generate(request: &GenerateRequest, outcome: Exchange<GenerateResponsePayload>) -> (r: Result<GenerateResponse, Error>)
        ensures
            match outcome {
                Exchange::Received(p) => r matches Ok(resp) && {
                    &&& resp.id == request.id
                    &&& resp.model@ == request.model@
                    &&& resp.text@ == p.text@
                    &&& resp.stats.prompt_tokens == p.prompt_tokens
                    &&& resp.stats.generated_tokens == p.tokens_generated
                    &&& resp.stats.total_tokens == saturating_sum(p.prompt_tokens, p.tokens_generated)
                    &&& resp.finished
                },
                _ => r matches Err(Error::InferenceFailed(m)) && m@ == failure_text(outcome),
            },
    {
        match outcome {
            Exchange::Received(p) => {
                let stats = GenerationStats::with_counts(p.prompt_tokens, p.tokens_generated);
                let resp = GenerateResponse::new(request.id, request.model.clone())
                    .with_text(p.text)
                    .with_stats(stats)
                    .finish(String::from_str("stop"));
                Ok(resp)
            },
            _ => Err(Error::InferenceFailed(describe_failure(&outcome))),
        }
    }

    /// The error for a generation request, streaming or not, that failed
    /// before any text came: `InferenceFailed` with the diagnostics kept.
    pub fn request_failure<T>(outcome: Exchange<T>) -> (r: Error)
        requires
            !(outcome is Received),
        ensures
            r matches Error::InferenceFailed(m) && m@ == failure_text(outcome),
    {
        Error::InferenceFailed(describe_failure(&outcome))
    }
}

} // verus!
