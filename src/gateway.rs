//! The request gateway's logic: one canonical request per inbound dialect,
//! the dialect's reply for a finished generation, its error envelope, and
//! the per-stream state machine that turns backend chunks into frames.

use vstd::prelude::*;
use vstd::string::*;

use crate::api::{
    ChatApiResponse, GenerateApiResponse, OpenAIChatChunk, OpenAIChatResponse, OpenAIChoice,
    OpenAIChunkChoice, OpenAIDelta, OpenAIUsage,
};
use crate::error::{error_detail, error_heading, status_of, Error};
use crate::request::{ChatMessage, ChatRole, GenerateRequest, RequestId};
use crate::response::GenerateResponse;
use crate::templates::{get_template_for_model, lower_of, messages_to_prompt, simple_prompt, ChatTemplate, template_for};
use crate::text::{hex, u64_to_hex};

verus! {

/// The three inbound wire dialects.
#[derive(Debug, Clone, Copy, PartialEq, Eq, Structural)]
pub enum Dialect {
    OllamaGenerate,
    OllamaChat,
    OpenAIChat,
}

/// Streaming is on unless the request turned it off.
pub fn default_stream() -> (r: bool)
    ensures
        r,
{
    true
}

/// The canonical request for a prompt: request id 0, the given streaming
/// flag and token limit.
pub fn canonical_request(model: &str, prompt: String, stream: bool, max_tokens: Option<usize>) -> (r: GenerateRequest)
    ensures
        r.id == RequestId(0),
        r.model@ == model@,
        r.prompt@ == prompt@,
        r.options.stream == stream,
        r.options.max_tokens == max_tokens,
        !r.options.return_logprobs && !r.options.echo_prompt,
{
    let mut r = GenerateRequest::new(0, String::from_str(model), prompt);
    r.options.stream = stream;
    r.options.max_tokens = max_tokens;
    r
}

/// The prompt an Ollama chat request is rendered into: the template of the
/// model's family.
pub fn chat_prompt(model: &str, messages: &[ChatMessage]) -> (r: String)
    ensures
        r@ == template_for(lower_of(model@)).rendered(messages@),
{
    let template = get_template_for_model(model);
    template.apply(messages)
}

/// The prompt an OpenAI chat request is rendered into: the generic
/// `Role: content` join.
pub fn openai_prompt(messages: &[ChatMessage]) -> (r: String)
    ensures
        r@ == simple_prompt(messages@),
{
    messages_to_prompt(messages)
}

/// The id of an OpenAI completion made at `nanos` nanoseconds after the epoch.
pub fn completion_id(nanos: u64) -> (r: String)
    ensures
        r@ == "chatcmpl-"@ + hex(nanos as nat),
{
    let mut r = String::from_str("chatcmpl-");
    let h = u64_to_hex(nanos);
    r.append(h.as_str());
    r
}

/// Ollama generate reply for a finished generation; `total_duration` is in
/// nanoseconds.
pub fn generate_reply(model: &str, resp: &GenerateResponse, total_duration: u64) -> (r: GenerateApiResponse)
    ensures
        r.model@ == model@,
        r.response@ == resp.text@,
        r.done,
        r.total_duration == Some(total_duration),
        r.eval_count is None,
{
    GenerateApiResponse {
        model: String::from_str(model),
        response: resp.text.clone(),
        done: true,
        total_duration: Some(total_duration),
        eval_count: None,
    }
}

/// Ollama chat reply for a finished generation: the text as an assistant
/// message; `total_duration` is in nanoseconds.
pub fn chat_reply(model: &str, resp: &GenerateResponse, total_duration: u64) -> (r: ChatApiResponse)
    ensures
        r.model@ == model@,
        r.message.role == ChatRole::Assistant,
        r.message.content@ == resp.text@,
        r.done,
        r.total_duration == Some(total_duration),
        r.eval_count is None,
{
    ChatApiResponse {
        model: String::from_str(model),
        message: ChatMessage::assistant(resp.text.as_str()),
        done: true,
        total_duration: Some(total_duration),
        eval_count: None,
    }
}

/// OpenAI chat completion for a finished generation: one choice holding
/// the text as an assistant message, finished for `stop`.
pub fn openai_reply(id: &str, created: u64, model: &str, resp: &GenerateResponse) -> (r: OpenAIChatResponse)
    ensures
        r.id@ == id@,
        r.object@ == "chat.completion"@,
        r.created == created,
        r.model@ == model@,
        r.choices@.len() == 1,
        r.choices@[0].index == 0,
        r.choices@[0].message.role == ChatRole::Assistant,
        r.choices@[0].message.content@ == resp.text@,
        r.choices@[0].finish_reason@ == "stop"@,
        r.usage == Some(OpenAIUsage { prompt_tokens: 0, completion_tokens: 0, total_tokens: 0 }),
{
    let choice = OpenAIChoice {
        index: 0,
        message: ChatMessage::assistant(resp.text.as_str()),
        finish_reason: String::from_str("stop"),
    };
    let mut choices: Vec<OpenAIChoice> = Vec::new();
    choices.push(choice);
    OpenAIChatResponse {
        id: String::from_str(id),
        object: String::from_str("chat.completion"),
        created,
        model: String::from_str(model),
        choices,
        usage: Some(OpenAIUsage { prompt_tokens: 0, completion_tokens: 0, total_tokens: 0 }),
    }
}

/// The JSON error envelope of a dialect.
#[derive(Debug, Clone)]
pub enum ErrorBody {
    /// `{"error": message}`, for the Ollama dialects.
    Flat { error: String },
    /// `{"error": {"message": message, "type": kind}}`, for the OpenAI dialect.
    Nested { message: String, kind: String },
}

/// An HTTP error answer: status and envelope.
#[derive(Debug, Clone)]
pub struct ErrorReply {
    pub status: u16,
    pub body: ErrorBody,
}

/// The words that introduce an engine failure in each dialect.
pub open spec fn failure_prefix(d: Dialect) -> Seq<char> {
    match d {
        Dialect::OllamaGenerate => "Generation failed: "@,
        Dialect::OllamaChat => "Chat failed: "@,
        Dialect::OpenAIChat => "Generation failed: "@,
    }
}

/// The message an error answer carries in dialect `d`.
pub open spec fn failure_message(d: Dialect, e: Error) -> Seq<char> {
    failure_prefix(d) + error_heading(e) + error_detail(e)
}

/// The error answer for an engine failure: the status that fits the error
/// (404 unknown model, 503 unreachable engine, 500 otherwise), a flat
/// envelope for the Ollama dialects and a nested one of type
/// `server_error` for the OpenAI dialect.
pub fn error_reply(dialect: Dialect, e: &Error) -> (r: ErrorReply)
    ensures
        r.status == status_of(*e),
        match dialect {
            Dialect::OpenAIChat => r.body matches ErrorBody::Nested { message, kind }
                && message@ == failure_message(dialect, *e) && kind@ == "server_error"@,
            _ => r.body matches ErrorBody::Flat { error } && error@ == failure_message(dialect, *e),
        },
{
    let prefix = match dialect {
        Dialect::OllamaGenerate => "Generation failed: ",
        Dialect::OllamaChat => "Chat failed: ",
        Dialect::OpenAIChat => "Generation failed: ",
    };
    let mut message = String::from_str(prefix);
    let detail = e.message();
    message.append(detail.as_str());
    let body = match dialect {
        Dialect::OpenAIChat => ErrorBody::Nested { message, kind: String::from_str("server_error") },
        _ => ErrorBody::Flat { error: message },
    };
    ErrorReply { status: e.http_status(), body }
}

/// Where a streamed request stands: chunks still flow, the terminal frame
/// has gone out, or the stream is over.
#[derive(Debug, Clone, Copy, PartialEq, Eq, Structural)]
pub enum StreamPhase {
    Streaming,
    Finishing,
    Done,
}

/// What the backend stream delivered next.
#[derive(Debug, Clone)]
pub enum Upstream {
    /// A chunk of generated text.
    Chunk(String),
    /// The backend stream ended normally.
    Exhausted,
    /// The backend stream failed.
    Failed,
}

/// One frame sent to the client, in the dialect's shape.
#[derive(Debug, Clone)]
pub enum SseFrame {
    Generate(GenerateApiResponse),
    Chat(ChatApiResponse),
    OpenAI(OpenAIChatChunk),
}

/// The text a frame carries.
pub open spec fn frame_text(f: SseFrame) -> Seq<char> {
    match f {
        SseFrame::Generate(g) => g.response@,
        SseFrame::Chat(c) => c.message.content@,
        SseFrame::OpenAI(o) => if o.choices@.len() > 0 && o.choices@[0].delta.content is Some {
            o.choices@[0].delta.content.unwrap()@
        } else {
            Seq::empty()
        },
    }
}

/// Whether a frame is the dialect's terminal ("done") frame.
pub open spec fn frame_terminal(f: SseFrame) -> bool {
    match f {
        SseFrame::Generate(g) => g.done,
        SseFrame::Chat(c) => c.done,
        SseFrame::OpenAI(o) => o.choices@.len() > 0 && o.choices@[0].finish_reason is Some,
    }
}

/// A frame seen as its text and whether it is terminal.
pub open spec fn frame_view(f: SseFrame) -> (Seq<char>, bool) {
    (frame_text(f), frame_terminal(f))
}

/// The frame has the shape of dialect `d`.
pub open spec fn frame_in_dialect(f: SseFrame, d: Dialect) -> bool {
    match d {
        Dialect::OllamaGenerate => f is Generate,
        Dialect::OllamaChat => f is Chat,
        Dialect::OpenAIChat => f is OpenAI,
    }
}

/// Drives one streamed response: turns backend chunks into frames of one
/// dialect, then closes with exactly one terminal frame.
pub struct StreamTranslator {
    pub dialect: Dialect,
    pub model: String,
    pub id: String,
    pub created: u64,
    pub count: usize,
    pub phase: StreamPhase,
}

/// The frames of a stream whose backend delivered `chunks` and then ended:
/// one non-terminal frame per chunk, then the terminal frame with no text.
pub open spec fn framing(chunks: Seq<Seq<char>>) -> Seq<(Seq<char>, bool)> {
    chunks.map_values(|c: Seq<char>| (c, false)).push((Seq::<char>::empty(), true))
}

/// All chunks, one after the other.
pub open spec fn joined(chunks: Seq<Seq<char>>) -> Seq<char>
    decreases chunks.len(),
{
    if chunks.len() == 0 {
        Seq::empty()
    } else {
        joined(chunks.drop_last()) + chunks.last()
    }
}

/// The texts of the non-terminal frames, one after the other.
pub open spec fn streamed_text(frames: Seq<(Seq<char>, bool)>) -> Seq<char>
    decreases frames.len(),
{
    if frames.len() == 0 {
        Seq::empty()
    } else if frames.last().1 {
        streamed_text(frames.drop_last())
    } else {
        streamed_text(frames.drop_last()) + frames.last().0
    }
}

/// How many of the frames are terminal.
pub open spec fn terminal_count(frames: Seq<(Seq<char>, bool)>) -> nat
    decreases frames.len(),
{
    if frames.len() == 0 {
        0
    } else {
        terminal_count(frames.drop_last()) + if frames.last().1 { 1nat } else { 0nat }
    }
}

proof fn lemma_chunks_framing(chunks: Seq<Seq<char>>)
    ensures
        streamed_text(chunks.map_values(|c: Seq<char>| (c, false))) == joined(chunks),
        terminal_count(chunks.map_values(|c: Seq<char>| (c, false))) == 0,
    decreases chunks.len(),
{
    let fs = chunks.map_values(|c: Seq<char>| (c, false));
    if chunks.len() > 0 {
        lemma_chunks_framing(chunks.drop_last());
        assert(fs.drop_last() =~= chunks.drop_last().map_values(|c: Seq<char>| (c, false)));
    } else {
        assert(fs.len() == 0);
    }
}

/// A streamed response holds exactly one terminal frame, and it is the
/// last; the texts of the other frames, in order, make up everything the
/// backend generated.
pub proof fn lemma_stream_framing(chunks: Seq<Seq<char>>)
    ensures
        terminal_count(framing(chunks)) == 1,
        framing(chunks).last().1,
        forall|i: int| 0 <= i < framing(chunks).len() - 1 ==> !(#[trigger] framing(chunks)[i]).1,
        streamed_text(framing(chunks)) == joined(chunks),
{
    let fs = framing(chunks);
    let body = chunks.map_values(|c: Seq<char>| (c, false));
    lemma_chunks_framing(chunks);
    assert(fs.drop_last() =~= body);
}

impl StreamTranslator {
    /// A translator for one stream in `dialect`, before any chunk.
    pub fn new(dialect: Dialect, model: &str, id: &str, created: u64) -> (r: StreamTranslator)
        ensures
            r.dialect == dialect,
            r.model@ == model@,
            r.id@ == id@,
            r.created == created,
            r.count == 0,
            r.phase == StreamPhase::Streaming,
    {
        StreamTranslator {
            dialect,
            model: String::from_str(model),
            id: String::from_str(id),
            created,
            count: 0,
            phase: StreamPhase::Streaming,
        }
    }

    fn frame(&self, text: String, terminal: bool) -> (r: SseFrame)
        requires
            terminal ==> text@.len() == 0,
        ensures
            frame_view(r) == (text@, terminal),
            frame_in_dialect(r, self.dialect),
    {
        match self.dialect {
            Dialect::OllamaGenerate => SseFrame::Generate(GenerateApiResponse {
                model: self.model.clone(),
                response: text,
                done: terminal,
                total_duration: None,
                eval_count: if terminal { Some(self.count) } else { None },
            }),
            Dialect::OllamaChat => SseFrame::Chat(ChatApiResponse {
                model: self.model.clone(),
                message: ChatMessage::assistant(text.as_str()),
                done: terminal,
                total_duration: None,
                eval_count: if terminal { Some(self.count) } else { None },
            }),
            Dialect::OpenAIChat => {
                let content: Option<String> = if terminal { None } else { Some(text) };
                let finish_reason: Option<String> = if terminal { Some(String::from_str("stop")) } else { None };
                let choice = OpenAIChunkChoice {
                    index: 0,
                    delta: OpenAIDelta { role: None, content },
                    finish_reason,
                };
                let mut choices: Vec<OpenAIChunkChoice> = Vec::new();
                choices.push(choice);
                SseFrame::OpenAI(OpenAIChatChunk {
                    id: self.id.clone(),
                    object: String::from_str("chat.completion.chunk"),
                    created: self.created,
                    model: self.model.clone(),
                    choices,
                })
            },
        }
    }

    /// Takes the next event of the backend stream. While streaming, a chunk
    /// gives a non-terminal frame with its text; the end of the backend
    /// stream gives the terminal frame (no text; Ollama frames count the
    /// chunks sent) and moves to `Finishing`; a failure ends the stream
    /// with no frame. Once the terminal frame is out, nothing more is sent.
    pub fn step(&mut self, event: Upstream) -> (r: Option<SseFrame>)
        requires
            old(self).count < usize::MAX,
        ensures
            final(self).dialect == old(self).dialect,
            final(self).model@ == old(self).model@,
            final(self).id@ == old(self).id@,
            final(self).created == old(self).created,
            old(self).phase != StreamPhase::Streaming ==> r is None && final(self).phase == StreamPhase::Done
                && final(self).count == old(self).count,
            old(self).phase == StreamPhase::Streaming ==> match event {
                Upstream::Chunk(t) => r matches Some(f) && frame_view(f) == (t@, false)
                    && frame_in_dialect(f, old(self).dialect)
                    && final(self).phase == StreamPhase::Streaming
                    && final(self).count == old(self).count + 1,
                Upstream::Exhausted => r matches Some(f) && frame_view(f) == (Seq::<char>::empty(), true)
                    && frame_in_dialect(f, old(self).dialect)
                    && final(self).phase == StreamPhase::Finishing
                    && final(self).count == old(self).count,
                Upstream::Failed => r is None && final(self).phase == StreamPhase::Done
                    && final(self).count == old(self).count,
            },
    {
        match self.phase {
            StreamPhase::Streaming => match event {
                Upstream::Chunk(t) => {
                    let f = self.frame(t, false);
                    self.count = self.count + 1;
                    Some(f)
                },
                Upstream::Exhausted => {
                    let f = self.frame(String::new(), true);
                    self.phase = StreamPhase::Finishing;
                    Some(f)
                },
                Upstream::Failed => {
                    self.phase = StreamPhase::Done;
                    None
                },
            },
            _ => {
                self.phase = StreamPhase::Done;
                None
            },
        }
    }

    /// Whether no further frame will be sent.
    pub fn is_over(&self) -> (r: bool)
        ensures
            r == (self.phase != StreamPhase::Streaming),
    {
        match self.phase {
            StreamPhase::Streaming => false,
            _ => true,
        }
    }
}

/// The views of a list of frames.
pub open spec fn frame_views(fs: Seq<SseFrame>) -> Seq<(Seq<char>, bool)> {
    fs.map_values(|f: SseFrame| frame_view(f))
}

/// The texts of a list of strings.
pub open spec fn texts(cs: Seq<String>) -> Seq<Seq<char>> {
    cs.map_values(|c: String| c@)
}

/// The whole stream for a backend that delivered `chunks` and then ended.
pub fn translate_all(dialect: Dialect, model: &str, id: &str, created: u64, chunks: Vec<String>) -> (r: Vec<SseFrame>)
    requires
        chunks@.len() < usize::MAX,
    ensures
        frame_views(r@) == framing(texts(chunks@)),
        forall|i: int| 0 <= i < r@.len() ==> frame_in_dialect(#[trigger] r@[i], dialect),
{
    let mut t = StreamTranslator::new(dialect, model, id, created);
    let mut out: Vec<SseFrame> = Vec::new();
    let n = chunks.len();
    let ghost all = texts(chunks@);
    let mut i: usize = 0;
    while i < n
        invariant
            n == all.len(),
            n == chunks@.len(),
            all == texts(chunks@),
            i <= n,
            t.phase == StreamPhase::Streaming,
            t.count == i,
            t.dialect == dialect,
            frame_views(out@) == all.subrange(0, i as int).map_values(|c: Seq<char>| (c, false)),
            forall|k: int| 0 <= k < out@.len() ==> frame_in_dialect(#[trigger] out@[k], dialect),
        decreases n - i,
    {
        let c = chunks[i].clone();
        assert(c@ == all[i as int]);
        let ghost prev = out@;
        assert(frame_views(prev).len() == i);
        let f = t.step(Upstream::Chunk(c));
        match f {
            Some(f) => {
                out.push(f);
            },
            None => {},
        }
        proof {
            assert(out@.len() == prev.len() + 1);
            assert(out@.drop_last() == prev);
            assert(frame_view(out@[i as int]) == (all[i as int], false));
            assert forall|k: int| 0 <= k < i implies frame_views(out@)[k] == (all[k], false) by {
                assert(out@[k] == prev[k]);
                assert(frame_views(prev)[k] == all.subrange(0, i as int).map_values(|c: Seq<char>| (c, false))[k]);
            }
            assert(frame_views(out@) =~= all.subrange(0, i + 1).map_values(|c: Seq<char>| (c, false)));
        }
        i = i + 1;
    }
    let last = t.step(Upstream::Exhausted);
    match last {
        Some(f) => {
            out.push(f);
        },
        None => {},
    }
    proof {
        assert(all.subrange(0, n as int) =~= all);
        assert(frame_views(out@) =~= framing(all));
    }
    out
}

} // verus!
