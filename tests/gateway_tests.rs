use vllama::api::OpenAIUsage;
use vllama::catalog::{
    model_family, process_info, show_not_found, show_response, tag_entry, translate_to_ollama_model, version,
};
use vllama::client::{Exchange, GenerateResponsePayload, HttpEngineClient, LoadModelResponse, ModelHandle};
use vllama::error::Error;
use vllama::gateway::{
    canonical_request, chat_prompt, completion_id, default_stream, error_reply, generate_reply,
    openai_reply, chat_reply, translate_all, Dialect, ErrorBody, SseFrame, StreamPhase,
    StreamTranslator, Upstream,
};
use vllama::registry::{ModelRegistry, Resolution};
use vllama::request::{ChatMessage, ChatRole, RequestId};
use vllama::response::GenerateResponse;

#[test]
fn it_works() {
    assert_eq!(2 + 2, 4);
}

fn stub_generate(text: &str) -> GenerateResponse {
    let req = canonical_request("demo", "hi".to_string(), false, None);
    let payload = GenerateResponsePayload { text: text.to_string(), tokens_generated: 1, prompt_tokens: 1 };
    HttpEngineClient::finish_generate(&req, Exchange::Received(payload)).unwrap()
}

#[test]
fn generate_non_streaming_scenario() {
    let resp = stub_generate("hello");
    assert!(resp.finished);
    assert_eq!(resp.stats.total_tokens, 2);
    let reply = generate_reply("demo", &resp, 1234);
    assert_eq!(reply.model, "demo");
    assert_eq!(reply.response, "hello");
    assert!(reply.done);
    assert_eq!(reply.total_duration, Some(1234));
    assert_eq!(reply.eval_count, None);
}

#[test]
fn chat_non_streaming_reply_is_done() {
    let resp = stub_generate("hey");
    let reply = chat_reply("demo", &resp, 7);
    assert!(reply.done);
    assert_eq!(reply.total_duration, Some(7));
    assert_eq!(reply.message.role, ChatRole::Assistant);
    assert_eq!(reply.message.content, "hey");
}

#[test]
fn openai_reply_shape() {
    let resp = stub_generate("ok");
    let reply = openai_reply("chatcmpl-1f", 99, "demo", &resp);
    assert_eq!(reply.object, "chat.completion");
    assert_eq!(reply.created, 99);
    assert_eq!(reply.choices.len(), 1);
    assert_eq!(reply.choices[0].message.content, "ok");
    assert_eq!(reply.choices[0].finish_reason, "stop");
    assert_eq!(reply.usage, Some(OpenAIUsage { prompt_tokens: 0, completion_tokens: 0, total_tokens: 0 }));
}

#[test]
fn completion_id_is_hex_timestamp() {
    assert_eq!(completion_id(255), "chatcmpl-ff");
    assert_eq!(completion_id(0), "chatcmpl-0");
    assert_eq!(completion_id(0x1a2b), "chatcmpl-1a2b");
}

#[test]
fn engine_failure_error_shapes() {
    let e = Error::InferenceFailed("Status 500: boom".to_string());
    let ollama = error_reply(Dialect::OllamaGenerate, &e);
    assert_eq!(ollama.status, 500);
    match ollama.body {
        ErrorBody::Flat { error } => assert_eq!(error, "Generation failed: Inference failed: Status 500: boom"),
        ErrorBody::Nested { .. } => panic!("flat envelope expected"),
    }
    let openai = error_reply(Dialect::OpenAIChat, &e);
    assert_eq!(openai.status, 500);
    match openai.body {
        ErrorBody::Nested { message, kind } => {
            assert_eq!(message, "Generation failed: Inference failed: Status 500: boom");
            assert_eq!(kind, "server_error");
        }
        ErrorBody::Flat { .. } => panic!("nested envelope expected"),
    }
}

#[test]
fn error_statuses() {
    assert_eq!(error_reply(Dialect::OllamaChat, &Error::ModelNotFound("m".to_string())).status, 404);
    assert_eq!(error_reply(Dialect::OllamaChat, &Error::EngineNotAvailable("x".to_string())).status, 503);
    assert_eq!(error_reply(Dialect::OllamaChat, &Error::ModelLoadFailed("x".to_string())).status, 500);
    match error_reply(Dialect::OllamaChat, &Error::ModelNotFound("m".to_string())).body {
        ErrorBody::Flat { error } => assert_eq!(error, "Chat failed: Model not found: m"),
        ErrorBody::Nested { .. } => panic!("flat envelope expected"),
    }
}

fn frame_parts(f: &SseFrame) -> (String, bool) {
    match f {
        SseFrame::Generate(g) => (g.response.clone(), g.done),
        SseFrame::Chat(c) => (c.message.content.clone(), c.done),
        SseFrame::OpenAI(o) => (
            o.choices[0].delta.content.clone().unwrap_or_default(),
            o.choices[0].finish_reason.is_some(),
        ),
    }
}

#[test]
fn stream_has_one_terminal_frame_last() {
    for dialect in [Dialect::OllamaGenerate, Dialect::OllamaChat, Dialect::OpenAIChat] {
        let chunks = vec!["Hel".to_string(), "lo".to_string(), " world".to_string()];
        let frames = translate_all(dialect, "demo", "chatcmpl-1", 5, chunks);
        assert_eq!(frames.len(), 4);
        let parts: Vec<(String, bool)> = frames.iter().map(frame_parts).collect();
        assert_eq!(parts.iter().filter(|p| p.1).count(), 1);
        assert!(parts[3].1);
        let text: String = parts.iter().filter(|p| !p.1).map(|p| p.0.clone()).collect();
        assert_eq!(text, "Hello world");
    }
}

#[test]
fn empty_stream_still_terminates() {
    let frames = translate_all(Dialect::OllamaGenerate, "demo", "", 0, Vec::new());
    assert_eq!(frames.len(), 1);
    match &frames[0] {
        SseFrame::Generate(g) => {
            assert!(g.done);
            assert_eq!(g.response, "");
            assert_eq!(g.eval_count, Some(0));
        }
        _ => panic!("generate frame expected"),
    }
}

#[test]
fn stream_failure_ends_without_terminal_frame() {
    let mut t = StreamTranslator::new(Dialect::OllamaChat, "demo", "", 0);
    assert!(t.step(Upstream::Chunk("a".to_string())).is_some());
    assert!(t.step(Upstream::Failed).is_none());
    assert_eq!(t.phase, StreamPhase::Done);
    assert!(t.step(Upstream::Exhausted).is_none());
}

#[test]
fn terminal_frame_counts_chunks() {
    let mut t = StreamTranslator::new(Dialect::OllamaGenerate, "demo", "", 0);
    t.step(Upstream::Chunk("a".to_string()));
    t.step(Upstream::Chunk("b".to_string()));
    match t.step(Upstream::Exhausted) {
        Some(SseFrame::Generate(g)) => assert_eq!(g.eval_count, Some(2)),
        _ => panic!("terminal frame expected"),
    }
    assert_eq!(t.phase, StreamPhase::Finishing);
    assert!(t.is_over());
    assert!(t.step(Upstream::Chunk("late".to_string())).is_none());
    assert_eq!(t.phase, StreamPhase::Done);
}

#[test]
fn openai_terminal_frame_has_stop_reason() {
    let mut t = StreamTranslator::new(Dialect::OpenAIChat, "demo", "chatcmpl-a", 3);
    match t.step(Upstream::Exhausted) {
        Some(SseFrame::OpenAI(o)) => {
            assert_eq!(o.object, "chat.completion.chunk");
            assert_eq!(o.id, "chatcmpl-a");
            assert_eq!(o.choices[0].finish_reason.as_deref(), Some("stop"));
            assert_eq!(o.choices[0].delta.content, None);
        }
        _ => panic!("openai frame expected"),
    }
}

#[test]
fn load_same_name_twice_reuses_handle() {
    let mut client = HttpEngineClient::new("http://127.0.0.1:8100", "vLLM");
    let mut registry = ModelRegistry::new();
    assert_eq!(registry.plan("demo"), Resolution::NeedsLoad);
    let loaded = client.finish_load(Exchange::Received(LoadModelResponse {
        model_id: "demo-id".to_string(),
        status: "ok".to_string(),
    }));
    let first = registry.settle("demo", loaded).unwrap();
    assert_eq!(registry.plan("demo"), Resolution::Cached(first));
    assert_eq!(registry.lookup("demo"), Some(first));
    // A second, racing load result keeps the first handle.
    let again = registry.settle("demo", Ok(ModelHandle(first.0 + 10))).unwrap();
    assert_eq!(again, first);
    assert_eq!(registry.names(), vec!["demo".to_string()]);
    assert!(!registry.contains("other"));
}

#[test]
fn failed_load_is_not_recorded() {
    let mut registry = ModelRegistry::new();
    let r = registry.settle("demo", Err(Error::ModelLoadFailed("no".to_string())));
    assert!(r.is_err());
    assert_eq!(registry.plan("demo"), Resolution::NeedsLoad);
}

#[test]
fn chat_prompt_follows_model_family() {
    let msgs = vec![ChatMessage::user("Hi")];
    assert!(chat_prompt("Llama-3", &msgs).starts_with("<|begin_of_text|>"));
    assert_eq!(chat_prompt("opt-125m", &msgs), "User: Hi");
}

#[test]
fn canonical_request_fields() {
    let r = canonical_request("demo", "hi".to_string(), true, Some(10));
    assert_eq!(r.id, RequestId(0));
    assert_eq!(r.model, "demo");
    assert!(r.options.stream);
    assert_eq!(r.options.max_tokens, Some(10));
    assert!(default_stream());
}

#[test]
fn model_family_guesses() {
    assert_eq!(model_family("meta-llama/Llama-3.1-8B-Instruct"), ("llama", "8B"));
    assert_eq!(model_family("facebook/opt-125m"), ("opt", "125M"));
    assert_eq!(model_family("Qwen/Qwen2.5-1.5B-Instruct"), ("qwen", "1.5B"));
    assert_eq!(model_family("mistral"), ("unknown", "unknown"));
}

#[test]
fn show_and_ps_entries() {
    let show = show_response("facebook/opt-125m");
    assert_eq!(show.modelfile, "# Modelfile for facebook/opt-125m\n# Loaded via vLLama + vLLM");
    assert_eq!(show.details.family, "opt");
    assert_eq!(show.details.format, "safetensors");
    let ps = process_info("facebook/opt-125m", Some(2048));
    assert_eq!(ps.size_vram, Some(2048));
    assert_eq!(ps.details.parameter_size, "125M");
    let missing = show_not_found("nonexistent-model-12345");
    assert_eq!(missing.status, 404);
    assert_eq!(tag_entry("m", 3, 0xabc).digest, "abc");
    assert_eq!(version().version, "0.0.5");
}

#[test]
fn ollama_names_for_known_models() {
    assert_eq!(translate_to_ollama_model("meta-llama/Llama-3.1-8B-Instruct"), "llama3.1:8b");
    assert_eq!(translate_to_ollama_model("Qwen/Qwen2.5-7B-Instruct"), "qwen2.5:7b");
    assert_eq!(translate_to_ollama_model("meta-llama/Llama-3.1-8B-Instruct-extra"), "meta-llama/Llama-3.1-8B-Instruct-extra");
    assert_eq!(translate_to_ollama_model("facebook/opt-125m"), "facebook/opt-125m");
}
