use vllama::error::Error;
use vllama::openai::{
    chunk_to_response, completion_to_response, decoded_chunk, first_data_line, sse_payload,
    to_openai_messages, CompletionChoice, CompletionChoiceChunk, CompletionChunk, CompletionResponse,
    SsePayload, Usage,
};
use vllama::request::{ChatMessage, GenerateRequest, RequestId};

fn chunk(text: &str, reason: Option<&str>) -> CompletionChunk {
    CompletionChunk {
        id: "c".to_string(),
        object: "text_completion".to_string(),
        created: 1,
        model: "m".to_string(),
        choices: vec![CompletionChoiceChunk { text: text.to_string(), index: 0, finish_reason: reason.map(|r| r.to_string()) }],
    }
}

#[test]
fn completion_maps_first_choice_and_usage() {
    let req = GenerateRequest::new(7, "facebook/opt-125m".to_string(), "Once upon a time".to_string());
    let resp = CompletionResponse {
        id: "x".to_string(),
        object: "text_completion".to_string(),
        created: 5,
        model: "facebook/opt-125m".to_string(),
        choices: vec![CompletionChoice { text: " there was".to_string(), index: 0, finish_reason: Some("length".to_string()) }],
        usage: Usage { prompt_tokens: 4, completion_tokens: 3, total_tokens: 7 },
    };
    let r = completion_to_response(&req, &resp);
    assert_eq!(r.id, RequestId(7));
    assert_eq!(r.text, " there was");
    assert_eq!(r.stats.total_tokens, 7);
    assert!(r.finished);
    assert_eq!(r.finish_reason.as_deref(), Some("length"));
}

#[test]
fn completion_without_choice_is_empty() {
    let req = GenerateRequest::new(1, "m".to_string(), "p".to_string());
    let resp = CompletionResponse {
        id: "x".to_string(),
        object: "text_completion".to_string(),
        created: 5,
        model: "m".to_string(),
        choices: Vec::new(),
        usage: Usage { prompt_tokens: usize::MAX, completion_tokens: 2, total_tokens: 0 },
    };
    let r = completion_to_response(&req, &resp);
    assert_eq!(r.text, "");
    assert_eq!(r.finish_reason, None);
    assert_eq!(r.stats.total_tokens, usize::MAX);
}

#[test]
fn chunk_finishes_with_reason() {
    let open = chunk_to_response(RequestId(2), "m", &chunk("a", None));
    assert!(!open.finished);
    assert_eq!(open.text, "a");
    let last = chunk_to_response(RequestId(2), "m", &chunk("", Some("stop")));
    assert!(last.finished);
}

#[test]
fn sse_payload_kinds() {
    assert!(matches!(sse_payload("data: [DONE]\n\n"), SsePayload::Done));
    assert!(matches!(sse_payload(": ping\n"), SsePayload::Nothing));
    match sse_payload("event: x\r\ndata: {\"a\":1}\r\n") {
        SsePayload::Data(d) => assert_eq!(d, "{\"a\":1}"),
        _ => panic!("payload expected"),
    }
    assert_eq!(first_data_line("nothing here"), None);
}

#[test]
fn decoded_chunk_errors_are_load_failures() {
    match decoded_chunk(RequestId(1), "m", Err("expected value".to_string())) {
        Err(Error::ModelLoadFailed(m)) => assert_eq!(m, "Failed to parse chunk: expected value"),
        _ => panic!("error expected"),
    }
    let ok = decoded_chunk(RequestId(1), "m", Ok(chunk("tok", None))).unwrap();
    assert_eq!(ok.text, "tok");
}

#[test]
fn openai_messages_use_wire_roles() {
    let msgs = vec![ChatMessage::system("s"), ChatMessage::user("u"), ChatMessage::assistant("a")];
    let out = to_openai_messages(&msgs);
    let roles: Vec<&str> = out.iter().map(|m| m.role.as_str()).collect();
    assert_eq!(roles, vec!["system", "user", "assistant"]);
    assert_eq!(out[1].content, "u");
}
