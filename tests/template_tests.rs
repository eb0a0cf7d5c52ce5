use vllama::request::{ChatMessage, ChatRequest, RequestId};
use vllama::templates::{
    get_template_for_model, messages_to_prompt, template_for_lowered, ChatTemplate, Llama3Template,
    ModelTemplate, SimpleChatTemplate,
};

#[test]
fn test_llama3_template() {
    let messages = vec![
        ChatMessage::system("You are a helpful assistant."),
        ChatMessage::user("Hello!"),
    ];

    let template = Llama3Template;
    let result = template.apply(&messages);

    assert!(result.contains("<|begin_of_text|>"));
    assert!(result.contains("<|start_header_id|>system<|end_header_id|>"));
    assert!(result.contains("You are a helpful assistant."));
    assert!(result.contains("<|start_header_id|>user<|end_header_id|>"));
    assert!(result.contains("Hello!"));
    assert!(result.contains("<|eot_id|>"));
}

#[test]
fn test_simple_template() {
    let messages = vec![
        ChatMessage::system("You are a helpful assistant."),
        ChatMessage::user("Hello!"),
    ];

    let template = SimpleChatTemplate;
    let result = template.apply(&messages);

    assert!(result.contains("System: You are a helpful assistant."));
    assert!(result.contains("User: Hello!"));
}

#[test]
fn test_get_template_for_llama() {
    let template = get_template_for_model("modularai/Llama-3.1-8B-Instruct-GGUF");
    let messages = vec![ChatMessage::user("Test")];
    let result = template.apply(&messages);

    assert!(result.contains("<|begin_of_text|>"));
}

#[test]
fn test_get_template_for_other() {
    let template = get_template_for_model("some-other-model");
    let messages = vec![ChatMessage::user("Test")];
    let result = template.apply(&messages);

    assert!(result.contains("User: Test"));
}

#[test]
fn llama3_template_exact_text() {
    let messages = vec![ChatMessage::system("S"), ChatMessage::assistant("A")];
    assert_eq!(
        Llama3Template.apply(&messages),
        "<|begin_of_text|><|start_header_id|>system<|end_header_id|>\n\nS<|eot_id|>\
         <|start_header_id|>assistant<|end_header_id|>\n\nA<|eot_id|>\
         <|start_header_id|>assistant<|end_header_id|>\n\n"
    );
}

#[test]
fn simple_template_joins_with_blank_lines() {
    let messages = vec![
        ChatMessage::system("be brief"),
        ChatMessage::user("hi"),
        ChatMessage::assistant("hello"),
    ];
    assert_eq!(
        messages_to_prompt(&messages),
        "System: be brief\n\nUser: hi\n\nAssistant: hello"
    );
    assert_eq!(messages_to_prompt(&[]), "");
}

#[test]
fn template_choice_ignores_case() {
    assert_eq!(get_template_for_model("META-LLAMA/x"), ModelTemplate::Llama3);
    assert_eq!(get_template_for_model("qwen"), ModelTemplate::Simple);
    assert_eq!(template_for_lowered("tinyllama"), ModelTemplate::Llama3);
    assert_eq!(template_for_lowered("Llama"), ModelTemplate::Simple);
}

#[test]
fn chat_request_prompt() {
    let req = ChatRequest::new(4, "m".to_string(), vec![ChatMessage::user("a"), ChatMessage::assistant("b")]);
    assert_eq!(req.id, RequestId(4));
    assert_eq!(req.to_prompt(), "User: a\n\nAssistant: b");
}
