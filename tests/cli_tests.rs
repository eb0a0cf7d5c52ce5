use vllama::cli::{
    classify_failure, handle_error, FailureKind, OutputMode, Symbols, UserError, EXIT_ERROR,
    EXIT_INVALID_INPUT, EXIT_SUCCESS,
};

#[test]
fn test_user_error_display() {
    let err = UserError::new("Something went wrong")
        .with_context("Because of reasons")
        .with_suggestion("Try this first")
        .with_suggestion("Or try this");

    let output = err.render();
    assert!(output.contains("Something went wrong"));
    assert!(output.contains("Because of reasons"));
    assert!(output.contains("Try this first"));
}

#[test]
fn test_exit_codes() {
    assert_eq!(EXIT_SUCCESS, 0);
    assert_eq!(EXIT_ERROR, 1);
    assert_eq!(EXIT_INVALID_INPUT, 2);
}

#[test]
fn test_symbols_no_emojis() {
    // Ensure we're not using emoji characters
    assert_ne!(Symbols::SUCCESS, "âœ…");
    assert_ne!(Symbols::ERROR, "âŒ");
    assert_ne!(Symbols::ARROW, "ğŸš€");
}

#[test]
fn user_error_renders_exact_layout() {
    let err = UserError::new("Boom")
        .with_context("Why")
        .with_suggestion("a")
        .with_suggestion("b");
    let out = err.render_with_marker("X");
    let expected = format!(
        "X Boom\n\n  Why\n\n  Suggestions:\n  {} a\n  {} b\n",
        Symbols::BULLET,
        Symbols::BULLET
    );
    assert_eq!(out, expected);
}

#[test]
fn user_error_without_context_or_suggestions() {
    let err = UserError::new("Only this").with_exit_code(EXIT_INVALID_INPUT);
    assert_eq!(err.render_with_marker("!"), "! Only this\n");
    assert_eq!(err.exit_code, 2);
    assert!(err.render().ends_with(" Only this\n"));
}

#[test]
fn handle_error_recognises_missing_model() {
    let e = handle_error("HTTP 404 from hub");
    assert_eq!(e.message, "Model not found");
    assert_eq!(e.context.as_deref(), Some("The specified model could not be loaded from HuggingFace."));
    assert_eq!(e.suggestions.len(), 3);
    assert_eq!(e.suggestions[0], "Check the model name spelling");
    assert_eq!(e.exit_code, EXIT_ERROR);
}

#[test]
fn handle_error_rule_order() {
    assert_eq!(classify_failure("Address already in use (os error 98)"), FailureKind::PortInUse);
    assert_eq!(classify_failure("vLLM server failed to start within 120 seconds"), FailureKind::EngineStartFailed);
    assert_eq!(classify_failure("CUDA out of memory"), FailureKind::OutOfMemory);
    assert_eq!(classify_failure("uv: No such file or directory"), FailureKind::UvMissing);
    // "not found" wins over the uv rule, as the first rule that matches decides.
    assert_eq!(classify_failure("uv: command not found"), FailureKind::ModelMissing);
    assert_eq!(classify_failure("CUDA is not available"), FailureKind::CudaMissing);
    assert_eq!(classify_failure("401 Unauthorized"), FailureKind::AuthRequired);
    assert_eq!(classify_failure("repo is gated"), FailureKind::AuthRequired);
    assert_eq!(classify_failure("something odd"), FailureKind::Other);
}

#[test]
fn handle_error_generic_fallback_keeps_text() {
    let e = handle_error("disk on fire");
    assert_eq!(e.message, "An error occurred");
    assert_eq!(e.context.as_deref(), Some("disk on fire"));
    assert_eq!(
        e.suggestions,
        vec![
            "Check vllm.log for detailed error information".to_string(),
            "Report issues at https://github.com/nijaru/vllama/issues".to_string(),
        ]
    );
}

#[test]
fn output_modes_are_distinct() {
    assert_ne!(OutputMode::Normal, OutputMode::Quiet);
    assert_ne!(OutputMode::Quiet, OutputMode::Json);
}
