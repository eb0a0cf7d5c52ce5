//! Command-line facing errors: explanations with advice, exit codes and
//! the symbols the terminal output uses.

use vstd::prelude::*;
use vstd::string::*;

use crate::text::{seq_contains, str_contains};

verus! {

/// Exit code of a successful run.
pub const EXIT_SUCCESS: u8 = 0;

/// Exit code of a failed run.
pub const EXIT_ERROR: u8 = 1;

/// Exit code of a run refused for bad input.
pub const EXIT_INVALID_INPUT: u8 = 2;

/// How much the command line prints.
#[derive(Debug, Clone, Copy, PartialEq, Eq, Structural)]
pub enum OutputMode {
    /// Human-readable output.
    Normal,
    /// Minimal output.
    Quiet,
    /// One JSON object per event, for scripts.
    Json,
}

/// Plain symbols of the terminal output (no emoji).
pub struct Symbols;

impl Symbols {
    pub const ARROW: &'static str = "â†’";
    pub const BULLET: &'static str = "â€¢";
    pub const SUCCESS: &'static str = "âœ“";
    pub const ERROR: &'static str = "âœ—";
    pub const WARNING: &'static str = "âš ";
    pub const INFO: &'static str = "â„¹";
}

/// Relies on `console::style(..).red().bold()`: paints a symbol for the
/// terminal. Whether colour codes are added depends on the terminal and the
/// environment, so nothing is stated of the result.
#[verifier::external_body]
fn paint_error_symbol(symbol: &str) -> (r: String) {
    console::style(symbol).red().bold().to_string()
}

/// An error explained for a person at a terminal.
pub struct UserError {
    /// What went wrong.
    pub message: String,
    /// Why it happened.
    pub context: Option<String>,
    /// What to try next, in order.
    pub suggestions: Vec<String>,
    /// Exit code of the process.
    pub exit_code: u8,
}

/// The texts of a list of strings.
pub open spec fn suggestion_texts(s: Seq<String>) -> Seq<Seq<char>> {
    s.map_values(|x: String| x@)
}

/// The suggestion lines, each `  <bullet> <text>` and a line break.
pub open spec fn suggestion_lines(s: Seq<Seq<char>>) -> Seq<char>
    decreases s.len(),
{
    if s.len() == 0 {
        Seq::empty()
    } else {
        suggestion_lines(s.drop_last()) + "  "@ + Symbols::BULLET@ + " "@ + s.last() + "\n"@
    }
}

/// The full text of an error whose header starts with `marker`.
pub open spec fn rendered_error(e: UserError, marker: Seq<char>) -> Seq<char> {
    let header = marker + " "@ + e.message@ + "\n"@;
    let context = match e.context {
        Some(c) => "\n  "@ + c@ + "\n"@,
        None => Seq::empty(),
    };
    let suggestions = if e.suggestions@.len() == 0 {
        Seq::empty()
    } else {
        "\n  Suggestions:\n"@ + suggestion_lines(suggestion_texts(e.suggestions@))
    };
    header + context + suggestions
}

impl UserError {
    /// An error with a message, no context, no suggestions and exit code 1.
    pub fn new(message: &str) -> (r: UserError)
        ensures
            r.message@ == message@,
            r.context is None,
            r.suggestions@.len() == 0,
            r.exit_code == EXIT_ERROR,
    {
        UserError {
            message: String::from_str(message),
            context: None,
            suggestions: Vec::new(),
            exit_code: EXIT_ERROR,
        }
    }

    /// The same error with its context set.
    pub fn with_context(self, context: &str) -> (r: UserError)
        ensures
            r.message@ == self.message@,
            r.context is Some,
            r.context.unwrap()@ == context@,
            r.suggestions@ == self.suggestions@,
            r.exit_code == self.exit_code,
    {
        let mut r = self;
        r.context = Some(String::from_str(context));
        r
    }

    /// The same error with one more suggestion at the end.
    pub fn with_suggestion(self, suggestion: &str) -> (r: UserError)
        ensures
            r.message@ == self.message@,
            r.context == self.context,
            suggestion_texts(r.suggestions@) == suggestion_texts(self.suggestions@).push(suggestion@),
            r.suggestions@.len() == self.suggestions@.len() + 1,
            r.exit_code == self.exit_code,
    {
        let mut r = self;
        r.suggestions.push(String::from_str(suggestion));
        proof {
            assert(suggestion_texts(r.suggestions@) =~= suggestion_texts(self.suggestions@).push(suggestion@));
        }
        r
    }

    /// The same error with another exit code.
    pub fn with_exit_code(self, code: u8) -> (r: UserError)
        ensures
            r.message@ == self.message@,
            r.context == self.context,
            r.suggestions@ == self.suggestions@,
            r.exit_code == code,
    {
        let mut r = self;
        r.exit_code = code;
        r
    }

    /// The full text of the error, its header starting with `marker`.
    pub fn render_with_marker(&self, marker: &str) -> (r: String)
        ensures
            r@ == rendered_error(*self, marker@),
    {
        let mut out = String::from_str(marker);
        out.append(" ");
        out.append(self.message.as_str());
        out.append("\n");
        match &self.context {
            Some(c) => {
                out.append("\n  ");
                out.append(c.as_str());
                out.append("\n");
            },
            None => {},
        }
        if self.suggestions.len() > 0 {
            out.append("\n  Suggestions:\n");
            let ghost before = out@;
            let mut i: usize = 0;
            while i < self.suggestions.len()
                invariant
                    i <= self.suggestions@.len(),
                    out@ == before + suggestion_lines(suggestion_texts(self.suggestions@.subrange(0, i as int))),
                decreases self.suggestions@.len() - i,
            {
                out.append("  ");
                out.append(Symbols::BULLET);
                out.append(" ");
                out.append(self.suggestions[i].as_str());
                out.append("\n");
                proof {
                    let next = suggestion_texts(self.suggestions@.subrange(0, i + 1));
                    assert(next.drop_last() =~= suggestion_texts(self.suggestions@.subrange(0, i as int)));
                    assert(next.last() == self.suggestions@[i as int]@);
                }
                i = i + 1;
            }
            assert(self.suggestions@.subrange(0, self.suggestions@.len() as int) =~= self.suggestions@);
        }
        out
    }

    /// The full text of the error, with the error symbol painted for the terminal.
    pub fn render(&self) -> (r: String)
        ensures
            exists|marker: Seq<char>| r@ == rendered_error(*self, marker),
    {
        let marker = paint_error_symbol(Symbols::ERROR);
        self.render_with_marker(marker.as_str())
    }
}

/// The kinds of failure the command line explains with dedicated advice.
#[derive(Debug, Clone, Copy, PartialEq, Eq, Structural)]
pub enum FailureKind {
    ModelMissing,
    PortInUse,
    EngineStartFailed,
    OutOfMemory,
    UvMissing,
    CudaMissing,
    AuthRequired,
    Other,
}

/// Which advice a failure text calls for; the first matching rule wins.
pub open spec fn failure_kind(s: Seq<char>) -> FailureKind {
    if seq_contains(s, "404"@) || seq_contains(s, "not found"@) {
        FailureKind::ModelMissing
    } else if seq_contains(s, "Address already in use"@) {
        FailureKind::PortInUse
    } else if seq_contains(s, "vLLM server failed to start"@) {
        FailureKind::EngineStartFailed
    } else if seq_contains(s, "out of memory"@) || seq_contains(s, "No available memory"@) {
        FailureKind::OutOfMemory
    } else if seq_contains(s, "uv"@) && (seq_contains(s, "not found"@) || seq_contains(s, "No such file"@)) {
        FailureKind::UvMissing
    } else if seq_contains(s, "CUDA"@) && seq_contains(s, "not available"@) {
        FailureKind::CudaMissing
    } else if seq_contains(s, "401"@) || seq_contains(s, "gated"@) || seq_contains(s, "authentication"@) {
        FailureKind::AuthRequired
    } else {
        FailureKind::Other
    }
}

/// Classifies a failure text.
pub fn classify_failure(s: &str) -> (r: FailureKind)
    ensures
        r == failure_kind(s@),
{
    if str_contains(s, "404") || str_contains(s, "not found") {
        FailureKind::ModelMissing
    } else if str_contains(s, "Address already in use") {
        FailureKind::PortInUse
    } else if str_contains(s, "vLLM server failed to start") {
        FailureKind::EngineStartFailed
    } else if str_contains(s, "out of memory") || str_contains(s, "No available memory") {
        FailureKind::OutOfMemory
    } else if str_contains(s, "uv") && (str_contains(s, "not found") || str_contains(s, "No such file")) {
        FailureKind::UvMissing
    } else if str_contains(s, "CUDA") && str_contains(s, "not available") {
        FailureKind::CudaMissing
    } else if str_contains(s, "401") || str_contains(s, "gated") || str_contains(s, "authentication") {
        FailureKind::AuthRequired
    } else {
        FailureKind::Other
    }
}

/// The headline shown for a kind of failure.
pub open spec fn advice_headline(k: FailureKind) -> Seq<char> {
    match k {
        FailureKind::ModelMissing => "Model not found"@,
        FailureKind::PortInUse => "Port already in use"@,
        FailureKind::EngineStartFailed => "vLLM engine failed to start"@,
        FailureKind::OutOfMemory => "Insufficient GPU memory"@,
        FailureKind::UvMissing => "uv package manager not found"@,
        FailureKind::CudaMissing => "CUDA not available"@,
        FailureKind::AuthRequired => "Model requires authentication"@,
        FailureKind::Other => "An error occurred"@,
    }
}

/// The explanation shown for a kind of failure; for `Other` it is the failure text itself.
pub open spec fn advice_context(k: FailureKind, s: Seq<char>) -> Seq<char> {
    match k {
        FailureKind::ModelMissing => "The specified model could not be loaded from HuggingFace."@,
        FailureKind::PortInUse => "Another process is already using the specified port."@,
        FailureKind::EngineStartFailed => "The vLLM inference engine could not initialize."@,
        FailureKind::OutOfMemory => "The model is too large for available GPU memory."@,
        FailureKind::UvMissing => "vllama requires uv to manage Python dependencies."@,
        FailureKind::CudaMissing => "vLLM requires NVIDIA GPU with CUDA support."@,
        FailureKind::AuthRequired => "This model is gated and requires HuggingFace authentication."@,
        FailureKind::Other => s,
    }
}

/// The suggestions shown for a kind of failure, in order.
pub open spec fn advice_suggestions(k: FailureKind) -> Seq<Seq<char>> {
    match k {
        FailureKind::ModelMissing => seq![
            "Check the model name spelling"@,
            "Search for models at https://huggingface.co/models"@,
            "For gated models (Llama), see docs/MODELS.md for authentication setup"@,
        ],
        FailureKind::PortInUse => seq![
            "Stop existing vllama/vLLM instances: pkill -9 vllm"@,
            "Use a different port: --port 11435"@,
            "Check what's using the port: lsof -i :11434"@,
        ],
        FailureKind::EngineStartFailed => seq![
            "Check vllm.log for detailed error messages"@,
            "Ensure CUDA is installed: nvidia-smi"@,
            "Try with smaller model or lower GPU utilization: --gpu-memory-utilization 0.7"@,
            "For 7B models, use --gpu-memory-utilization 0.9"@,
        ],
        FailureKind::OutOfMemory => seq![
            "Use a smaller model (e.g., Qwen/Qwen2.5-1.5B-Instruct)"@,
            "Increase GPU utilization: --gpu-memory-utilization 0.9"@,
            "Check GPU memory: nvidia-smi"@,
            "See docs/MODELS.md for memory requirements"@,
        ],
        FailureKind::UvMissing => seq![
            "Install uv: curl -LsSf https://astral.sh/uv/install.sh | sh"@,
            "After installing, restart your shell"@,
        ],
        FailureKind::CudaMissing => seq![
            "Check GPU is detected: nvidia-smi"@,
            "Install CUDA drivers: See docs/FEDORA_SETUP.md"@,
            "For CPU-only inference, use Ollama instead (faster on CPU)"@,
        ],
        FailureKind::AuthRequired => seq![
            "Create HuggingFace token at https://huggingface.co/settings/tokens"@,
            "Accept model license on HuggingFace"@,
            "Set token: export HF_TOKEN=hf_..."@,
            "See docs/MODELS.md for detailed setup"@,
        ],
        FailureKind::Other => seq![
            "Check vllm.log for detailed error information"@,
            "Report issues at https://github.com/nijaru/vllama/issues"@,
        ],
    }
}

/// Turns a failure text into an explanation with advice for the user.
pub fn handle_error(err: &str) -> (r: UserError)
    ensures
        r.message@ == advice_headline(failure_kind(err@)),
        r.context is Some,
        r.context.unwrap()@ == advice_context(failure_kind(err@), err@),
        suggestion_texts(r.suggestions@) == advice_suggestions(failure_kind(err@)),
        r.exit_code == EXIT_ERROR,
{
    let kind = classify_failure(err);
    let r = match kind {
        FailureKind::ModelMissing => UserError::new("Model not found")
            .with_context("The specified model could not be loaded from HuggingFace.")
            .with_suggestion("Check the model name spelling")
            .with_suggestion("Search for models at https://huggingface.co/models")
            .with_suggestion("For gated models (Llama), see docs/MODELS.md for authentication setup"),
        FailureKind::PortInUse => UserError::new("Port already in use")
            .with_context("Another process is already using the specified port.")
            .with_suggestion("Stop existing vllama/vLLM instances: pkill -9 vllm")
            .with_suggestion("Use a different port: --port 11435")
            .with_suggestion("Check what's using the port: lsof -i :11434"),
        FailureKind::EngineStartFailed => UserError::new("vLLM engine failed to start")
            .with_context("The vLLM inference engine could not initialize.")
            .with_suggestion("Check vllm.log for detailed error messages")
            .with_suggestion("Ensure CUDA is installed: nvidia-smi")
            .with_suggestion("Try with smaller model or lower GPU utilization: --gpu-memory-utilization 0.7")
            .with_suggestion("For 7B models, use --gpu-memory-utilization 0.9"),
        FailureKind::OutOfMemory => UserError::new("Insufficient GPU memory")
            .with_context("The model is too large for available GPU memory.")
            .with_suggestion("Use a smaller model (e.g., Qwen/Qwen2.5-1.5B-Instruct)")
            .with_suggestion("Increase GPU utilization: --gpu-memory-utilization 0.9")
            .with_suggestion("Check GPU memory: nvidia-smi")
            .with_suggestion("See docs/MODELS.md for memory requirements"),
        FailureKind::UvMissing => UserError::new("uv package manager not found")
            .with_context("vllama requires uv to manage Python dependencies.")
            .with_suggestion("Install uv: curl -LsSf https://astral.sh/uv/install.sh | sh")
            .with_suggestion("After installing, restart your shell"),
        FailureKind::CudaMissing => UserError::new("CUDA not available")
            .with_context("vLLM requires NVIDIA GPU with CUDA support.")
            .with_suggestion("Check GPU is detected: nvidia-smi")
            .with_suggestion("Install CUDA drivers: See docs/FEDORA_SETUP.md")
            .with_suggestion("For CPU-only inference, use Ollama instead (faster on CPU)"),
        FailureKind::AuthRequired => UserError::new("Model requires authentication")
            .with_context("This model is gated and requires HuggingFace authentication.")
            .with_suggestion("Create HuggingFace token at https://huggingface.co/settings/tokens")
            .with_suggestion("Accept model license on HuggingFace")
            .with_suggestion("Set token: export HF_TOKEN=hf_...")
            .with_suggestion("See docs/MODELS.md for detailed setup"),
        FailureKind::Other => UserError::new("An error occurred")
            .with_context(err)
            .with_suggestion("Check vllm.log for detailed error information")
            .with_suggestion("Report issues at https://github.com/nijaru/vllama/issues"),
    };
    proof {
        assert(suggestion_texts(r.suggestions@) =~= advice_suggestions(kind));
    }
    r
}

} // verus!
