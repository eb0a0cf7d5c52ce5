//! What the gateway reports about the models the backend serves: family
//! and size guessed from the name, `/api/show` and `/api/ps` entries.

use vstd::prelude::*;
use vstd::string::*;

use crate::api::{ModelDetails, ModelInfo, ProcessInfo, PullApiResponse, ShowApiResponse, VersionResponse};
use crate::gateway::{ErrorBody, ErrorReply};
use crate::text::{hex, seq_contains, str_contains, str_starts_with, u64_to_hex};

verus! {

/// `s` mentions `a` or `b`.
pub open spec fn mentions(s: Seq<char>, a: Seq<char>, b: Seq<char>) -> bool {
    seq_contains(s, a) || seq_contains(s, b)
}

fn str_mentions(s: &str, a: &str, b: &str) -> (r: bool)
    ensures
        r == mentions(s@, a@, b@),
{
    str_contains(s, a) || str_contains(s, b)
}

/// Family and parameter size guessed from a model name.
pub open spec fn family_of(n: Seq<char>) -> (Seq<char>, Seq<char>) {
    if mentions(n, "llama"@, "Llama"@) {
        let size = if mentions(n, "70B"@, "70b"@) {
            "70B"@
        } else if mentions(n, "8B"@, "8b"@) {
            "8B"@
        } else if mentions(n, "3B"@, "3b"@) {
            "3B"@
        } else if mentions(n, "1B"@, "1b"@) {
            "1B"@
        } else {
            "unknown"@
        };
        ("llama"@, size)
    } else if seq_contains(n, "opt"@) {
        let size = if seq_contains(n, "125m"@) {
            "125M"@
        } else if seq_contains(n, "350m"@) {
            "350M"@
        } else {
            "unknown"@
        };
        ("opt"@, size)
    } else if mentions(n, "qwen"@, "Qwen"@) {
        let size = if mentions(n, "1.5B"@, "1.5b"@) {
            "1.5B"@
        } else if mentions(n, "7B"@, "7b"@) {
            "7B"@
        } else {
            "unknown"@
        };
        ("qwen"@, size)
    } else {
        ("unknown"@, "unknown"@)
    }
}

/// Guesses family and parameter size of a model from its name.
pub fn model_family(name: &str) -> (r: (&'static str, &'static str))
    ensures
        (r.0@, r.1@) == family_of(name@),
{
    if str_mentions(name, "llama", "Llama") {
        let size = if str_mentions(name, "70B", "70b") {
            "70B"
        } else if str_mentions(name, "8B", "8b") {
            "8B"
        } else if str_mentions(name, "3B", "3b") {
            "3B"
        } else if str_mentions(name, "1B", "1b") {
            "1B"
        } else {
            "unknown"
        };
        ("llama", size)
    } else if str_contains(name, "opt") {
        let size = if str_contains(name, "125m") {
            "125M"
        } else if str_contains(name, "350m") {
            "350M"
        } else {
            "unknown"
        };
        ("opt", size)
    } else if str_mentions(name, "qwen", "Qwen") {
        let size = if str_mentions(name, "1.5B", "1.5b") {
            "1.5B"
        } else if str_mentions(name, "7B", "7b") {
            "7B"
        } else {
            "unknown"
        };
        ("qwen", size)
    } else {
        ("unknown", "unknown")
    }
}

/// The details reported for a served model.
pub fn model_details(name: &str) -> (r: ModelDetails)
    ensures
        r.parent_model@ == name@,
        r.format@ == "safetensors"@,
        (r.family@, r.parameter_size@) == family_of(name@),
        r.quantization_level@ == "none"@,
{
    let (family, size) = model_family(name);
    ModelDetails {
        parent_model: String::from_str(name),
        format: String::from_str("safetensors"),
        family: String::from_str(family),
        parameter_size: String::from_str(size),
        quantization_level: String::from_str("none"),
    }
}

/// The `/api/show` answer for a model the backend serves.
pub fn show_response(name: &str) -> (r: ShowApiResponse)
    ensures
        r.modelfile@ == "# Modelfile for "@ + name@ + "\n# Loaded via vLLama + vLLM"@,
        r.parameters@ == "temperature 0.7\ntop_p 0.9\nrepetition_penalty 1.0"@,
        r.template is Some && r.template.unwrap()@ == "{{ .System }}\n{{ .Prompt }}"@,
        r.details.parent_model@ == name@,
        (r.details.family@, r.details.parameter_size@) == family_of(name@),
{
    let mut modelfile = String::from_str("# Modelfile for ");
    modelfile.append(name);
    modelfile.append("\n# Loaded via vLLama + vLLM");
    ShowApiResponse {
        modelfile,
        parameters: String::from_str("temperature 0.7\ntop_p 0.9\nrepetition_penalty 1.0"),
        template: Some(String::from_str("{{ .System }}\n{{ .Prompt }}")),
        details: model_details(name),
    }
}

/// The 404 answer of `/api/show` for a model the backend does not serve.
pub fn show_not_found(name: &str) -> (r: ErrorReply)
    ensures
        r.status == 404,
        r.body matches ErrorBody::Flat { error } && error@ == "Model '"@ + name@ + "' not found in vLLM server"@,
{
    let mut error = String::from_str("Model '");
    error.append(name);
    error.append("' not found in vLLM server");
    ErrorReply { status: 404, body: ErrorBody::Flat { error } }
}

/// The `/api/ps` entry for a model the backend serves; `max_model_len` is
/// the backend's context length for it, reported as its video memory size.
pub fn process_info(id: &str, max_model_len: Option<u64>) -> (r: ProcessInfo)
    ensures
        r.name@ == id@,
        r.model@ == id@,
        r.size == 0,
        r.digest is None,
        r.details.parent_model@ == id@,
        (r.details.family@, r.details.parameter_size@) == family_of(id@),
        r.expires_at is None,
        r.size_vram == max_model_len,
{
    ProcessInfo {
        name: String::from_str(id),
        model: String::from_str(id),
        size: 0,
        digest: None,
        details: model_details(id),
        expires_at: None,
        size_vram: max_model_len,
    }
}

/// The `/api/tags` entry of a loaded model: its size on disk and the
/// hexadecimal form of its name's hash.
pub fn tag_entry(name: &str, size: u64, name_hash: u64) -> (r: ModelInfo)
    ensures
        r.name@ == name@,
        r.size == size,
        r.digest@ == hex(name_hash as nat),
{
    ModelInfo { name: String::from_str(name), size, digest: u64_to_hex(name_hash) }
}

/// The `/api/pull` answer once the model is there.
pub fn pull_success() -> (r: PullApiResponse)
    ensures
        r.status@ == "success"@,
        r.digest is None && r.total is None && r.completed is None,
{
    PullApiResponse { status: String::from_str("success"), digest: None, total: None, completed: None }
}

/// A `/api/pull` progress frame; zero counts are left out.
pub fn pull_progress(status: &str, total: u64, downloaded: u64) -> (r: PullApiResponse)
    ensures
        r.status@ == status@,
        r.digest is None,
        r.total == (if total > 0 { Some(total) } else { None::<u64> }),
        r.completed == (if downloaded > 0 { Some(downloaded) } else { None::<u64> }),
{
    PullApiResponse {
        status: String::from_str(status),
        digest: None,
        total: if total > 0 { Some(total) } else { None },
        completed: if downloaded > 0 { Some(downloaded) } else { None },
    }
}

/// The version the gateway reports.
pub const GATEWAY_VERSION: &'static str = "0.0.5";

/// The `/api/version` answer.
pub fn version() -> (r: VersionResponse)
    ensures
        r.version@ == GATEWAY_VERSION@,
{
    VersionResponse { version: String::from_str(GATEWAY_VERSION) }
}

fn str_eq(a: &str, b: &str) -> (r: bool)
    ensures
        r == (a@ == b@),
{
    if a.unicode_len() != b.unicode_len() {
        return false;
    }
    let r = str_starts_with(a, b);
    proof {
        if r {
            assert(a@.subrange(0, b@.len() as int) =~= a@);
        }
        if a@ == b@ {
            assert(a@.subrange(0, b@.len() as int) =~= b@);
        }
    }
    r
}

/// The Ollama name of a Hugging Face model that both serve, for comparing
/// the two; other names stay as they are.
pub open spec fn ollama_name_of(hf: Seq<char>) -> Seq<char> {
    if hf == "meta-llama/Llama-3.1-8B-Instruct"@ {
        "llama3.1:8b"@
    } else if hf == "meta-llama/Llama-3.2-3B-Instruct"@ {
        "llama3.2:3b"@
    } else if hf == "meta-llama/Llama-3.2-1B-Instruct"@ {
        "llama3.2:1b"@
    } else if hf == "Qwen/Qwen2.5-1.5B-Instruct"@ {
        "qwen2.5:1.5b"@
    } else if hf == "Qwen/Qwen2.5-7B-Instruct"@ {
        "qwen2.5:7b"@
    } else {
        hf
    }
}

/// Translates a Hugging Face model name to the Ollama name of the same model.
pub fn translate_to_ollama_model<'a>(hf_model: &'a str) -> (r: &'a str)
    ensures
        r@ == ollama_name_of(hf_model@),
{
    if str_eq(hf_model, "meta-llama/Llama-3.1-8B-Instruct") {
        "llama3.1:8b"
    } else if str_eq(hf_model, "meta-llama/Llama-3.2-3B-Instruct") {
        "llama3.2:3b"
    } else if str_eq(hf_model, "meta-llama/Llama-3.2-1B-Instruct") {
        "llama3.2:1b"
    } else if str_eq(hf_model, "Qwen/Qwen2.5-1.5B-Instruct") {
        "qwen2.5:1.5b"
    } else if str_eq(hf_model, "Qwen/Qwen2.5-7B-Instruct") {
        "qwen2.5:7b"
    } else {
        hf_model
    }
}

} // verus!
