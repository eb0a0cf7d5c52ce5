//! Hardware descriptors, engine capability descriptors, and the choice of
//! an engine for the hardware at hand.

use vstd::prelude::*;
use vstd::string::*;

use crate::client::ModelHandle;
use crate::error::Error;

verus! {

/// The kind of accelerator a machine offers.
#[derive(Debug, Clone, Copy, PartialEq, Eq, Structural)]
pub enum HardwareType {
    Cpu,
    NvidiaGpu,
    AmdGpu,
    AppleSilicon,
}

/// One GPU.
#[derive(Debug, Clone)]
pub struct GpuInfo {
    pub name: String,
    pub vram_total_mb: u64,
    pub vram_available_mb: u64,
    pub compute_capability: Option<(u32, u32)>,
}

/// A machine as the hardware probe describes it.
#[derive(Debug, Clone)]
pub struct Hardware {
    pub hw_type: HardwareType,
    pub cpu_cores: usize,
    pub ram_total_mb: u64,
    pub ram_available_mb: u64,
    pub gpu_info: Option<GpuInfo>,
}

/// The machine has some GPU (NVIDIA, AMD or Apple).
pub open spec fn spec_has_gpu(hw: Hardware) -> bool {
    hw.hw_type != HardwareType::Cpu
}

impl Hardware {
    /// Whether the machine has a GPU of any vendor.
    pub fn has_gpu(&self) -> (r: bool)
        ensures
            r == spec_has_gpu(*self),
    {
        match self.hw_type {
            HardwareType::NvidiaGpu | HardwareType::AmdGpu | HardwareType::AppleSilicon => true,
            HardwareType::Cpu => false,
        }
    }

    /// The free video memory of the GPU, if one was described.
    pub fn available_vram_mb(&self) -> (r: Option<u64>)
        ensures
            r == (match self.gpu_info {
                Some(g) => Some(g.vram_available_mb),
                None => None::<u64>,
            }),
    {
        match &self.gpu_info {
            Some(g) => Some(g.vram_available_mb),
            None => None,
        }
    }
}

/// The engine implementations the gateway knows.
#[derive(Debug, Clone, Copy, PartialEq, Eq, Structural)]
pub enum EngineType {
    Max,
    Vllm,
    LlamaCpp,
}

/// Static description of what an engine implementation supports.
#[derive(Debug, Clone)]
pub struct EngineCapabilities {
    pub supports_continuous_batching: bool,
    pub supports_flash_attention: bool,
    pub supports_paged_attention: bool,
    pub supports_speculative_decoding: bool,
    pub supports_quantization: Vec<String>,
    pub max_batch_size: usize,
    pub max_sequence_length: usize,
}

/// The quantisation identifiers of a capability descriptor.
pub open spec fn quantization_names(c: EngineCapabilities) -> Seq<Seq<char>> {
    c.supports_quantization@.map_values(|s: String| s@)
}

fn names(items: &[&str]) -> (r: Vec<String>)
    ensures
        r@.map_values(|s: String| s@) == items@.map_values(|s: &str| s@),
{
    let mut out: Vec<String> = Vec::new();
    let mut i: usize = 0;
    while i < items.len()
        invariant
            i <= items@.len(),
            out@.len() == i,
            forall|k: int| 0 <= k < i ==> out@[k]@ == items@[k]@,
        decreases items@.len() - i,
    {
        let s = String::from_str(items[i]);
        out.push(s);
        i = i + 1;
    }
    assert(out@.map_values(|s: String| s@) =~= items@.map_values(|s: &str| s@));
    out
}

impl Default for EngineCapabilities {
    /// Nothing supported beyond single-sequence decoding of 4096 tokens.
    fn default() -> (r: EngineCapabilities)
        ensures
            !r.supports_continuous_batching && !r.supports_flash_attention,
            !r.supports_paged_attention && !r.supports_speculative_decoding,
            r.supports_quantization@.len() == 0,
            r.max_batch_size == 1 && r.max_sequence_length == 4096,
    {
        EngineCapabilities {
            supports_continuous_batching: false,
            supports_flash_attention: false,
            supports_paged_attention: false,
            supports_speculative_decoding: false,
            supports_quantization: Vec::new(),
            max_batch_size: 1,
            max_sequence_length: 4096,
        }
    }
}

/// The flags and limits of each engine's descriptor.
pub open spec fn capability_flags(t: EngineType) -> (bool, bool, bool, bool, usize, usize) {
    match t {
        EngineType::Vllm => (true, true, true, false, 256, 32768),
        EngineType::Max => (true, true, true, false, 128, 32768),
        EngineType::LlamaCpp => (false, false, false, false, 512, 32768),
    }
}

/// The quantisation formats of each engine's descriptor.
pub open spec fn capability_quantization(t: EngineType) -> Seq<Seq<char>> {
    match t {
        EngineType::Vllm => seq!["awq"@, "gptq"@, "squeezellm"@, "fp8"@],
        EngineType::Max => seq!["int8"@, "int4"@],
        EngineType::LlamaCpp => seq!["q4_0"@, "q4_1"@, "q5_0"@, "q5_1"@, "q8_0"@],
    }
}

/// The capability descriptor `c` is the one of engine `t`.
pub open spec fn describes(c: EngineCapabilities, t: EngineType) -> bool {
    (c.supports_continuous_batching, c.supports_flash_attention, c.supports_paged_attention,
        c.supports_speculative_decoding, c.max_batch_size, c.max_sequence_length)
        == capability_flags(t) && quantization_names(c) == capability_quantization(t)
}

/// Whether engine `t` can run on `hw`: vLLM needs an NVIDIA GPU, MAX a GPU
/// or at least four CPU cores, llama.cpp runs anywhere.
pub open spec fn engine_supports(t: EngineType, hw: Hardware) -> bool {
    match t {
        EngineType::Vllm => hw.hw_type == HardwareType::NvidiaGpu,
        EngineType::Max => spec_has_gpu(hw) || hw.cpu_cores >= 4,
        EngineType::LlamaCpp => true,
    }
}

impl EngineType {
    /// The static capability descriptor of this engine.
    pub fn capabilities(&self) -> (r: EngineCapabilities)
        ensures
            describes(r, *self),
    {
        match self {
            EngineType::Vllm => {
                let q = names(&["awq", "gptq", "squeezellm", "fp8"]);
                proof {
                    assert(q@.map_values(|s: String| s@) =~= capability_quantization(EngineType::Vllm));
                }
                EngineCapabilities {
                    supports_continuous_batching: true,
                    supports_flash_attention: true,
                    supports_paged_attention: true,
                    supports_speculative_decoding: false,
                    supports_quantization: q,
                    max_batch_size: 256,
                    max_sequence_length: 32768,
                }
            },
            EngineType::Max => {
                let q = names(&["int8", "int4"]);
                proof {
                    assert(q@.map_values(|s: String| s@) =~= capability_quantization(EngineType::Max));
                }
                EngineCapabilities {
                    supports_continuous_batching: true,
                    supports_flash_attention: true,
                    supports_paged_attention: true,
                    supports_speculative_decoding: false,
                    supports_quantization: q,
                    max_batch_size: 128,
                    max_sequence_length: 32768,
                }
            },
            EngineType::LlamaCpp => LlamaCppEngine::new().capabilities,
        }
    }

    /// Whether this engine can run on the given hardware.
    pub fn supports_hardware(&self, hardware: &Hardware) -> (r: bool)
        ensures
            r == engine_supports(*self, *hardware),
    {
        match self {
            EngineType::Vllm => match hardware.hw_type {
                HardwareType::NvidiaGpu => true,
                _ => false,
            },
            EngineType::Max => hardware.has_gpu() || hardware.cpu_cores >= 4,
            EngineType::LlamaCpp => true,
        }
    }
}

/// The llama.cpp engine, described by its capabilities.
pub struct LlamaCppEngine {
    pub capabilities: EngineCapabilities,
}

impl LlamaCppEngine {
    /// The llama.cpp descriptor: no batching features, GGUF quantisations.
    pub fn new() -> (r: LlamaCppEngine)
        ensures
            describes(r.capabilities, EngineType::LlamaCpp),
    {
        let q = names(&["q4_0", "q4_1", "q5_0", "q5_1", "q8_0"]);
        proof {
            assert(q@.map_values(|s: String| s@) =~= capability_quantization(EngineType::LlamaCpp));
        }
        LlamaCppEngine {
            capabilities: EngineCapabilities {
                supports_continuous_batching: false,
                supports_flash_attention: false,
                supports_paged_attention: false,
                supports_speculative_decoding: false,
                supports_quantization: q,
                max_batch_size: 512,
                max_sequence_length: 32768,
            },
        }
    }
}

/// The vLLM engine reached through its OpenAI-compatible server, which
/// loads its model itself at startup.
pub struct VllmOpenAIEngine {
    pub base_url: String,
}

impl VllmOpenAIEngine {
    /// An engine whose server listens at `base_url`.
    pub fn new(base_url: &str) -> (r: VllmOpenAIEngine)
        ensures
            r.base_url@ == base_url@,
    {
        VllmOpenAIEngine { base_url: String::from_str(base_url) }
    }

    /// Always vLLM.
    pub fn engine_type(&self) -> (r: EngineType)
        ensures
            r == EngineType::Vllm,
    {
        EngineType::Vllm
    }

    /// The vLLM capability descriptor.
    pub fn capabilities(&self) -> (r: EngineCapabilities)
        ensures
            describes(r, EngineType::Vllm),
    {
        EngineType::Vllm.capabilities()
    }

    /// Whether vLLM can run on the given hardware.
    pub fn supports_hardware(&self, hardware: &Hardware) -> (r: bool)
        ensures
            r == engine_supports(EngineType::Vllm, *hardware),
    {
        EngineType::Vllm.supports_hardware(hardware)
    }

    /// The server loads its model at startup, so loading is a no-op that
    /// hands out the same placeholder handle for every path.
    pub fn load_model(&mut self, path: &str) -> (r: Result<ModelHandle, Error>)
        ensures
            r == Ok::<ModelHandle, Error>(ModelHandle(0)),
            final(self).base_url@ == old(self).base_url@,
    {
        Ok(ModelHandle(0))
    }

    /// The server manages model lifetime itself: unloading does nothing.
    pub fn unload_model(&mut self, handle: ModelHandle) -> (r: Result<(), Error>)
        ensures
            r is Ok,
            final(self).base_url@ == old(self).base_url@,
    {
        Ok(())
    }
}

/// The engines kept for `hw`, most capable first: vLLM and MAX when they can
/// run on it, llama.cpp always, as the general fallback.
pub open spec fn preferred_engines(hw: Hardware) -> Seq<EngineType> {
    let v: Seq<EngineType> = if engine_supports(EngineType::Vllm, hw) { seq![EngineType::Vllm] } else { Seq::empty() };
    let m: Seq<EngineType> = if engine_supports(EngineType::Max, hw) { seq![EngineType::Max] } else { Seq::empty() };
    v + m + seq![EngineType::LlamaCpp]
}

/// The first engine of `es` that can run on `hw`.
pub open spec fn first_supported(es: Seq<EngineType>, hw: Hardware) -> Option<EngineType>
    decreases es.len(),
{
    if es.len() == 0 {
        None
    } else if engine_supports(es[0], hw) {
        Some(es[0])
    } else {
        first_supported(es.drop_first(), hw)
    }
}

/// The engine chosen among `es`: the first that can run on `hw`, else the
/// first of all, else none.
pub open spec fn selection(es: Seq<EngineType>, hw: Hardware) -> Option<EngineType> {
    match first_supported(es, hw) {
        Some(t) => Some(t),
        None => if es.len() > 0 { Some(es[0]) } else { None },
    }
}

/// Keeps the candidate engines in order of preference and picks one.
pub struct EngineOrchestrator {
    pub engines: Vec<EngineType>,
    pub hardware: Hardware,
}

impl EngineOrchestrator {
    /// An orchestrator for `hardware` with no engine yet.
    pub fn new(hardware: Hardware) -> (r: EngineOrchestrator)
        ensures
            r.engines@.len() == 0,
            r.hardware == hardware,
    {
        EngineOrchestrator { engines: Vec::new(), hardware }
    }

    /// Keeps the engines that can run on the hardware, most capable first.
    pub fn initialize(&mut self)
        ensures
            final(self).engines@ == preferred_engines(old(self).hardware),
            final(self).hardware == old(self).hardware,
    {
        let mut engines: Vec<EngineType> = Vec::new();
        if EngineType::Vllm.supports_hardware(&self.hardware) {
            engines.push(EngineType::Vllm);
        }
        if EngineType::Max.supports_hardware(&self.hardware) {
            engines.push(EngineType::Max);
        }
        engines.push(EngineType::LlamaCpp);
        self.engines = engines;
        assert(self.engines@ =~= preferred_engines(self.hardware));
    }

    /// The first kept engine that can run on the hardware; failing that the
    /// first kept engine; none when nothing is kept.
    pub fn select_engine(&self) -> (r: Option<EngineType>)
        ensures
            r == selection(self.engines@, self.hardware),
    {
        let mut i: usize = 0;
        assert(self.engines@.subrange(0, self.engines@.len() as int) =~= self.engines@);
        while i < self.engines.len()
            invariant
                i <= self.engines@.len(),
                first_supported(self.engines@, self.hardware)
                    == first_supported(self.engines@.subrange(i as int, self.engines@.len() as int), self.hardware),
            decreases self.engines@.len() - i,
        {
            let t = self.engines[i];
            proof {
                let rest = self.engines@.subrange(i as int, self.engines@.len() as int);
                assert(rest[0] == t);
                assert(rest.drop_first() =~= self.engines@.subrange(i + 1, self.engines@.len() as int));
            }
            if t.supports_hardware(&self.hardware) {
                return Some(t);
            }
            i = i + 1;
        }
        if self.engines.len() > 0 {
            Some(self.engines[0])
        } else {
            None
        }
    }

    /// The kept engines, in order of preference.
    pub fn available_engines(&self) -> (r: Vec<EngineType>)
        ensures
            r@ == self.engines@,
    {
        self.engines.clone()
    }

    /// The hardware the engines were chosen for.
    pub fn hardware(&self) -> (r: &Hardware)
        ensures
            *r == self.hardware,
    {
        &self.hardware
    }
}

} // verus!
