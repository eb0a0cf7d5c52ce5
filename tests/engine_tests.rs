use vllama::client::{
    health_from_body, parse_stream_chunk, stream_chunk_text, Exchange, HttpEngineClient,
    LoadModelResponse, ModelHandle, LOAD_MAX_LENGTH,
};
use vllama::config::Config;
use vllama::engine::{EngineOrchestrator, EngineType, Hardware, HardwareType, GpuInfo, LlamaCppEngine, VllmOpenAIEngine};
use vllama::error::Error;
use vllama::request::{GenerateRequest, RequestId};
use vllama::supervisor::{
    backend_command_args, BackendSettings, GroupSignal, Supervisor, SupervisorAction,
    SupervisorEvent, SupervisorPhase, HEALTH_POLL_ATTEMPTS,
};
use vllama::text::{u64_to_decimal, u64_to_hex};

#[test]
fn test_engine_creation() {
    let engine = VllmOpenAIEngine::new("http://localhost:8100");
    assert_eq!(engine.base_url, "http://localhost:8100");
}

#[test]
fn test_capabilities() {
    let engine = VllmOpenAIEngine::new("http://localhost:8100");
    let caps = engine.capabilities();

    assert!(caps.supports_continuous_batching);
    assert!(caps.supports_paged_attention);
    assert_eq!(caps.max_batch_size, 256);
}

#[test]
fn test_config_merge() {
    let base = Config::default();
    let mut override_config = Config::default();
    override_config.server.port = 9999;

    let merged = base.merge(override_config);
    assert_eq!(merged.server.port, 9999);
    assert_eq!(merged.server.host, "127.0.0.1"); // unchanged
}

fn machine(hw_type: HardwareType, cpu_cores: usize) -> Hardware {
    Hardware { hw_type, cpu_cores, ram_total_mb: 16000, ram_available_mb: 8000, gpu_info: None }
}

#[test]
fn orchestrator_prefers_most_capable_engine() {
    let mut o = EngineOrchestrator::new(machine(HardwareType::NvidiaGpu, 8));
    o.initialize();
    assert_eq!(o.available_engines(), vec![EngineType::Vllm, EngineType::Max, EngineType::LlamaCpp]);
    assert_eq!(o.select_engine(), Some(EngineType::Vllm));

    let mut small = EngineOrchestrator::new(machine(HardwareType::Cpu, 2));
    small.initialize();
    assert_eq!(small.available_engines(), vec![EngineType::LlamaCpp]);
    assert_eq!(small.select_engine(), Some(EngineType::LlamaCpp));

    let mut cpu = EngineOrchestrator::new(machine(HardwareType::Cpu, 4));
    cpu.initialize();
    assert_eq!(cpu.select_engine(), Some(EngineType::Max));
}

#[test]
fn orchestrator_falls_back_to_first_engine() {
    let mut o = EngineOrchestrator::new(machine(HardwareType::Cpu, 1));
    o.engines = vec![EngineType::Vllm, EngineType::Max];
    assert_eq!(o.select_engine(), Some(EngineType::Vllm));
    let empty = EngineOrchestrator::new(machine(HardwareType::Cpu, 1));
    assert_eq!(empty.select_engine(), None);
}

#[test]
fn hardware_queries() {
    let mut hw = machine(HardwareType::AppleSilicon, 8);
    assert!(hw.has_gpu());
    assert_eq!(hw.available_vram_mb(), None);
    hw.gpu_info = Some(GpuInfo { name: "g".to_string(), vram_total_mb: 8, vram_available_mb: 5, compute_capability: None });
    assert_eq!(hw.available_vram_mb(), Some(5));
    assert!(!machine(HardwareType::Cpu, 8).has_gpu());
}

#[test]
fn llama_cpp_descriptor() {
    let e = LlamaCppEngine::new();
    assert_eq!(e.capabilities.max_batch_size, 512);
    assert_eq!(e.capabilities.supports_quantization, vec!["q4_0", "q4_1", "q5_0", "q5_1", "q8_0"]);
    assert!(!EngineType::Vllm.capabilities().supports_speculative_decoding);
}

#[test]
fn client_mints_fresh_handles() {
    let mut c = HttpEngineClient::new("http://h:1", "vLLM");
    assert_eq!(c.load_url(), "http://h:1/models/load");
    assert_eq!(HttpEngineClient::load_request("/m").max_length, LOAD_MAX_LENGTH);
    let h1 = c
        .finish_load(Exchange::Received(LoadModelResponse { model_id: "a".to_string(), status: "ok".to_string() }))
        .unwrap();
    let h2 = c
        .finish_load(Exchange::Received(LoadModelResponse { model_id: "b".to_string(), status: "ok".to_string() }))
        .unwrap();
    assert_eq!(h1, ModelHandle(1));
    assert_eq!(h2, ModelHandle(2));
    assert_eq!(c.get_model_id(h2), Some("b".to_string()));
    assert_eq!(c.unload_url("a"), "http://h:1/models/unload?model_id=a");
}

#[test]
fn client_load_failures_keep_diagnostics() {
    let mut c = HttpEngineClient::new("http://h:1", "vLLM");
    let r = c.finish_load(Exchange::Rejected { status: "500 Internal Server Error".to_string(), body: "bad".to_string() });
    match r {
        Err(Error::ModelLoadFailed(m)) => assert_eq!(m, "Status 500 Internal Server Error: bad"),
        _ => panic!("load failure expected"),
    }
    let r = c.finish_load(Exchange::Unreachable("refused".to_string()));
    match r {
        Err(Error::ModelLoadFailed(m)) => assert_eq!(m, "HTTP request failed: refused"),
        _ => panic!("load failure expected"),
    }
    assert_eq!(c.next_handle, 1);
}

#[test]
fn client_unload_removes_only_after_success() {
    let mut c = HttpEngineClient::new("http://h:1", "vLLM");
    let h = c
        .finish_load(Exchange::Received(LoadModelResponse { model_id: "a".to_string(), status: "ok".to_string() }))
        .unwrap();
    assert_eq!(c.unload_target(h).unwrap(), "a");
    assert!(c.finish_unload(h, Exchange::Malformed("x".to_string())).is_err());
    assert_eq!(c.get_model_id(h), Some("a".to_string()));
    assert!(c.finish_unload(h, Exchange::Received(())).is_ok());
    assert_eq!(c.get_model_id(h), None);
    match c.unload_target(ModelHandle(42)) {
        Err(Error::ModelNotFound(m)) => assert_eq!(m, "Handle 42 not found"),
        _ => panic!("not found expected"),
    }
}

#[test]
fn client_generate_failure_is_inference_failed() {
    let req = GenerateRequest::new(3, "m".to_string(), "p".to_string());
    match HttpEngineClient::finish_generate(&req, Exchange::Malformed("eof".to_string())) {
        Err(Error::InferenceFailed(m)) => assert_eq!(m, "Failed to parse response: eof"),
        _ => panic!("inference failure expected"),
    }
    let p = HttpEngineClient::generate_payload(&req, true);
    assert!(p.stream);
    assert_eq!(p.model_id, "m");
}

#[test]
fn stream_chunk_reads_first_data_line() {
    assert_eq!(stream_chunk_text("data: {\"text\": \"hi\"}\n\n"), "hi");
    assert_eq!(stream_chunk_text(": keep-alive\r\ndata: {\"text\":\"x\"}\r\n"), "x");
    assert_eq!(stream_chunk_text("data: not json\ndata: {\"text\":\"second\"}"), "second");
    assert_eq!(stream_chunk_text("data: {\"other\": 1}"), "");
    assert_eq!(stream_chunk_text(""), "");
    let chunk = parse_stream_chunk(RequestId(9), "demo", "data: {\"text\":\"tok\"}\n");
    assert_eq!(chunk.text, "tok");
    assert_eq!(chunk.id, RequestId(9));
    assert!(!chunk.finished);
}

#[test]
fn health_body_reading() {
    assert!(health_from_body("{\"vllm_available\": true}", "vllm_available"));
    assert!(!health_from_body("{\"vllm_available\": false}", "vllm_available"));
    assert!(!health_from_body("{\"vllm_available\": \"yes\"}", "vllm_available"));
    assert!(!health_from_body("garbage", "vllm_available"));
}

#[test]
fn backend_command_line() {
    let s = BackendSettings {
        model: "facebook/opt-125m".to_string(),
        port: 8100,
        max_num_seqs: 256,
        gpu_memory_utilization: "0.9".to_string(),
    };
    let args = backend_command_args(&s);
    assert_eq!(
        args,
        vec![
            "run", "--directory", "python", "python", "-m", "vllm.entrypoints.openai.api_server",
            "--model", "facebook/opt-125m", "--port", "8100", "--max-num-seqs", "256",
            "--max-num-batched-tokens", "16384", "--enable-chunked-prefill",
            "--enable-prefix-caching", "--gpu-memory-utilization", "0.9",
        ]
    );
}

#[test]
fn failed_health_gate_tears_group_down() {
    let mut s = Supervisor::new(3);
    assert_eq!(s.on_event(SupervisorEvent::Spawned(4242)), SupervisorAction::Probe);
    assert_eq!(s.on_event(SupervisorEvent::Probed(false)), SupervisorAction::Probe);
    assert_eq!(s.on_event(SupervisorEvent::Probed(false)), SupervisorAction::Probe);
    assert_eq!(
        s.on_event(SupervisorEvent::Probed(false)),
        SupervisorAction::Signal { group: -4242, signal: GroupSignal::Terminate }
    );
    assert_eq!(s.on_event(SupervisorEvent::StepDone), SupervisorAction::Wait(2000));
    assert_eq!(
        s.on_event(SupervisorEvent::StepDone),
        SupervisorAction::Signal { group: -4242, signal: GroupSignal::Kill }
    );
    assert_eq!(s.on_event(SupervisorEvent::StepDone), SupervisorAction::Reap);
    assert_eq!(s.on_event(SupervisorEvent::StepDone), SupervisorAction::Fail);
    assert_eq!(s.phase, SupervisorPhase::Failed);
}

#[test]
fn shutdown_tears_group_down() {
    let mut s = Supervisor::new(HEALTH_POLL_ATTEMPTS);
    s.on_event(SupervisorEvent::Spawned(77));
    assert_eq!(s.on_event(SupervisorEvent::Probed(true)), SupervisorAction::Serve);
    assert_eq!(s.on_event(SupervisorEvent::Probed(true)), SupervisorAction::Ignore);
    assert_eq!(
        s.on_event(SupervisorEvent::Shutdown),
        SupervisorAction::Signal { group: -77, signal: GroupSignal::Terminate }
    );
    assert_eq!(s.on_event(SupervisorEvent::StepDone), SupervisorAction::Wait(2000));
    assert_eq!(
        s.on_event(SupervisorEvent::StepDone),
        SupervisorAction::Signal { group: -77, signal: GroupSignal::Kill }
    );
    assert_eq!(s.on_event(SupervisorEvent::StepDone), SupervisorAction::Reap);
    assert_eq!(s.on_event(SupervisorEvent::StepDone), SupervisorAction::Finish);
    assert_eq!(s.phase, SupervisorPhase::Stopped);
}

#[test]
fn spawn_failure_fails_startup() {
    let mut s = Supervisor::new(1);
    assert_eq!(s.on_event(SupervisorEvent::SpawnFailed), SupervisorAction::Fail);
    assert_eq!(s.phase, SupervisorPhase::Failed);
}

#[test]
fn number_formatting() {
    assert_eq!(u64_to_decimal(0), "0");
    assert_eq!(u64_to_decimal(11435), "11435");
    assert_eq!(u64_to_decimal(u64::MAX), "18446744073709551615");
    assert_eq!(u64_to_hex(u64::MAX), "ffffffffffffffff");
    assert_eq!(u64_to_hex(10), "a");
}

#[test]
fn openai_engine_load_is_a_placeholder() {
    let mut engine = VllmOpenAIEngine::new("http://localhost:8100");
    assert_eq!(engine.load_model("/models/a").unwrap(), ModelHandle(0));
    assert_eq!(engine.load_model("/models/b").unwrap(), ModelHandle(0));
    assert!(engine.unload_model(ModelHandle(0)).is_ok());
    assert_eq!(engine.engine_type(), EngineType::Vllm);
}
