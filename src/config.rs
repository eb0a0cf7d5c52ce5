//! Settings of the command line and the gateway, their built-in defaults,
//! and how a settings file overrides them.

use vstd::prelude::*;
use vstd::string::*;

verus! {

/// Address the gateway binds by default.
pub fn default_host() -> (r: String)
    ensures
        r@ == "127.0.0.1"@,
{
    String::from_str("127.0.0.1")
}

/// Port of the gateway by default, next to Ollama's own.
pub fn default_port() -> (r: u16)
    ensures
        r == 11435,
{
    11435
}

/// Port of the backend engine by default.
pub fn default_vllm_port() -> (r: u16)
    ensures
        r == 8100,
{
    8100
}

/// Share of GPU memory the backend may take by default, in percent.
pub fn default_gpu_memory_percent() -> (r: u8)
    ensures
        r == 90,
{
    90
}

/// Concurrent sequences of the backend by default.
pub fn default_max_num_seqs() -> (r: usize)
    ensures
        r == 256,
{
    256
}

/// Log level by default.
pub fn default_log_level() -> (r: String)
    ensures
        r@ == "info"@,
{
    String::from_str("info")
}

/// Where the gateway and the backend listen.
#[derive(Debug, Clone)]
pub struct ServerConfig {
    pub host: String,
    pub port: u16,
    pub vllm_port: u16,
}

/// Which model to serve and how the backend may use the GPU.
#[derive(Debug, Clone)]
pub struct ModelConfig {
    pub default_model: Option<String>,
    /// Share of GPU memory, in percent.
    pub gpu_memory_percent: u8,
    pub max_num_seqs: usize,
}

/// How the command line logs.
#[derive(Debug, Clone)]
pub struct LoggingConfig {
    pub level: String,
    pub json: bool,
}

/// How the command line prints.
#[derive(Debug, Clone, Copy, PartialEq, Eq, Structural)]
pub struct OutputConfig {
    pub quiet: bool,
    pub json: bool,
}

/// All settings.
#[derive(Debug, Clone)]
pub struct Config {
    pub server: ServerConfig,
    pub model: ModelConfig,
    pub logging: LoggingConfig,
    pub output: OutputConfig,
}

/// The settings are the built-in defaults.
pub open spec fn is_default(c: Config) -> bool {
    &&& c.server.host@ == "127.0.0.1"@
    &&& c.server.port == 11435
    &&& c.server.vllm_port == 8100
    &&& c.model.default_model is None
    &&& c.model.gpu_memory_percent == 90
    &&& c.model.max_num_seqs == 256
    &&& c.logging.level@ == "info"@
    &&& !c.logging.json
    &&& c.output == OutputConfig { quiet: false, json: false }
}

/// A value taken from `other` where it differs from the default `d`, else from `base`.
pub open spec fn pick<T>(base: T, other: T, d: T) -> T {
    if other != d { other } else { base }
}

/// `merged` is `base` overridden by what `other` sets: each setting of
/// `other` that differs from its default wins, and flags only turn on.
pub open spec fn merged_from(merged: Config, base: Config, other: Config) -> bool {
    &&& merged.server.host@ == pick(base.server.host@, other.server.host@, "127.0.0.1"@)
    &&& merged.server.port == pick(base.server.port, other.server.port, 11435u16)
    &&& merged.server.vllm_port == pick(base.server.vllm_port, other.server.vllm_port, 8100u16)
    &&& merged.model.default_model == (if other.model.default_model is Some { other.model.default_model } else { base.model.default_model })
    &&& merged.model.gpu_memory_percent == pick(base.model.gpu_memory_percent, other.model.gpu_memory_percent, 90u8)
    &&& merged.model.max_num_seqs == pick(base.model.max_num_seqs, other.model.max_num_seqs, 256usize)
    &&& merged.logging.level@ == pick(base.logging.level@, other.logging.level@, "info"@)
    &&& merged.logging.json == (base.logging.json || other.logging.json)
    &&& merged.output.quiet == (base.output.quiet || other.output.quiet)
    &&& merged.output.json == (base.output.json || other.output.json)
}

impl ServerConfig {
    /// The default listening addresses.
    pub fn new() -> (r: ServerConfig)
        ensures
            r.host@ == "127.0.0.1"@ && r.port == 11435 && r.vllm_port == 8100,
    {
        ServerConfig { host: default_host(), port: default_port(), vllm_port: default_vllm_port() }
    }
}

impl LoggingConfig {
    /// Plain logs at level `info`.
    pub fn new() -> (r: LoggingConfig)
        ensures
            r.level@ == "info"@ && !r.json,
    {
        LoggingConfig { level: default_log_level(), json: false }
    }
}

impl Config {
    /// The built-in defaults.
    pub fn new() -> (r: Config)
        ensures
            is_default(r),
    {
        Config {
            server: ServerConfig::new(),
            model: ModelConfig {
                default_model: None,
                gpu_memory_percent: default_gpu_memory_percent(),
                max_num_seqs: default_max_num_seqs(),
            },
            logging: LoggingConfig::new(),
            output: OutputConfig { quiet: false, json: false },
        }
    }

    /// These settings overridden by `other`: each setting of `other` that
    /// differs from its default wins, and flags only turn on.
    pub fn merge(self, other: Config) -> (r: Config)
        ensures
            merged_from(r, self, other),
    {
        let mut c = self;
        let dh = default_host();
        if other.server.host != dh {
            c.server.host = other.server.host;
        }
        if other.server.port != default_port() {
            c.server.port = other.server.port;
        }
        if other.server.vllm_port != default_vllm_port() {
            c.server.vllm_port = other.server.vllm_port;
        }
        if other.model.default_model.is_some() {
            c.model.default_model = other.model.default_model;
        }
        if other.model.gpu_memory_percent != default_gpu_memory_percent() {
            c.model.gpu_memory_percent = other.model.gpu_memory_percent;
        }
        if other.model.max_num_seqs != default_max_num_seqs() {
            c.model.max_num_seqs = other.model.max_num_seqs;
        }
        let dl = default_log_level();
        if other.logging.level != dl {
            c.logging.level = other.logging.level;
        }
        if other.logging.json {
            c.logging.json = true;
        }
        if other.output.quiet {
            c.output.quiet = true;
        }
        if other.output.json {
            c.output.json = true;
        }
        c
    }
}

impl Default for ServerConfig {
    fn default() -> (r: ServerConfig)
        ensures
            r.host@ == "127.0.0.1"@ && r.port == 11435 && r.vllm_port == 8100,
    {
        ServerConfig::new()
    }
}

impl Default for LoggingConfig {
    fn default() -> (r: LoggingConfig)
        ensures
            r.level@ == "info"@ && !r.json,
    {
        LoggingConfig::new()
    }
}

impl Default for Config {
    fn default() -> (r: Config)
        ensures
            is_default(r),
    {
        Config::new()
    }
}

} // verus!
