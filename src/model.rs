//! Description of a model file known to the gateway.

use vstd::prelude::*;
use vstd::string::*;

verus! {

/// On-disk format of a model.
#[derive(Debug, Clone, Copy, PartialEq, Eq, Structural)]
pub enum ModelFormat {
    Gguf,
    SafeTensors,
    Pytorch,
}

/// A model file and what is known about it.
#[derive(Debug, Clone)]
pub struct ModelInfo {
    pub name: String,
    pub path: String,
    pub format: ModelFormat,
    pub size_bytes: u64,
    pub architecture: String,
    pub context_length: usize,
    pub quantization: Option<String>,
}

impl ModelInfo {
    /// A GGUF model of unknown size and architecture, with a 4096-token context.
    pub fn new(name: String, path: String) -> (r: ModelInfo)
        ensures
            r.name@ == name@,
            r.path@ == path@,
            r.format == ModelFormat::Gguf,
            r.size_bytes == 0,
            r.architecture@ == "unknown"@,
            r.context_length == 4096,
            r.quantization is None,
    {
        ModelInfo {
            name,
            path,
            format: ModelFormat::Gguf,
            size_bytes: 0,
            architecture: String::from_str("unknown"),
            context_length: 4096,
            quantization: None,
        }
    }

    /// The same description with another format.
    pub fn with_format(self, format: ModelFormat) -> (r: ModelInfo)
        ensures
            r.format == format,
            r.name@ == self.name@ && r.path@ == self.path@ && r.size_bytes == self.size_bytes,
            r.architecture@ == self.architecture@ && r.context_length == self.context_length,
            r.quantization == self.quantization,
    {
        let mut r = self;
        r.format = format;
        r
    }

    /// The same description with another size.
    pub fn with_size(self, size_bytes: u64) -> (r: ModelInfo)
        ensures
            r.size_bytes == size_bytes,
            r.name@ == self.name@ && r.path@ == self.path@ && r.format == self.format,
            r.architecture@ == self.architecture@ && r.context_length == self.context_length,
            r.quantization == self.quantization,
    {
        let mut r = self;
        r.size_bytes = size_bytes;
        r
    }

    /// The same description with another architecture.
    pub fn with_architecture(self, architecture: String) -> (r: ModelInfo)
        ensures
            r.architecture@ == architecture@,
            r.name@ == self.name@ && r.path@ == self.path@ && r.format == self.format,
            r.size_bytes == self.size_bytes && r.context_length == self.context_length,
            r.quantization == self.quantization,
    {
        let mut r = self;
        r.architecture = architecture;
        r
    }
}

} // verus!
