//! The gateway's error taxonomy and how each error reaches an HTTP client.

use vstd::prelude::*;
use vstd::string::*;

verus! {

/// What can go wrong inside the gateway.
#[derive(Debug, Clone)]
pub enum Error {
    ModelNotFound(String),
    ModelLoadFailed(String),
    InferenceFailed(String),
    InvalidRequest(String),
    HardwareUnsupported(String),
    EngineNotAvailable(String),
    ConfigError(String),
}

/// The detail text an error carries.
pub open spec fn error_detail(e: Error) -> Seq<char> {
    match e {
        Error::ModelNotFound(m) => m@,
        Error::ModelLoadFailed(m) => m@,
        Error::InferenceFailed(m) => m@,
        Error::InvalidRequest(m) => m@,
        Error::HardwareUnsupported(m) => m@,
        Error::EngineNotAvailable(m) => m@,
        Error::ConfigError(m) => m@,
    }
}

/// The fixed text that introduces each kind of error.
pub open spec fn error_heading(e: Error) -> Seq<char> {
    match e {
        Error::ModelNotFound(_) => "Model not found: "@,
        Error::ModelLoadFailed(_) => "Failed to load model: "@,
        Error::InferenceFailed(_) => "Inference failed: "@,
        Error::InvalidRequest(_) => "Invalid request: "@,
        Error::HardwareUnsupported(_) => "Hardware unsupported: "@,
        Error::EngineNotAvailable(_) => "Engine not available: "@,
        Error::ConfigError(_) => "Configuration error: "@,
    }
}

/// The HTTP status an error is reported with.
pub open spec fn status_of(e: Error) -> u16 {
    match e {
        Error::ModelNotFound(_) => 404,
        Error::EngineNotAvailable(_) => 503,
        _ => 500,
    }
}

impl Error {
    /// The human-readable message: a heading for the kind, then the detail.
    pub fn message(&self) -> (r: String)
        ensures
            r@ == error_heading(*self) + error_detail(*self),
    {
        let (heading, detail) = match self {
            Error::ModelNotFound(m) => ("Model not found: ", m),
            Error::ModelLoadFailed(m) => ("Failed to load model: ", m),
            Error::InferenceFailed(m) => ("Inference failed: ", m),
            Error::InvalidRequest(m) => ("Invalid request: ", m),
            Error::HardwareUnsupported(m) => ("Hardware unsupported: ", m),
            Error::EngineNotAvailable(m) => ("Engine not available: ", m),
            Error::ConfigError(m) => ("Configuration error: ", m),
        };
        let mut r = String::from_str(heading);
        r.append(detail.as_str());
        r
    }

    /// 404 when the model is unknown, 503 when the engine cannot be reached,
    /// 500 for every other failure.
    pub fn http_status(&self) -> (r: u16)
        ensures
            r == status_of(*self),
    {
        match self {
            Error::ModelNotFound(_) => 404,
            Error::EngineNotAvailable(_) => 503,
            _ => 500,
        }
    }
}

} // verus!
