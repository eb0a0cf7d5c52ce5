//! Inference gateway: engine supervision, engine-client bookkeeping, engine
//! selection and translation between the Ollama and OpenAI wire dialects.

pub mod text;
pub mod request;
pub mod model;
pub mod response;
pub mod templates;
pub mod error;
pub mod cli;
pub mod config;
pub mod engine;
pub mod client;
pub mod openai;
pub mod api;
pub mod gateway;
pub mod catalog;
pub mod registry;
pub mod supervisor;
