//! Speech-to-text serving core: model provisioning decisions and transcript assembly.

pub mod error;
pub mod model_handler;
pub mod models;
pub mod params;
pub mod pipeline;
pub mod progress;
pub mod provision;
pub mod response;
pub mod transcript;
