//! Request conversion, model resolution and wire formatting for a local
//! inference server that speaks the Ollama REST API.

pub mod text;
pub mod model_resolver;
pub mod json;
pub mod clock;
pub mod translator;
pub mod http;
pub mod models;
pub mod ollama_compat;
pub mod pull;
pub mod releases;
pub mod sidecar;
pub mod paths;
pub mod db;
pub mod proxy;
pub mod autostart;
pub mod tray;
