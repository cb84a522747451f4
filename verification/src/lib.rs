//! Core logic for a flight-simulation radio assistant: phrase-sized chunking
//! of a token stream, bounded conversation history and prompt construction,
//! a pausable warmup heartbeat state machine, and an integer model of the
//! simulator telemetry that feeds them.

pub mod appstate;
pub mod atc;
pub mod ollama;
pub mod telemetry;
pub mod warmup;
pub mod streaming;
pub mod text;

pub use atc::AtcEngine;
pub use ollama::OllamaClient;
pub use telemetry::Telemetry;
pub use streaming::StreamChunk;
pub use streaming::StreamingOllama;
pub use warmup::WarmupConfig;
pub use warmup::WarmupService;
