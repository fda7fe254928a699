//! Verified core of the local voice plugin: readiness aggregation, engine
//! lifecycle bookkeeping, request validation and worker-reply interpretation
//! for speech-to-text and text-to-speech.

pub mod bootstrap;
pub mod bridge;
pub mod clock;
pub mod engines;
pub mod error;
pub mod health;
pub mod json;
pub mod models;
pub mod pipeline;
pub mod runtime;
pub mod sidecar;
pub mod stt;
pub mod text;
pub mod tts;
pub mod voice_health;
pub mod voice_models;
pub mod voice_stt;
