//! Shapes of the voice plugin's commands that differ from the STT plugin's:
//! responses and requests that name the engine, and engine-aware health.

use vstd::prelude::*;

use crate::error::opt_view;
use crate::models::{diagnostics_view, DiagnosticEntry, DiagnosticView};

verus! {

/// The two engines of the voice plugin.
#[derive(Clone, Copy, Debug, PartialEq, Eq, Structural)]
pub enum Engine {
    Stt,
    Tts,
}

/// Where an engine (or the plugin as a whole) stands in its startup.
#[derive(Clone, Copy, Debug, PartialEq, Eq, Structural)]
pub enum LifecycleState {
    Uninitialized,
    Initializing,
    Ready,
    Failed,
}

/// Progress of the automatic startup preload of an engine.
#[derive(Clone, Copy, Debug, PartialEq, Eq, Structural)]
pub enum StartupPreloadStatus {
    Idle,
    Running,
    Ready,
    Failed,
}

/// Readiness of one engine.
#[derive(Clone, Debug)]
pub struct EngineHealth {
    pub engine: Engine,
    pub lifecycle_state: LifecycleState,
    pub ready: bool,
    pub required: bool,
    pub diagnostics: Vec<DiagnosticEntry>,
}

/// The content of an [`EngineHealth`].
pub struct EngineHealthView {
    pub engine: Engine,
    pub lifecycle_state: LifecycleState,
    pub ready: bool,
    pub required: bool,
    pub diagnostics: Seq<DiagnosticView>,
}

impl View for EngineHealth {
    type V = EngineHealthView;

    open spec fn view(&self) -> EngineHealthView {
        EngineHealthView {
            engine: self.engine,
            lifecycle_state: self.lifecycle_state,
            ready: self.ready,
            required: self.required,
            diagnostics: diagnostics_view(self.diagnostics@),
        }
    }
}

/// The views of a list of engine healths, in order.
pub open spec fn engines_view(es: Seq<EngineHealth>) -> Seq<EngineHealthView> {
    es.map_values(|e: EngineHealth| e@)
}

/// Readiness of the voice plugin: its overall lifecycle state, each engine's
/// health and every diagnostic; when not ready, also the first failing
/// check's reason.
#[derive(Clone, Debug)]
pub enum HealthResponse {
    Ready {
        lifecycle_state: LifecycleState,
        engines: Vec<EngineHealth>,
        diagnostics: Vec<DiagnosticEntry>,
    },
    NotReady {
        lifecycle_state: LifecycleState,
        reason: String,
        engines: Vec<EngineHealth>,
        diagnostics: Vec<DiagnosticEntry>,
    },
}

/// The content of a voice [`HealthResponse`]; `reason` is `None` exactly when ready.
pub struct HealthView {
    pub lifecycle_state: LifecycleState,
    pub reason: Option<Seq<char>>,
    pub engines: Seq<EngineHealthView>,
    pub diagnostics: Seq<DiagnosticView>,
}

impl View for HealthResponse {
    type V = HealthView;

    open spec fn view(&self) -> HealthView {
        match self {
            HealthResponse::Ready { lifecycle_state, engines, diagnostics } => HealthView {
                lifecycle_state: *lifecycle_state,
                reason: None,
                engines: engines_view(engines@),
                diagnostics: diagnostics_view(diagnostics@),
            },
            HealthResponse::NotReady { lifecycle_state, reason, engines, diagnostics } => HealthView {
                lifecycle_state: *lifecycle_state,
                reason: Some(reason@),
                engines: engines_view(engines@),
                diagnostics: diagnostics_view(diagnostics@),
            },
        }
    }
}

/// Engine-aware model download request.
#[derive(Clone, Debug)]
pub struct DownloadModelRequest {
    pub engine: Engine,
    pub model_id: String,
}

#[derive(Clone, Debug)]
pub struct DownloadModelResponse {
    pub engine: Engine,
    /// Effective model now loaded in the worker.
    pub model_id: String,
    /// True if the worker was already loaded with this model.
    pub already_active: bool,
}

/// Result of a file-output speech synthesis.
#[derive(Clone, Debug)]
pub struct SynthesizeSpeechResponse {
    pub audio_path: String,
    pub model_id: String,
    pub voice_id: String,
    pub language_code: Option<String>,
    pub duration_ms: Option<u64>,
    pub format: String,
    pub sample_rate_hz: Option<u32>,
    pub created_at_ms: u64,
}

/// Plugin configuration of the voice plugin.
#[derive(Clone, Debug)]
pub struct Config {
    /// Whisper model ID to load at startup; "tiny.en" when absent.
    pub model_id: Option<String>,
}

impl Default for Config {
    fn default() -> (r: Self)
        ensures
            opt_view(r.model_id) == Some("tiny.en"@),
    {
        Config { model_id: Some(String::from_str("tiny.en")) }
    }
}

} // verus!
