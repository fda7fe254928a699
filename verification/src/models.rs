//! Request, response, event and configuration shapes of the plugin commands.
//! Their JSON encodings (camelCase fields, `status`/`type` tags) are given to
//! them by the host application's serde layer.

use vstd::prelude::*;

use crate::error::opt_view;
use crate::voice_models::LifecycleState;

verus! {

/// The wire version stamped on recorder-bridge responses and events.
pub const CONTRACT_VERSION: &'static str = "0.1.0";

#[derive(Clone, Debug)]
pub struct BootstrapRequest {}

#[derive(Clone, Debug)]
pub enum BootstrapResponse {
    Ready { details: String },
    AlreadyReady { details: String },
}

/// On-demand model download request.
#[derive(Clone, Debug)]
pub struct DownloadModelRequest {
    /// Allowlisted Whisper model ID to download and load.
    pub model_id: String,
}

#[derive(Clone, Debug)]
pub struct DownloadModelResponse {
    /// Effective model now loaded in the worker.
    pub model_id: String,
    /// True if the worker was already loaded with this model.
    pub already_active: bool,
}

/// Progress phase: download (network fetch) or preload (memory load).
#[derive(Clone, Copy, Debug, PartialEq, Eq, Structural)]
pub enum ModelProgressPhase {
    Download,
    Preload,
}

/// Progress lifecycle state for a phase.
#[derive(Clone, Copy, Debug, PartialEq, Eq, Structural)]
pub enum ModelProgressState {
    Start,
    InProgress,
    Complete,
    Failed,
}

#[derive(Clone, Debug)]
pub struct TranscribeRequest {
    pub path: String,
    pub model_id: Option<String>,
}

#[derive(Clone, Debug)]
pub struct TranscribeResponse {
    pub text: String,
}

#[derive(Clone, Debug)]
pub struct SetupRecordTranscribePipelineRequest {
    pub toggle_shortcut: String,
    pub recorder_config: Option<RecorderConfig>,
    pub model_id: Option<String>,
    pub show_final_transcript: Option<bool>,
}

#[derive(Clone, Debug)]
pub struct SetupRecordTranscribePipelineResponse {
    pub contract_version: String,
    pub active: bool,
}

#[derive(Clone, Debug)]
pub struct HealthRequest {}

/// One readiness check and, when it fails, why.
#[derive(Clone, Debug)]
pub struct DiagnosticEntry {
    pub name: String,
    pub ready: bool,
    pub reason: Option<String>,
}

/// The text of a [`DiagnosticEntry`].
pub struct DiagnosticView {
    pub name: Seq<char>,
    pub ready: bool,
    pub reason: Option<Seq<char>>,
}

impl View for DiagnosticEntry {
    type V = DiagnosticView;

    open spec fn view(&self) -> DiagnosticView {
        DiagnosticView { name: self.name@, ready: self.ready, reason: opt_view(self.reason) }
    }
}

/// The views of a list of diagnostics, in order.
pub open spec fn diagnostics_view(ds: Seq<DiagnosticEntry>) -> Seq<DiagnosticView> {
    ds.map_values(|d: DiagnosticEntry| d@)
}

/// STT readiness: ready with its diagnostics, or not ready with the first
/// failing check's reason; either way with the engine's lifecycle state.
#[derive(Clone, Debug)]
pub enum HealthResponse {
    Ready { lifecycle_state: LifecycleState, diagnostics: Vec<DiagnosticEntry> },
    NotReady { lifecycle_state: LifecycleState, reason: String, diagnostics: Vec<DiagnosticEntry> },
}

impl HealthResponse {
    /// The diagnostics, whichever the status.
    pub open spec fn diagnostics_spec(self) -> Seq<DiagnosticView> {
        match self {
            HealthResponse::Ready { diagnostics, .. } => diagnostics_view(diagnostics@),
            HealthResponse::NotReady { diagnostics, .. } => diagnostics_view(diagnostics@),
        }
    }

    /// The lifecycle state, whichever the status.
    pub open spec fn lifecycle_spec(self) -> LifecycleState {
        match self {
            HealthResponse::Ready { lifecycle_state, .. } => lifecycle_state,
            HealthResponse::NotReady { lifecycle_state, .. } => lifecycle_state,
        }
    }
}

#[derive(Clone, Copy, Debug, PartialEq, Eq, Structural)]
pub enum DeliveryMode {
    Chunks,
    File,
    Both,
}

impl Default for DeliveryMode {
    fn default() -> (r: Self)
        ensures
            r == DeliveryMode::File,
    {
        DeliveryMode::File
    }
}

#[derive(Clone, Copy, Debug, PartialEq, Eq, Structural)]
pub enum TriggerSource {
    Manual,
    ShortcutPushToTalk,
    ShortcutToggle,
}

impl Default for TriggerSource {
    fn default() -> (r: Self)
        ensures
            r == TriggerSource::Manual,
    {
        TriggerSource::Manual
    }
}

#[derive(Clone, Copy, Debug, PartialEq, Eq, Structural)]
pub enum DestinationPolicy {
    AppData,
    CustomPath,
    Temp,
}

#[derive(Clone, Debug)]
pub struct RecorderConfig {
    pub output_dir: Option<String>,
    pub file_name_prefix: Option<String>,
}

#[derive(Clone, Debug)]
pub struct HotkeyBindings {
    pub push_to_talk: Option<String>,
    pub toggle: Option<String>,
}

#[derive(Clone, Debug)]
pub struct OutputDestination {
    pub policy: DestinationPolicy,
    pub base_dir: Option<String>,
    pub subdir: Option<String>,
    pub file_pattern: Option<String>,
}

#[derive(Clone, Debug)]
pub struct EffectiveOutputDestination {
    pub policy: DestinationPolicy,
    pub base_dir: Option<String>,
    pub subdir: Option<String>,
    pub file_pattern: Option<String>,
    pub resolved_base_dir: Option<String>,
}

#[derive(Clone, Copy, Debug, PartialEq, Eq, Structural)]
pub enum Phase {
    Idle,
    Recording,
    Transcribing,
    Error,
}

#[derive(Clone, Debug)]
pub enum OverlayMode {
    Default,
    Consumer { consumer_url: String },
    Disabled,
}

impl Default for OverlayMode {
    fn default() -> (r: Self)
        ensures
            r is Default,
    {
        OverlayMode::Default
    }
}

#[derive(Clone, Copy, Debug, PartialEq, Eq, Structural)]
pub enum Mode {
    PushToTalk,
    Toggle,
}

#[derive(Clone, Copy, Debug, PartialEq, Eq, Structural)]
pub enum PermissionState {
    Unknown,
    Granted,
    Denied,
}

#[derive(Clone, Copy, Debug)]
pub struct RuntimeState {
    pub phase: Phase,
    pub mic_permission: PermissionState,
}

#[derive(Clone, Copy, Debug, PartialEq, Eq, Structural)]
pub enum AggregateStatus {
    Ready,
    Degraded,
    Blocked,
}

#[derive(Clone, Debug)]
pub struct Check {
    pub check_id: String,
    pub scope: String,
    pub status: String,
    pub code: String,
    pub guidance: Option<String>,
}

#[derive(Clone, Debug)]
pub struct Issue {
    pub code: String,
    pub message: String,
    pub guidance: Option<String>,
}

#[derive(Clone, Debug)]
pub struct Readiness {
    pub aggregate_status: AggregateStatus,
    pub recording_ready: bool,
    pub shortcut_ready: bool,
    pub checks: Vec<Check>,
    pub issues: Vec<Issue>,
}

#[derive(Clone, Debug)]
pub struct RecordingResult {
    pub recording_wav_path: String,
    pub duration_ms: u64,
    pub sample_rate_hz: u32,
    pub channels: u32,
    pub bit_depth: u32,
    pub delivery_mode: DeliveryMode,
    pub trigger_source: TriggerSource,
}

/// Plugin configuration.
#[derive(Clone, Debug)]
pub struct Config {
    /// Whisper model ID to load at startup. Defaults to "tiny.en".
    pub model_id: Option<String>,
}

impl Default for Config {
    fn default() -> (r: Self)
        ensures
            opt_view(r.model_id) == Some("tiny.en"@),
    {
        Config { model_id: Some(String::from_str("tiny.en")) }
    }
}

#[derive(Clone, Debug)]
pub struct StartRecordingResponse {
    pub contract_version: String,
    pub session_id: String,
    pub trigger_source: TriggerSource,
    pub state: RuntimeState,
    pub effective_output_destination: EffectiveOutputDestination,
}

#[derive(Clone, Debug)]
pub struct StopRecordingResponse {
    pub contract_version: String,
    pub result: RecordingResult,
}

#[derive(Clone, Debug)]
pub struct GetRuntimeStateResponse {
    pub contract_version: String,
    pub state: RuntimeState,
    pub readiness: Readiness,
}

#[derive(Clone, Debug)]
pub struct SetHotkeyBindingsResponse {
    pub contract_version: String,
    pub state: RuntimeState,
}

#[derive(Clone, Copy, Debug, PartialEq, Eq, Structural)]
pub enum CaptureHotkeyStatus {
    Captured,
    Cancelled,
    Timeout,
}

#[derive(Clone, Debug)]
pub struct CaptureHotkeyResponse {
    pub contract_version: String,
    pub status: CaptureHotkeyStatus,
    pub shortcut: Option<String>,
}

#[derive(Clone, Debug)]
pub struct ConfigDestinationResponse {
    pub contract_version: String,
    pub output_destination: OutputDestination,
}

#[derive(Clone, Debug)]
pub struct OverlayModeResponse {
    pub contract_version: String,
    pub overlay_mode: OverlayMode,
}

#[derive(Clone, Debug)]
pub struct StateEvent {
    pub contract_version: String,
    pub event_id: String,
    pub emitted_at_ms: u64,
    pub state: RuntimeState,
    pub readiness: Readiness,
}

#[derive(Clone, Debug)]
pub struct LiveEvent {
    pub contract_version: String,
    pub event_id: String,
    pub session_id: Option<String>,
    pub seq: u64,
    pub emitted_at_ms: u64,
    pub text: String,
}

#[derive(Clone, Debug)]
pub struct CompleteEvent {
    pub contract_version: String,
    pub event_id: String,
    pub session_id: String,
    pub trigger_source: TriggerSource,
    pub emitted_at_ms: u64,
    pub result: RecordingResult,
}

} // verus!
