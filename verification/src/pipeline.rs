//! The hotkey-driven record-to-transcribe pipeline: its one-time setup, and
//! what follows each completed recording.

use vstd::prelude::*;

use crate::error::{fails_with, opt_view, Error, ErrorKind};
use crate::models::{
    AggregateStatus, CompleteEvent, GetRuntimeStateResponse, HotkeyBindings, LiveEvent,
    PermissionState, Phase, Readiness, RecorderConfig, RuntimeState,
    SetupRecordTranscribePipelineRequest, SetupRecordTranscribePipelineResponse, StateEvent,
    TranscribeRequest, TranscribeResponse, CONTRACT_VERSION,
};
use crate::text::{concat_str, decimal, decimal_string, trim, trimmed};
use crate::models::HealthResponse as SttHealthResponse;
use crate::voice_models::HealthResponse as VoiceHealthResponse;

verus! {

/// What the pipeline was set up with.
#[derive(Clone, Debug)]
pub struct PipelineConfig {
    pub model_id: Option<String>,
    pub show_final_transcript: bool,
}

/// The pipeline's state for the life of the process.
pub struct PipelineRuntimeState {
    pub configured_once: bool,
    pub listener_id: Option<u32>,
    pub config: Option<PipelineConfig>,
}

/// How long a final transcript stays on screen before the overlay returns to idle.
pub const TRANSCRIPT_DISPLAY_MS: u64 = 3000;

/// The setup request is well formed: its toggle shortcut is not blank.
pub open spec fn setup_request_valid(request: SetupRecordTranscribePipelineRequest) -> bool {
    trimmed(request.toggle_shortcut@).len() > 0
}

/// Why a setup is refused, given whether the pipeline was already claimed:
/// a blank toggle shortcut, or an earlier setup; `None` when it goes ahead.
pub open spec fn setup_refusal(
    configured_once: bool,
    request: SetupRecordTranscribePipelineRequest,
) -> Option<Seq<char>> {
    if !setup_request_valid(request) {
        Some("toggleShortcut is required for pipeline setup"@)
    } else if configured_once {
        Some("Record-transcribe pipeline is already configured"@)
    } else {
        None
    }
}

impl PipelineRuntimeState {
    /// A pipeline that was never set up.
    pub fn new() -> (s: Self)
        ensures
            !s.configured_once,
            s.listener_id is None,
            s.config is None,
    {
        PipelineRuntimeState { configured_once: false, listener_id: None, config: None }
    }

    /// Claims the one setup that the process allows. A blank toggle shortcut
    /// is refused, and so is every setup after the first one that got this
    /// far, both with `invalid_input` and nothing changed (see
    /// [`setup_refusal`]). The first claims the pipeline, whatever happens to
    /// the rest of its setup, and keeps its model and whether to show the
    /// final transcript (shown unless the request says otherwise).
    pub fn begin_setup(&mut self, request: &SetupRecordTranscribePipelineRequest) -> (r: Result<
        (),
        Error,
    >)
        ensures
            final(self).configured_once == (old(self).configured_once || r is Ok),
            final(self).listener_id == old(self).listener_id,
            match setup_refusal(old(self).configured_once, *request) {
                Some(message) => {
                    &&& fails_with(r, ErrorKind::InvalidInput, message)
                    &&& final(self).config == old(self).config
                },
                None => {
                    &&& r is Ok
                    &&& final(self).config matches Some(c) && opt_view(c.model_id) == opt_view(
                        request.model_id,
                    ) && c.show_final_transcript == match request.show_final_transcript {
                        Some(b) => b,
                        None => true,
                    }
                },
            },
    {
        let shortcut = trim(request.toggle_shortcut.as_str());
        if shortcut.unicode_len() == 0 {
            return Err(Error::invalid_input("toggleShortcut is required for pipeline setup"));
        }
        if self.configured_once {
            return Err(Error::invalid_input("Record-transcribe pipeline is already configured"));
        }
        self.configured_once = true;
        let model_id = match &request.model_id {
            Some(m) => Some(m.clone()),
            None => None,
        };
        let show_final_transcript = match request.show_final_transcript {
            Some(b) => b,
            None => true,
        };
        self.config = Some(PipelineConfig { model_id, show_final_transcript });
        Ok(())
    }

    /// Keeps the id of the listener that receives completed recordings.
    pub fn record_listener(&mut self, id: u32)
        ensures
            final(self).listener_id == Some(id),
            final(self).configured_once == old(self).configured_once,
            final(self).config == old(self).config,
    {
        self.listener_id = Some(id);
    }

    /// The transcription that a completed recording asks for: the recorded
    /// file with the pipeline's model; nothing when the pipeline was never
    /// configured.
    pub fn transcription_for(&self, event: &CompleteEvent) -> (r: Option<TranscribeRequest>)
        ensures
            self.config is None ==> r is None,
            self.config matches Some(c) ==> (r matches Some(t) && t.path@
                == event.result.recording_wav_path@ && opt_view(t.model_id) == opt_view(
                c.model_id,
            )),
    {
        match &self.config {
            None => None,
            Some(c) => Some(
                TranscribeRequest {
                    path: event.result.recording_wav_path.clone(),
                    model_id: match &c.model_id {
                        Some(m) => Some(m.clone()),
                        None => None,
                    },
                },
            ),
        }
    }
}

/// The STT plugin arms the pipeline only once STT is ready; otherwise setup
/// fails with `not_ready` "STT is not ready: <reason>".
pub fn stt_setup_gate(health: &SttHealthResponse) -> (r: Result<(), Error>)
    ensures
        match health {
            SttHealthResponse::Ready { .. } => r is Ok,
            SttHealthResponse::NotReady { reason, .. } => fails_with(
                r,
                ErrorKind::NotReady,
                "STT is not ready: "@ + reason@,
            ),
        },
{
    match health {
        SttHealthResponse::Ready { .. } => Ok(()),
        SttHealthResponse::NotReady { reason, .. } => {
            let message = concat_str("STT is not ready: ", reason.as_str());
            Err(Error::not_ready(message.as_str()))
        },
    }
}

/// The voice plugin arms the pipeline only once STT is ready; otherwise
/// setup fails with `not_ready` "STT is not ready: <reason>".
pub fn voice_setup_gate(health: &VoiceHealthResponse) -> (r: Result<(), Error>)
    ensures
        match health {
            VoiceHealthResponse::Ready { .. } => r is Ok,
            VoiceHealthResponse::NotReady { reason, .. } => fails_with(
                r,
                ErrorKind::NotReady,
                "STT is not ready: "@ + reason@,
            ),
        },
{
    match health {
        VoiceHealthResponse::Ready { .. } => Ok(()),
        VoiceHealthResponse::NotReady { reason, .. } => {
            let message = concat_str("STT is not ready: ", reason.as_str());
            Err(Error::not_ready(message.as_str()))
        },
    }
}

/// The recorder hotkey binding and output configuration for a setup request:
/// only the toggle shortcut is bound, and the recorder configuration is the
/// request's (or an empty one).
pub fn hotkey_request(request: &SetupRecordTranscribePipelineRequest) -> (r: (
    HotkeyBindings,
    RecorderConfig,
))
    ensures
        r.0.push_to_talk is None,
        opt_view(r.0.toggle) == Some(request.toggle_shortcut@),
        match request.recorder_config {
            Some(c) => opt_view(r.1.output_dir) == opt_view(c.output_dir) && opt_view(
                r.1.file_name_prefix,
            ) == opt_view(c.file_name_prefix),
            None => r.1.output_dir is None && r.1.file_name_prefix is None,
        },
{
    let config = match &request.recorder_config {
        Some(c) => RecorderConfig {
            output_dir: match &c.output_dir {
                Some(d) => Some(d.clone()),
                None => None,
            },
            file_name_prefix: match &c.file_name_prefix {
                Some(p) => Some(p.clone()),
                None => None,
            },
        },
        None => RecorderConfig { output_dir: None, file_name_prefix: None },
    };
    (
        HotkeyBindings { push_to_talk: None, toggle: Some(request.toggle_shortcut.clone()) },
        config,
    )
}

/// The answer to a successful setup.
pub fn setup_response() -> (r: SetupRecordTranscribePipelineResponse)
    ensures
        r.contract_version@ == CONTRACT_VERSION@,
        r.active,
{
    SetupRecordTranscribePipelineResponse {
        contract_version: String::from_str(CONTRACT_VERSION),
        active: true,
    }
}

/// An event id: `prefix` followed by a time in decimal.
pub open spec fn event_id(prefix: Seq<char>, now_ms: u64) -> Seq<char> {
    prefix + decimal(now_ms as nat)
}

/// The live-transcript event emitted at `now_ms`.
pub fn live_event(now_ms: u64, session_id: Option<String>, text: String) -> (r: LiveEvent)
    ensures
        r.contract_version@ == CONTRACT_VERSION@,
        r.event_id@ == event_id("live-"@, now_ms),
        opt_view(r.session_id) == opt_view(session_id),
        r.seq == 0,
        r.emitted_at_ms == now_ms,
        r.text@ == text@,
{
    let stamp = decimal_string(now_ms);
    LiveEvent {
        contract_version: String::from_str(CONTRACT_VERSION),
        event_id: concat_str("live-", stamp.as_str()),
        session_id,
        seq: 0,
        emitted_at_ms: now_ms,
        text,
    }
}

/// What the pipeline does once a recording's transcription has ended.
pub enum PipelineAction {
    /// Emit the final transcript, then return to idle after `idle_delay_ms`.
    ShowTranscript { event: LiveEvent, idle_delay_ms: u64 },
    /// Return to idle now.
    ReturnToIdle,
    /// Report the error on the error channel, then return to idle now.
    ReportError { error: Error },
}

/// The follow-up of a recording's transcription: a transcript is shown for
/// three seconds (tagged with the recording's session) when the pipeline
/// shows final transcripts, else the overlay returns to idle at once; a
/// failed transcription is reported, then the overlay returns to idle.
pub fn pipeline_outcome(
    config: &PipelineConfig,
    session_id: &str,
    outcome: Result<TranscribeResponse, Error>,
    now_ms: u64,
) -> (r: PipelineAction)
    ensures
        match outcome {
            Ok(t) => if config.show_final_transcript {
                r matches PipelineAction::ShowTranscript { event, idle_delay_ms } && idle_delay_ms
                    == TRANSCRIPT_DISPLAY_MS && event.contract_version@ == CONTRACT_VERSION@
                    && event.text@ == t.text@ && opt_view(event.session_id)
                    == Some(session_id@) && event.event_id@ == event_id("live-"@, now_ms)
                    && event.emitted_at_ms == now_ms && event.seq == 0
            } else {
                r is ReturnToIdle
            },
            Err(e) => r == PipelineAction::ReportError { error: e },
        },
{
    match outcome {
        Ok(t) => {
            if config.show_final_transcript {
                let event = live_event(now_ms, Some(String::from_str(session_id)), t.text);
                PipelineAction::ShowTranscript { event, idle_delay_ms: TRANSCRIPT_DISPLAY_MS }
            } else {
                PipelineAction::ReturnToIdle
            }
        },
        Err(e) => PipelineAction::ReportError { error: e },
    }
}

/// The state event announcing `phase`: the recorder's microphone permission
/// and readiness when its runtime state could be read, otherwise an unknown
/// permission and a degraded, empty readiness.
pub fn state_event(phase: Phase, snapshot: Option<GetRuntimeStateResponse>, now_ms: u64) -> (r:
    StateEvent)
    ensures
        r.contract_version@ == CONTRACT_VERSION@,
        r.event_id@ == event_id("state-"@, now_ms),
        r.emitted_at_ms == now_ms,
        r.state.phase == phase,
        match snapshot {
            Some(s) => r.state.mic_permission == s.state.mic_permission && r.readiness
                == s.readiness,
            None => {
                &&& r.state.mic_permission == PermissionState::Unknown
                &&& r.readiness.aggregate_status == AggregateStatus::Degraded
                &&& !r.readiness.recording_ready
                &&& !r.readiness.shortcut_ready
                &&& r.readiness.checks@.len() == 0
                &&& r.readiness.issues@.len() == 0
            },
        },
{
    let (state, readiness) = match snapshot {
        Some(s) => (RuntimeState { phase, mic_permission: s.state.mic_permission }, s.readiness),
        None => (
            RuntimeState { phase, mic_permission: PermissionState::Unknown },
            Readiness {
                aggregate_status: AggregateStatus::Degraded,
                recording_ready: false,
                shortcut_ready: false,
                checks: Vec::new(),
                issues: Vec::new(),
            },
        ),
    };
    let stamp = decimal_string(now_ms);
    StateEvent {
        contract_version: String::from_str(CONTRACT_VERSION),
        event_id: concat_str("state-", stamp.as_str()),
        emitted_at_ms: now_ms,
        state,
        readiness,
    }
}

/// The first setup wins for the life of the process: once a setup has gone
/// through (which leaves the pipeline claimed, see `begin_setup`), every
/// later setup, whatever it asks, is refused; and a refused setup never
/// claims the pipeline, so it cannot block a later well-formed one.
pub proof fn law_first_setup_wins(
    first: SetupRecordTranscribePipelineRequest,
    later: SetupRecordTranscribePipelineRequest,
)
    ensures
        setup_refusal(false, first) is None ==> setup_refusal(true, later) is Some,
        setup_refusal(false, first) is Some ==> (setup_refusal(false, later) is None
            <==> setup_request_valid(later)),
{
}

} // verus!
