use voice_plugin::error::Error;
use voice_plugin::models::{
    AggregateStatus, CompleteEvent, DeliveryMode, GetRuntimeStateResponse, PermissionState, Phase,
    Readiness, RecorderConfig, RecordingResult, RuntimeState, SetupRecordTranscribePipelineRequest,
    TranscribeResponse, TriggerSource,
};
use voice_plugin::pipeline::{
    hotkey_request, live_event, pipeline_outcome, setup_response, state_event, stt_setup_gate,
    voice_setup_gate,
    PipelineAction, PipelineConfig, PipelineRuntimeState,
};
use voice_plugin::models::{DiagnosticEntry, HealthResponse as SttHealthResponse};
use voice_plugin::voice_models::{HealthResponse, LifecycleState};

fn request(shortcut: &str) -> SetupRecordTranscribePipelineRequest {
    SetupRecordTranscribePipelineRequest {
        toggle_shortcut: shortcut.to_string(),
        recorder_config: None,
        model_id: Some("tiny".to_string()),
        show_final_transcript: None,
    }
}

#[test]
fn first_pipeline_setup_wins() {
    let mut state = PipelineRuntimeState::new();
    let e = state.begin_setup(&request("   ")).unwrap_err();
    assert_eq!(e.code(), "invalid_input");
    assert_eq!(e.message(), "toggleShortcut is required for pipeline setup");
    assert!(!state.configured_once);

    state.begin_setup(&request("Command+Shift+R")).unwrap();
    assert!(state.configured_once);
    let config = state.config.clone().unwrap();
    assert_eq!(config.model_id.as_deref(), Some("tiny"));
    assert!(config.show_final_transcript);

    let e = state.begin_setup(&request("Command+Shift+T")).unwrap_err();
    assert_eq!(e.message(), "Record-transcribe pipeline is already configured");
    state.record_listener(42);
    assert_eq!(state.listener_id, Some(42));
    let e = state.begin_setup(&request("Command+Shift+R")).unwrap_err();
    assert_eq!(e.code(), "invalid_input");
}

#[test]
fn setup_response_is_active_contract() {
    let r = setup_response();
    assert_eq!(r.contract_version, "0.1.0");
    assert!(r.active);
}

#[test]
fn hotkeys_bind_only_the_toggle() {
    let mut req = request("Command+Shift+R");
    let (bindings, config) = hotkey_request(&req);
    assert_eq!(bindings.push_to_talk, None);
    assert_eq!(bindings.toggle.as_deref(), Some("Command+Shift+R"));
    assert_eq!(config.output_dir, None);
    assert_eq!(config.file_name_prefix, None);
    req.recorder_config = Some(RecorderConfig {
        output_dir: Some("/tmp/rec".to_string()),
        file_name_prefix: Some("note".to_string()),
    });
    let (_, config) = hotkey_request(&req);
    assert_eq!(config.output_dir.as_deref(), Some("/tmp/rec"));
    assert_eq!(config.file_name_prefix.as_deref(), Some("note"));
}

#[test]
fn voice_pipeline_needs_ready_stt() {
    let ready = HealthResponse::Ready {
        lifecycle_state: LifecycleState::Ready,
        engines: vec![],
        diagnostics: vec![],
    };
    assert!(voice_setup_gate(&ready).is_ok());
    let not_ready = HealthResponse::NotReady {
        lifecycle_state: LifecycleState::Initializing,
        reason: "STT startup preload is still in progress".to_string(),
        engines: vec![],
        diagnostics: vec![],
    };
    let e = voice_setup_gate(&not_ready).unwrap_err();
    assert_eq!(e.code(), "not_ready");
    assert_eq!(e.message(), "STT is not ready: STT startup preload is still in progress");
}

fn complete_event() -> CompleteEvent {
    CompleteEvent {
        contract_version: "0.1.0".to_string(),
        event_id: "complete-1".to_string(),
        session_id: "ses-9".to_string(),
        trigger_source: TriggerSource::ShortcutToggle,
        emitted_at_ms: 5,
        result: RecordingResult {
            recording_wav_path: "/tmp/rec/note.wav".to_string(),
            duration_ms: 1200,
            sample_rate_hz: 48000,
            channels: 1,
            bit_depth: 16,
            delivery_mode: DeliveryMode::File,
            trigger_source: TriggerSource::ShortcutToggle,
        },
    }
}

#[test]
fn completed_recordings_are_transcribed_with_the_pipeline_model() {
    let mut state = PipelineRuntimeState::new();
    assert!(state.transcription_for(&complete_event()).is_none());
    state.begin_setup(&request("Command+Shift+R")).unwrap();
    let req = state.transcription_for(&complete_event()).unwrap();
    assert_eq!(req.path, "/tmp/rec/note.wav");
    assert_eq!(req.model_id.as_deref(), Some("tiny"));
}

#[test]
fn transcription_outcomes_drive_the_overlay() {
    let show = PipelineConfig { model_id: None, show_final_transcript: true };
    let hide = PipelineConfig { model_id: None, show_final_transcript: false };
    match pipeline_outcome(&show, "ses-9", Ok(TranscribeResponse { text: "hi there".to_string() }), 1700000000123) {
        PipelineAction::ShowTranscript { event, idle_delay_ms } => {
            assert_eq!(idle_delay_ms, 3000);
            assert_eq!(event.text, "hi there");
            assert_eq!(event.session_id.as_deref(), Some("ses-9"));
            assert_eq!(event.event_id, "live-1700000000123");
            assert_eq!(event.seq, 0);
            assert_eq!(event.contract_version, "0.1.0");
        }
        _ => panic!("expected the transcript to be shown"),
    }
    assert!(matches!(
        pipeline_outcome(&hide, "ses-9", Ok(TranscribeResponse { text: "x".to_string() }), 1),
        PipelineAction::ReturnToIdle
    ));
    match pipeline_outcome(&show, "ses-9", Err(Error::not_ready("busy")), 1) {
        PipelineAction::ReportError { error } => assert_eq!(error.code(), "not_ready"),
        _ => panic!("expected an error report"),
    }
}

#[test]
fn live_and_state_events() {
    let e = live_event(77, None, "words".to_string());
    assert_eq!(e.event_id, "live-77");
    assert_eq!(e.session_id, None);
    assert_eq!(e.emitted_at_ms, 77);

    let s = state_event(Phase::Transcribing, None, 12);
    assert_eq!(s.event_id, "state-12");
    assert_eq!(s.state.phase, Phase::Transcribing);
    assert_eq!(s.state.mic_permission, PermissionState::Unknown);
    assert_eq!(s.readiness.aggregate_status, AggregateStatus::Degraded);
    assert!(!s.readiness.recording_ready && !s.readiness.shortcut_ready);
    assert!(s.readiness.checks.is_empty() && s.readiness.issues.is_empty());

    let snapshot = GetRuntimeStateResponse {
        contract_version: "0.1.0".to_string(),
        state: RuntimeState { phase: Phase::Recording, mic_permission: PermissionState::Granted },
        readiness: Readiness {
            aggregate_status: AggregateStatus::Ready,
            recording_ready: true,
            shortcut_ready: true,
            checks: vec![],
            issues: vec![],
        },
    };
    let s = state_event(Phase::Idle, Some(snapshot), 13);
    assert_eq!(s.state.phase, Phase::Idle);
    assert_eq!(s.state.mic_permission, PermissionState::Granted);
    assert_eq!(s.readiness.aggregate_status, AggregateStatus::Ready);
    assert!(s.readiness.recording_ready);
}

#[test]
fn stt_pipeline_needs_ready_stt() {
    let ready =
        SttHealthResponse::Ready { lifecycle_state: LifecycleState::Ready, diagnostics: vec![] };
    assert!(stt_setup_gate(&ready).is_ok());
    let not_ready = SttHealthResponse::NotReady {
        lifecycle_state: LifecycleState::Uninitialized,
        reason: "Virtual environment not found".to_string(),
        diagnostics: vec![DiagnosticEntry {
            name: "python_venv".to_string(),
            ready: false,
            reason: Some("Virtual environment not found".to_string()),
        }],
    };
    let e = stt_setup_gate(&not_ready).unwrap_err();
    assert_eq!(e.code(), "not_ready");
    assert_eq!(e.message(), "STT is not ready: Virtual environment not found");
}
