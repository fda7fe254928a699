use voice_plugin::health::EnvironmentProbe;
use voice_plugin::models::{HealthResponse, TranscribeRequest};
use voice_plugin::voice_models::LifecycleState;
use voice_plugin::stt::{
    is_allowlisted_model, model_repo_for, plan_transcription, stt_health, transcriber_outcome,
};

fn probe(sidecar: bool, venv: bool, bin: bool) -> EnvironmentProbe {
    EnvironmentProbe {
        app_data_dir_error: None,
        sidecar_available: sidecar,
        venv_exists: venv,
        python_bin_exists: bin,
    }
}

#[test]
fn stt_health_ready_when_all_checks_pass() {
    match stt_health(&probe(true, true, true)) {
        HealthResponse::Ready { lifecycle_state, diagnostics } => {
            assert_eq!(lifecycle_state, LifecycleState::Ready);
            let names: Vec<&str> = diagnostics.iter().map(|d| d.name.as_str()).collect();
            assert_eq!(names, vec!["app_data_dir", "uv_sidecar", "python_venv", "python_binary"]);
            assert!(diagnostics.iter().all(|d| d.ready && d.reason.is_none()));
        }
        other => panic!("expected ready, got {:?}", other),
    }
}

#[test]
fn stt_health_reports_first_failing_check() {
    match stt_health(&probe(true, false, false)) {
        HealthResponse::NotReady { lifecycle_state, reason, diagnostics } => {
            assert_eq!(lifecycle_state, LifecycleState::Uninitialized);
            assert_eq!(reason, "Virtual environment not found");
            assert_eq!(diagnostics.len(), 4);
            assert_eq!(diagnostics[3].reason.as_deref(), Some("Python binary not found"));
        }
        other => panic!("expected not ready, got {:?}", other),
    }
    match stt_health(&probe(false, true, true)) {
        HealthResponse::NotReady { reason, .. } => assert_eq!(reason, "uv sidecar not available"),
        other => panic!("expected not ready, got {:?}", other),
    }
}

#[test]
fn stt_health_without_app_data_dir() {
    let p = EnvironmentProbe {
        app_data_dir_error: Some("no home".to_string()),
        sidecar_available: true,
        venv_exists: true,
        python_bin_exists: true,
    };
    match stt_health(&p) {
        HealthResponse::NotReady { lifecycle_state, reason, diagnostics } => {
            assert_eq!(lifecycle_state, LifecycleState::Uninitialized);
            assert_eq!(reason, "Cannot resolve app data dir: no home");
            assert_eq!(diagnostics.len(), 1);
            assert_eq!(diagnostics[0].name, "app_data_dir");
            assert!(!diagnostics[0].ready);
        }
        other => panic!("expected not ready, got {:?}", other),
    }
}

#[test]
fn transcription_is_gated_on_readiness_path_and_model() {
    let ready = stt_health(&probe(true, true, true));
    let not_ready = stt_health(&probe(true, false, true));
    let req = |m: Option<&str>| TranscribeRequest {
        path: "/tmp/sample.wav".to_string(),
        model_id: m.map(|s| s.to_string()),
    };

    let e = plan_transcription(&not_ready, &req(None), true).unwrap_err();
    assert_eq!(e.code(), "not_ready");
    assert_eq!(e.message(), "Virtual environment not found");

    let e = plan_transcription(&ready, &req(None), false).unwrap_err();
    assert_eq!(e.code(), "invalid_input");
    assert_eq!(e.message(), "Audio file does not exist or is not a file");

    let e = plan_transcription(&ready, &req(Some("huge")), true).unwrap_err();
    assert_eq!(e.message(), "Invalid or unsupported model ID");

    let initializing = HealthResponse::Ready {
        lifecycle_state: LifecycleState::Initializing,
        diagnostics: vec![],
    };
    let e = plan_transcription(&initializing, &req(None), true).unwrap_err();
    assert_eq!(e.code(), "not_ready");
    assert_eq!(e.message(), "STT lifecycle is not ready");

    assert_eq!(plan_transcription(&ready, &req(None), true).unwrap(), "tiny");
    assert_eq!(plan_transcription(&ready, &req(Some("large-v3")), true).unwrap(), "large-v3");
}

#[test]
fn allowlist_and_repositories() {
    for m in ["tiny", "tiny.en", "base", "base.en", "small", "small.en", "medium", "medium.en", "large", "large-v1", "large-v2", "large-v3", "large-v3-turbo", "turbo"] {
        assert!(is_allowlisted_model(m), "{m}");
    }
    assert!(!is_allowlisted_model("Tiny"));
    assert!(!is_allowlisted_model(""));
    assert_eq!(model_repo_for("tiny"), "mlx-community/whisper-tiny");
}

#[test]
fn transcriber_output_is_trimmed_and_checked() {
    assert_eq!(transcriber_outcome(true, "exit status: 0", "  hello world\n", "").unwrap().text, "hello world");
    let e = transcriber_outcome(true, "exit status: 0", " \n", "").unwrap_err();
    assert_eq!(e.message(), "Transcriber returned empty output");
    let e = transcriber_outcome(false, "exit status: 2", "", " boom \n").unwrap_err();
    assert_eq!(e.code(), "generation_failed");
    assert_eq!(e.message(), "Transcriber failed: boom");
    let e = transcriber_outcome(false, "exit status: 2", "", "  ").unwrap_err();
    assert_eq!(e.message(), "Transcriber failed with status exit status: 2");
}
