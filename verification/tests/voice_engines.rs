use voice_plugin::engines::{startup_model, DownloadStep, SttEngineState, TtsEngineState, Worker};
use voice_plugin::error::Error;
use voice_plugin::health::EnvironmentProbe;
use voice_plugin::voice_health::voice_health;
use voice_plugin::voice_models::{
    Config, DownloadModelRequest, Engine, HealthResponse, LifecycleState, StartupPreloadStatus,
};

fn env_ok() -> EnvironmentProbe {
    EnvironmentProbe {
        app_data_dir_error: None,
        sidecar_available: true,
        venv_exists: true,
        python_bin_exists: true,
    }
}

fn lifecycle(h: &HealthResponse) -> LifecycleState {
    match h {
        HealthResponse::Ready { lifecycle_state, .. } => *lifecycle_state,
        HealthResponse::NotReady { lifecycle_state, .. } => *lifecycle_state,
    }
}

#[test]
fn fresh_engines_are_uninitialized() {
    let stt: SttEngineState<u8> = SttEngineState::new();
    let tts: TtsEngineState<u8> = TtsEngineState::new();
    let h = voice_health(&env_ok(), stt.health(), tts.health());
    assert_eq!(lifecycle(&h), LifecycleState::Uninitialized);
    match h {
        HealthResponse::NotReady { reason, engines, diagnostics, .. } => {
            assert_eq!(reason, "STT startup preload has not produced a ready worker yet");
            assert_eq!(engines.len(), 2);
            assert_eq!(engines[0].engine, Engine::Stt);
            assert!(engines[0].required);
            assert!(!engines[1].required);
            let names: Vec<&str> = diagnostics.iter().map(|d| d.name.as_str()).collect();
            assert_eq!(
                names,
                vec![
                    "app_data_dir",
                    "uv_sidecar",
                    "python_venv",
                    "python_binary",
                    "stt_startup_preload",
                    "stt_worker",
                    "tts_startup_preload",
                    "tts_worker"
                ]
            );
            assert_eq!(diagnostics[7].reason.as_deref(), Some("TTS engine is not configured"));
            assert_eq!(diagnostics[6].reason.as_deref(), Some("TTS startup preload is disabled"));
        }
        other => panic!("expected not ready, got {:?}", other),
    }
}

#[test]
fn startup_preload_runs_once_and_reaches_ready() {
    let mut stt: SttEngineState<u8> = SttEngineState::new();
    let tts: TtsEngineState<u8> = TtsEngineState::new();
    assert!(stt.begin_startup_preload());
    assert_eq!(stt.startup_preload_status, StartupPreloadStatus::Running);
    assert!(!stt.begin_startup_preload());
    let h = voice_health(&env_ok(), stt.health(), tts.health());
    assert_eq!(lifecycle(&h), LifecycleState::Initializing);
    match &h {
        HealthResponse::NotReady { reason, .. } => {
            assert_eq!(reason, "STT startup preload is still in progress")
        }
        other => panic!("expected not ready, got {:?}", other),
    }

    let model = startup_model(&Config::default());
    assert_eq!(model, "tiny.en");
    stt.finish_startup_preload(&model, Ok(7));
    assert_eq!(stt.worker.as_ref().map(|w| w.model_id.as_str()), Some("tiny.en"));
    assert!(!stt.begin_startup_preload());
    let h = voice_health(&env_ok(), stt.health(), tts.health());
    assert_eq!(lifecycle(&h), LifecycleState::Ready);
    assert!(matches!(h, HealthResponse::Ready { .. }));

    // The environment still counts.
    let broken = EnvironmentProbe { sidecar_available: false, ..env_ok() };
    let h = voice_health(&broken, stt.health(), tts.health());
    assert_eq!(lifecycle(&h), LifecycleState::Uninitialized);
    match h {
        HealthResponse::NotReady { reason, .. } => assert_eq!(reason, "uv sidecar not available"),
        other => panic!("expected not ready, got {:?}", other),
    }
}

#[test]
fn startup_failures_stay_visible() {
    let mut stt: SttEngineState<u8> = SttEngineState::new();
    let tts: TtsEngineState<u8> = TtsEngineState::new();
    assert!(stt.begin_startup_preload());
    stt.startup_bootstrap_failed(&Error::bootstrap_failed("no uv"));
    assert_eq!(stt.startup_error.as_deref(), Some("Startup bootstrap failed: Bootstrap failed: no uv"));
    let h = voice_health(&env_ok(), stt.health(), tts.health());
    assert_eq!(lifecycle(&h), LifecycleState::Failed);
    match h {
        HealthResponse::NotReady { reason, .. } => {
            assert_eq!(reason, "Startup bootstrap failed: Bootstrap failed: no uv")
        }
        other => panic!("expected not ready, got {:?}", other),
    }

    // A failed preload may be retried.
    assert!(stt.begin_startup_preload());
    assert_eq!(stt.startup_error, None);
    stt.finish_startup_preload("base", Err(Error::not_ready("timeout")));
    assert_eq!(
        stt.startup_error.as_deref(),
        Some("Startup model load failed for base: Not ready: timeout")
    );
    assert_eq!(stt.startup_preload_status, StartupPreloadStatus::Failed);

    // An explicit bootstrap recovers.
    assert!(stt.needs_default_worker());
    stt.finish_bootstrap(Some(Worker { model_id: "tiny.en".to_string(), process: 1 }));
    assert_eq!(stt.startup_error, None);
    assert_eq!(stt.startup_preload_status, StartupPreloadStatus::Ready);
    let h = voice_health(&env_ok(), stt.health(), tts.health());
    assert!(matches!(h, HealthResponse::Ready { .. }));
}

#[test]
fn downloads_are_checked_and_exclusive() {
    let mut stt: SttEngineState<u8> = SttEngineState::new();
    let req = |engine, m: &str| DownloadModelRequest { engine, model_id: m.to_string() };

    let e = stt.begin_download(&req(Engine::Tts, "tiny")).err().unwrap();
    assert_eq!(e.message(), "Only the STT engine supports model downloads");
    let e = stt.begin_download(&req(Engine::Stt, "gigantic")).err().unwrap();
    assert_eq!(e.code(), "invalid_input");
    assert_eq!(e.message(), "Invalid or unsupported model ID");

    assert!(matches!(stt.begin_download(&req(Engine::Stt, "base")), Ok(DownloadStep::Load)));
    assert!(stt.download_in_progress);
    let e = stt.begin_download(&req(Engine::Stt, "small")).err().unwrap();
    assert_eq!(e.code(), "not_ready");
    assert_eq!(e.message(), "A model is already downloading, please wait");

    let tts: TtsEngineState<u8> = TtsEngineState::new();
    let h = voice_health(&env_ok(), stt.health(), tts.health());
    assert_eq!(lifecycle(&h), LifecycleState::Initializing);

    let resp = stt.finish_download("base", Ok(3)).unwrap();
    assert_eq!(resp.engine, Engine::Stt);
    assert_eq!(resp.model_id, "base");
    assert!(!resp.already_active);
    assert!(!stt.download_in_progress);
    assert_eq!(stt.startup_preload_status, StartupPreloadStatus::Ready);

    match stt.begin_download(&req(Engine::Stt, "base")) {
        Ok(DownloadStep::AlreadyActive(resp)) => {
            assert!(resp.already_active);
            assert_eq!(resp.model_id, "base");
        }
        _ => panic!("expected already active"),
    }
    assert!(!stt.download_in_progress);

    assert!(matches!(stt.begin_download(&req(Engine::Stt, "small")), Ok(DownloadStep::Load)));
    assert!(stt.worker.is_none());
    let e = stt.finish_download("small", Err(Error::not_ready("spawn failed"))).unwrap_err();
    assert_eq!(e.message(), "spawn failed");
    assert!(!stt.download_in_progress);
    assert!(stt.worker.is_none());
}

#[test]
fn tts_engine_spawns_lazily_and_records_failures() {
    let mut tts: TtsEngineState<u8> = TtsEngineState::new();
    let model = "mlx-community/Kokoro-82M-bf16";
    assert!(tts.prepare_worker(model));
    assert_eq!(tts.lifecycle_state, LifecycleState::Initializing);
    tts.finish_worker_spawn(model, Ok(5)).unwrap();
    assert_eq!(tts.lifecycle_state, LifecycleState::Ready);
    assert!(!tts.prepare_worker(model));
    let h = tts.health();
    assert!(h.ready);
    assert_eq!(h.diagnostics[1].reason.as_deref(), Some("TTS model active: mlx-community/Kokoro-82M-bf16"));
    assert_eq!(h.diagnostics[0].reason.as_deref(), Some("TTS startup preload is ready"));

    tts.worker_lost();
    assert_eq!(tts.health().lifecycle_state, LifecycleState::Failed);
    assert!(!tts.health().ready);

    assert!(tts.prepare_worker(model));
    let e = tts.finish_worker_spawn(model, Err(Error::not_ready("TTS worker startup timeout"))).unwrap_err();
    assert_eq!(e.code(), "not_ready");
    assert_eq!(tts.startup_error.as_deref(), Some("Not ready: TTS worker startup timeout"));
    let h = tts.health();
    assert_eq!(h.lifecycle_state, LifecycleState::Failed);
    assert!(!h.diagnostics[0].ready);
    assert_eq!(h.diagnostics[1].reason.as_deref(), Some("Not ready: TTS worker startup timeout"));

    // The optional TTS engine does not hold back overall readiness.
    let mut stt: SttEngineState<u8> = SttEngineState::new();
    assert!(stt.begin_startup_preload());
    stt.finish_startup_preload("tiny.en", Ok(1));
    let env = EnvironmentProbe {
        app_data_dir_error: None,
        sidecar_available: true,
        venv_exists: true,
        python_bin_exists: true,
    };
    let h = voice_health(&env, stt.health(), tts.health());
    assert!(matches!(h, HealthResponse::Ready { lifecycle_state: LifecycleState::Ready, .. }));
}

#[test]
fn voice_health_without_app_data_dir_is_failed() {
    let stt: SttEngineState<u8> = SttEngineState::new();
    let tts: TtsEngineState<u8> = TtsEngineState::new();
    let env = EnvironmentProbe {
        app_data_dir_error: Some("denied".to_string()),
        sidecar_available: true,
        venv_exists: true,
        python_bin_exists: true,
    };
    match voice_health(&env, stt.health(), tts.health()) {
        HealthResponse::NotReady { lifecycle_state, reason, engines, diagnostics } => {
            assert_eq!(lifecycle_state, LifecycleState::Failed);
            assert_eq!(reason, "Cannot resolve app data dir: denied");
            assert_eq!(engines.len(), 2);
            assert_eq!(diagnostics.len(), 1);
        }
        other => panic!("expected not ready, got {:?}", other),
    }
}

#[test]
fn worker_loss_makes_stt_unready() {
    let mut stt: SttEngineState<u8> = SttEngineState::new();
    stt.finish_bootstrap(Some(Worker { model_id: "tiny.en".to_string(), process: 9 }));
    assert!(voice_plugin::voice_stt::require_worker(&stt).is_ok());
    stt.worker_lost();
    let e = voice_plugin::voice_stt::require_worker(&stt).unwrap_err();
    assert_eq!(e.message(), "STT worker not initialized; call bootstrapVoice first");
    assert!(!stt.health().ready);
}

#[test]
fn tts_state_never_decides_voice_readiness() {
    let stt: SttEngineState<u8> = SttEngineState::new();
    let fresh: TtsEngineState<u8> = TtsEngineState::new();
    let mut failed: TtsEngineState<u8> = TtsEngineState::new();
    let spawned = failed.prepare_worker("mlx-community/Kokoro-82M-bf16");
    assert!(spawned);
    let _ = failed.finish_worker_spawn(
        "mlx-community/Kokoro-82M-bf16",
        Err(Error::not_ready("TTS worker startup timeout; model download may have failed")),
    );
    let a = voice_health(&env_ok(), stt.health(), fresh.health());
    let b = voice_health(&env_ok(), stt.health(), failed.health());
    assert_eq!(lifecycle(&a), lifecycle(&b));
    match (a, b) {
        (
            HealthResponse::NotReady { reason: ra, .. },
            HealthResponse::NotReady { reason: rb, .. },
        ) => {
            assert_eq!(ra, rb);
            assert_eq!(ra, "STT startup preload has not produced a ready worker yet");
        }
        other => panic!("expected not ready twice, got {:?}", other),
    }
}

#[test]
fn starting_a_synthesis_leaves_transcription_readiness_alone() {
    let mut stt: SttEngineState<u8> = SttEngineState::new();
    assert!(stt.begin_startup_preload());
    stt.finish_startup_preload("tiny.en", Ok(1));
    let mut tts: TtsEngineState<u8> = TtsEngineState::new();
    let before = voice_health(&env_ok(), stt.health(), tts.health());
    assert!(tts.prepare_worker("mlx-community/Kokoro-82M-bf16"));
    let after = voice_health(&env_ok(), stt.health(), tts.health());
    assert!(matches!(before, HealthResponse::Ready { lifecycle_state: LifecycleState::Ready, .. }));
    assert!(matches!(after, HealthResponse::Ready { lifecycle_state: LifecycleState::Ready, .. }));
}
