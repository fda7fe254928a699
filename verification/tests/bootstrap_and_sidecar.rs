use voice_plugin::bootstrap::{BootstrapManager, BootstrapProbe, BootstrapStep, LockFile, RuntimeDir};
use voice_plugin::bridge::{
    bridge_conversion_failed, bridge_disabled, bridge_serialization_failed, capture_timeout_ms,
    recorder_failure, RecorderCall,
};
use voice_plugin::models::BootstrapResponse;
use voice_plugin::runtime::{
    runtime_failure, tts_worker_missing, RuntimeFailure, WORKER_REQUEST_TIMEOUT_SECS,
    WORKER_STARTUP_TIMEOUT_SECS,
};
use voice_plugin::sidecar::{SidecarEvent, SidecarJob, SidecarRun, UvSidecarRunner};
use voice_plugin::voice_models::Engine;

fn probe() -> BootstrapProbe {
    BootstrapProbe {
        python_dir_exists: false,
        lock_files: vec![
            LockFile { path: "/plugin/requirements/requirements-stt.lock.txt".to_string(), exists: true },
            LockFile { path: "/plugin/requirements/requirements-tts.lock.txt".to_string(), exists: true },
        ],
        cache_dir_exists: false,
        tool_dir_exists: true,
        venv_dir_exists: true,
        python_bin_exists: false,
    }
}

#[test]
fn voice_bootstrap_plans() {
    let plan = BootstrapManager::plan_voice(&probe());
    assert_eq!(
        plan.steps,
        vec![
            BootstrapStep::CreateDir(RuntimeDir::Python),
            BootstrapStep::CreateDir(RuntimeDir::Cache),
            BootstrapStep::RemoveStaleVenv,
            BootstrapStep::CreateVenv,
            BootstrapStep::InstallLockFile(0),
            BootstrapStep::InstallLockFile(1),
        ]
    );
    match plan.outcome {
        Ok(BootstrapResponse::Ready { details }) => assert_eq!(details, "Bootstrap complete"),
        _ => panic!("expected ready"),
    }

    let reuse = BootstrapProbe { python_dir_exists: true, cache_dir_exists: true, python_bin_exists: true, ..probe() };
    let plan = BootstrapManager::plan_voice(&reuse);
    assert_eq!(plan.steps, vec![BootstrapStep::InstallLockFile(0), BootstrapStep::InstallLockFile(1)]);

    let mut missing = probe();
    missing.lock_files[1].exists = false;
    let plan = BootstrapManager::plan_voice(&missing);
    assert_eq!(plan.steps, vec![BootstrapStep::CreateDir(RuntimeDir::Python)]);
    let e = plan.outcome.err().unwrap();
    assert_eq!(e.code(), "not_ready");
    assert_eq!(e.message(), "Lock file missing at: /plugin/requirements/requirements-tts.lock.txt");
}

#[test]
fn stt_bootstrap_plans() {
    let mut p = probe();
    p.lock_files.truncate(1);
    p.python_dir_exists = true;
    let plan = BootstrapManager::plan_stt(&p);
    assert_eq!(plan.steps, vec![BootstrapStep::CreateVenv, BootstrapStep::InstallLockFile(0)]);
    assert!(plan.outcome.is_ok());
    assert_eq!(BootstrapManager::stt_python_version(), "3.12");
    assert_eq!(BootstrapManager::voice_python_version(), "3.12");
    assert_eq!(BootstrapManager::stt_lock_file(), "requirements/requirements-stt.lock.txt");
    assert_eq!(
        BootstrapManager::voice_lock_files(),
        vec!["requirements/requirements-stt.lock.txt", "requirements/requirements-tts.lock.txt"]
    );
}

#[test]
fn bootstrap_failures() {
    let e = BootstrapManager::app_data_dir_failed("no home");
    assert_eq!(e.code(), "bootstrap_failed");
    assert_eq!(e.message(), "Failed to get app data dir: no home");
    let cases = [
        (BootstrapStep::CreateDir(RuntimeDir::Python), "Failed to create python dir: denied"),
        (BootstrapStep::CreateDir(RuntimeDir::Cache), "Failed to create cache dir: denied"),
        (BootstrapStep::CreateDir(RuntimeDir::Tools), "Failed to create tool dir: denied"),
        (BootstrapStep::RemoveStaleVenv, "Failed to remove stale venv dir: denied"),
    ];
    for (step, message) in cases {
        let e = BootstrapManager::step_failed(step, "denied").unwrap();
        assert_eq!(e.code(), "bootstrap_failed");
        assert_eq!(e.message(), message);
    }
    assert!(BootstrapManager::step_failed(BootstrapStep::CreateVenv, "x").is_none());
    let env = BootstrapManager::uv_environment("/d/python/cache", "/d/python/tools");
    assert_eq!(
        env,
        vec![
            ("UV_CACHE_DIR".to_string(), "/d/python/cache".to_string()),
            ("UV_TOOL_DIR".to_string(), "/d/python/tools".to_string()),
            ("UV_PYTHON_INSTALL".to_string(), "1".to_string()),
            ("UV_PYTHON_DOWNLOADS".to_string(), "auto".to_string()),
        ]
    );
}

#[test]
fn sidecar_runs_succeed_on_exit_zero() {
    let mut run = SidecarRun::new(SidecarJob::CreateVenv);
    assert!(run.on_event(SidecarEvent::Stdout("Using CPython 3.12".to_string())).is_none());
    assert!(run.on_event(SidecarEvent::Stderr("warning: x".to_string())).is_none());
    assert!(run.on_event(SidecarEvent::Terminated(Some(0))).is_none());
    assert!(run.on_event(SidecarEvent::Other).is_none());
    assert!(run.finish().is_ok());
}

#[test]
fn sidecar_failures_name_the_standard_error() {
    let mut run = SidecarRun::new(SidecarJob::PipInstall);
    run.on_event(SidecarEvent::Stderr("line one".to_string()));
    run.on_event(SidecarEvent::Stderr("line two".to_string()));
    let e = run.on_event(SidecarEvent::Terminated(Some(2))).unwrap().unwrap_err();
    assert_eq!(e.code(), "dependency_install_failed");
    assert_eq!(e.message(), "uv pip install exited with code: Some(2)\nStderr: line one\nline two");

    let mut run = SidecarRun::new(SidecarJob::CreateVenv);
    let e = run.on_event(SidecarEvent::Terminated(None)).unwrap().unwrap_err();
    assert_eq!(e.code(), "bootstrap_failed");
    assert_eq!(e.message(), "uv venv exited with code: None\nStderr: ");

    let mut run = SidecarRun::new(SidecarJob::CreateVenv);
    run.on_event(SidecarEvent::Stderr("oops".to_string()));
    let e = run.on_event(SidecarEvent::Error("pipe closed".to_string())).unwrap().unwrap_err();
    assert_eq!(e.message(), "uv venv error: pipe closed\nStderr: oops");
    let e = run.finish().unwrap_err();
    assert_eq!(e.message(), "uv venv did not complete successfully. Stderr: oops");

    let run = SidecarRun::new(SidecarJob::PipInstall);
    let e = run.finish().unwrap_err();
    assert_eq!(e.message(), "uv pip install did not complete successfully\nStderr: ");

    let mut run = SidecarRun::new(SidecarJob::PipInstall);
    let e = run.on_event(SidecarEvent::Terminated(Some(-9))).unwrap().unwrap_err();
    assert_eq!(e.message(), "uv pip install exited with code: Some(-9)\nStderr: ");
}

#[test]
fn sidecar_arguments() {
    assert_eq!(
        UvSidecarRunner::create_venv_args("/d/python/.venv", "3.12"),
        vec!["venv", "/d/python/.venv", "--python", "3.12", "--clear"]
    );
    assert_eq!(
        UvSidecarRunner::pip_install_args("/d/python/.venv/bin/python", "/p/req.txt"),
        vec!["pip", "install", "--python", "/d/python/.venv/bin/python", "-r", "/p/req.txt"]
    );
}

#[test]
fn recorder_bridge_errors() {
    assert_eq!(recorder_failure(RecorderCall::InitializeRuntime, "x").code(), "not_ready");
    assert_eq!(recorder_failure(RecorderCall::GetOverlayMode, "x").code(), "not_ready");
    assert_eq!(recorder_failure(RecorderCall::StartRecording, "busy").code(), "invalid_input");
    assert_eq!(recorder_failure(RecorderCall::StartRecording, "busy").message(), "busy");
    let e = bridge_disabled();
    assert_eq!(e.code(), "feature_disabled");
    assert_eq!(e.message(), "Recorder bridge is disabled");
    assert_eq!(bridge_serialization_failed("e").message(), "Bridge serialization failed: e");
    assert_eq!(bridge_conversion_failed("e").message(), "Bridge schema conversion failed: e");
    assert_eq!(capture_timeout_ms(None), 20000);
    assert_eq!(capture_timeout_ms(Some(5)), 5);
}

#[test]
fn runtime_failures() {
    let e = runtime_failure(&RuntimeFailure::PythonMissing("/d/bin/python".to_string()));
    assert_eq!(e.code(), "not_ready");
    assert_eq!(e.message(), "Python binary not found at /d/bin/python");
    let e = runtime_failure(&RuntimeFailure::WorkerScriptMissing(Engine::Tts, "/s/tts_worker.py".to_string()));
    assert_eq!(e.code(), "generation_failed");
    assert_eq!(e.message(), "TTS worker script not found at /s/tts_worker.py");
    let e = runtime_failure(&RuntimeFailure::WorkerStartupTimeout(Engine::Stt));
    assert_eq!(e.message(), "STT worker startup timeout; model download may have failed");
    let e = runtime_failure(&RuntimeFailure::TtsOutputExists);
    assert_eq!(e.code(), "invalid_input");
    assert_eq!(e.message(), "TTS output path already exists");
    let e = runtime_failure(&RuntimeFailure::WorkerReply(Engine::Stt, "timed out".to_string()));
    assert_eq!(e.message(), "Transcription timeout or worker disconnect: timed out");
    assert_eq!(tts_worker_missing().message(), "TTS worker not initialized; call synthesizeSpeech first");
}

#[test]
fn clock_reads_the_present() {
    let now = voice_plugin::clock::now_ms();
    assert!(now > 1_600_000_000_000);
}

#[test]
fn sidecar_launch_failures_follow_the_job() {
    let e = UvSidecarRunner::sidecar_unavailable(SidecarJob::CreateVenv, "no binary");
    assert_eq!(e.code(), "bootstrap_failed");
    assert_eq!(e.message(), "Failed to spawn uv sidecar: no binary");
    let e = UvSidecarRunner::sidecar_unavailable(SidecarJob::PipInstall, "no binary");
    assert_eq!(e.code(), "dependency_install_failed");
    let e = UvSidecarRunner::launch_failed(SidecarJob::CreateVenv, "denied");
    assert_eq!(e.code(), "bootstrap_failed");
    assert_eq!(e.message(), "Failed to execute uv venv: denied");
    let e = UvSidecarRunner::launch_failed(SidecarJob::PipInstall, "denied");
    assert_eq!(e.code(), "dependency_install_failed");
    assert_eq!(e.message(), "Failed to execute uv pip install: denied");
}

#[test]
fn worker_timeouts() {
    assert_eq!(WORKER_STARTUP_TIMEOUT_SECS, 300);
    assert_eq!(WORKER_REQUEST_TIMEOUT_SECS, 120);
}

#[test]
fn sidecar_runs_fail_at_the_first_failing_event() {
    let mut run = SidecarRun::new(SidecarJob::PipInstall);
    assert!(run.on_event(SidecarEvent::Terminated(Some(0))).is_none());
    let out = run.on_event(SidecarEvent::Error("broken pipe".to_string())).unwrap();
    let e = out.unwrap_err();
    assert_eq!(e.code(), "dependency_install_failed");
    assert_eq!(e.message(), "uv pip install error: broken pipe\nStderr: ");
}
