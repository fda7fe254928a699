use voice_plugin::tts::{
    check_wav_extension, generated_file_name, interpret_tts_reply, resolve_synthesis_request,
    sanitize_file_prefix, short_request_id, short_request_id_at, OutputTarget, SynthesisFields,
    TTS_OUTPUT_SUBDIR,
};
use voice_plugin::models::TranscribeRequest;
use voice_plugin::voice_models::{HealthResponse, LifecycleState};
use voice_plugin::voice_stt::{model_repo_for, transcription_gate, transcription_request_line};

fn fields(text: &str) -> SynthesisFields {
    SynthesisFields {
        text: text.to_string(),
        model_id: None,
        voice_id: None,
        language_code: None,
        output_path: None,
        output_dir: None,
        file_name_prefix: None,
    }
}

#[test]
fn synthesis_requests_get_defaults() {
    let r = resolve_synthesis_request(&fields("  Hello  "), true).unwrap();
    assert_eq!(r.text, "Hello");
    assert_eq!(r.model_id, "mlx-community/Kokoro-82M-bf16");
    assert_eq!(r.voice_id, "af_heart");
    assert_eq!(r.language_code, "a");
    match r.output {
        OutputTarget::Generated { dir, prefix } => {
            assert_eq!(dir, None);
            assert_eq!(prefix, "tts");
        }
        _ => panic!("expected a generated file name"),
    }
    let mut f = fields("Hi");
    f.output_dir = Some("/tmp".to_string());
    f.file_name_prefix = Some("my reply!".to_string());
    f.voice_id = Some("bm_george".to_string());
    f.language_code = Some("b".to_string());
    let r = resolve_synthesis_request(&f, true).unwrap();
    assert_eq!(r.voice_id, "bm_george");
    assert_eq!(r.language_code, "b");
    match r.output {
        OutputTarget::Generated { dir, prefix } => {
            assert_eq!(dir.as_deref(), Some("/tmp"));
            assert_eq!(prefix, "myreply");
        }
        _ => panic!("expected a generated file name"),
    }
    let mut f = fields("Hi");
    f.output_path = Some("/tmp/out.wav".to_string());
    match resolve_synthesis_request(&f, true).unwrap().output {
        OutputTarget::Exact { path } => assert_eq!(path, "/tmp/out.wav"),
        _ => panic!("expected the exact path"),
    }
}

#[test]
fn synthesis_requests_are_validated_in_order() {
    let message = |f: &SynthesisFields, speed_ok: bool| {
        let e = resolve_synthesis_request(f, speed_ok).unwrap_err();
        assert_eq!(e.code(), "invalid_input");
        e.message()
    };
    assert_eq!(message(&fields(" \n "), true), "text is required");
    assert_eq!(message(&fields(&"x".repeat(5001)), true), "text exceeds the maximum length");
    assert!(resolve_synthesis_request(&fields(&"x".repeat(5000)), true).is_ok());
    let mut f = fields("Hi");
    f.model_id = Some("other".to_string());
    assert_eq!(message(&f, false), "Invalid or unsupported TTS model ID");
    let mut f = fields("Hi");
    f.voice_id = Some("zz".to_string());
    assert_eq!(message(&f, true), "Invalid or unsupported TTS voice ID");
    let mut f = fields("Hi");
    f.language_code = Some("c".to_string());
    assert_eq!(message(&f, true), "Invalid or unsupported TTS language code");
    assert_eq!(message(&fields("Hi"), false), "speed must be between 0.5 and 2.0");
    let mut f = fields("Hi");
    f.output_path = Some("/tmp/a.wav".to_string());
    f.output_dir = Some("/tmp".to_string());
    assert_eq!(message(&f, true), "outputPath and outputDir are mutually exclusive");
}

#[test]
fn prefixes_are_sanitized() {
    assert_eq!(sanitize_file_prefix("reply"), "reply");
    assert_eq!(sanitize_file_prefix("../etc/passwd"), "etcpasswd");
    assert_eq!(sanitize_file_prefix("  "), "tts");
    assert_eq!(sanitize_file_prefix(""), "tts");
    assert_eq!(sanitize_file_prefix("héllo_wörld-1"), "hllo_wrld-1");
    let long = "a".repeat(40) + "b";
    assert_eq!(sanitize_file_prefix(&long), "a".repeat(32));
}

#[test]
fn output_file_names() {
    assert_eq!(short_request_id_at(0x12345678), "45678");
    assert_eq!(short_request_id_at(15), "f");
    let id = short_request_id();
    assert!(!id.is_empty() && id.len() <= 5);
    assert!(id.chars().all(|c| c.is_ascii_hexdigit() && !c.is_ascii_uppercase()));
    assert_eq!(generated_file_name("tts", 1700000000000, "beef"), "tts-1700000000000-beef.wav");
    assert!(check_wav_extension("/tmp/tts-1-a.wav").is_ok());
    let e = check_wav_extension("/tmp/out.mp3").unwrap_err();
    assert_eq!(e.message(), "TTS output path must use a .wav extension");
    assert!(check_wav_extension("/tmp/.wav").is_err());
    assert!(check_wav_extension("/tmp/noext").is_err());
}

#[test]
fn tts_replies_are_checked_against_the_request() {
    let out = "/tmp/speech.wav";
    let ok = "{\"id\":\"tts-1\",\"audio\":\"/tmp/speech.wav\",\"duration_ms\":1234,\"sample_rate_hz\":24000,\"language\":\"a\"}";
    let r = interpret_tts_reply(ok, out, 99).unwrap();
    assert_eq!(r.audio_path, out);
    assert_eq!(r.model_id, "mlx-community/Kokoro-82M-bf16");
    assert_eq!(r.voice_id, "af_heart");
    assert_eq!(r.language_code.as_deref(), Some("a"));
    assert_eq!(r.duration_ms, Some(1234));
    assert_eq!(r.format, "wav");
    assert_eq!(r.sample_rate_hz, Some(24000));
    assert_eq!(r.created_at_ms, 99);

    let full = "{\"audio\":\"/tmp/speech.wav\",\"model\":\"m\",\"voice\":\"bf_emma\",\"format\":\"pcm\",\"error\":\"\"}";
    let r = interpret_tts_reply(full, out, 1).unwrap();
    assert_eq!(r.model_id, "m");
    assert_eq!(r.voice_id, "bf_emma");
    assert_eq!(r.format, "pcm");
    assert_eq!(r.duration_ms, None);

    let e = interpret_tts_reply("{\"error\":\"out of memory\"}", out, 1).unwrap_err();
    assert_eq!(e.message(), "out of memory");
    let e = interpret_tts_reply("{\"id\":\"x\"}", out, 1).unwrap_err();
    assert_eq!(e.message(), "TTS worker returned no audio path");
    let e = interpret_tts_reply("{\"audio\":\"/tmp/other.wav\"}", out, 1).unwrap_err();
    assert_eq!(e.message(), "TTS worker returned an unexpected output path");
    let e = interpret_tts_reply("garbage", out, 1).unwrap_err();
    assert!(e.message().starts_with("TTS worker response parse failed: "));
    assert!(e.message().ends_with(". Output: garbage"));
}

#[test]
fn whisper_repositories_and_request_lines() {
    assert_eq!(model_repo_for("tiny.en"), "mlx-community/whisper-tiny.en-mlx");
    assert_eq!(model_repo_for("turbo"), "mlx-community/whisper-turbo");
    assert_eq!(model_repo_for("large-v3-turbo"), "mlx-community/whisper-large-v3-turbo");
    let line = transcription_request_line(5, "/tmp/a \"b\".wav");
    let v: serde_json::Value = serde_json::from_str(&line).unwrap();
    assert_eq!(v["id"], "req-5");
    assert_eq!(v["audio"], "/tmp/a \"b\".wav");
    assert_eq!(line, "{\"audio\":\"/tmp/a \\\"b\\\".wav\",\"id\":\"req-5\"}");
}

fn voice_ready(lifecycle_state: LifecycleState) -> HealthResponse {
    HealthResponse::Ready { lifecycle_state, engines: vec![], diagnostics: vec![] }
}

fn request(model_id: Option<&str>) -> TranscribeRequest {
    TranscribeRequest { path: "/tmp/a.wav".to_string(), model_id: model_id.map(|m| m.to_string()) }
}

#[test]
fn voice_transcription_needs_ready_lifecycle_file_and_allowlisted_model() {
    assert!(transcription_gate(&voice_ready(LifecycleState::Ready), &request(None), true).is_ok());
    assert!(transcription_gate(&voice_ready(LifecycleState::Ready), &request(Some("base")), true).is_ok());

    let not_ready = HealthResponse::NotReady {
        lifecycle_state: LifecycleState::Initializing,
        reason: "STT startup preload is still in progress".to_string(),
        engines: vec![],
        diagnostics: vec![],
    };
    let e = transcription_gate(&not_ready, &request(None), true).unwrap_err();
    assert_eq!(e.code(), "not_ready");
    assert_eq!(e.message(), "STT startup preload is still in progress");

    // Health ready while a download is in flight: the lifecycle decides.
    let e = transcription_gate(&voice_ready(LifecycleState::Initializing), &request(None), true)
        .unwrap_err();
    assert_eq!(e.code(), "not_ready");
    assert_eq!(e.message(), "STT lifecycle is not ready");

    let e = transcription_gate(&voice_ready(LifecycleState::Ready), &request(None), false)
        .unwrap_err();
    assert_eq!(e.code(), "invalid_input");
    assert_eq!(e.message(), "Audio file does not exist or is not a file");

    let e = transcription_gate(&voice_ready(LifecycleState::Ready), &request(Some("huge")), true)
        .unwrap_err();
    assert_eq!(e.code(), "invalid_input");
    assert_eq!(e.message(), "Invalid or unsupported model ID");
}

#[test]
fn generated_speech_defaults_to_the_tts_output_subdirectory() {
    assert_eq!(TTS_OUTPUT_SUBDIR, "tts/output");
}
