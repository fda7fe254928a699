use serde_json::Value;
use voice_plugin::error::Error;

fn serialize_error(err: Error) -> Value {
    serde_json::from_str(&err.to_json()).expect("error should serialize")
}

#[test]
fn error_serialization_uses_stable_not_ready_code() {
    // Verify not-ready typed error contract.

    let value = serialize_error(Error::not_ready("Environment not bootstrapped"));

    assert_eq!(value["code"], "not_ready");
    assert_eq!(value["message"], "Environment not bootstrapped");
    assert!(value["details"].is_null());
}

#[test]
fn error_serialization_uses_stable_generation_failed_code() {
    // Verify generation-failed typed error contract.

    let value = serialize_error(Error::generation_failed("Transcription failed"));

    assert_eq!(value["code"], "generation_failed");
    assert_eq!(value["message"], "Transcription failed");
    assert!(value["details"].is_null());
}

#[test]
fn smoke_contract_error_serialization_uses_stable_not_ready_code() {
    let value = serialize_error(Error::not_ready("Environment not bootstrapped"));

    assert_eq!(value["code"], "not_ready");
    assert_eq!(value["message"], "Environment not bootstrapped");
    assert!(value["details"].is_null());
}

#[test]
fn smoke_contract_error_serialization_uses_stable_generation_failed_code() {
    let value = serialize_error(Error::generation_failed("Transcription failed"));

    assert_eq!(value["code"], "generation_failed");
    assert_eq!(value["message"], "Transcription failed");
    assert!(value["details"].is_null());
}

#[test]
fn error_serialization_uses_feature_disabled_code() {
    let value = serialize_error(Error::feature_disabled("Bridge is disabled"));

    assert_eq!(value["code"], "feature_disabled");
    assert_eq!(value["message"], "Bridge is disabled");
    assert!(value["details"].is_null());
}

#[test]
fn every_error_kind_has_its_wire_code() {
    let cases = vec![
        (Error::bootstrap_failed("a"), "bootstrap_failed", "Bootstrap failed: a"),
        (Error::dependency_install_failed("b"), "dependency_install_failed", "Dependency install failed: b"),
        (Error::model_download_failed("c"), "model_download_failed", "Model download failed: c"),
        (Error::generation_failed("d"), "generation_failed", "Generation failed: d"),
        (Error::invalid_input("e"), "invalid_input", "Invalid input: e"),
        (Error::not_ready("f"), "not_ready", "Not ready: f"),
        (Error::feature_disabled("g"), "feature_disabled", "Feature disabled: g"),
    ];
    for (err, code, display) in cases {
        assert_eq!(err.code(), code);
        assert_eq!(err.to_display_string(), display);
        assert_eq!(err.details(), None);
    }
}

#[test]
fn io_errors_are_internal_errors() {
    let err = Error::Io(std::io::Error::new(std::io::ErrorKind::Other, "disk on fire"));
    assert_eq!(err.code(), "internal_error");
    assert_eq!(err.message(), "disk on fire");
    assert_eq!(err.to_display_string(), "disk on fire");
    let value = serialize_error(err);
    assert_eq!(value["code"], "internal_error");
    assert_eq!(value["message"], "disk on fire");
    assert!(value["details"].is_null());
}

#[test]
fn error_json_escapes_message_and_keeps_field_order() {
    let err = Error::InvalidInput {
        message: "bad \"path\"\n".to_string(),
        details: Some("see logs".to_string()),
    };
    assert_eq!(
        err.to_json(),
        "{\"code\":\"invalid_input\",\"message\":\"bad \\\"path\\\"\\n\",\"details\":\"see logs\"}"
    );
}

#[test]
fn error_json_escapes_every_control_character() {
    let err = Error::NotReady { message: "a\\b\t\u{1}\u{1f}\u{7f}é".to_string(), details: None };
    assert_eq!(
        err.to_json(),
        "{\"code\":\"not_ready\",\"message\":\"a\\\\b\\t\\u0001\\u001f\u{7f}é\",\"details\":null}"
    );
}
