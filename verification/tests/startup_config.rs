use voice_plugin::models::Config;
use voice_plugin::voice_models::Config as VoiceConfig;

#[test]
fn config_default_is_tiny_en() {
    let config = Config::default();
    assert_eq!(config.model_id, Some("tiny.en".to_string()));
}

#[test]
fn voice_config_default_is_tiny_en() {
    let config = VoiceConfig::default();
    assert_eq!(config.model_id, Some("tiny.en".to_string()));
}
