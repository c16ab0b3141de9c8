use ai_provider::config::{runtime_config, set_runtime_config, OpenAiConfig, RuntimeConfigStore};
use ai_provider::error::AIApiError;
use ai_provider::protocol::{protocol_from_value, Protocol};

#[test]
fn from_parts_with_full_values() {
    let cfg = OpenAiConfig::from_parts(
        "https://example.test/v1".into(),
        "sk-test".into(),
        "gpt-4o-mini".into(),
    )
    .expect("config");
    assert_eq!(cfg.endpoint, "https://example.test/v1");
    assert_eq!(cfg.api_key, "sk-test");
    assert_eq!(cfg.model, "gpt-4o-mini");
}

#[test]
fn from_parts_defaults_empty_endpoint() {
    let cfg = OpenAiConfig::from_parts("".into(), "sk-x".into(), "gpt-4o-mini".into())
        .expect("config");
    assert_eq!(cfg.endpoint, OpenAiConfig::DEFAULT_ENDPOINT);
}

#[test]
fn from_parts_errors_on_empty_api_key() {
    let err = OpenAiConfig::from_parts("".into(), "".into(), "gpt-4o-mini".into())
        .expect_err("err");
    assert!(err.message().contains("API key is required"));
}

#[test]
fn from_parts_errors_on_blank_model() {
    let err = OpenAiConfig::from_parts("".into(), "sk-x".into(), "  \t".into()).expect_err("err");
    assert_eq!(*err, AIApiError::Other("AI Provider model is required".to_string()));
}

#[test]
fn from_parts_blank_key_wins_over_blank_model() {
    let err = OpenAiConfig::from_parts("".into(), " ".into(), "".into()).expect_err("err");
    assert_eq!(err.message(), "AI Provider API key is required");
}

#[test]
fn from_parts_blank_endpoint_is_default() {
    let cfg = OpenAiConfig::from_parts("   ".into(), "sk-x".into(), "m".into()).expect("config");
    assert_eq!(cfg.endpoint, "https://api.openai.com/v1");
}

#[test]
fn loads_full_config() {
    let cfg = OpenAiConfig::from_env_values(
        Some("sk-test-123".to_string()),
        Some("gpt-4o-mini".to_string()),
        Some("https://example.test/v1".to_string()),
    )
    .expect("config");
    assert_eq!(cfg.endpoint, "https://example.test/v1");
    assert_eq!(cfg.api_key, "sk-test-123");
    assert_eq!(cfg.model, "gpt-4o-mini");
}

#[test]
fn defaults_endpoint_when_unset() {
    let cfg = OpenAiConfig::from_env_values(
        Some("sk-default".to_string()),
        Some("gpt-4o-mini".to_string()),
        None,
    )
    .expect("config");
    assert_eq!(cfg.endpoint, OpenAiConfig::DEFAULT_ENDPOINT);
}

#[test]
fn errors_when_api_key_missing() {
    let err = OpenAiConfig::from_env_values(None, Some("gpt-4o-mini".to_string()), None)
        .expect_err("expected err");
    assert!(err.message().contains("WARP_AI_OPENAI_API_KEY"));
}

#[test]
fn errors_when_model_missing() {
    let err = OpenAiConfig::from_env_values(Some("sk-x".to_string()), None, None)
        .expect_err("expected err");
    assert!(err.message().contains("WARP_AI_OPENAI_MODEL"));
}

#[test]
fn runtime_config_reads_back_what_was_set() {
    let mut store = RuntimeConfigStore::new();
    assert!(runtime_config(&store).is_none());
    let cfg = OpenAiConfig::from_parts("".into(), "sk-x".into(), "m".into()).expect("config");
    set_runtime_config(&mut store, Some(cfg.clone()));
    assert_eq!(runtime_config(&store), Some(cfg));
    set_runtime_config(&mut store, None);
    assert!(runtime_config(&store).is_none());
}

#[test]
fn defaults_to_warp_when_unset() {
    assert_eq!(protocol_from_value(None), Protocol::Warp);
}

#[test]
fn picks_openai_for_explicit_value() {
    assert_eq!(protocol_from_value(Some("openai")), Protocol::OpenAi);
}

#[test]
fn picks_anthropic_for_explicit_value() {
    assert_eq!(protocol_from_value(Some("anthropic")), Protocol::Anthropic);
}

#[test]
fn falls_back_to_warp_for_unknown_value() {
    assert_eq!(protocol_from_value(Some("garbage")), Protocol::Warp);
}

#[test]
fn protocol_value_is_case_sensitive() {
    assert_eq!(protocol_from_value(Some("OpenAI")), Protocol::Warp);
}
