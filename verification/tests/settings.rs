use ai_provider::settings::{
    build_ping_request, finished_status, initial_protocol_index, protocol_options, status_text,
    test_config, AiProtocol, AiProviderPageAction, ConnectionProbe, ProbeEvent, TestStatus,
};
use ai_provider::proto::conversation::{InputKind, UserInputKind};

#[test]
fn protocol_names_and_values() {
    assert_eq!(AiProtocol::OpenAi.display_name(), "OpenAI");
    assert_eq!(AiProtocol::Anthropic.display_name(), "Anthropic");
    assert_eq!(AiProtocol::OpenAi.setting_value(), "openai");
    assert_eq!(AiProtocol::Anthropic.setting_value(), "anthropic");
}

#[test]
fn picker_starts_on_saved_protocol() {
    assert_eq!(initial_protocol_index("anthropic"), 1);
    assert_eq!(initial_protocol_index("openai"), 0);
    assert_eq!(initial_protocol_index(""), 0);
    let options = protocol_options();
    assert_eq!(options[1], ("Anthropic", AiProviderPageAction::SelectProtocol(AiProtocol::Anthropic)));
    assert_eq!(options[0].0, "OpenAI");
}

#[test]
fn test_config_reports_validation_failure() {
    assert_eq!(
        test_config("".into(), "".into(), "m".into()).expect_err("failure"),
        TestStatus::Failure("AI Provider API key is required".to_string())
    );
    let cfg = test_config("".into(), "sk".into(), "m".into()).expect("config");
    assert_eq!(cfg.endpoint, "https://api.openai.com/v1");
    assert_eq!(TestStatus::default(), TestStatus::Idle);
}

#[test]
fn ping_request_has_one_query() {
    let req = build_ping_request();
    match req.input.and_then(|i| i.kind) {
        Some(InputKind::UserInputs(uis)) => {
            assert_eq!(uis.len(), 1);
            match &uis[0].input {
                Some(UserInputKind::UserQuery(q)) => assert_eq!(q.query, "ping"),
                _ => panic!("expected query"),
            }
        }
        _ => panic!("expected user inputs"),
    }
}

#[test]
fn probe_succeeds_after_three_events() {
    let mut probe = ConnectionProbe::new();
    assert_eq!(probe.on_event(ProbeEvent::Event), None);
    assert_eq!(probe.on_event(ProbeEvent::Event), None);
    assert_eq!(probe.on_event(ProbeEvent::Event), Some(Ok(())));
    assert_eq!(finished_status(Ok(())), TestStatus::Success);
}

#[test]
fn probe_fails_on_error_close_or_timeout() {
    let mut probe = ConnectionProbe::new();
    assert_eq!(probe.on_event(ProbeEvent::Event), None);
    assert_eq!(probe.on_event(ProbeEvent::Error("boom".into())), Some(Err("boom".to_string())));
    assert_eq!(
        ConnectionProbe::new().on_event(ProbeEvent::Closed),
        Some(Err("Endpoint closed connection without responding".to_string()))
    );
    assert_eq!(
        ConnectionProbe::new().on_event(ProbeEvent::TimedOut),
        Some(Err("Connection timed out".to_string()))
    );
    assert_eq!(finished_status(Err("x".into())), TestStatus::Failure("x".into()));
}

#[test]
fn status_lines() {
    assert_eq!(status_text(&TestStatus::Idle), None);
    assert_eq!(status_text(&TestStatus::InProgress), Some("Testing\u{2026}".to_string()));
    assert_eq!(status_text(&TestStatus::Success), Some("\u{2713} Connection OK".to_string()));
    assert_eq!(status_text(&TestStatus::Failure("bad key".into())), Some("\u{2717} bad key".to_string()));
}
