use market_fanout::pump::{pump_transition, PumpAction, PumpEvent, PumpOutcome, PumpState};
use market_fanout::registry::Registry;
use market_fanout::session::{open_session, session_step, SessionStep};
use market_fanout::topic::Receive;

fn registry_xy(capacity: usize) -> Registry {
    Registry::new(vec!["X".to_string(), "Y".to_string()], capacity)
}

#[test]
fn pump_routes_a_wellformed_payload() {
    let mut registry = registry_xy(8);
    let x = registry.resolve(&"X".to_string()).unwrap();
    let mut cursor = registry.subscribe_to(x);

    let payload = r#"{"instrument": "X", "price": 10.5}"#;
    match registry.pump_step(payload, "instrument") {
        PumpOutcome::Published(i) => assert_eq!(i, x),
        _ => panic!("expected the payload to be published"),
    }

    // The published frame carries the document re-serialized by serde_json.
    let canonical =
        serde_json::to_string(&serde_json::from_str::<serde_json::Value>(payload).unwrap())
            .unwrap();
    match registry.receive_from(x, &mut cursor) {
        Receive::Frame(f) => assert_eq!(f, format!("data: {}\n\n", canonical)),
        _ => panic!("expected the routed data frame"),
    }

    // Nothing reached the other topic.
    let y = registry.resolve(&"Y".to_string()).unwrap();
    let mut cy = registry.subscribe_to(y);
    assert!(matches!(registry.receive_from(y, &mut cy), Receive::Empty));
}

#[test]
fn pump_drops_a_malformed_payload() {
    let mut registry = registry_xy(8);
    let x = registry.resolve(&"X".to_string()).unwrap();
    let mut cursor = registry.subscribe_to(x);
    assert!(matches!(
        registry.pump_step("this is not structured data", "instrument"),
        PumpOutcome::Malformed
    ));
    assert!(matches!(
        registry.pump_step("{\"instrument\": \"X\"", "instrument"),
        PumpOutcome::Malformed
    ));
    assert!(matches!(registry.receive_from(x, &mut cursor), Receive::Empty));
}

#[test]
fn pump_drops_a_payload_without_routing_field() {
    let mut registry = registry_xy(8);
    let x = registry.resolve(&"X".to_string()).unwrap();
    let mut cursor = registry.subscribe_to(x);
    assert!(matches!(
        registry.pump_step(r#"{"price": 10.5}"#, "instrument"),
        PumpOutcome::NoRouting
    ));
    // A routing field that is not text does not route either.
    assert!(matches!(
        registry.pump_step(r#"{"instrument": 7}"#, "instrument"),
        PumpOutcome::NoRouting
    ));
    assert!(matches!(registry.receive_from(x, &mut cursor), Receive::Empty));
}

#[test]
fn pump_drops_an_unknown_routing_key() {
    let mut registry = registry_xy(8);
    let x = registry.resolve(&"X".to_string()).unwrap();
    let y = registry.resolve(&"Y".to_string()).unwrap();
    let mut cx = registry.subscribe_to(x);
    let mut cy = registry.subscribe_to(y);
    assert!(matches!(
        registry.pump_step(r#"{"instrument": "Z", "price": 1}"#, "instrument"),
        PumpOutcome::UnknownKey
    ));
    assert!(matches!(registry.receive_from(x, &mut cx), Receive::Empty));
    assert!(matches!(registry.receive_from(y, &mut cy), Receive::Empty));
}

#[test]
fn resolve_rejects_unknown_and_separates_known_keys() {
    let registry = registry_xy(3);
    assert!(registry.resolve(&"Z".to_string()).is_none());
    let x = registry.resolve(&"X".to_string()).unwrap();
    let y = registry.resolve(&"Y".to_string()).unwrap();
    assert_ne!(x, y);
}

#[test]
fn unknown_key_refuses_a_session() {
    let registry = registry_xy(3);
    assert!(open_session(&registry, &"Z".to_string()).is_none());
}

#[test]
fn session_streams_frames_lag_and_end() {
    let mut registry = registry_xy(2);
    let (topic, mut cursor) = open_session(&registry, &"X".to_string()).unwrap();

    // Three publishes against capacity two: the session first sends the
    // lag notification, then the retained frames, then waits, and ends
    // when the topic closes.
    for f in ["a", "b", "c"] {
        registry.publish_to(topic, f.to_string());
    }
    let r = registry.receive_from(topic, &mut cursor);
    match session_step(r) {
        SessionStep::Send(text) => assert_eq!(text, "event: warn\ndata: {\"lagged\": 1}\n\n"),
        _ => panic!("expected the lag notification to be sent"),
    }
    for expected in ["b", "c"] {
        let r = registry.receive_from(topic, &mut cursor);
        match session_step(r) {
            SessionStep::Send(text) => assert_eq!(text, expected),
            _ => panic!("expected a frame to be sent"),
        }
    }
    let r = registry.receive_from(topic, &mut cursor);
    assert!(matches!(session_step(r), SessionStep::Wait));
    registry.close_all();
    let r = registry.receive_from(topic, &mut cursor);
    assert!(matches!(session_step(r), SessionStep::End));
}

#[test]
fn pump_state_machine_never_halts() {
    // Connecting succeeds into consuming; any fault detours through the
    // bounded reconnect wait and back to connecting.
    assert!(matches!(
        pump_transition(PumpState::Connecting, PumpEvent::Connected),
        (PumpState::Consuming, PumpAction::AwaitPayload)
    ));
    assert!(matches!(
        pump_transition(PumpState::Connecting, PumpEvent::ConnectFailed),
        (PumpState::Reconnecting, PumpAction::SleepThenRetry)
    ));
    assert!(matches!(
        pump_transition(PumpState::Consuming, PumpEvent::PayloadArrived),
        (PumpState::Consuming, PumpAction::ProcessPayload)
    ));
    assert!(matches!(
        pump_transition(PumpState::Consuming, PumpEvent::ReadFailed),
        (PumpState::Reconnecting, PumpAction::SleepThenRetry)
    ));
    assert!(matches!(
        pump_transition(PumpState::Reconnecting, PumpEvent::Connected),
        (PumpState::Connecting, PumpAction::Connect)
    ));
    assert!(matches!(
        pump_transition(PumpState::Reconnecting, PumpEvent::ReadFailed),
        (PumpState::Connecting, PumpAction::Connect)
    ));
}
