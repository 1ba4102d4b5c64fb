use market_fanout::frame::{data_frame, heartbeat_frame, lag_frame};
use market_fanout::registry::Registry;
use market_fanout::topic::{Receive, Topic};

#[test]
fn test_message_parsing_and_routing() {
    // Test JSON message parsing logic
    let json_message = r#"{"instrument": "AAPL", "price": 150.25, "volume": 100}"#;
    let parsed: serde_json::Value = serde_json::from_str(json_message).unwrap();

    assert_eq!(parsed["instrument"], "AAPL");
    assert_eq!(parsed["price"], 150.25);
    assert_eq!(parsed["volume"], 100);

    // Test SSE message formatting
    let json_str = serde_json::to_string(&parsed).unwrap();
    let sse_message = data_frame(&json_str);

    assert!(sse_message.starts_with("data: "));
    assert!(sse_message.ends_with("\n\n"));
    assert!(sse_message.contains("AAPL"));
}

#[test]
fn test_broadcast_channel_functionality() {
    let mut topic = Topic::new(10);
    let mut cursor = topic.subscribe();
    let test_data = "test message".to_string();

    // Send a message
    topic.publish(test_data.clone());

    // Receive the message
    match topic.receive(&mut cursor) {
        Receive::Frame(received) => assert_eq!(received, test_data),
        _ => panic!("expected the published frame"),
    }
}

#[test]
fn test_heartbeat_message_format() {
    let heartbeat = heartbeat_frame();

    // Check heartbeat format
    assert_eq!(heartbeat.as_bytes(), b": keep-alive\n\n");
    assert!(heartbeat.as_bytes().starts_with(b":"));
    assert!(heartbeat.as_bytes().ends_with(b"\n\n"));
}

#[test]
fn test_create_instrument_channels() {
    let keys = vec!["AAPL".to_string(), "GOOGL".to_string()];
    let registry = Registry::new(keys, 512);

    assert_eq!(registry.len(), 2);
    assert!(registry.resolve(&"AAPL".to_string()).is_some());
    assert!(registry.resolve(&"GOOGL".to_string()).is_some());
}

#[test]
fn lag_frame_exact_text() {
    assert_eq!(lag_frame(42), "event: warn\ndata: {\"lagged\": 42}\n\n");
    assert_eq!(lag_frame(0), "event: warn\ndata: {\"lagged\": 0}\n\n");
    assert_eq!(lag_frame(10), "event: warn\ndata: {\"lagged\": 10}\n\n");
    assert_eq!(
        lag_frame(u64::MAX),
        "event: warn\ndata: {\"lagged\": 18446744073709551615}\n\n"
    );
}

#[test]
fn data_frame_exact_text() {
    assert_eq!(data_frame("{}"), "data: {}\n\n");
    assert_eq!(data_frame("{\"a\":1}"), "data: {\"a\":1}\n\n");
}

#[test]
fn paced_subscriber_sees_every_frame_in_order() {
    // Within capacity, an attached subscriber that keeps pace loses nothing.
    let mut topic = Topic::new(3);
    let mut cursor = topic.subscribe();
    topic.publish("a".to_string());
    topic.publish("b".to_string());
    topic.publish("c".to_string());
    for expected in ["a", "b", "c"] {
        match topic.receive(&mut cursor) {
            Receive::Frame(f) => assert_eq!(f, expected),
            _ => panic!("expected a frame"),
        }
    }
    assert!(matches!(topic.receive(&mut cursor), Receive::Empty));
}

#[test]
fn overrun_subscriber_is_told_its_lag_then_resumes() {
    // Four publishes against capacity three and zero reads: the first read
    // reports one missed frame, then delivery resumes from the oldest
    // retained frame.
    let mut topic = Topic::new(3);
    let mut cursor = topic.subscribe();
    for f in ["a", "b", "c", "d"] {
        topic.publish(f.to_string());
    }
    match topic.receive(&mut cursor) {
        Receive::Lagged(n) => assert_eq!(n, 1),
        _ => panic!("expected a lag notification"),
    }
    for expected in ["b", "c", "d"] {
        match topic.receive(&mut cursor) {
            Receive::Frame(f) => assert_eq!(f, expected),
            _ => panic!("expected a frame"),
        }
    }
    assert!(matches!(topic.receive(&mut cursor), Receive::Empty));
}

#[test]
fn attach_after_publish_starts_at_tail() {
    // Keys {"X", "Y"}, capacity 3; publish a, b, c, d to X with nobody
    // attached; a subscriber that attaches afterward sees none of it.
    let mut registry = Registry::new(vec!["X".to_string(), "Y".to_string()], 3);
    let x = registry.resolve(&"X".to_string()).unwrap();
    let y = registry.resolve(&"Y".to_string()).unwrap();
    assert_ne!(x, y);
    for f in ["a", "b", "c", "d"] {
        registry.publish_to(x, f.to_string());
    }
    let mut cursor = registry.subscribe_to(x);
    assert!(matches!(registry.receive_from(x, &mut cursor), Receive::Empty));
}

#[test]
fn heartbeat_occupies_a_backlog_slot_like_data() {
    // Capacity 3: three data frames and one heartbeat published while the
    // subscriber is behind make a lag of one, and the heartbeat itself is
    // later delivered in true publish order.
    let mut topic = Topic::new(3);
    let mut cursor = topic.subscribe();
    topic.publish("a".to_string());
    topic.publish("b".to_string());
    topic.publish("c".to_string());
    topic.publish(heartbeat_frame());
    match topic.receive(&mut cursor) {
        Receive::Lagged(n) => assert_eq!(n, 1),
        _ => panic!("expected a lag notification"),
    }
    for expected in ["b", "c", ": keep-alive\n\n"] {
        match topic.receive(&mut cursor) {
            Receive::Frame(f) => assert_eq!(f, expected),
            _ => panic!("expected a frame"),
        }
    }
}

#[test]
fn heartbeat_all_reaches_every_topic() {
    let mut registry = Registry::new(vec!["X".to_string(), "Y".to_string()], 4);
    let x = registry.resolve(&"X".to_string()).unwrap();
    let y = registry.resolve(&"Y".to_string()).unwrap();
    let mut cx = registry.subscribe_to(x);
    let mut cy = registry.subscribe_to(y);
    registry.heartbeat_all();
    for (i, c) in [(x, &mut cx), (y, &mut cy)] {
        match registry.receive_from(i, c) {
            Receive::Frame(f) => assert_eq!(f, ": keep-alive\n\n"),
            _ => panic!("expected the heartbeat frame"),
        }
    }
}

#[test]
fn closed_topic_drains_then_reports_closed() {
    let mut topic = Topic::new(8);
    let mut cursor = topic.subscribe();
    topic.publish("last".to_string());
    topic.close();
    match topic.receive(&mut cursor) {
        Receive::Frame(f) => assert_eq!(f, "last"),
        _ => panic!("expected the retained frame"),
    }
    assert!(matches!(topic.receive(&mut cursor), Receive::Closed));
}

#[test]
fn close_all_closes_every_topic() {
    let mut registry = Registry::new(vec!["X".to_string(), "Y".to_string()], 4);
    let x = registry.resolve(&"X".to_string()).unwrap();
    let y = registry.resolve(&"Y".to_string()).unwrap();
    let mut cx = registry.subscribe_to(x);
    let mut cy = registry.subscribe_to(y);
    registry.close_all();
    assert!(matches!(registry.receive_from(x, &mut cx), Receive::Closed));
    assert!(matches!(registry.receive_from(y, &mut cy), Receive::Closed));
}
