use hub_session::{
    process_c2d_message, process_method_message, route, telemetry_message, InboundMessage,
    MessageClassification, PayloadDecodeError, Routed, TelemetryScheduler,
};

fn msg(topic: &str, payload: &[u8]) -> InboundMessage {
    InboundMessage { topic: topic.to_string(), payload: payload.to_vec() }
}

#[test]
fn command_gets_one_correlated_response() {
    let c = MessageClassification::Command { name: "reboot".to_string(), correlation_id: "42".to_string() };
    match route(msg("$iothub/methods/POST/reboot/?$rid=42", b"{}"), c).unwrap() {
        Routed::Responded(call) => {
            assert_eq!(call.name, "reboot");
            assert_eq!(call.text, "{}");
            assert_eq!(call.response.correlation_id, "42");
            assert_eq!(call.response.status, 200);
            assert_eq!(call.response.body, "{\"status\": \"success\"}");
            assert_eq!(call.response.qos, 1);
        }
        other => panic!("unexpected {:?}", other),
    }
}

#[test]
fn notification_gets_no_response() {
    let props = vec![("k".to_string(), "v".to_string())];
    let c = MessageClassification::Notification { properties: props.clone() };
    match route(msg("devices/dev1/messages/devicebound/k=v", "héllo".as_bytes()), c).unwrap() {
        Routed::Notified(n) => {
            assert_eq!(n.text, "héllo");
            assert_eq!(n.properties, props);
            assert_eq!(n.topic, "devices/dev1/messages/devicebound/k=v");
        }
        other => panic!("unexpected {:?}", other),
    }
}

#[test]
fn unrecognized_is_dropped() {
    assert!(matches!(route(msg("x", &[0xff]), MessageClassification::Unrecognized), Ok(Routed::Dropped)));
}

#[test]
fn non_text_payload_is_decode_error() {
    assert_eq!(process_c2d_message("t", Vec::new(), &[0xff, 0xfe]).err(), Some(PayloadDecodeError::NotText));
    assert_eq!(process_method_message("m", "1", &[0xc3]).err(), Some(PayloadDecodeError::NotText));
    let c = MessageClassification::Command { name: "m".to_string(), correlation_id: "7".to_string() };
    assert_eq!(route(msg("t", &[0x80]), c).err(), Some(PayloadDecodeError::NotText));
}

#[test]
fn telemetry_body_holds_sequence_number() {
    assert_eq!(telemetry_message(0), b"Message #0".to_vec());
    assert_eq!(telemetry_message(7), b"Message #7".to_vec());
    assert_eq!(telemetry_message(1234), b"Message #1234".to_vec());
    assert_eq!(telemetry_message(u32::MAX), b"Message #4294967295".to_vec());
}

#[test]
fn telemetry_every_period_until_total() {
    let mut t = TelemetryScheduler::new(3, 2);
    let sends: Vec<Option<u32>> = (0..10).map(|_| t.on_tick()).collect();
    assert_eq!(sends, vec![Some(0), None, None, Some(1), None, None, None, None, None, None]);
    assert!(t.is_finished());
    assert_eq!(t.sent_count(), 2);
    let mut every = TelemetryScheduler::new(1, 3);
    assert_eq!(every.on_tick(), Some(0));
    assert_eq!(every.on_tick(), Some(1));
    assert!(!every.is_finished());
}
