use cdp_rs::{
    close_ack_event, conclude_send, wait_step, CdpConnection, Channel, ChannelEvent, Frame,
    MessageError, ParamValue, TransportError, WaitStep,
};

fn text_event(s: &str) -> ChannelEvent {
    ChannelEvent::Delivered(String::from(s))
}

#[test]
fn send_returns_correlated_response() {
    let incoming = vec![text_event("{\"id\":1,\"result\":{\"ok\":true}}")];
    let mut conn = CdpConnection::new(Channel::new(incoming));
    let r = conn.send("Domain.enable", vec![]).unwrap();
    assert_eq!(r.id, Some(1));
    assert!(r.has_result);
    assert!(!r.has_error);
    assert_eq!(conn.channel.sent.len(), 1);
    let sent: serde_json::Value = serde_json::from_str(&conn.channel.sent[0]).unwrap();
    assert_eq!(sent["id"].as_i64(), Some(1));
    assert_eq!(sent["method"].as_str(), Some("Domain.enable"));
    assert!(sent["params"].is_object());
}

#[test]
fn request_ids_consecutive_even_when_a_write_fails() {
    let incoming = vec![
        text_event("{\"id\":1,\"result\":{}}"),
        text_event("{\"id\":3,\"result\":{}}"),
    ];
    let mut ch = Channel::new(incoming);
    ch.write_faults = vec![None, Some(TransportError::Other), None];
    let mut conn = CdpConnection::new(ch);

    let r1 = conn.send("First.call", vec![]).unwrap();
    assert_eq!(r1.id, Some(1));

    // The transport rejects the second write; the counter must advance anyway.
    let r2 = conn.send("Second.call", vec![]);
    assert!(matches!(
        r2,
        Err(MessageError::NetworkError(TransportError::Other))
    ));

    let r3 = conn.send("Third.call", vec![]).unwrap();
    assert_eq!(r3.id, Some(3));

    // Two frames went out, carrying ids 1 and 3: id 2 was consumed by the
    // failed dispatch and never reused.
    assert_eq!(conn.channel.sent.len(), 2);
    let s0: serde_json::Value = serde_json::from_str(&conn.channel.sent[0]).unwrap();
    let s1: serde_json::Value = serde_json::from_str(&conn.channel.sent[1]).unwrap();
    assert_eq!(s0["id"].as_i64(), Some(1));
    assert_eq!(s1["id"].as_i64(), Some(3));
}

#[test]
fn foreign_id_frame_is_discarded() {
    // A response for some other request id arrives first; the wait must skip
    // it and return the frame carrying the awaited id.
    let incoming = vec![
        text_event("{\"id\":99,\"result\":{}}"),
        text_event("{\"id\":1,\"result\":{\"value\":7}}"),
    ];
    let mut conn = CdpConnection::new(Channel::new(incoming));
    let r = conn.send("Domain.enable", vec![]).unwrap();
    assert_eq!(r.id, Some(1));
    // Both frames were consumed: the foreign one was dropped, not requeued.
    assert_eq!(conn.channel.cursor, 2);
}

#[test]
fn error_frame_rejects_the_request() {
    let incoming = vec![text_event("{\"id\":1,\"error\":{\"code\":-32000}}")];
    let mut conn = CdpConnection::new(Channel::new(incoming));
    let r = conn.send("Bad.call", vec![]);
    match r {
        Err(MessageError::InvalidRequest(f)) => {
            assert_eq!(f.id, Some(1));
            assert!(f.has_error);
        }
        other => panic!("expected InvalidRequest, got {:?}", other),
    }
}

#[test]
fn encoded_request_carries_params() {
    let incoming = vec![text_event("{\"id\":1,\"result\":{}}")];
    let mut conn = CdpConnection::new(Channel::new(incoming));
    conn.send(
        "Target.createTarget",
        vec![
            ("url", ParamValue::Str(String::from("https://example.test"))),
            ("count", ParamValue::Int(2)),
            ("flag", ParamValue::Bool(true)),
            ("nothing", ParamValue::Null),
            (
                "urls",
                ParamValue::List(vec![ParamValue::Str(String::from("a"))]),
            ),
            (
                "nested",
                ParamValue::Obj(vec![(String::from("k"), ParamValue::Int(1))]),
            ),
        ],
    )
    .unwrap();
    let sent: serde_json::Value = serde_json::from_str(&conn.channel.sent[0]).unwrap();
    assert_eq!(sent["params"]["url"].as_str(), Some("https://example.test"));
    assert_eq!(sent["params"]["count"].as_i64(), Some(2));
    assert_eq!(sent["params"]["flag"].as_bool(), Some(true));
    assert!(sent["params"]["nothing"].is_null());
    assert_eq!(sent["params"]["urls"][0].as_str(), Some("a"));
    assert_eq!(sent["params"]["nested"]["k"].as_i64(), Some(1));
}

#[test]
fn round_trip_response_id_equals_captured_id() {
    // Encode a request, read the id it actually carries on the wire, answer
    // with a synthetic response built from that id: the call must return a
    // frame whose id equals the captured request id.
    let mut probe = CdpConnection::new(Channel::new(vec![]));
    let _ = probe.send("Domain.enable", vec![]); // times out: no response scheduled
    let wire: serde_json::Value = serde_json::from_str(&probe.channel.sent[0]).unwrap();
    let captured = wire["id"].as_i64().unwrap();
    assert_eq!(captured, 1);

    let synthetic = format!("{{\"id\":{},\"result\":{{}}}}", captured);
    let mut conn = CdpConnection::new(Channel::new(vec![ChannelEvent::Delivered(synthetic)]));
    let r = conn.send("Domain.enable", vec![]).unwrap();
    assert_eq!(r.id, Some(captured));
}

#[test]
fn wait_message_reports_nothing_available() {
    let mut conn = CdpConnection::new(Channel::new(vec![]));
    assert!(matches!(conn.wait_message(), Err(MessageError::NoMessage)));
}

#[test]
fn wait_message_surfaces_malformed_frame() {
    let mut conn = CdpConnection::new(Channel::new(vec![text_event("not a document")]));
    assert!(matches!(
        conn.wait_message(),
        Err(MessageError::InvalidResponse)
    ));
}

#[test]
fn wait_message_maps_utf8_failure_to_invalid_response() {
    let mut conn = CdpConnection::new(Channel::new(vec![ChannelEvent::Broken(
        TransportError::Utf8,
    )]));
    assert!(matches!(
        conn.wait_message(),
        Err(MessageError::InvalidResponse)
    ));
}

#[test]
fn wait_message_surfaces_transport_failure() {
    let mut conn = CdpConnection::new(Channel::new(vec![ChannelEvent::Broken(
        TransportError::Other,
    )]));
    assert!(matches!(
        conn.wait_message(),
        Err(MessageError::NetworkError(TransportError::Other))
    ));
}

#[test]
fn wait_message_returns_event_frame() {
    let mut conn = CdpConnection::new(Channel::new(vec![text_event(
        "{\"method\":\"Network.dataReceived\",\"params\":{}}",
    )]));
    let f = conn.wait_message().unwrap();
    assert_eq!(f.method.as_deref(), Some("Network.dataReceived"));
    assert_eq!(f.id, None);
    assert!(!f.has_result && !f.has_error);
}

#[test]
fn zero_budget_wait_returns_no_message_immediately() {
    // Even with a matching frame scheduled, a zero poll budget reports
    // NoMessage at once instead of blocking.
    let incoming = vec![text_event("{\"method\":\"X.y\",\"params\":{}}")];
    let mut conn = CdpConnection::new(Channel::new(incoming));
    let r = conn.wait_event("X.y", Some(0));
    assert!(matches!(r, Err(MessageError::NoMessage)));
    assert_eq!(conn.channel.cursor, 0);
}

#[test]
fn exhausted_budget_returns_no_message() {
    let incoming = vec![ChannelEvent::Empty, ChannelEvent::Empty];
    let mut conn = CdpConnection::new(Channel::new(incoming));
    let r = conn.wait_event("X.y", Some(5));
    assert!(matches!(r, Err(MessageError::NoMessage)));
}

#[test]
fn wait_for_matches_caller_predicate() {
    let incoming = vec![
        text_event("{\"method\":\"Other.event\",\"params\":{}}"),
        text_event("{\"id\":4,\"result\":{}}"),
    ];
    let mut conn = CdpConnection::new(Channel::new(incoming));
    let r = conn.wait_for(None, |f| f.has_result).unwrap();
    assert_eq!(r.id, Some(4));
}

#[test]
fn wait_for_surfaces_transport_failure() {
    let incoming = vec![
        ChannelEvent::Empty,
        ChannelEvent::Broken(TransportError::Other),
    ];
    let mut conn = CdpConnection::new(Channel::new(incoming));
    let r = conn.wait_for(None, |f| f.has_result);
    assert!(matches!(
        r,
        Err(MessageError::NetworkError(TransportError::Other))
    ));
}

#[test]
fn receive_outcome_classifies_each_event() {
    let ok = cdp_rs::receive_outcome(text_event("{\"id\":5,\"result\":{}}")).unwrap();
    assert_eq!(ok.id, Some(5));
    assert!(matches!(
        cdp_rs::receive_outcome(ChannelEvent::Empty),
        Err(MessageError::NoMessage)
    ));
    assert!(matches!(
        cdp_rs::receive_outcome(ChannelEvent::Broken(TransportError::ConnectionClosed)),
        Err(MessageError::NetworkError(TransportError::ConnectionClosed))
    ));
    assert!(matches!(
        cdp_rs::receive_outcome(text_event("{nope")),
        Err(MessageError::InvalidResponse)
    ));
}

#[test]
fn ack_errors_are_exactly_the_closed_reports() {
    assert!(cdp_rs::is_ack_error(&TransportError::ConnectionClosed));
    assert!(cdp_rs::is_ack_error(&TransportError::AlreadyClosed));
    assert!(!cdp_rs::is_ack_error(&TransportError::Utf8));
    assert!(!cdp_rs::is_ack_error(&TransportError::Other));
}

#[test]
fn zero_budget_predicate_wait_returns_no_message() {
    // The caller-predicate wait under a zero budget: NoMessage at once, no
    // other error, nothing consumed — even with a matching frame scheduled.
    let incoming = vec![text_event("{\"id\":9,\"result\":{}}")];
    let mut conn = CdpConnection::new(Channel::new(incoming));
    let r = conn.wait_for(Some(0), |f| f.has_result);
    assert!(matches!(r, Err(MessageError::NoMessage)));
    assert_eq!(conn.channel.cursor, 0);
}

#[test]
fn exhausted_predicate_wait_returns_no_message() {
    let incoming = vec![
        text_event("{\"method\":\"Other.event\",\"params\":{}}"),
        ChannelEvent::Empty,
    ];
    let mut conn = CdpConnection::new(Channel::new(incoming));
    let r = conn.wait_for(Some(6), |f| f.has_result);
    assert!(matches!(r, Err(MessageError::NoMessage)));
    // Both scheduled events were consumed and discarded.
    assert_eq!(conn.channel.cursor, 2);
}

#[test]
fn predicate_wait_aborts_on_malformed_frame() {
    let incoming = vec![
        text_event("{\"method\":\"Other.event\",\"params\":{}}"),
        text_event("garbled"),
    ];
    let mut conn = CdpConnection::new(Channel::new(incoming));
    let r = conn.wait_for(None, |f| f.has_result);
    assert!(matches!(r, Err(MessageError::InvalidResponse)));
    assert_eq!(conn.channel.cursor, 2);
}

#[test]
fn write_fault_keeps_its_cause() {
    // A write failure surfaces as a network error with the transport's own
    // cause — it is not reclassified by the read path's mapping.
    let mut ch = Channel::new(vec![]);
    ch.write_faults = vec![Some(TransportError::Utf8)];
    let mut conn = CdpConnection::new(ch);
    let r = conn.send("Domain.enable", vec![]);
    assert!(matches!(
        r,
        Err(MessageError::NetworkError(TransportError::Utf8))
    ));
    assert!(conn.channel.sent.is_empty());
}

#[test]
fn deeply_nested_params_are_sent_but_do_not_parse_back() {
    // The serializer has no depth limit, so the request still goes out and
    // the response path is untouched; the emitted text itself exceeds the
    // parser's recursion budget, so nothing round-trips it.
    let mut value = ParamValue::Int(1);
    for _ in 0..150 {
        value = ParamValue::List(vec![value]);
    }
    let incoming = vec![text_event("{\"id\":1,\"result\":{}}")];
    let mut conn = CdpConnection::new(Channel::new(incoming));
    let r = conn.send("Deep.call", vec![("v", value)]).unwrap();
    assert_eq!(r.id, Some(1));
    assert!(serde_json::from_str::<serde_json::Value>(&conn.channel.sent[0]).is_err());
}

#[test]
fn params_within_the_bound_round_trip() {
    let mut value = ParamValue::Int(7);
    for _ in 0..50 {
        value = ParamValue::List(vec![value]);
    }
    let incoming = vec![text_event("{\"id\":1,\"result\":{}}")];
    let mut conn = CdpConnection::new(Channel::new(incoming));
    conn.send("Deep.call", vec![("v", value)]).unwrap();
    let sent: serde_json::Value = serde_json::from_str(&conn.channel.sent[0]).unwrap();
    assert_eq!(sent["id"].as_i64(), Some(1));
    assert_eq!(sent["method"].as_str(), Some("Deep.call"));
}

#[test]
fn wait_step_settles_and_discards_as_the_wait_does() {
    let matched = Frame {
        text: String::from("{\"id\":2,\"result\":{}}"),
        id: Some(2),
        method: None,
        has_result: true,
        has_error: false,
    };
    let accepts = |f: &Frame| f.has_result;
    match wait_step(Ok(matched), &accepts) {
        WaitStep::Settle(Ok(f)) => assert_eq!(f.id, Some(2)),
        other => panic!("expected a settled frame, got {:?}", matches!(other, WaitStep::KeepPolling)),
    }
    let refused = Frame {
        text: String::from("{\"method\":\"E.v\",\"params\":{}}"),
        id: None,
        method: Some(String::from("E.v")),
        has_result: false,
        has_error: false,
    };
    assert!(matches!(wait_step(Ok(refused), &accepts), WaitStep::KeepPolling));
    assert!(matches!(
        wait_step(Err(MessageError::NoMessage), &accepts),
        WaitStep::KeepPolling
    ));
    assert!(matches!(
        wait_step(Err(MessageError::InvalidResponse), &accepts),
        WaitStep::Settle(Err(MessageError::InvalidResponse))
    ));
}

#[test]
fn conclude_send_rejects_error_frames_only() {
    let err_frame = Frame {
        text: String::from("{\"id\":1,\"error\":{}}"),
        id: Some(1),
        method: None,
        has_result: false,
        has_error: true,
    };
    assert!(matches!(
        conclude_send(Ok(err_frame)),
        Err(MessageError::InvalidRequest(_))
    ));
    let ok_frame = Frame {
        text: String::from("{\"id\":1,\"result\":{}}"),
        id: Some(1),
        method: None,
        has_result: true,
        has_error: false,
    };
    assert!(matches!(conclude_send(Ok(ok_frame)), Ok(_)));
    assert!(matches!(
        conclude_send(Err(MessageError::NoMessage)),
        Err(MessageError::NoMessage)
    ));
}

#[test]
fn close_ack_events_are_exactly_the_closed_reports() {
    assert!(close_ack_event(&ChannelEvent::Broken(
        TransportError::ConnectionClosed
    )));
    assert!(close_ack_event(&ChannelEvent::Broken(
        TransportError::AlreadyClosed
    )));
    assert!(!close_ack_event(&ChannelEvent::Broken(TransportError::Utf8)));
    assert!(!close_ack_event(&ChannelEvent::Empty));
    assert!(!close_ack_event(&text_event("{\"id\":1,\"result\":{}}")));
}
