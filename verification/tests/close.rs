use cdp_rs::{CdpConnection, Channel, ChannelEvent, TransportError};

fn text_event(s: &str) -> ChannelEvent {
    ChannelEvent::Delivered(String::from(s))
}

#[test]
fn close_stops_on_acknowledgment() {
    let incoming = vec![
        text_event("{\"method\":\"Late.event\",\"params\":{}}"),
        ChannelEvent::Broken(TransportError::ConnectionClosed),
        text_event("{\"method\":\"Never.read\",\"params\":{}}"),
    ];
    let mut conn = CdpConnection::new(Channel::new(incoming));
    conn.close();
    assert!(conn.channel.closed);
    // The drain consumed up to and including the acknowledgment, no further.
    assert_eq!(conn.channel.cursor, 2);
}

#[test]
fn close_accepts_already_closed_as_acknowledgment() {
    let incoming = vec![ChannelEvent::Broken(TransportError::AlreadyClosed)];
    let mut conn = CdpConnection::new(Channel::new(incoming));
    conn.close();
    assert!(conn.channel.closed);
    assert_eq!(conn.channel.cursor, 1);
}

#[test]
fn close_without_acknowledgment_stays_within_budget() {
    // The peer never acknowledges: 150 frames arrive and none is a close
    // acknowledgment. Destruction must complete after its fixed budget of
    // 100 polls, without hanging.
    let mut incoming = Vec::new();
    for _ in 0..150 {
        incoming.push(text_event("{\"method\":\"Chatter.noise\",\"params\":{}}"));
    }
    let mut conn = CdpConnection::new(Channel::new(incoming));
    conn.close();
    assert!(conn.channel.closed);
    assert_eq!(conn.channel.cursor, 100);
}

#[test]
fn close_on_idle_channel_completes_at_once() {
    let mut conn = CdpConnection::new(Channel::new(vec![]));
    conn.close();
    assert!(conn.channel.closed);
    assert_eq!(conn.channel.cursor, 0);
}

#[test]
fn failed_close_abandons_the_handshake() {
    let incoming = vec![ChannelEvent::Broken(TransportError::ConnectionClosed)];
    let mut ch = Channel::new(incoming);
    ch.close_fails = true;
    let mut conn = CdpConnection::new(ch);
    conn.close();
    // The close frame never went out, so nothing was drained.
    assert!(!conn.channel.closed);
    assert_eq!(conn.channel.cursor, 0);
}

#[test]
fn close_is_safe_to_run_twice() {
    let mut conn = CdpConnection::new(Channel::new(vec![]));
    conn.close();
    conn.close();
    assert!(conn.channel.closed);
    assert_eq!(conn.channel.cursor, 0);
}
