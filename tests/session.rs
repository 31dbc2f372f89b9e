use socket_mode::handshake::{HandshakeError, SlackApiAppConnectionsOpenResponse};
use socket_mode::json::Json;
use socket_mode::session::{mention_reply, replay_frames, step, Command, Event, Reply, SessionError, SessionState};

fn open_session() -> SessionState {
    let resp = SlackApiAppConnectionsOpenResponse { ok: true, url: Some("wss://x".to_string()), error: None };
    let (s, c) = step(SessionState::AwaitingHandshake, Event::Handshake(resp));
    assert_eq!(c, Command::Connect("wss://x".to_string()));
    let (s, c) = step(s, Event::Connected);
    assert_eq!(c, Command::Receive);
    assert_eq!(s, SessionState::Open);
    s
}

fn text(t: &str) -> Event {
    Event::Text(t.to_string())
}

#[test]
fn hello_keeps_session_open_and_sends_nothing() {
    let s = open_session();
    let (s, c) = step(s, text(r#"{"type":"hello"}"#));
    assert_eq!(s, SessionState::Open);
    assert_eq!(c, Command::Receive);
}

#[test]
fn events_api_is_acknowledged_then_answered() {
    let s = open_session();
    let (s, c) = step(
        s,
        text(r#"{"type":"events_api","envelope_id":"E1","payload":{"event":{"channel":"C1","text":"hi"}}}"#),
    );
    assert_eq!(c, Command::SendAck(r#"{"envelope_id":"E1"}"#.to_string()));
    let (s, c) = step(s, Event::AckSent);
    match &c {
        Command::SendReply(r) => {
            assert_eq!(r.channel, "C1");
            assert!(r.text.contains("hi"));
            assert_eq!(r.text, "You said: ```hi```");
        }
        other => panic!("expected a reply, got {:?}", other),
    }
    assert_eq!(s, SessionState::Replying);
    let (s, c) = step(s, Event::ReplySent);
    assert_eq!((s, c), (SessionState::Open, Command::Receive));
}

#[test]
fn disconnect_ends_cleanly_without_ack() {
    let s = open_session();
    let (s, c) = step(s, text(r#"{"type":"disconnect","reason":"refresh_requested"}"#));
    assert_eq!(s, SessionState::Closed);
    assert_eq!(c, Command::Finish("refresh_requested".to_string()));
    let (s, c) = step(s, text(r#"{"type":"events_api","envelope_id":"E9","payload":{}}"#));
    assert_eq!((s, c), (SessionState::Closed, Command::Halt));
}

#[test]
fn malformed_frame_sends_nothing_and_receives_again() {
    let s = open_session();
    let (s, c) = step(s, text("{{{ nope"));
    assert_eq!((s, c), (SessionState::Open, Command::Receive));
}

#[test]
fn unknown_type_keeps_session_open() {
    let s = open_session();
    let (s, c) = step(s, text(r#"{"type":"brand_new"}"#));
    assert_eq!((s, c), (SessionState::Open, Command::Receive));
}

#[test]
fn rejected_handshake_never_connects() {
    let resp = SlackApiAppConnectionsOpenResponse { ok: false, url: None, error: Some("invalid_auth".to_string()) };
    let (s, c) = step(SessionState::AwaitingHandshake, Event::Handshake(resp));
    assert_eq!(s, SessionState::Closed);
    assert_eq!(
        c,
        Command::Fail(SessionError::Handshake(HandshakeError::Rejected("invalid_auth".to_string())))
    );
    assert!(format!("{:?}", c).contains("invalid_auth"));
    let (_, c) = step(s, Event::Connected);
    assert_eq!(c, Command::Halt);
}

#[test]
fn handshake_degraded_cases() {
    let resp = SlackApiAppConnectionsOpenResponse { ok: true, url: None, error: None };
    let (_, c) = step(SessionState::AwaitingHandshake, Event::Handshake(resp));
    assert_eq!(c, Command::Fail(SessionError::Handshake(HandshakeError::MissingUrl)));
    let (s, c) = step(SessionState::AwaitingHandshake, Event::HandshakeFailed);
    assert_eq!((s, c), (SessionState::Closed, Command::Fail(SessionError::HandshakeUnavailable)));
}

#[test]
fn transport_failures_close_the_session() {
    let (s, c) = step(SessionState::AwaitingConnect, Event::ConnectFailed);
    assert_eq!((s, c), (SessionState::Closed, Command::Fail(SessionError::ConnectFailed)));
    let (s, c) = step(open_session(), Event::ReadFailed);
    assert_eq!((s, c), (SessionState::Closed, Command::Fail(SessionError::ReadFailed)));
    let (s, c) = step(open_session(), Event::StreamClosed);
    assert_eq!((s, c), (SessionState::Closed, Command::Fail(SessionError::StreamClosed)));
}

#[test]
fn ping_and_other_frames_are_not_errors() {
    let (s, c) = step(open_session(), Event::Ping);
    assert_eq!((s, c), (SessionState::Open, Command::Receive));
    let (s, c) = step(open_session(), Event::OtherFrame);
    assert_eq!((s, c), (SessionState::Open, Command::Receive));
}

#[test]
fn slash_commands_and_interactive_are_acknowledged() {
    let (s, c) = step(open_session(), text(r#"{"type":"slash_commands","envelope_id":"S1","payload":{"command":"/x"}}"#));
    assert_eq!(c, Command::SendAck(r#"{"envelope_id":"S1"}"#.to_string()));
    assert_eq!(s, SessionState::Acknowledging { reply: None });
    let (s, c) = step(s, Event::AckSent);
    assert_eq!((s, c), (SessionState::Open, Command::Receive));
    let (_, c) = step(open_session(), text(r#"{"type":"interactive","envelope_id":"I1","payload":{}}"#));
    assert_eq!(c, Command::SendAck(r#"{"envelope_id":"I1"}"#.to_string()));
}

#[test]
fn failed_ack_skips_reply_and_continues() {
    let (s, _) = step(
        open_session(),
        text(r#"{"type":"events_api","envelope_id":"E1","payload":{"event":{"channel":"C1","text":"hi"}}}"#),
    );
    let (s, c) = step(s, Event::AckFailed);
    assert_eq!((s, c), (SessionState::Open, Command::Receive));
}

#[test]
fn failed_reply_continues() {
    let (s, c) = step(SessionState::Replying, Event::ReplyFailed);
    assert_eq!((s, c), (SessionState::Open, Command::Receive));
}

#[test]
fn events_out_of_order_close_the_session() {
    let (s, c) = step(SessionState::Open, Event::AckSent);
    assert_eq!((s, c), (SessionState::Closed, Command::Fail(SessionError::OutOfOrder)));
    let (s, c) = step(SessionState::Acknowledging { reply: None }, text(r#"{"type":"hello"}"#));
    assert_eq!((s, c), (SessionState::Closed, Command::Fail(SessionError::OutOfOrder)));
}

#[test]
fn mention_reply_shapes() {
    let ev = |members: Vec<(String, Json)>| {
        Json::Object(vec![("event".to_string(), Json::Object(members))])
    };
    let with_null_text = ev(vec![
        ("channel".to_string(), Json::Str("C2".to_string())),
        ("text".to_string(), Json::Null),
    ]);
    assert_eq!(
        mention_reply(&with_null_text),
        Some(Reply { channel: "C2".to_string(), text: "You said: ``````".to_string() })
    );
    let without_text = ev(vec![("channel".to_string(), Json::Str("C3".to_string()))]);
    assert_eq!(
        mention_reply(&without_text),
        Some(Reply { channel: "C3".to_string(), text: "You said: ``````".to_string() })
    );
    let no_channel = ev(vec![("text".to_string(), Json::Str("x".to_string()))]);
    assert_eq!(mention_reply(&no_channel), None);
    let bad_text = ev(vec![
        ("channel".to_string(), Json::Str("C4".to_string())),
        ("text".to_string(), Json::Bool(true)),
    ]);
    assert_eq!(mention_reply(&bad_text), None);
    assert_eq!(mention_reply(&Json::Null), None);
    assert_eq!(mention_reply(&Json::Object(vec![])), None);
}

#[test]
fn replay_sends_one_ack_per_envelope_in_order() {
    let frames: Vec<String> = vec![
        r#"{"type":"hello"}"#,
        r#"{"type":"events_api","envelope_id":"E1","payload":{"event":{"channel":"C1","text":"hi"}}}"#,
        "not json",
        r#"{"type":"interactive","envelope_id":"I1","payload":{}}"#,
        r#"{"type":"slash_commands","envelope_id":"S1","payload":{}}"#,
        r#"{"type":"disconnect","reason":"refresh_requested"}"#,
        r#"{"type":"events_api","envelope_id":"E2","payload":{}}"#,
    ]
    .into_iter()
    .map(|s| s.to_string())
    .collect();
    assert_eq!(
        replay_frames(&frames),
        vec![
            r#"{"envelope_id":"E1"}"#.to_string(),
            r#"{"envelope_id":"I1"}"#.to_string(),
            r#"{"envelope_id":"S1"}"#.to_string(),
        ]
    );
    assert!(replay_frames(&Vec::new()).is_empty());
}
