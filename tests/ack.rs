use socket_mode::ack::SocketModeAcknowledgeMessage;

#[test]
fn ack_frame_without_payload() {
    let a = SocketModeAcknowledgeMessage::new("E1".to_string());
    assert_eq!(a.to_frame(), r#"{"envelope_id":"E1"}"#);
}

#[test]
fn ack_frame_with_payload() {
    let a = SocketModeAcknowledgeMessage { envelope_id: "E2".to_string(), payload: Some("ok".to_string()) };
    assert_eq!(a.to_frame(), r#"{"envelope_id":"E2","payload":"ok"}"#);
}

#[test]
fn ack_frame_escapes_the_id() {
    let a = SocketModeAcknowledgeMessage::new("a\"b\\c\n".to_string());
    assert_eq!(a.to_frame(), r#"{"envelope_id":"a\"b\\c\n"}"#);
}

#[test]
fn ack_frame_of_empty_id() {
    let a = SocketModeAcknowledgeMessage::new(String::new());
    assert_eq!(a.to_frame(), r#"{"envelope_id":""}"#);
}
