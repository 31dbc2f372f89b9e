use socket_mode::handshake::{connection_url, decode_handshake, HandshakeError, SlackApiAppConnectionsOpenResponse};

fn resp(ok: bool, url: Option<&str>, error: Option<&str>) -> SlackApiAppConnectionsOpenResponse {
    SlackApiAppConnectionsOpenResponse {
        ok,
        url: url.map(|s| s.to_string()),
        error: error.map(|s| s.to_string()),
    }
}

#[test]
fn decodes_ok_response_with_url() {
    let r = decode_handshake(r#"{"ok":true,"url":"wss://x"}"#).unwrap();
    assert_eq!(r, resp(true, Some("wss://x"), None));
    assert_eq!(connection_url(r), Ok("wss://x".to_string()));
}

#[test]
fn decodes_rejection_with_reason() {
    let r = decode_handshake(r#"{"ok":false,"error":"invalid_auth"}"#).unwrap();
    assert_eq!(r, resp(false, None, Some("invalid_auth")));
    assert_eq!(connection_url(r), Err(HandshakeError::Rejected("invalid_auth".to_string())));
}

#[test]
fn null_members_read_as_absent_and_extra_members_ignored() {
    let r = decode_handshake(r#"{"ok":true,"url":"wss://y","error":null,"warning":"w"}"#).unwrap();
    assert_eq!(r, resp(true, Some("wss://y"), None));
}

#[test]
fn ok_without_url_is_missing_url() {
    assert_eq!(decode_handshake(r#"{"ok":true}"#), Err(HandshakeError::MissingUrl));
    assert_eq!(decode_handshake(r#"{"ok":true,"url":null}"#), Err(HandshakeError::MissingUrl));
    assert_eq!(connection_url(resp(true, None, None)), Err(HandshakeError::MissingUrl));
}

#[test]
fn decoded_responses_keep_the_invariant() {
    let r = decode_handshake(r#"{"ok":true,"url":"wss://a","error":"stale"}"#).unwrap();
    assert_eq!(r, resp(true, Some("wss://a"), None));
    let r = decode_handshake(r#"{"ok":false,"url":"wss://b","error":"invalid_auth"}"#).unwrap();
    assert_eq!(r, resp(false, None, Some("invalid_auth")));
}

#[test]
fn rejection_without_reason_is_its_own_case() {
    let r = decode_handshake(r#"{"ok":false}"#).unwrap();
    let e = connection_url(r).unwrap_err();
    assert_eq!(e, HandshakeError::RejectedWithoutReason);
    assert_ne!(e, HandshakeError::MissingUrl);
}

#[test]
fn malformed_handshake_bodies() {
    assert_eq!(decode_handshake("not json"), Err(HandshakeError::Malformed));
    assert_eq!(decode_handshake(""), Err(HandshakeError::Malformed));
    assert_eq!(decode_handshake("[1,2]"), Err(HandshakeError::Malformed));
    assert_eq!(decode_handshake(r#"{"url":"wss://x"}"#), Err(HandshakeError::Malformed));
    assert_eq!(decode_handshake(r#"{"ok":"yes"}"#), Err(HandshakeError::Malformed));
    assert_eq!(decode_handshake(r#"{"ok":true,"url":5}"#), Err(HandshakeError::Malformed));
}

#[test]
fn ok_response_ignores_error_member() {
    assert_eq!(
        connection_url(resp(true, Some("wss://z"), Some("ignored"))),
        Ok("wss://z".to_string())
    );
}
