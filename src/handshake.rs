//! The connection-open handshake: reading its response and deriving the
//! WebSocket endpoint from it.
use vstd::prelude::*;
use crate::json::{Json, parse_json, parsed_json, field_of, opt_str_of, find_field, opt_str_field};

verus! {

/// The body of the connection-open response: `{ ok, url?, error? }`.
#[derive(Debug, Clone, PartialEq)]
pub struct SlackApiAppConnectionsOpenResponse {
    pub ok: bool,
    pub url: Option<String>,
    pub error: Option<String>,
}

/// Why a handshake gave no endpoint.
#[derive(Debug, Clone, PartialEq)]
pub enum HandshakeError {
    /// The body is not JSON, or does not have the response's shape.
    Malformed,
    /// `ok` is true but no `url` came with it.
    MissingUrl,
    /// The platform refused the request, and said why.
    Rejected(String),
    /// The platform refused the request without giving a reason.
    RejectedWithoutReason,
}

impl SlackApiAppConnectionsOpenResponse {
    /// A well-formed response: `ok` exactly when a url came with it, and an
    /// error only with a refusal.
    pub open spec fn wf(&self) -> bool {
        &&& self.ok <==> self.url is Some
        &&& self.error is Some ==> !self.ok
    }
}

/// The response held by a JSON document. `ok` must be a boolean; `url` and
/// `error` may be absent or `null`, else must be strings; other members are
/// ignored. An accepted response with `ok` true keeps its url and drops any
/// `error`; one with `ok` false keeps its error (if any) and drops any `url`;
/// `ok` true without a url is `MissingUrl`.
pub open spec fn response_of(doc: Json) -> Result<SlackApiAppConnectionsOpenResponse, HandshakeError> {
    match doc {
        Json::Object(fs) => match (field_of(fs@, "ok"@), opt_str_of(field_of(fs@, "url"@)), opt_str_of(field_of(fs@, "error"@))) {
            (Some(Json::Bool(ok)), Some(url), Some(error)) => if ok {
                match url {
                    Some(u) => Ok(SlackApiAppConnectionsOpenResponse { ok: true, url: Some(u), error: None }),
                    None => Err(HandshakeError::MissingUrl),
                }
            } else {
                Ok(SlackApiAppConnectionsOpenResponse { ok: false, url: None, error })
            },
            _ => Err(HandshakeError::Malformed),
        },
        _ => Err(HandshakeError::Malformed),
    }
}

/// The response held by a body text.
pub open spec fn response_text_of(text: Seq<char>) -> Result<SlackApiAppConnectionsOpenResponse, HandshakeError> {
    match parsed_json(text) {
        Some(doc) => response_of(doc),
        None => Err(HandshakeError::Malformed),
    }
}

/// The endpoint a response grants, or why it grants none.
pub open spec fn url_of(r: SlackApiAppConnectionsOpenResponse) -> Result<String, HandshakeError> {
    if r.ok {
        match r.url {
            Some(u) => Ok(u),
            None => Err(HandshakeError::MissingUrl),
        }
    } else {
        match r.error {
            Some(e) => Err(HandshakeError::Rejected(e)),
            None => Err(HandshakeError::RejectedWithoutReason),
        }
    }
}

/// Reads the response out of a decoded document.
pub fn response_from_json(doc: &Json) -> (r: Result<SlackApiAppConnectionsOpenResponse, HandshakeError>)
    ensures
        r == response_of(*doc),
        r matches Ok(resp) ==> resp.wf(),
{
    match doc {
        Json::Object(fs) => {
            let ok = match find_field(fs, "ok") {
                Some(i) => match &fs[i].1 {
                    Json::Bool(b) => *b,
                    _ => return Err(HandshakeError::Malformed),
                },
                None => return Err(HandshakeError::Malformed),
            };
            let url = match opt_str_field(fs, "url") {
                Some(u) => u,
                None => return Err(HandshakeError::Malformed),
            };
            let error = match opt_str_field(fs, "error") {
                Some(e) => e,
                None => return Err(HandshakeError::Malformed),
            };
            if ok {
                match url {
                    Some(u) => Ok(SlackApiAppConnectionsOpenResponse { ok: true, url: Some(u), error: None }),
                    None => Err(HandshakeError::MissingUrl),
                }
            } else {
                Ok(SlackApiAppConnectionsOpenResponse { ok: false, url: None, error })
            }
        },
        _ => Err(HandshakeError::Malformed),
    }
}

/// Decodes the body of a connection-open response. Every accepted response is
/// well-formed; `ok` true without a url is rejected as `MissingUrl`, a
/// refusal without a reason is accepted, and `connection_url` tells it apart.
pub fn decode_handshake(text: &str) -> (r: Result<SlackApiAppConnectionsOpenResponse, HandshakeError>)
    ensures
        r == response_text_of(text@),
        r matches Ok(resp) ==> resp.wf(),
{
    match parse_json(text) {
        Some(doc) => response_from_json(&doc),
        None => Err(HandshakeError::Malformed),
    }
}

/// The WebSocket endpoint of a response: `Ok(url)` exactly when `ok` is true
/// and a url came with it; a refusal keeps the platform's reason, and the two
/// degraded cases (`ok` without url, refusal without reason) are errors of their own.
pub fn connection_url(resp: SlackApiAppConnectionsOpenResponse) -> (r: Result<String, HandshakeError>)
    ensures
        r == url_of(resp),
{
    if resp.ok {
        match resp.url {
            Some(u) => Ok(u),
            None => Err(HandshakeError::MissingUrl),
        }
    } else {
        match resp.error {
            Some(e) => Err(HandshakeError::Rejected(e)),
            None => Err(HandshakeError::RejectedWithoutReason),
        }
    }
}

} // verus!
