//! Acknowledgment frames: `{"envelope_id": ..., "payload": ...}` as compact JSON text.
use vstd::prelude::*;
use vstd::string::*;

verus! {

/// An acknowledgment of the envelope `envelope_id`, with an optional
/// response payload (a string).
#[derive(Debug, Clone, PartialEq)]
pub struct SocketModeAcknowledgeMessage {
    pub envelope_id: String,
    pub payload: Option<String>,
}

#[verifier::external_type_specification]
#[verifier::external_body]
pub struct ExError(serde_json::Error);

/// How one character is written inside a JSON string literal: `"` and `\`
/// get a backslash, control characters below U+0020 get their short escape
/// or `\u00xx` with lower-case hex digits, every other character stands as it is.
pub open spec fn escaped_char(c: char) -> Seq<char> {
    if c == '"' {
        seq!['\\', '"']
    } else if c == '\\' {
        seq!['\\', '\\']
    } else if c == '\x08' {
        seq!['\\', 'b']
    } else if c == '\t' {
        seq!['\\', 't']
    } else if c == '\n' {
        seq!['\\', 'n']
    } else if c == '\x0C' {
        seq!['\\', 'f']
    } else if c == '\r' {
        seq!['\\', 'r']
    } else if (c as u32) < 0x20 {
        seq!['\\', 'u', '0', '0', "0123456789abcdef"@[(c as u32) as int / 16], "0123456789abcdef"@[(c as u32) as int % 16]]
    } else {
        seq![c]
    }
}

/// The characters of `s`, each escaped.
pub open spec fn escaped(s: Seq<char>) -> Seq<char>
    decreases s.len(),
{
    if s.len() == 0 {
        Seq::empty()
    } else {
        escaped_char(s[0]) + escaped(s.drop_first())
    }
}

/// A string written as a JSON string literal, quotes and escapes included.
pub open spec fn quoted(s: Seq<char>) -> Seq<char> {
    seq!['"'] + escaped(s) + seq!['"']
}

/// Relies on `serde_json::to_string` on a `str`: it writes the string literal,
/// escaped by its `ESCAPE` table, into a `Vec<u8>`, whose writes do not fail,
/// so the result is `Ok`.
#[verifier::external_body]
fn quote(s: &str) -> (r: Result<String, serde_json::Error>)
    ensures
        r is Ok,
        r is Ok ==> r->Ok_0@ == quoted(s@),
{
    serde_json::to_string(s)
}

/// The text of an acknowledgment frame. The `payload` member is left out
/// when there is none.
pub open spec fn ack_text(envelope_id: Seq<char>, payload: Option<Seq<char>>) -> Seq<char> {
    "{\"envelope_id\":"@ + quoted(envelope_id) + match payload {
        Some(p) => ",\"payload\":"@ + quoted(p),
        None => Seq::empty(),
    } + "}"@
}

/// The view of an optional string.
pub open spec fn opt_view(s: Option<String>) -> Option<Seq<char>> {
    match s {
        Some(x) => Some(x@),
        None => None,
    }
}

fn quoted_string(s: &str) -> (r: String)
    ensures
        r@ == quoted(s@),
{
    match quote(s) {
        Ok(q) => q,
        Err(_) => {
            proof {
                assert(false);
            }
            String::new()
        },
    }
}

impl SocketModeAcknowledgeMessage {
    /// The acknowledgment of `envelope_id`, with no payload.
    pub fn new(envelope_id: String) -> (r: Self)
        ensures
            r.envelope_id == envelope_id,
            r.payload is None,
    {
        SocketModeAcknowledgeMessage { envelope_id, payload: None }
    }

    /// The frame text to send.
    pub fn to_frame(&self) -> (r: String)
        ensures
            r@ == ack_text(self.envelope_id@, opt_view(self.payload)),
    {
        let mut out = "{\"envelope_id\":".to_owned();
        let id = quoted_string(self.envelope_id.as_str());
        out.append(id.as_str());
        match &self.payload {
            Some(p) => {
                out.append(",\"payload\":");
                let q = quoted_string(p.as_str());
                out.append(q.as_str());
            },
            None => {},
        }
        out.append("}");
        out
    }
}

} // verus!
