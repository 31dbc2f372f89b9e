//! Inbound envelopes: the closed set of frame kinds and their decoding.
use vstd::prelude::*;
use crate::json::{Json, parse_json, parsed_json, field_of, str_of, find_field, str_field};

verus! {

/// One inbound envelope, told apart by the frame's `type` member.
#[derive(Debug, PartialEq)]
pub enum SocketModeMessage {
    Hello {},
    Disconnect { reason: String },
    EventsApi { payload: Json, envelope_id: String },
    SlashCommands { payload: Json, envelope_id: String },
    Interactive { payload: Json, envelope_id: String },
}

/// A member that an envelope kind requires.
#[derive(Debug, Clone, Copy, PartialEq, Eq)]
pub enum Field {
    Reason,
    Payload,
    EnvelopeId,
}

/// Why a frame is not an envelope.
#[derive(Debug, Clone, PartialEq)]
pub enum DecodeError {
    /// The text is not one well-formed JSON document.
    Malformed,
    /// The document is not an object.
    NotAnObject,
    /// `type` is absent or is not a string.
    MissingType,
    /// `type` names no known envelope kind.
    UnknownType(String),
    /// A member that the kind requires is absent or of the wrong type.
    MissingField(Field),
}

/// Kinds that the platform waits to see acknowledged.
pub open spec fn is_ack_kind(t: Seq<char>) -> bool {
    t == "events_api"@ || t == "slash_commands"@ || t == "interactive"@
}

/// The five kinds of envelope.
pub open spec fn is_known_kind(t: Seq<char>) -> bool {
    t == "hello"@ || t == "disconnect"@ || is_ack_kind(t)
}

/// The `type` member that names the kind of an envelope.
pub open spec fn kind_of(m: SocketModeMessage) -> Seq<char> {
    match m {
        SocketModeMessage::Hello {} => "hello"@,
        SocketModeMessage::Disconnect { .. } => "disconnect"@,
        SocketModeMessage::EventsApi { .. } => "events_api"@,
        SocketModeMessage::SlashCommands { .. } => "slash_commands"@,
        SocketModeMessage::Interactive { .. } => "interactive"@,
    }
}

/// The acknowledgeable envelope of kind `t`.
pub open spec fn ack_envelope(t: Seq<char>, payload: Json, envelope_id: String) -> SocketModeMessage {
    if t == "events_api"@ {
        SocketModeMessage::EventsApi { payload, envelope_id }
    } else if t == "slash_commands"@ {
        SocketModeMessage::SlashCommands { payload, envelope_id }
    } else {
        SocketModeMessage::Interactive { payload, envelope_id }
    }
}

/// The envelope a document holds. Members beyond those a kind requires are ignored.
pub open spec fn envelope_of(doc: Json) -> Result<SocketModeMessage, DecodeError> {
    match doc {
        Json::Object(fs) => match str_of(field_of(fs@, "type"@)) {
            None => Err(DecodeError::MissingType),
            Some(t) => if t@ == "hello"@ {
                Ok(SocketModeMessage::Hello {})
            } else if t@ == "disconnect"@ {
                match str_of(field_of(fs@, "reason"@)) {
                    Some(reason) => Ok(SocketModeMessage::Disconnect { reason }),
                    None => Err(DecodeError::MissingField(Field::Reason)),
                }
            } else if is_ack_kind(t@) {
                match (field_of(fs@, "payload"@), str_of(field_of(fs@, "envelope_id"@))) {
                    (None, _) => Err(DecodeError::MissingField(Field::Payload)),
                    (_, None) => Err(DecodeError::MissingField(Field::EnvelopeId)),
                    (Some(p), Some(id)) => Ok(ack_envelope(t@, p, id)),
                }
            } else {
                Err(DecodeError::UnknownType(t))
            },
        },
        _ => Err(DecodeError::NotAnObject),
    }
}

/// The envelope a text frame holds.
pub open spec fn frame_of(text: Seq<char>) -> Result<SocketModeMessage, DecodeError> {
    match parsed_json(text) {
        Some(doc) => envelope_of(doc),
        None => Err(DecodeError::Malformed),
    }
}

/// The id to acknowledge, for the kinds that are acknowledged.
pub open spec fn ack_id_of(m: SocketModeMessage) -> Option<String> {
    match m {
        SocketModeMessage::EventsApi { envelope_id, .. } => Some(envelope_id),
        SocketModeMessage::SlashCommands { envelope_id, .. } => Some(envelope_id),
        SocketModeMessage::Interactive { envelope_id, .. } => Some(envelope_id),
        _ => None,
    }
}

/// The payload, for the kinds that carry one.
pub open spec fn payload_of(m: SocketModeMessage) -> Option<Json> {
    match m {
        SocketModeMessage::EventsApi { payload, .. } => Some(payload),
        SocketModeMessage::SlashCommands { payload, .. } => Some(payload),
        SocketModeMessage::Interactive { payload, .. } => Some(payload),
        _ => None,
    }
}

/// A document whose `type` names one of the five kinds, and which holds the
/// members that kind requires, decodes to an envelope of exactly that kind,
/// its members taken from the document.
pub proof fn lemma_known_kind_decodes(doc: Json)
    requires
        doc is Object,
        str_of(field_of(doc->Object_0@, "type"@)) matches Some(t) && is_known_kind(t@),
        str_of(field_of(doc->Object_0@, "type"@))->0@ == "disconnect"@
            ==> str_of(field_of(doc->Object_0@, "reason"@)) is Some,
        is_ack_kind(str_of(field_of(doc->Object_0@, "type"@))->0@) ==> {
            &&& field_of(doc->Object_0@, "payload"@) is Some
            &&& str_of(field_of(doc->Object_0@, "envelope_id"@)) is Some
        },
    ensures
        envelope_of(doc) is Ok,
        kind_of(envelope_of(doc)->Ok_0) == str_of(field_of(doc->Object_0@, "type"@))->0@,
        envelope_of(doc)->Ok_0 matches SocketModeMessage::Disconnect { reason }
            ==> Some(reason) == str_of(field_of(doc->Object_0@, "reason"@)),
        ack_id_of(envelope_of(doc)->Ok_0) is Some ==> {
            &&& ack_id_of(envelope_of(doc)->Ok_0) == str_of(field_of(doc->Object_0@, "envelope_id"@))
            &&& payload_of(envelope_of(doc)->Ok_0) == field_of(doc->Object_0@, "payload"@)
        },
{
}

/// A document whose `type` is missing, is not a string, or names no known
/// kind is not an envelope.
pub proof fn lemma_unknown_kind_rejected(doc: Json)
    requires
        !(doc matches Json::Object(fs) && str_of(field_of(fs@, "type"@)) matches Some(t) && is_known_kind(t@)),
    ensures
        envelope_of(doc) is Err,
{
}

/// Decodes a document into an envelope.
pub fn decode_envelope(doc: Json) -> (r: Result<SocketModeMessage, DecodeError>)
    ensures
        r == envelope_of(doc),
{
    match doc {
        Json::Object(mut fs) => {
            let t = match str_field(&fs, "type") {
                Some(t) => t,
                None => return Err(DecodeError::MissingType),
            };
            if t == "hello".to_owned() {
                Ok(SocketModeMessage::Hello {})
            } else if t == "disconnect".to_owned() {
                match str_field(&fs, "reason") {
                    Some(reason) => Ok(SocketModeMessage::Disconnect { reason }),
                    None => Err(DecodeError::MissingField(Field::Reason)),
                }
            } else {
                let is_events = t == "events_api".to_owned();
                let is_slash = t == "slash_commands".to_owned();
                let is_interactive = t == "interactive".to_owned();
                if !(is_events || is_slash || is_interactive) {
                    return Err(DecodeError::UnknownType(t));
                }
                let pi = match find_field(&fs, "payload") {
                    Some(i) => i,
                    None => return Err(DecodeError::MissingField(Field::Payload)),
                };
                let envelope_id = match str_field(&fs, "envelope_id") {
                    Some(id) => id,
                    None => return Err(DecodeError::MissingField(Field::EnvelopeId)),
                };
                let (_, payload) = fs.remove(pi);
                if is_events {
                    Ok(SocketModeMessage::EventsApi { payload, envelope_id })
                } else if is_slash {
                    Ok(SocketModeMessage::SlashCommands { payload, envelope_id })
                } else {
                    Ok(SocketModeMessage::Interactive { payload, envelope_id })
                }
            }
        },
        _ => Err(DecodeError::NotAnObject),
    }
}

/// Decodes one inbound text frame. Never panics: a frame that is not a known
/// envelope gives the matching `DecodeError`.
pub fn decode_frame(text: &str) -> (r: Result<SocketModeMessage, DecodeError>)
    ensures
        r == frame_of(text@),
{
    match parse_json(text) {
        Some(doc) => decode_envelope(doc),
        None => Err(DecodeError::Malformed),
    }
}

} // verus!
