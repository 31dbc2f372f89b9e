//! The session as a state machine: each step takes the current state and what
//! the transport or the platform reported, and gives the next state and the one
//! command to carry out next.
use vstd::prelude::*;
use vstd::string::*;
use crate::json::{Json, field_of, str_of, opt_str_of, find_field, str_field, opt_str_field};
use crate::handshake::{SlackApiAppConnectionsOpenResponse, HandshakeError, url_of, connection_url};
use crate::envelope::{SocketModeMessage, DecodeError, frame_of, ack_id_of, payload_of, decode_frame};
use crate::ack::{SocketModeAcknowledgeMessage, ack_text};

verus! {

/// A message to post back to a channel through the REST channel.
#[derive(Debug, Clone, PartialEq)]
pub struct Reply {
    pub channel: String,
    pub text: String,
}

/// Where the session stands.
#[derive(Debug, Clone, PartialEq)]
pub enum SessionState {
    /// Waiting for the connection-open handshake.
    AwaitingHandshake,
    /// Waiting for the WebSocket connection to open.
    AwaitingConnect,
    /// Connected, waiting for the next frame.
    Open,
    /// An acknowledgment is being sent; `reply` goes out once it has been.
    Acknowledging { reply: Option<Reply> },
    /// A reply is being posted.
    Replying,
    /// The session is over.
    Closed,
}

/// What the transport or the platform reported.
#[derive(Debug, Clone, PartialEq)]
pub enum Event {
    /// The handshake answered with this response.
    Handshake(SlackApiAppConnectionsOpenResponse),
    /// The handshake call failed, or its body could not be read.
    HandshakeFailed,
    Connected,
    ConnectFailed,
    /// A text frame arrived.
    Text(String),
    /// A ping frame arrived.
    Ping,
    /// A frame of another kind arrived.
    OtherFrame,
    /// Reading the next frame failed.
    ReadFailed,
    /// The peer closed the connection.
    StreamClosed,
    AckSent,
    AckFailed,
    ReplySent,
    ReplyFailed,
}

/// Why a session ended without a `Disconnect`.
#[derive(Debug, Clone, PartialEq)]
pub enum SessionError {
    Handshake(HandshakeError),
    HandshakeUnavailable,
    ConnectFailed,
    ReadFailed,
    StreamClosed,
    /// An event came that the current state does not wait for.
    OutOfOrder,
}

/// The next thing to do.
#[derive(Debug, Clone, PartialEq)]
pub enum Command {
    /// Open a WebSocket connection to this url.
    Connect(String),
    /// Wait for the next frame.
    Receive,
    /// Send this text frame.
    SendAck(String),
    /// Post this reply.
    SendReply(Reply),
    /// The platform asked to disconnect, for this reason: stop cleanly.
    Finish(String),
    /// Stop with this error.
    Fail(SessionError),
    /// The session is already over: do nothing.
    Halt,
}

/// The text of the echo reply.
pub open spec fn reply_text(text: Option<String>) -> Seq<char> {
    "You said: ```"@ + match text {
        Some(t) => t@,
        None => Seq::empty(),
    } + "```"@
}

/// Channel and text of a payload of the shape
/// `{"event": {"channel": <string>, "text": <string, null or absent>}}`.
pub open spec fn mention_of(payload: Json) -> Option<(String, Option<String>)> {
    match payload {
        Json::Object(fs) => match field_of(fs@, "event"@) {
            Some(Json::Object(ev)) => match (str_of(field_of(ev@, "channel"@)), opt_str_of(field_of(ev@, "text"@))) {
                (Some(c), Some(t)) => Some((c, t)),
                _ => None,
            },
            _ => None,
        },
        _ => None,
    }
}

/// `r` is the reply that `payload` calls for: none unless it has the shape above.
pub open spec fn reply_for(payload: Json, r: Option<Reply>) -> bool {
    match mention_of(payload) {
        None => r is None,
        Some((c, t)) => r matches Some(rp) && rp.channel == c && rp.text@ == reply_text(t),
    }
}

/// The reply to an event payload, if it has the shape that is answered.
pub fn mention_reply(payload: &Json) -> (r: Option<Reply>)
    ensures
        reply_for(*payload, r),
{
    let fs = match payload {
        Json::Object(fs) => fs,
        _ => return None,
    };
    let ev = match find_field(fs, "event") {
        Some(i) => match &fs[i].1 {
            Json::Object(ev) => ev,
            _ => return None,
        },
        None => return None,
    };
    let channel = match str_field(ev, "channel") {
        Some(c) => c,
        None => return None,
    };
    let text = match opt_str_field(ev, "text") {
        Some(t) => t,
        None => return None,
    };
    let mut out = "You said: ```".to_owned();
    match &text {
        Some(t) => out.append(t.as_str()),
        None => {},
    }
    out.append("```");
    Some(Reply { channel, text: out })
}

/// Acknowledging an envelope: state and command after it was decoded.
pub open spec fn acknowledging(envelope_id: String, payload: Json, n: SessionState, c: Command) -> bool {
    &&& n matches SessionState::Acknowledging { reply } && reply_for(payload, reply)
    &&& c matches Command::SendAck(f) && f@ == ack_text(envelope_id@, None)
}

/// The step on a decoded (or undecodable) text frame.
pub open spec fn frame_step(f: Result<SocketModeMessage, DecodeError>, n: SessionState, c: Command) -> bool {
    match f {
        Err(_) => n == SessionState::Open && c == Command::Receive,
        Ok(SocketModeMessage::Hello {}) => n == SessionState::Open && c == Command::Receive,
        Ok(SocketModeMessage::Disconnect { reason }) => n == SessionState::Closed && c == Command::Finish(reason),
        Ok(m) => acknowledging(ack_id_of(m)->0, payload_of(m)->0, n, c),
    }
}

pub open spec fn out_of_order(n: SessionState, c: Command) -> bool {
    n == SessionState::Closed && c == Command::Fail(SessionError::OutOfOrder)
}

pub open spec fn fails_with(n: SessionState, c: Command, e: SessionError) -> bool {
    n == SessionState::Closed && c == Command::Fail(e)
}

/// One step of the session: from state `s`, on event `e`, to state `n` with command `c`.
pub open spec fn transition(s: SessionState, e: Event, n: SessionState, c: Command) -> bool {
    match s {
        SessionState::AwaitingHandshake => match e {
            Event::Handshake(resp) => match url_of(resp) {
                Ok(u) => n == SessionState::AwaitingConnect && c == Command::Connect(u),
                Err(err) => fails_with(n, c, SessionError::Handshake(err)),
            },
            Event::HandshakeFailed => fails_with(n, c, SessionError::HandshakeUnavailable),
            _ => out_of_order(n, c),
        },
        SessionState::AwaitingConnect => match e {
            Event::Connected => n == SessionState::Open && c == Command::Receive,
            Event::ConnectFailed => fails_with(n, c, SessionError::ConnectFailed),
            _ => out_of_order(n, c),
        },
        SessionState::Open => match e {
            Event::Text(t) => frame_step(frame_of(t@), n, c),
            Event::Ping => n == SessionState::Open && c == Command::Receive,
            Event::OtherFrame => n == SessionState::Open && c == Command::Receive,
            Event::ReadFailed => fails_with(n, c, SessionError::ReadFailed),
            Event::StreamClosed => fails_with(n, c, SessionError::StreamClosed),
            _ => out_of_order(n, c),
        },
        SessionState::Acknowledging { reply } => match e {
            Event::AckSent => match reply {
                Some(r) => n == SessionState::Replying && c == Command::SendReply(r),
                None => n == SessionState::Open && c == Command::Receive,
            },
            Event::AckFailed => n == SessionState::Open && c == Command::Receive,
            _ => out_of_order(n, c),
        },
        SessionState::Replying => match e {
            Event::ReplySent => n == SessionState::Open && c == Command::Receive,
            Event::ReplyFailed => n == SessionState::Open && c == Command::Receive,
            _ => out_of_order(n, c),
        },
        SessionState::Closed => n == SessionState::Closed && c == Command::Halt,
    }
}

fn acknowledge(payload: &Json, envelope_id: String) -> (r: (SessionState, Command))
    ensures
        acknowledging(envelope_id, *payload, r.0, r.1),
{
    let reply = mention_reply(payload);
    let frame = SocketModeAcknowledgeMessage::new(envelope_id).to_frame();
    (SessionState::Acknowledging { reply }, Command::SendAck(frame))
}

fn on_frame(text: &str) -> (r: (SessionState, Command))
    ensures
        frame_step(frame_of(text@), r.0, r.1),
{
    match decode_frame(text) {
        Err(_) => (SessionState::Open, Command::Receive),
        Ok(SocketModeMessage::Hello {}) => (SessionState::Open, Command::Receive),
        Ok(SocketModeMessage::Disconnect { reason }) => (SessionState::Closed, Command::Finish(reason)),
        Ok(SocketModeMessage::EventsApi { payload, envelope_id }) => acknowledge(&payload, envelope_id),
        Ok(SocketModeMessage::SlashCommands { payload, envelope_id }) => acknowledge(&payload, envelope_id),
        Ok(SocketModeMessage::Interactive { payload, envelope_id }) => acknowledge(&payload, envelope_id),
    }
}

fn out_of_order_step() -> (r: (SessionState, Command))
    ensures
        out_of_order(r.0, r.1),
{
    (SessionState::Closed, Command::Fail(SessionError::OutOfOrder))
}

/// Advances the session by one event.
pub fn step(state: SessionState, event: Event) -> (r: (SessionState, Command))
    ensures
        transition(state, event, r.0, r.1),
{
    match state {
        SessionState::AwaitingHandshake => match event {
            Event::Handshake(resp) => match connection_url(resp) {
                Ok(u) => (SessionState::AwaitingConnect, Command::Connect(u)),
                Err(err) => (SessionState::Closed, Command::Fail(SessionError::Handshake(err))),
            },
            Event::HandshakeFailed => (SessionState::Closed, Command::Fail(SessionError::HandshakeUnavailable)),
            _ => out_of_order_step(),
        },
        SessionState::AwaitingConnect => match event {
            Event::Connected => (SessionState::Open, Command::Receive),
            Event::ConnectFailed => (SessionState::Closed, Command::Fail(SessionError::ConnectFailed)),
            _ => out_of_order_step(),
        },
        SessionState::Open => match event {
            Event::Text(t) => on_frame(t.as_str()),
            Event::Ping => (SessionState::Open, Command::Receive),
            Event::OtherFrame => (SessionState::Open, Command::Receive),
            Event::ReadFailed => (SessionState::Closed, Command::Fail(SessionError::ReadFailed)),
            Event::StreamClosed => (SessionState::Closed, Command::Fail(SessionError::StreamClosed)),
            _ => out_of_order_step(),
        },
        SessionState::Acknowledging { reply } => match event {
            Event::AckSent => match reply {
                Some(r) => (SessionState::Replying, Command::SendReply(r)),
                None => (SessionState::Open, Command::Receive),
            },
            Event::AckFailed => (SessionState::Open, Command::Receive),
            _ => out_of_order_step(),
        },
        SessionState::Replying => match event {
            Event::ReplySent => (SessionState::Open, Command::Receive),
            Event::ReplyFailed => (SessionState::Open, Command::Receive),
            _ => out_of_order_step(),
        },
        SessionState::Closed => (SessionState::Closed, Command::Halt),
    }
}

/// A text frame that is not an envelope (malformed, of no known kind, or
/// missing a member) leaves the session open and waiting for the next frame.
pub proof fn lemma_undecodable_frame_keeps_session_open(t: String, n: SessionState, c: Command)
    requires
        frame_of(t@) is Err,
        transition(SessionState::Open, Event::Text(t), n, c),
    ensures
        n == SessionState::Open,
        c == Command::Receive,
{
}

/// An envelope that must be acknowledged is acknowledged at once: the command
/// that follows its frame sends the acknowledgment of its id, before anything else.
pub proof fn lemma_ackable_envelope_is_acknowledged(t: String, n: SessionState, c: Command)
    requires
        frame_of(t@) is Ok,
        ack_id_of(frame_of(t@)->Ok_0) is Some,
        transition(SessionState::Open, Event::Text(t), n, c),
    ensures
        n is Acknowledging,
        c matches Command::SendAck(f) && f@ == ack_text(ack_id_of(frame_of(t@)->Ok_0)->0@, None),
{
}

/// An acknowledgment is sent only on a frame that holds an envelope to
/// acknowledge, and for that envelope's id: one per such frame.
pub proof fn lemma_ack_only_for_ackable_frame(s: SessionState, e: Event, n: SessionState, c: Command)
    requires
        transition(s, e, n, c),
        c is SendAck,
    ensures
        s == SessionState::Open,
        e matches Event::Text(t) && frame_of(t@) is Ok && ack_id_of(frame_of(t@)->Ok_0) is Some
            && c->SendAck_0@ == ack_text(ack_id_of(frame_of(t@)->Ok_0)->0@, None),
{
}

/// A reply is posted only once the acknowledgment of its envelope has been sent.
pub proof fn lemma_reply_only_after_ack(s: SessionState, e: Event, n: SessionState, c: Command)
    requires
        transition(s, e, n, c),
        c is SendReply,
    ensures
        s is Acknowledging,
        e == Event::AckSent,
        s->reply == Some(c->SendReply_0),
{
}

/// A `Disconnect` envelope ends the session cleanly, with no acknowledgment.
pub proof fn lemma_disconnect_closes(t: String, n: SessionState, c: Command)
    requires
        frame_of(t@) matches Ok(SocketModeMessage::Disconnect { .. }),
        transition(SessionState::Open, Event::Text(t), n, c),
    ensures
        n == SessionState::Closed,
        c == Command::Finish(frame_of(t@)->Ok_0->reason),
{
}

/// Once closed, a session stays closed and does nothing more: no frame is
/// received or processed after it.
pub proof fn lemma_closed_is_final(e: Event, n: SessionState, c: Command)
    requires
        transition(SessionState::Closed, e, n, c),
    ensures
        n == SessionState::Closed,
        c == Command::Halt,
{
}

/// The acknowledgment frames that an open session owes for a run of text
/// frames, in arrival order: one for each envelope to acknowledge, and none
/// from the first `Disconnect` on.
pub open spec fn acks_owed(frames: Seq<Seq<char>>) -> Seq<Seq<char>>
    decreases frames.len(),
{
    if frames.len() == 0 {
        Seq::empty()
    } else {
        match frame_of(frames[0]) {
            Ok(SocketModeMessage::Disconnect { .. }) => Seq::empty(),
            Ok(m) => if ack_id_of(m) is Some {
                seq![ack_text(ack_id_of(m)->0@, None)] + acks_owed(frames.drop_first())
            } else {
                acks_owed(frames.drop_first())
            },
            Err(_) => acks_owed(frames.drop_first()),
        }
    }
}

/// Runs an open session over `frames`, each sent and each reply posted
/// successfully, and returns what it sent on the socket: exactly the
/// acknowledgments owed, in arrival order.
pub fn replay_frames(frames: &Vec<String>) -> (sent: Vec<String>)
    ensures
        sent@.map_values(|f: String| f@) == acks_owed(frames@.map_values(|f: String| f@)),
{
    let ghost fv = frames@.map_values(|f: String| f@);
    let n = frames.len();
    let mut sent: Vec<String> = Vec::new();
    let mut state = SessionState::Open;
    let mut i: usize = 0;
    assert(fv.subrange(0, n as int) =~= fv);
    assert(sent@.map_values(|f: String| f@) =~= Seq::<Seq<char>>::empty());
    while i < n
        invariant
            n == frames@.len(),
            fv == frames@.map_values(|f: String| f@),
            i <= n,
            state == SessionState::Open,
            acks_owed(fv) == sent@.map_values(|f: String| f@) + acks_owed(fv.subrange(i as int, n as int)),
        decreases n - i,
    {
        let ghost rest = fv.subrange(i as int, n as int);
        assert(rest.drop_first() =~= fv.subrange(i + 1, n as int));
        assert(rest[0] == frames@[i as int]@);
        let ghost before = sent@.map_values(|f: String| f@);
        let (s1, c1) = step(state, Event::Text(frames[i].clone()));
        state = s1;
        match c1 {
            Command::SendAck(f) => {
                let ghost frame = f@;
                sent.push(f);
                assert(sent@.map_values(|f: String| f@) =~= before.push(frame));
                let (s2, c2) = step(state, Event::AckSent);
                state = s2;
                match c2 {
                    Command::SendReply(_) => {
                        let (s3, _) = step(state, Event::ReplySent);
                        state = s3;
                    },
                    _ => {},
                }
            },
            Command::Finish(_) => {
                assert(acks_owed(fv) =~= sent@.map_values(|f: String| f@));
                return sent;
            },
            _ => {},
        }
        i = i + 1;
    }
    assert(fv.subrange(n as int, n as int) =~= Seq::<Seq<char>>::empty());
    assert(acks_owed(fv) =~= sent@.map_values(|f: String| f@));
    sent
}

} // verus!
