//! Client-side core of the Socket Mode protocol: handshake result handling,
//! envelope decoding, acknowledgment framing and the session state machine.

pub mod json;
pub mod handshake;
pub mod envelope;
pub mod ack;
pub mod session;
