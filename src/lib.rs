//! A line-based chat relay: message envelopes, the per-connection session
//! state machine, and the client's input and rendering rules.
pub mod client;
pub mod clock;
pub mod envelope;
pub mod hub;
pub mod session;
pub mod text;
