//! A verified protocol core for a persistent socket-mode event client.
//!
//! The library models the client side of a socket-mode session: bootstrap of
//! a one-time connection URL, classification of inbound text frames into the
//! protocol's message kinds, the per-frame state machine that drives
//! acknowledgments and forwarding, and the exact JSON wire encoding of the
//! outbound messages. All I/O (the HTTP calls, the encrypted socket itself)
//! lives outside the library; the library turns plain values into decisions.

pub mod bootstrap;
pub mod forward;
pub mod json;
pub mod messages;
pub mod session;
pub mod wire;
