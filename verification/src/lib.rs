//! Client side of a handshake-and-status exchange with a game server.
//!
//! One probe opens a connection, sends a handshake packet and a status
//! request, collects whatever the server streams back until it falls silent,
//! strips the framing from the collected bytes, and keeps the status payload
//! and its embedded image when the payload passes the acceptance filter.
//!
//! This crate holds the protocol: the variable-length integer codec, the
//! packet layout, the framing of the response, the acceptance filter and the
//! sequencing of one probe. Sockets, timers and files belong to the caller,
//! which performs each [`probe::Action`] and reports back an
//! [`probe::Event`].

pub mod buffer;
pub mod endpoint;
pub mod error;
pub mod frame;
pub mod packet;
pub mod payload;
pub mod probe;
pub mod varint;
