//! Core logic of a small terminal chat system: configuration defaults,
//! chat messages, the wire packets, the client connection state machine and
//! input handling, and the server's per-user handshake and relay decisions.
//! Sockets, terminals, files and encodings stay with the caller.

pub mod time;
pub mod config;
pub mod error;
pub mod message;
pub mod packet;
pub mod client;
pub mod ui;
pub mod server;
pub mod logs;
