use vstd::prelude::*;
use crate::message::Message;

verus! {

/// What travels between client and server once the handshake is done.
#[derive(Clone, Debug)]
pub enum ActivePacket {
    Message(Message),
    SystemMessage(Message),
    Shutdown { reason: String },
}

/// The server's first word to a client that has just connected.
#[derive(Clone, Copy, Debug, PartialEq, Eq, Structural)]
pub enum ConnectionInit {
    Connected,
    Failed,
}

/// The server's word that it has the client's configuration.
#[derive(Clone, Copy, Debug, PartialEq, Eq, Structural)]
pub enum FinalHandshake {
    Complete,
}

} // verus!
