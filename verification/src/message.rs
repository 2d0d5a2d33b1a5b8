use vstd::prelude::*;
use crate::config::ServerConfig;
use crate::time::{is_stamp, now, stamp, Timestamp};

verus! {

/// A chat line: who said it, what was said, when, and the colour in which
/// the sender's name is shown.
#[derive(Clone, Debug)]
pub struct Message {
    pub sender: String,
    pub content: String,
    pub timestamp: Timestamp,
    pub color: [u8; 3],
}

/// The sender shown on messages that the client itself produces.
pub open spec fn client_sender() -> Seq<char> {
    "[CLIENT]"@
}

/// The colour of messages that the client itself produces.
pub open spec fn system_color() -> Seq<u8> {
    seq![255u8, 247u8, 0u8]
}

impl Message {
    /// A message produced by the client for its own user, stamped `at`.
    pub fn system_message_at(content: String, at: Timestamp) -> (msg: Self)
        ensures
            msg.sender@ == client_sender(),
            msg.content == content,
            msg.color@ == system_color(),
            msg.timestamp == at,
    {
        Message { sender: String::from_str("[CLIENT]"), content, timestamp: at, color: [255, 247, 0] }
    }

    /// A message produced by the client for its own user, stamped with the
    /// clock's reading when it is made (with the Unix epoch if the clock
    /// cannot be read, see `stamp`).
    pub fn new_system_message(content: String) -> (msg: Self)
        ensures
            msg.sender@ == client_sender(),
            msg.content == content,
            msg.color@ == system_color(),
            is_stamp(msg.timestamp),
    {
        Message::system_message_at(content, stamp(now()))
    }

    /// A message sent out in the server's own name and colour, stamped `at`.
    pub fn server_message_at(content: String, config: &ServerConfig, at: Timestamp) -> (msg: Self)
        ensures
            msg.sender@ == config.name@,
            msg.content == content,
            msg.color == config.color,
            msg.timestamp == at,
    {
        Message { sender: config.name.clone(), content, timestamp: at, color: config.color }
    }

    /// A message sent out in the server's own name and colour, stamped with
    /// the clock's reading when it is made (with the Unix epoch if the clock
    /// cannot be read, see `stamp`).
    pub fn new_server_message(content: String, config: &ServerConfig) -> (msg: Self)
        ensures
            msg.sender@ == config.name@,
            msg.content == content,
            msg.color == config.color,
            is_stamp(msg.timestamp),
    {
        Message::server_message_at(content, config, stamp(now()))
    }

    /// Whether this is a message of the client's own, with the given text,
    /// stamped as a new message is (see `is_stamp`).
    pub open spec fn is_system_message(self, text: Seq<char>) -> bool {
        &&& self.sender@ == client_sender()
        &&& self.content@ == text
        &&& self.color@ == system_color()
        &&& is_stamp(self.timestamp)
    }

    /// Whether this is a message in the server's name and colour, with the
    /// given text, stamped as a new message is (see `is_stamp`).
    pub open spec fn is_server_message(self, text: Seq<char>, config: ServerConfig) -> bool {
        &&& self.sender@ == config.name@
        &&& self.content@ == text
        &&& self.color == config.color
        &&& is_stamp(self.timestamp)
    }

    /// The message as one line of text: the sender, an arrow, the content.
    pub open spec fn text(self) -> Seq<char> {
        self.sender@ + " -> "@ + self.content@
    }

    /// Renders the message as one line of text.
    pub fn to_string(&self) -> (s: String)
        ensures
            s@ == self.text(),
    {
        let line = self.sender.clone().concat(" -> ");
        line.concat(self.content.as_str())
    }
}

} // verus!
