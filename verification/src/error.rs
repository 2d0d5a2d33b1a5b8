use vstd::prelude::*;

verus! {

/// Why talking to the other end of a connection failed.
#[derive(Clone, Copy, Debug, PartialEq, Eq, Structural)]
pub enum NetCodeErr {
    CouldNotConnect,
    MessageSendFailed,
    CouldNotSetNonBlocking,
    UnknownError,
}

impl NetCodeErr {
    /// The text shown to a person for this error.
    pub open spec fn text(self) -> Seq<char> {
        match self {
            NetCodeErr::CouldNotConnect => "Could not connect to server"@,
            NetCodeErr::MessageSendFailed => "Could not send message"@,
            NetCodeErr::CouldNotSetNonBlocking => "Could not set socket to non-blocking mode"@,
            NetCodeErr::UnknownError => "Unknown error"@,
        }
    }

    /// Renders the error for a person to read.
    pub fn fmt(&self) -> (s: String)
        ensures
            s@ == self.text(),
    {
        match self {
            NetCodeErr::CouldNotConnect => String::from_str("Could not connect to server"),
            NetCodeErr::MessageSendFailed => String::from_str("Could not send message"),
            NetCodeErr::CouldNotSetNonBlocking => String::from_str(
                "Could not set socket to non-blocking mode",
            ),
            NetCodeErr::UnknownError => String::from_str("Unknown error"),
        }
    }
}

} // verus!
