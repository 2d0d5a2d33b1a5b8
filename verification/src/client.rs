use vstd::prelude::*;
use crate::config::ClientConfig;
use crate::error::NetCodeErr;
use crate::message::Message;
use crate::packet::{ActivePacket, ConnectionInit, FinalHandshake};
use crate::time::{is_stamp, now, stamp, stamp_of, Timestamp};

verus! {

/// How far a client's connection to the server has come.
#[derive(Clone, Copy, Debug, PartialEq, Eq, Structural)]
pub enum NetCodeState {
    WaitingForInitConfirm,
    WaitingForFinalHandshake,
    Active,
}

impl NetCodeState {
    /// The position of the state in the order the handshake goes through.
    pub open spec fn stage(self) -> int {
        match self {
            NetCodeState::WaitingForInitConfirm => 0,
            NetCodeState::WaitingForFinalHandshake => 1,
            NetCodeState::Active => 2,
        }
    }
}

/// A connection counts as up once it is active.
impl From<&NetCodeState> for bool {
    fn from(state: &NetCodeState) -> (up: bool) {
        match state {
            NetCodeState::Active => true,
            _ => false,
        }
    }
}

impl vstd::std_specs::convert::FromSpecImpl<&NetCodeState> for bool {
    open spec fn obeys_from_spec() -> bool {
        true
    }

    open spec fn from_spec(state: &NetCodeState) -> bool {
        *state == NetCodeState::Active
    }
}

/// What the client expects to read next from the server.
#[derive(Clone, Copy, Debug, PartialEq, Eq, Structural)]
pub enum Expect {
    InitConfirm,
    Handshake,
    Packet,
}

/// What the client read from the server since it last looked.
#[derive(Debug)]
pub enum Received {
    Nothing,
    InitConfirm(ConnectionInit),
    Handshake(FinalHandshake),
    Packet(ActivePacket),
}

/// What the client has to do after looking at what it read.
#[derive(Debug)]
pub enum Step {
    /// Nothing came that moves the connection on.
    Idle,
    /// The server confirmed the connection: send it the client's
    /// configuration, then report how that went with `config_sent`.
    SendConfig,
    /// Something to show to the user, or an error that ends the session.
    Report(Result<ActivePacket, NetCodeErr>),
}

/// The state the connection is in after the given object was read.
pub open spec fn after_receiving(state: NetCodeState, received: Received) -> NetCodeState {
    match (state, received) {
        (NetCodeState::WaitingForFinalHandshake, Received::Handshake(FinalHandshake::Complete)) => {
            NetCodeState::Active
        },
        _ => state,
    }
}

/// What the client does after the given object was read in the given state.
pub open spec fn step_for(state: NetCodeState, received: Received, step: Step) -> bool {
    match (state, received) {
        (NetCodeState::WaitingForInitConfirm, Received::InitConfirm(_)) => step is SendConfig,
        (NetCodeState::WaitingForFinalHandshake, Received::Handshake(FinalHandshake::Complete)) => {
            step matches Step::Report(Ok(ActivePacket::SystemMessage(m)))
                && m.is_system_message("Finished Handshake"@)
        },
        (NetCodeState::Active, Received::Packet(p)) => step == Step::Report(Ok(p)),
        _ => step is Idle,
    }
}

/// A connection never falls back to an earlier stage of the handshake, and
/// once it is active it stays active, whatever is read.
pub proof fn handshake_never_goes_back(state: NetCodeState, received: Received)
    ensures
        after_receiving(state, received).stage() >= state.stage(),
        state == NetCodeState::Active ==> after_receiving(state, received) == NetCodeState::Active,
{
}

/// Once the connection is active, every packet read from the server is
/// reported as it is, whatever kind of packet it is, and the connection
/// stays active.
pub proof fn active_reports_every_packet(p: ActivePacket, step: Step)
    requires
        step_for(NetCodeState::Active, Received::Packet(p), step),
    ensures
        step == Step::Report(Ok(p)),
        after_receiving(NetCodeState::Active, Received::Packet(p)) == NetCodeState::Active,
{
}

/// The handshake moves on only on the objects it waits for: a confirmation
/// of the connection asks for the configuration to be sent, the final
/// handshake activates the connection with a message of the client's own,
/// and nothing read changes a connection that waits for the confirmation.
pub proof fn handshake_steps(init: ConnectionInit, received: Received, step: Step)
    ensures
        step_for(NetCodeState::WaitingForInitConfirm, Received::InitConfirm(init), step) ==> step
            is SendConfig,
        after_receiving(NetCodeState::WaitingForInitConfirm, received)
            == NetCodeState::WaitingForInitConfirm,
        after_receiving(
            NetCodeState::WaitingForFinalHandshake,
            Received::Handshake(FinalHandshake::Complete),
        ) == NetCodeState::Active,
        step_for(
            NetCodeState::WaitingForFinalHandshake,
            Received::Handshake(FinalHandshake::Complete),
            step,
        ) ==> (step matches Step::Report(Ok(ActivePacket::SystemMessage(m))) && m.content@
            == "Finished Handshake"@),
{
}

/// The client's side of a connection to the server, without the socket.
pub struct NetCode {
    state: NetCodeState,
}

impl View for NetCode {
    type V = NetCodeState;

    closed spec fn view(&self) -> NetCodeState {
        self.state
    }
}

impl NetCode {
    /// A freshly opened connection, waiting for the server to confirm it.
    pub fn new() -> (net: Self)
        ensures
            net@ == NetCodeState::WaitingForInitConfirm,
    {
        NetCode { state: NetCodeState::WaitingForInitConfirm }
    }

    /// What kind of object to read from the server next.
    pub fn expecting(&self) -> (e: Expect)
        ensures
            e == (match self@ {
                NetCodeState::WaitingForInitConfirm => Expect::InitConfirm,
                NetCodeState::WaitingForFinalHandshake => Expect::Handshake,
                NetCodeState::Active => Expect::Packet,
            }),
    {
        match self.state {
            NetCodeState::WaitingForInitConfirm => Expect::InitConfirm,
            NetCodeState::WaitingForFinalHandshake => Expect::Handshake,
            NetCodeState::Active => Expect::Packet,
        }
    }

    /// Moves the connection on by what was read from the server. Anything
    /// that is not what the current state waits for leaves it as it is.
    pub fn behave(&mut self, received: Received) -> (step: Step)
        ensures
            final(self)@ == after_receiving(old(self)@, received),
            step_for(old(self)@, received, step),
            old(self)@ == NetCodeState::Active ==> (received matches Received::Packet(p) ==> step
                == Step::Report(Ok(p))),
            old(self)@ == NetCodeState::Active ==> final(self)@ == NetCodeState::Active,
    {
        match (self.state, received) {
            (NetCodeState::WaitingForInitConfirm, Received::InitConfirm(_)) => Step::SendConfig,
            (NetCodeState::WaitingForFinalHandshake, Received::Handshake(FinalHandshake::Complete)) => {
                self.state = NetCodeState::Active;
                let msg = Message::new_system_message(String::from_str("Finished Handshake"));
                Step::Report(Ok(ActivePacket::SystemMessage(msg)))
            },
            (NetCodeState::Active, Received::Packet(p)) => Step::Report(Ok(p)),
            _ => Step::Idle,
        }
    }

    /// Takes note of whether the client's configuration reached the socket
    /// after the server confirmed the connection.
    pub fn config_sent(&mut self, sent: bool) -> (report: Result<ActivePacket, NetCodeErr>)
        requires
            old(self)@ == NetCodeState::WaitingForInitConfirm,
        ensures
            sent ==> final(self)@ == NetCodeState::WaitingForFinalHandshake,
            sent ==> (report matches Ok(ActivePacket::SystemMessage(m))
                && m.is_system_message("Sending Config"@)),
            !sent ==> final(self)@ == old(self)@ && report == Err::<ActivePacket, NetCodeErr>(
                NetCodeErr::UnknownError,
            ),
    {
        if sent {
            self.state = NetCodeState::WaitingForFinalHandshake;
            Ok(ActivePacket::SystemMessage(Message::new_system_message(String::from_str("Sending Config"))))
        } else {
            Err(NetCodeErr::UnknownError)
        }
    }

    /// The state of the connection.
    pub fn check_state(&self) -> (state: &NetCodeState)
        ensures
            *state == self@,
    {
        &self.state
    }
}

/// A key the user pressed, as far as the chat window tells keys apart.
#[derive(Clone, Copy, Debug, PartialEq, Eq, Structural)]
pub enum Key {
    Esc,
    Tab,
    Enter,
    Up,
    Down,
    /// Any other key, which goes to the text box.
    Other,
}

/// What the chat window does about a key press.
#[derive(Debug)]
pub enum InputAction {
    /// Leave the chat.
    Quit,
    /// Move the focus between the chat and the choice box.
    ToggleFocus,
    /// Send this packet and clear the text box.
    Send(ActivePacket),
    /// Scroll the message list to this line.
    Scroll(u16),
    /// Hand the key to the text box.
    Edit,
    /// Nothing to do.
    Stay,
}

/// The message that the user sends when the typed line is submitted.
pub open spec fn is_user_message(m: Message, config: ClientConfig, line: Seq<char>) -> bool {
    &&& m.sender@ == config.username@
    &&& m.content@ == line
    &&& m.color == config.user_color
    &&& is_stamp(m.timestamp)
}

/// The message a user sends, with the typed line as content, stamped `at`.
pub fn user_message_at(config: &ClientConfig, content: &String, at: Timestamp) -> (m: Message)
    ensures
        m.sender@ == config.username@,
        m.content@ == content@,
        m.color == config.user_color,
        m.timestamp == at,
{
    Message { sender: config.username.clone(), content: content.clone(), timestamp: at, color: config.user_color }
}

/// Decides what a key press does in the chat window, with `reading` the
/// clock's reading to stamp a sent message with. `line` is the first
/// line of the text box, `scroll` how far the message list is scrolled and
/// `message_count` how many messages it holds.
pub fn handle_input_at(
    key: Key,
    state: &NetCodeState,
    line: &String,
    config: &ClientConfig,
    scroll: u16,
    message_count: usize,
    reading: Option<Timestamp>,
) -> (action: InputAction)
    requires
        key == Key::Down ==> message_count >= 1,
    ensures
        key == Key::Esc ==> action is Quit,
        key == Key::Tab ==> action is ToggleFocus,
        key == Key::Enter && *state == NetCodeState::Active && line@.len() > 0 ==> (
        action matches InputAction::Send(ActivePacket::Message(m)) && m.sender@ == config.username@
            && m.content@ == line@ && m.color == config.user_color && m.timestamp == stamp_of(
            reading,
        )),
        key == Key::Enter && !(*state == NetCodeState::Active && line@.len() > 0) ==> action is Stay,
        key == Key::Up && scroll > 0 ==> action == InputAction::Scroll((scroll - 1) as u16),
        key == Key::Up && scroll == 0 ==> action is Stay,
        key == Key::Down && scroll < ((message_count - 1) as u16) ==> action == InputAction::Scroll(
            (scroll + 1) as u16,
        ),
        key == Key::Down && scroll >= ((message_count - 1) as u16) ==> action is Stay,
        key == Key::Other ==> action is Edit,
{
    match key {
        Key::Esc => InputAction::Quit,
        Key::Tab => InputAction::ToggleFocus,
        Key::Enter => {
            if *state == NetCodeState::Active && !line.as_str().is_empty() {
                InputAction::Send(ActivePacket::Message(user_message_at(config, line, stamp(reading))))
            } else {
                InputAction::Stay
            }
        },
        Key::Up => {
            if scroll > 0 {
                InputAction::Scroll(scroll - 1)
            } else {
                InputAction::Stay
            }
        },
        Key::Down => {
            let last = (message_count - 1) as u16;
            if scroll < last {
                InputAction::Scroll(scroll + 1)
            } else {
                InputAction::Stay
            }
        },
        Key::Other => InputAction::Edit,
    }
}

/// Decides what a key press does in the chat window. `line` is the first
/// line of the text box, `scroll` how far the message list is scrolled and
/// `message_count` how many messages it holds.
pub fn handle_input(
    key: Key,
    state: &NetCodeState,
    line: &String,
    config: &ClientConfig,
    scroll: u16,
    message_count: usize,
) -> (action: InputAction)
    requires
        key == Key::Down ==> message_count >= 1,
    ensures
        key == Key::Esc ==> action is Quit,
        key == Key::Tab ==> action is ToggleFocus,
        key == Key::Enter && *state == NetCodeState::Active && line@.len() > 0 ==> (
        action matches InputAction::Send(ActivePacket::Message(m)) && is_user_message(
            m,
            *config,
            line@,
        )),
        key == Key::Enter && !(*state == NetCodeState::Active && line@.len() > 0) ==> action is Stay,
        key == Key::Up && scroll > 0 ==> action == InputAction::Scroll((scroll - 1) as u16),
        key == Key::Up && scroll == 0 ==> action is Stay,
        key == Key::Down && scroll < ((message_count - 1) as u16) ==> action == InputAction::Scroll(
            (scroll + 1) as u16,
        ),
        key == Key::Down && scroll >= ((message_count - 1) as u16) ==> action is Stay,
        key == Key::Other ==> action is Edit,
{
    handle_input_at(key, state, line, config, scroll, message_count, now())
}

/// Takes in what the connection reported: a chat or system message joins
/// the list; a shutdown or an error ends the session, and the text to leave
/// with is returned.
pub fn absorb_report(report: Result<ActivePacket, NetCodeErr>, messages: &mut Vec<Message>) -> (stop: Option<String>)
    ensures
        match report {
            Ok(ActivePacket::Message(m)) => final(messages)@ == old(messages)@.push(m) && stop is None,
            Ok(ActivePacket::SystemMessage(m)) => final(messages)@ == old(messages)@.push(m) && stop is None,
            Ok(ActivePacket::Shutdown { reason }) => final(messages)@ == old(messages)@ && stop == Some(reason),
            Err(e) => final(messages)@ == old(messages)@ && (stop matches Some(text) && text@ == e.text()),
        },
{
    match report {
        Ok(ActivePacket::Message(m)) => {
            messages.push(m);
            None
        },
        Ok(ActivePacket::SystemMessage(m)) => {
            messages.push(m);
            None
        },
        Ok(ActivePacket::Shutdown { reason }) => Some(reason),
        Err(e) => Some(e.fmt()),
    }
}

} // verus!
