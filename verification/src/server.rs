use vstd::prelude::*;
use crate::config::{ClientConfig, ServerConfig};
use crate::error::NetCodeErr;
use crate::message::Message;
use crate::packet::ActivePacket;

verus! {

/// Where a server's connection to one user stands.
#[derive(Debug)]
pub enum UserState {
    /// Connected; the client's configuration has not arrived yet.
    WaitingForConfig,
    /// Set up; the user takes part in the chat.
    Active,
    /// Being closed by the server, for the given reason.
    Closing { reason: String },
    Closed,
}

/// What the setup of a user asks for next.
#[derive(Clone, Copy, Debug, PartialEq, Eq, Structural)]
pub enum SetupStep {
    /// The configuration has not arrived yet: look again later.
    Wait,
    /// The configuration arrived: send the final handshake, then report how
    /// that went with `handshake_sent`.
    SendHandshake,
}

/// What to do with a user's socket when the server lets go of the user.
#[derive(Debug)]
pub enum DropAction {
    /// Nothing to send.
    Nothing,
    /// Tell the client that the server went away, with this packet.
    Notify(ActivePacket),
    /// Shut the socket down in both directions.
    ShutdownSocket,
}

/// The steps of accepting a new connection, in the order they are taken.
#[derive(Clone, Copy, Debug, PartialEq, Eq, Structural)]
pub enum AcceptStep {
    /// Tell the client it is connected.
    SendConnected,
    /// Put the socket in non-blocking mode.
    SetNonBlocking,
    /// Non-blocking mode failed: tell the client the connection failed.
    SendFailed,
    /// Then shut the socket down.
    Shutdown,
    /// Turn off Nagle's algorithm on the socket.
    SetNoDelay,
}

impl AcceptStep {
    /// How far into the accept sequence the step is.
    pub open spec fn rank(self) -> int {
        match self {
            AcceptStep::SendConnected => 0,
            AcceptStep::SetNonBlocking => 1,
            AcceptStep::SendFailed => 2,
            AcceptStep::Shutdown => 3,
            AcceptStep::SetNoDelay => 2,
        }
    }
}

/// What follows a step of accepting a connection, given whether it worked:
/// the next step, `None` when the user is ready to be set up, or the error
/// that ends the connection.
pub open spec fn accept_outcome(step: AcceptStep, ok: bool) -> Result<Option<AcceptStep>, NetCodeErr> {
    match step {
        AcceptStep::SendConnected => if ok {
            Ok(Some(AcceptStep::SetNonBlocking))
        } else {
            Err(NetCodeErr::UnknownError)
        },
        AcceptStep::SetNonBlocking => if ok {
            Ok(Some(AcceptStep::SetNoDelay))
        } else {
            Ok(Some(AcceptStep::SendFailed))
        },
        AcceptStep::SendFailed => if ok {
            Ok(Some(AcceptStep::Shutdown))
        } else {
            Err(NetCodeErr::MessageSendFailed)
        },
        AcceptStep::Shutdown => if ok {
            Err(NetCodeErr::CouldNotSetNonBlocking)
        } else {
            Err(NetCodeErr::UnknownError)
        },
        AcceptStep::SetNoDelay => if ok {
            Ok(None)
        } else {
            Err(NetCodeErr::UnknownError)
        },
    }
}

/// Decides what follows a step of accepting a connection, given whether
/// the step worked.
pub fn accept_next(step: AcceptStep, ok: bool) -> (next: Result<Option<AcceptStep>, NetCodeErr>)
    ensures
        next == accept_outcome(step, ok),
{
    match step {
        AcceptStep::SendConnected => if ok {
            Ok(Some(AcceptStep::SetNonBlocking))
        } else {
            Err(NetCodeErr::UnknownError)
        },
        AcceptStep::SetNonBlocking => if ok {
            Ok(Some(AcceptStep::SetNoDelay))
        } else {
            Ok(Some(AcceptStep::SendFailed))
        },
        AcceptStep::SendFailed => if ok {
            Ok(Some(AcceptStep::Shutdown))
        } else {
            Err(NetCodeErr::MessageSendFailed)
        },
        AcceptStep::Shutdown => if ok {
            Err(NetCodeErr::CouldNotSetNonBlocking)
        } else {
            Err(NetCodeErr::UnknownError)
        },
        AcceptStep::SetNoDelay => if ok {
            Ok(None)
        } else {
            Err(NetCodeErr::UnknownError)
        },
    }
}

/// Accepting a connection always moves forward, so it ends after at most
/// four steps; and a user is ready only after the no-delay step worked,
/// which comes only after non-blocking mode was set.
pub proof fn accepting_moves_forward(step: AcceptStep, ok: bool)
    ensures
        accept_outcome(step, ok) matches Ok(Some(next)) ==> next.rank() > step.rank(),
        accept_outcome(step, ok) == Ok::<Option<AcceptStep>, NetCodeErr>(None) ==> step
            == AcceptStep::SetNoDelay && ok,
        accept_outcome(step, ok) == Ok::<Option<AcceptStep>, NetCodeErr>(
            Some(AcceptStep::SetNoDelay),
        ) ==> step == AcceptStep::SetNonBlocking && ok,
{
}

/// The server's side of one user's connection, without the socket: how far
/// it is set up, and the configuration the client sent.
pub struct User {
    state: UserState,
    config: Option<ClientConfig>,
}

/// The reason given to a client whose connection failed.
pub open spec fn disconnect_text(error: NetCodeErr) -> Seq<char> {
    "Disconnected: "@ + error.text()
}

/// The reason the server gives itself when a user goes because of `error`.
pub fn disconnect_reason(error: NetCodeErr) -> (reason: String)
    ensures
        reason@ == disconnect_text(error),
{
    String::from_str("Disconnected: ").concat(error.fmt().as_str())
}

/// The shutdown notice sent to an active user whom the server lets go of
/// without having closed the connection itself.
pub open spec fn unexpected_close_text() -> Seq<char> {
    "Server closed connection unexpectedly"@
}

impl User {
    /// A user who is set up has a configuration.
    #[verifier::type_invariant]
    closed spec fn well_formed(self) -> bool {
        self.state is Active ==> self.config is Some
    }

    /// How far the user's connection is set up.
    pub closed spec fn status(self) -> UserState {
        self.state
    }

    /// The configuration the client sent, once it has.
    pub closed spec fn settings(self) -> Option<ClientConfig> {
        self.config
    }

    /// A user who has just connected and has sent nothing yet.
    pub fn new() -> (user: Self)
        ensures
            user.status() is WaitingForConfig,
            user.settings() is None,
    {
        User { state: UserState::WaitingForConfig, config: None }
    }

    /// How far the user's connection is set up.
    pub fn state(&self) -> (state: &UserState)
        ensures
            *state == self.status(),
    {
        &self.state
    }

    /// The configuration the client sent, if it has.
    pub fn config(&self) -> (config: Option<&ClientConfig>)
        ensures
            config is Some == self.settings() is Some,
            config matches Some(c) ==> self.settings() == Some(*c),
            self.status() is Active ==> config is Some,
    {
        proof {
            use_type_invariant(self);
        }
        match &self.config {
            Some(c) => Some(c),
            None => None,
        }
    }

    /// Looks at what the client sent while the user waits for its
    /// configuration. Once it has arrived it is kept, and the final
    /// handshake is due.
    pub fn setup_behave(&mut self, received: Option<ClientConfig>) -> (step: SetupStep)
        requires
            old(self).status() is WaitingForConfig,
        ensures
            final(self).status() is WaitingForConfig,
            match received {
                Some(c) => step == SetupStep::SendHandshake && final(self).settings() == Some(c),
                None => step == SetupStep::Wait && final(self).settings() == old(self).settings(),
            },
    {
        proof {
            use_type_invariant(&*self);
        }
        match received {
            Some(c) => {
                self.config = Some(c);
                SetupStep::SendHandshake
            },
            None => SetupStep::Wait,
        }
    }

    /// Takes note of whether the final handshake reached the socket. If it
    /// did, the user is set up; if not, the setup failed and the user stays
    /// as it was.
    pub fn handshake_sent(&mut self, sent: bool) -> (result: Result<(), NetCodeErr>)
        requires
            old(self).status() is WaitingForConfig,
            old(self).settings() is Some,
        ensures
            final(self).settings() == old(self).settings(),
            sent ==> final(self).status() is Active && result is Ok,
            !sent ==> final(self).status() is WaitingForConfig && result == Err::<(), NetCodeErr>(
                NetCodeErr::UnknownError,
            ),
    {
        if sent {
            self.state = UserState::Active;
            Ok(())
        } else {
            Err(NetCodeErr::UnknownError)
        }
    }

    /// Marks the user as being closed by the server, for the given reason.
    pub fn close(&mut self, reason: String)
        ensures
            final(self).status() == (UserState::Closing { reason }),
            final(self).settings() == old(self).settings(),
    {
        self.state = UserState::Closing { reason };
    }

    /// What to do with the socket when the server lets go of the user: an
    /// active user is told that the server went away, a user being closed
    /// has its socket shut down, and any other needs nothing.
    pub fn closing_action(&self) -> (action: DropAction)
        ensures
            match self.status() {
                UserState::Active => action matches DropAction::Notify(ActivePacket::Shutdown { reason })
                    && reason@ == unexpected_close_text(),
                UserState::Closing { .. } => action is ShutdownSocket,
                _ => action is Nothing,
            },
    {
        match &self.state {
            UserState::Active => DropAction::Notify(
                ActivePacket::Shutdown { reason: String::from_str("Server closed connection unexpectedly") },
            ),
            UserState::Closing { .. } => DropAction::ShutdownSocket,
            _ => DropAction::Nothing,
        }
    }
}

/// The message of the day, in the server's name, for a user who has just
/// been set up.
pub fn welcome_packet(config: &ServerConfig) -> (packet: ActivePacket)
    ensures
        packet matches ActivePacket::SystemMessage(m) && m.is_server_message(config.motd@, *config),
{
    ActivePacket::SystemMessage(Message::new_server_message(config.motd.clone(), config))
}

/// What one user produced in a tick: nothing, a packet, or a failure.
pub type UserEvent = Option<Result<ActivePacket, NetCodeErr>>;

/// One packet that a tick sends to every user, as the relay decides it.
pub enum Outgoing {
    /// A packet a user sent, passed on unchanged.
    Forward(ActivePacket),
    /// A message in the server's name with this text.
    Announce(Seq<char>),
}

/// Announces a user who has joined.
pub open spec fn joined_text(name: Seq<char>) -> Seq<char> {
    "User "@ + name + " has joined!"@
}

/// Announces a user who has left.
pub open spec fn left_text(name: Seq<char>) -> Seq<char> {
    "User "@ + name + " has disconnected"@
}

/// The reason for closing a user who asked to leave.
pub open spec fn client_disconnect_text() -> Seq<char> {
    "Client disconnect"@
}

/// What a tick sends out for one user's event: a shutdown is announced as
/// the user leaving, any other packet is passed on, and nothing or a
/// failure sends nothing.
pub open spec fn event_outgoing(name: Seq<char>, event: UserEvent) -> Seq<Outgoing> {
    match event {
        Some(Ok(ActivePacket::Shutdown { .. })) => seq![Outgoing::Announce(left_text(name))],
        Some(Ok(p)) => seq![Outgoing::Forward(p)],
        _ => Seq::empty(),
    }
}

/// What a tick sends out for the first `n` users' events, in user order.
pub open spec fn events_outgoing(names: Seq<String>, events: Seq<UserEvent>, n: int) -> Seq<
    Outgoing,
>
    decreases n,
{
    if n <= 0 {
        Seq::empty()
    } else {
        events_outgoing(names, events, n - 1) + event_outgoing(names[n - 1]@, events[n - 1])
    }
}

/// The announcements of the users who joined, in the order they joined.
pub open spec fn announcements(joined: Seq<String>) -> Seq<Outgoing> {
    joined.map_values(|name: String| Outgoing::Announce(joined_text(name@)))
}

/// Everything a tick sends out: first the newcomers are announced, then
/// each user's event is handled in turn.
pub open spec fn tick_outgoing(names: Seq<String>, events: Seq<UserEvent>, joined: Seq<String>) -> Seq<
    Outgoing,
> {
    announcements(joined) + events_outgoing(names, events, events.len() as int)
}

/// How many of the first `n` events are packets (a shutdown included).
pub open spec fn packet_events(events: Seq<UserEvent>, n: int) -> nat
    decreases n,
{
    if n <= 0 {
        0
    } else {
        packet_events(events, n - 1) + if events[n - 1] matches Some(Ok(_)) {
            1nat
        } else {
            0nat
        }
    }
}

proof fn events_outgoing_len(names: Seq<String>, events: Seq<UserEvent>, n: int)
    ensures
        events_outgoing(names, events, n).len() == packet_events(events, n),
    decreases n,
{
    if n > 0 {
        events_outgoing_len(names, events, n - 1);
    }
}

proof fn events_outgoing_prefix(names: Seq<String>, events: Seq<UserEvent>, i: int, n: int)
    requires
        0 <= i < n,
    ensures
        events_outgoing(names, events, n).len() >= events_outgoing(names, events, i + 1).len(),
        events_outgoing(names, events, i + 1) =~= events_outgoing(names, events, n).subrange(
            0,
            events_outgoing(names, events, i + 1).len() as int,
        ),
    decreases n,
{
    if n > i + 1 {
        events_outgoing_prefix(names, events, i, n - 1);
    }
}

/// Every tick sends out exactly one packet per user who joined and one per
/// user who sent a packet, a shutdown included.
pub proof fn one_packet_per_join_and_send(
    names: Seq<String>,
    events: Seq<UserEvent>,
    joined: Seq<String>,
)
    ensures
        tick_outgoing(names, events, joined).len() == joined.len() + packet_events(
            events,
            events.len() as int,
        ),
{
    events_outgoing_len(names, events, events.len() as int);
}

/// The announcements open a tick, one per newcomer in the order they
/// joined, each naming its newcomer.
pub proof fn newcomers_are_announced_by_name(
    names: Seq<String>,
    events: Seq<UserEvent>,
    joined: Seq<String>,
    k: int,
)
    requires
        0 <= k < joined.len(),
    ensures
        tick_outgoing(names, events, joined)[k] == Outgoing::Announce(
            "User "@ + joined[k]@ + " has joined!"@,
        ),
{
}

/// A user who asks to leave is announced by name as gone, after the
/// announcements of the newcomers and the packets of the users before it.
pub proof fn leavers_are_announced_by_name(
    names: Seq<String>,
    events: Seq<UserEvent>,
    joined: Seq<String>,
    i: int,
)
    requires
        0 <= i < events.len(),
        events[i] matches Some(Ok(ActivePacket::Shutdown { .. })),
    ensures
        tick_outgoing(names, events, joined)[joined.len() + packet_events(events, i) as int]
            == Outgoing::Announce("User "@ + names[i]@ + " has disconnected"@),
{
    events_outgoing_len(names, events, i);
    events_outgoing_prefix(names, events, i, events.len() as int);
    let all = events_outgoing(names, events, events.len() as int);
    let upto = events_outgoing(names, events, i + 1);
    assert(upto[packet_events(events, i) as int] == Outgoing::Announce(left_text(names[i]@)));
    assert(all[packet_events(events, i) as int] == upto[packet_events(events, i) as int]);
}

/// Every packet other than a shutdown that a user sends in a tick goes out
/// unchanged to the others, after the announcements of the newcomers and
/// the packets of the users before it.
pub proof fn every_packet_is_passed_on(
    names: Seq<String>,
    events: Seq<UserEvent>,
    joined: Seq<String>,
    i: int,
)
    requires
        0 <= i < events.len(),
        events[i] matches Some(Ok(p)) && !(p is Shutdown),
    ensures
        tick_outgoing(names, events, joined)[joined.len() + packet_events(events, i) as int]
            == Outgoing::Forward(events[i]->Some_0->Ok_0),
{
    events_outgoing_len(names, events, i);
    events_outgoing_prefix(names, events, i, events.len() as int);
    let all = events_outgoing(names, events, events.len() as int);
    let upto = events_outgoing(names, events, i + 1);
    assert(upto[packet_events(events, i) as int] == Outgoing::Forward(events[i]->Some_0->Ok_0));
    assert(all[packet_events(events, i) as int] == upto[packet_events(events, i) as int]);
}

/// Whether a packet is what the relay decided to send.
pub open spec fn sends(packet: ActivePacket, out: Outgoing, config: ServerConfig) -> bool {
    match out {
        Outgoing::Forward(p) => packet == p,
        Outgoing::Announce(text) => packet matches ActivePacket::SystemMessage(m)
            && m.is_server_message(text, config),
    }
}

/// Whether a user stays in the chat after its event: it produced nothing,
/// or a packet other than a shutdown.
pub open spec fn stays_on(event: UserEvent) -> bool {
    event is None || (event matches Some(Ok(p)) && !(p is Shutdown))
}

/// Why a user is closed after its event, if it is: it asked to leave, or
/// its connection failed.
pub open spec fn close_reason(event: UserEvent) -> Option<Seq<char>> {
    match event {
        Some(Ok(ActivePacket::Shutdown { .. })) => Some(client_disconnect_text()),
        Some(Err(e)) => Some(disconnect_text(e)),
        _ => None,
    }
}

/// The members who stay after the first `n` events, in order.
pub open spec fn staying<C>(members: Seq<C>, events: Seq<UserEvent>, n: int) -> Seq<C>
    decreases n,
{
    if n <= 0 {
        Seq::empty()
    } else if close_reason(events[n - 1]) is None {
        staying(members, events, n - 1).push(members[n - 1])
    } else {
        staying(members, events, n - 1)
    }
}

/// The members who are closed after the first `n` events, in order, each
/// with the reason.
pub open spec fn leaving<C>(members: Seq<C>, events: Seq<UserEvent>, n: int) -> Seq<(C, Seq<char>)>
    decreases n,
{
    if n <= 0 {
        Seq::empty()
    } else {
        match close_reason(events[n - 1]) {
            Some(reason) => leaving(members, events, n - 1).push((members[n - 1], reason)),
            None => leaving(members, events, n - 1),
        }
    }
}

/// What the server does in one tick: the packets to send out; the members
/// after the tick, of whom the first `audience` (those who stayed) are sent
/// the packets and the rest are the newcomers; and the members to close,
/// each with the reason.
#[derive(Debug)]
pub struct TickPlan<C> {
    pub outbound: Vec<ActivePacket>,
    pub roster: Vec<C>,
    pub audience: usize,
    pub closed: Vec<(C, String)>,
}

/// An announcement in the server's name: `prefix`, the user's name, `suffix`.
fn announce(prefix: &str, name: &String, suffix: &str, config: &ServerConfig) -> (packet: ActivePacket)
    ensures
        packet matches ActivePacket::SystemMessage(m) && m.is_server_message(
            prefix@ + name@ + suffix@,
            *config,
        ),
{
    let text = String::from_str(prefix).concat(name.as_str()).concat(suffix);
    ActivePacket::SystemMessage(Message::new_server_message(text, config))
}

/// Decides one tick of the chat relay. `members`, `names` and `events` are
/// the users already in the chat, in order, their names, and what each
/// produced; `newcomers` and `joined` are the users set up since the last
/// tick and their names.
/// Newcomers are announced first; then a user who asked to leave is
/// announced as gone and closed, a user whose connection failed is closed
/// without a word, and any other packet is passed on unchanged, in user
/// order. The users who stay get what the tick sends; the newcomers join
/// behind them afterwards, and so hear neither their own announcement nor
/// anything else of this tick.
pub fn relay_tick<C>(
    members: Vec<C>,
    names: &Vec<String>,
    events: Vec<UserEvent>,
    newcomers: Vec<C>,
    joined: &Vec<String>,
    config: &ServerConfig,
) -> (plan: TickPlan<C>)
    requires
        names@.len() == members@.len(),
        events@.len() == members@.len(),
        joined@.len() == newcomers@.len(),
    ensures
        plan.outbound@.len() == tick_outgoing(names@, events@, joined@).len(),
        forall|k: int|
            0 <= k < plan.outbound@.len() ==> sends(
                #[trigger] plan.outbound@[k],
                tick_outgoing(names@, events@, joined@)[k],
                *config,
            ),
        forall|k: int|
            0 <= k < joined@.len() ==> (#[trigger] plan.outbound@[k] matches ActivePacket::SystemMessage(m)
                && m.is_server_message("User "@ + joined@[k]@ + " has joined!"@, *config)),
        plan.roster@ == staying(members@, events@, events@.len() as int) + newcomers@,
        plan.audience == staying(members@, events@, events@.len() as int).len(),
        forall|i: int|
            0 <= i < members@.len() && stays_on(#[trigger] events@[i]) ==> plan.roster@.subrange(0, plan.audience as int).contains(
                members@[i],
            ),
        forall|i: int|
            0 <= i < members@.len() && !stays_on(#[trigger] events@[i]) ==> exists|k: int|
                0 <= k < plan.closed@.len() && (#[trigger] plan.closed@[k]).0 == members@[i],
        plan.closed@.len() == leaving(members@, events@, events@.len() as int).len(),
        forall|k: int|
            0 <= k < plan.closed@.len() ==> (#[trigger] plan.closed@[k]).0 == leaving(
                members@,
                events@,
                events@.len() as int,
            )[k].0 && plan.closed@[k].1@ == leaving(members@, events@, events@.len() as int)[k].1,
{
    let ghost all_events = events@;
    let ghost all_members = members@;
    let ghost ann = announcements(joined@);
    let mut outbound: Vec<ActivePacket> = Vec::new();
    let mut j: usize = 0;
    while j < joined.len()
        invariant
            j <= joined@.len(),
            ann == announcements(joined@),
            outbound@.len() == j,
            forall|k: int| 0 <= k < j ==> sends(#[trigger] outbound@[k], ann[k], *config),
        decreases joined@.len() - j,
    {
        let packet = announce("User ", &joined[j], " has joined!", config);
        outbound.push(packet);
        proof {
            assert(ann[j as int] == Outgoing::Announce(joined_text(joined@[j as int]@)));
        }
        j = j + 1;
    }
    let mut events = events;
    let mut members = members;
    let mut roster: Vec<C> = Vec::new();
    let mut closed: Vec<(C, String)> = Vec::new();
    let mut i: usize = 0;
    while i < names.len()
        invariant
            i <= names@.len(),
            names@.len() == all_events.len(),
            all_members.len() == all_events.len(),
            ann == announcements(joined@),
            ann.len() == joined@.len(),
            events@ == all_events.subrange(i as int, all_events.len() as int),
            members@ == all_members.subrange(i as int, all_members.len() as int),
            outbound@.len() == ann.len() + events_outgoing(names@, all_events, i as int).len(),
            forall|k: int|
                0 <= k < outbound@.len() ==> sends(
                    #[trigger] outbound@[k],
                    (ann + events_outgoing(names@, all_events, i as int))[k],
                    *config,
                ),
            roster@ == staying(all_members, all_events, i as int),
            closed@.len() == leaving(all_members, all_events, i as int).len(),
            forall|k: int|
                0 <= k < closed@.len() ==> (#[trigger] closed@[k]).0 == leaving(
                    all_members,
                    all_events,
                    i as int,
                )[k].0 && closed@[k].1@ == leaving(all_members, all_events, i as int)[k].1,
        decreases names@.len() - i,
    {
        let ghost before = ann + events_outgoing(names@, all_events, i as int);
        let ghost after = ann + events_outgoing(names@, all_events, i + 1);
        let ghost step = event_outgoing(names@[i as int]@, all_events[i as int]);
        assert(after =~= before + step);
        let ghost closed_before = closed@;
        let event = events.remove(0);
        let member = members.remove(0);
        assert(event == all_events[i as int]);
        assert(member == all_members[i as int]);
        match event {
            Some(Ok(ActivePacket::Shutdown { .. })) => {
                let packet = announce("User ", &names[i], " has disconnected", config);
                outbound.push(packet);
                closed.push((member, String::from_str("Client disconnect")));
            },
            Some(Ok(packet)) => {
                outbound.push(packet);
                roster.push(member);
            },
            Some(Err(e)) => {
                closed.push((member, disconnect_reason(e)));
            },
            None => {
                roster.push(member);
            },
        }
        proof {
            let lv = leaving(all_members, all_events, i + 1);
            assert forall|k: int| 0 <= k < closed@.len() implies (#[trigger] closed@[k]).0 == lv[k].0
                && closed@[k].1@ == lv[k].1 by {
                if k < closed_before.len() {
                    assert(closed@[k] == closed_before[k]);
                }
            }
        }
        i = i + 1;
    }
    let audience = roster.len();
    let mut newcomers = newcomers;
    roster.append(&mut newcomers);
    proof {
        assert forall|k: int| 0 <= k < joined@.len() implies (#[trigger] outbound@[k] matches ActivePacket::SystemMessage(m)
            && m.is_server_message("User "@ + joined@[k]@ + " has joined!"@, *config)) by {
            newcomers_are_announced_by_name(names@, all_events, joined@, k);
            assert((ann + events_outgoing(names@, all_events, all_events.len() as int))[k] == ann[k]);
        }
    }
    let ghost closed_view = closed@;
    proof {
        let n = all_events.len() as int;
        let st = staying(all_members, all_events, n);
        assert(roster@.subrange(0, audience as int) =~= st);
        assert forall|m: int|
            0 <= m < all_members.len() && !stays_on(#[trigger] all_events[m]) implies exists|k: int|
                0 <= k < closed@.len() && (#[trigger] closed@[k]).0 == all_members[m] by {
            who_stays_and_who_leaves(all_members, all_events, m, n);
            let lv = leaving(all_members, all_events, n);
            if let Some(Err(e)) = all_events[m] {
                let k = choose|k: int| 0 <= k < lv.len() && lv[k] == (all_members[m], "Disconnected: "@ + e.text());
                assert(closed@[k].0 == lv[k].0);
                assert(0 <= k < closed@.len() && closed@[k].0 == all_members[m]);
            } else {
                assert(all_events[m] matches Some(Ok(ActivePacket::Shutdown { .. })));
                let k = choose|k: int| 0 <= k < lv.len() && lv[k] == (all_members[m], "Client disconnect"@);
                assert(closed@[k].0 == lv[k].0);
                assert(0 <= k < closed@.len() && closed@[k].0 == all_members[m]);
            }
        }
        assert forall|m: int|
            0 <= m < all_members.len() && stays_on(#[trigger] all_events[m]) implies roster@.subrange(0, audience as int).contains(all_members[m]) by {
            who_stays_and_who_leaves(all_members, all_events, m, n);
        }
        assert(forall|i: int|
            0 <= i < all_members.len() && !stays_on(#[trigger] all_events[i]) ==> exists|k: int|
                0 <= k < closed@.len() && (#[trigger] closed@[k]).0 == all_members[i]);
    }
    let plan = TickPlan { outbound, roster, audience, closed };
    assert(plan.closed@ == closed_view);
    plan
}

/// A member stays exactly when its event is nothing or a packet other than
/// a shutdown; a member who asked to leave is closed with "Client
/// disconnect", and one whose connection failed with the failure's reason.
pub proof fn who_stays_and_who_leaves<C>(members: Seq<C>, events: Seq<UserEvent>, i: int, n: int)
    requires
        0 <= i < n,
    ensures
        (events[i] is None || (events[i] matches Some(Ok(p)) && !(p is Shutdown))) ==> staying(
            members,
            events,
            n,
        ).contains(members[i]),
        events[i] matches Some(Ok(ActivePacket::Shutdown { .. })) ==> leaving(
            members,
            events,
            n,
        ).contains((members[i], "Client disconnect"@)),
        events[i] matches Some(Err(e)) ==> leaving(members, events, n).contains(
            (members[i], "Disconnected: "@ + e.text()),
        ),
    decreases n,
{
    if n > i + 1 {
        who_stays_and_who_leaves(members, events, i, n - 1);
        let s = staying(members, events, n - 1);
        let l = leaving(members, events, n - 1);
        if s.contains(members[i]) {
            let j = choose|j: int| 0 <= j < s.len() && s[j] == members[i];
            assert(staying(members, events, n)[j] == members[i]);
        }
        if l.contains((members[i], "Client disconnect"@)) {
            let j = choose|j: int| 0 <= j < l.len() && l[j] == (members[i], "Client disconnect"@);
            assert(leaving(members, events, n)[j] == (members[i], "Client disconnect"@));
        }
        if let Some(Err(e)) = events[i] {
            if l.contains((members[i], "Disconnected: "@ + e.text())) {
                let j = choose|j: int|
                    0 <= j < l.len() && l[j] == (members[i], "Disconnected: "@ + e.text());
                assert(leaving(members, events, n)[j] == (members[i], "Disconnected: "@ + e.text()));
            }
        }
    } else {
        let s = staying(members, events, n);
        let l = leaving(members, events, n);
        if events[i] is None || (events[i] matches Some(Ok(p)) && !(p is Shutdown)) {
            assert(s[s.len() - 1] == members[i]);
        }
        if events[i] matches Some(Ok(ActivePacket::Shutdown { .. })) {
            assert(l[l.len() - 1] == (members[i], "Client disconnect"@));
        }
        if let Some(Err(e)) = events[i] {
            assert(l[l.len() - 1] == (members[i], "Disconnected: "@ + e.text()));
        }
    }
}

/// No member gets lost in a tick: each one either stays or is closed.
pub proof fn every_member_stays_or_leaves<C>(members: Seq<C>, events: Seq<UserEvent>, n: int)
    requires
        0 <= n,
    ensures
        staying(members, events, n).len() + leaving(members, events, n).len() == n,
    decreases n,
{
    if n > 0 {
        every_member_stays_or_leaves(members, events, n - 1);
    }
}

/// How a user's setup went in one round: `None` while the configuration
/// has not arrived, then whether the setup worked.
pub type SetupResult = Option<Result<(), NetCodeErr>>;

/// The users among the first `n` whose setup worked, in order.
pub open spec fn setup_ready<C>(waiting: Seq<C>, results: Seq<SetupResult>, n: int) -> Seq<C>
    decreases n,
{
    if n <= 0 {
        Seq::empty()
    } else if results[n - 1] matches Some(Ok(_)) {
        setup_ready(waiting, results, n - 1).push(waiting[n - 1])
    } else {
        setup_ready(waiting, results, n - 1)
    }
}

/// The users among the first `n` still waiting for their configuration, in
/// order.
pub open spec fn setup_pending<C>(waiting: Seq<C>, results: Seq<SetupResult>, n: int) -> Seq<C>
    decreases n,
{
    if n <= 0 {
        Seq::empty()
    } else if results[n - 1] is None {
        setup_pending(waiting, results, n - 1).push(waiting[n - 1])
    } else {
        setup_pending(waiting, results, n - 1)
    }
}

/// The users among the first `n` whose setup failed, in order, each with
/// the reason to close it.
pub open spec fn setup_failed<C>(waiting: Seq<C>, results: Seq<SetupResult>, n: int) -> Seq<
    (C, Seq<char>),
>
    decreases n,
{
    if n <= 0 {
        Seq::empty()
    } else {
        match results[n - 1] {
            Some(Err(e)) => setup_failed(waiting, results, n - 1).push(
                (waiting[n - 1], disconnect_text(e)),
            ),
            _ => setup_failed(waiting, results, n - 1),
        }
    }
}

/// What the server does with the users being set up after one round: the
/// users now set up, each with the welcome to send before it joins the
/// chat; the users whose setup failed, each with the reason to close it;
/// and the users still waiting, in order.
#[derive(Debug)]
pub struct SetupPlan<C> {
    pub ready: Vec<(C, ActivePacket)>,
    pub failed: Vec<(C, String)>,
    pub waiting: Vec<C>,
}

/// Decides one round of setting users up. `waiting` are the users being set
/// up, in order, and `results` what their setup gave this round. A user
/// whose setup worked is welcomed with the message of the day and moves on
/// to the chat; a user whose setup failed is closed; the others keep
/// waiting.
pub fn setup_tick<C>(waiting: Vec<C>, results: Vec<SetupResult>, config: &ServerConfig) -> (plan:
    SetupPlan<C>)
    requires
        results@.len() == waiting@.len(),
    ensures
        plan.ready@.len() == setup_ready(waiting@, results@, results@.len() as int).len(),
        forall|k: int|
            0 <= k < plan.ready@.len() ==> (#[trigger] plan.ready@[k]).0 == setup_ready(
                waiting@,
                results@,
                results@.len() as int,
            )[k] && (plan.ready@[k].1 matches ActivePacket::SystemMessage(m)
                && m.is_server_message(config.motd@, *config)),
        plan.failed@.len() == setup_failed(waiting@, results@, results@.len() as int).len(),
        forall|k: int|
            0 <= k < plan.failed@.len() ==> (#[trigger] plan.failed@[k]).0 == setup_failed(
                waiting@,
                results@,
                results@.len() as int,
            )[k].0 && plan.failed@[k].1@ == setup_failed(
                waiting@,
                results@,
                results@.len() as int,
            )[k].1,
        plan.waiting@ == setup_pending(waiting@, results@, results@.len() as int),
        forall|i: int|
            0 <= i < waiting@.len() && (#[trigger] results@[i] matches Some(Ok(_))) ==> exists|k: int|
                0 <= k < plan.ready@.len() && (#[trigger] plan.ready@[k]).0 == waiting@[i],
        forall|i: int|
            0 <= i < waiting@.len() && (#[trigger] results@[i] is None) ==> plan.waiting@.contains(
                waiting@[i],
            ),
{
    let ghost all_users = waiting@;
    let ghost all_results = results@;
    let n = results.len();
    let mut users = waiting;
    let mut results = results;
    let mut ready: Vec<(C, ActivePacket)> = Vec::new();
    let mut failed: Vec<(C, String)> = Vec::new();
    let mut pending: Vec<C> = Vec::new();
    let mut i: usize = 0;
    while i < n
        invariant
            i <= n,
            n == all_results.len(),
            all_users.len() == all_results.len(),
            users@ == all_users.subrange(i as int, n as int),
            results@ == all_results.subrange(i as int, n as int),
            ready@.len() == setup_ready(all_users, all_results, i as int).len(),
            forall|k: int|
                0 <= k < ready@.len() ==> (#[trigger] ready@[k]).0 == setup_ready(
                    all_users,
                    all_results,
                    i as int,
                )[k] && (ready@[k].1 matches ActivePacket::SystemMessage(m)
                    && m.is_server_message(config.motd@, *config)),
            failed@.len() == setup_failed(all_users, all_results, i as int).len(),
            forall|k: int|
                0 <= k < failed@.len() ==> (#[trigger] failed@[k]).0 == setup_failed(
                    all_users,
                    all_results,
                    i as int,
                )[k].0 && failed@[k].1@ == setup_failed(all_users, all_results, i as int)[k].1,
            pending@ == setup_pending(all_users, all_results, i as int),
        decreases n - i,
    {
        let ghost ready_before = ready@;
        let ghost failed_before = failed@;
        let result = results.remove(0);
        let user = users.remove(0);
        assert(result == all_results[i as int]);
        assert(user == all_users[i as int]);
        match result {
            Some(Ok(_)) => {
                ready.push((user, welcome_packet(config)));
            },
            Some(Err(e)) => {
                failed.push((user, disconnect_reason(e)));
            },
            None => {
                pending.push(user);
            },
        }
        proof {
            let rd = setup_ready(all_users, all_results, i + 1);
            let fl = setup_failed(all_users, all_results, i + 1);
            assert forall|k: int| 0 <= k < ready@.len() implies (#[trigger] ready@[k]).0 == rd[k] && (
            ready@[k].1 matches ActivePacket::SystemMessage(m) && m.is_server_message(
                config.motd@,
                *config,
            )) by {
                if k < ready_before.len() {
                    assert(ready@[k] == ready_before[k]);
                }
            }
            assert forall|k: int| 0 <= k < failed@.len() implies (#[trigger] failed@[k]).0 == fl[k].0
                && failed@[k].1@ == fl[k].1 by {
                if k < failed_before.len() {
                    assert(failed@[k] == failed_before[k]);
                }
            }
        }
        i = i + 1;
    }
    proof {
        assert forall|m: int|
            0 <= m < all_users.len() && (#[trigger] all_results[m] matches Some(Ok(_))) implies exists|k: int|
                0 <= k < ready@.len() && (#[trigger] ready@[k]).0 == all_users[m] by {
            setup_routes_each_user(all_users, all_results, m, n as int);
            let rd = setup_ready(all_users, all_results, n as int);
            let k = choose|k: int| 0 <= k < rd.len() && rd[k] == all_users[m];
            assert(ready@[k].0 == rd[k]);
        }
        assert forall|m: int|
            0 <= m < all_users.len() && (#[trigger] all_results[m] is None) implies pending@.contains(
                all_users[m],
            ) by {
            setup_routes_each_user(all_users, all_results, m, n as int);
        }
    }
    SetupPlan { ready, failed, waiting: pending }
}

/// Every user whose setup worked is welcomed and moves on, every user whose
/// setup failed is closed with the failure's reason, and every user whose
/// configuration has not arrived keeps waiting.
pub proof fn setup_routes_each_user<C>(waiting: Seq<C>, results: Seq<SetupResult>, i: int, n: int)
    requires
        0 <= i < n,
    ensures
        results[i] matches Some(Ok(_)) ==> setup_ready(waiting, results, n).contains(waiting[i]),
        results[i] is None ==> setup_pending(waiting, results, n).contains(waiting[i]),
        results[i] matches Some(Err(e)) ==> setup_failed(waiting, results, n).contains(
            (waiting[i], "Disconnected: "@ + e.text()),
        ),
    decreases n,
{
    if n > i + 1 {
        setup_routes_each_user(waiting, results, i, n - 1);
        let r = setup_ready(waiting, results, n - 1);
        let p = setup_pending(waiting, results, n - 1);
        let f = setup_failed(waiting, results, n - 1);
        if r.contains(waiting[i]) {
            let j = choose|j: int| 0 <= j < r.len() && r[j] == waiting[i];
            assert(setup_ready(waiting, results, n)[j] == waiting[i]);
        }
        if p.contains(waiting[i]) {
            let j = choose|j: int| 0 <= j < p.len() && p[j] == waiting[i];
            assert(setup_pending(waiting, results, n)[j] == waiting[i]);
        }
        if let Some(Err(e)) = results[i] {
            if f.contains((waiting[i], "Disconnected: "@ + e.text())) {
                let j = choose|j: int|
                    0 <= j < f.len() && f[j] == (waiting[i], "Disconnected: "@ + e.text());
                assert(setup_failed(waiting, results, n)[j] == (waiting[i], "Disconnected: "@ + e.text()));
            }
        }
    } else {
        let r = setup_ready(waiting, results, n);
        let p = setup_pending(waiting, results, n);
        let f = setup_failed(waiting, results, n);
        if results[i] matches Some(Ok(_)) {
            assert(r[r.len() - 1] == waiting[i]);
        }
        if results[i] is None {
            assert(p[p.len() - 1] == waiting[i]);
        }
        if let Some(Err(e)) = results[i] {
            assert(f[f.len() - 1] == (waiting[i], "Disconnected: "@ + e.text()));
        }
    }
}

/// No user being set up gets lost in a round: each one is set up, fails,
/// or keeps waiting.
pub proof fn every_waiting_user_is_routed<C>(waiting: Seq<C>, results: Seq<SetupResult>, n: int)
    requires
        0 <= n,
    ensures
        setup_ready(waiting, results, n).len() + setup_failed(waiting, results, n).len()
            + setup_pending(waiting, results, n).len() == n,
    decreases n,
{
    if n > 0 {
        every_waiting_user_is_routed(waiting, results, n - 1);
    }
}

} // verus!
