use chatty::config::{ClientConfig, ServerConfig};
use chatty::error::NetCodeErr;
use chatty::message::Message;
use chatty::packet::ActivePacket;
use chatty::server::{accept_next, disconnect_reason, relay_tick, setup_tick, welcome_packet, AcceptStep, DropAction, SetupStep, User, UserState};
use chatty::time::Timestamp;

fn msg(sender: &str, content: &str) -> Message {
    Message { sender: sender.to_string(), content: content.to_string(), timestamp: Timestamp { secs: 0, nanos: 0 }, color: [0, 0, 0] }
}

fn client(name: &str) -> ClientConfig {
    ClientConfig { username: name.to_string(), user_color: [1, 1, 1], ip: String::new() }
}

#[test]
fn user_setup_success() {
    let mut u = User::new();
    assert!(matches!(u.state(), UserState::WaitingForConfig));
    assert!(u.config().is_none());
    assert_eq!(u.setup_behave(None), SetupStep::Wait);
    assert_eq!(u.setup_behave(Some(client("amy"))), SetupStep::SendHandshake);
    assert_eq!(u.config().unwrap().username, "amy");
    assert!(matches!(u.state(), UserState::WaitingForConfig));
    assert_eq!(u.handshake_sent(true), Ok(()));
    assert!(matches!(u.state(), UserState::Active));
    assert_eq!(u.config().unwrap().username, "amy");
}

#[test]
fn user_setup_handshake_failure() {
    let mut u = User::new();
    u.setup_behave(Some(client("amy")));
    assert_eq!(u.handshake_sent(false), Err(NetCodeErr::UnknownError));
    assert!(matches!(u.state(), UserState::WaitingForConfig));
}

#[test]
fn closing_actions() {
    let waiting = User::new();
    assert!(matches!(waiting.closing_action(), DropAction::Nothing));
    let mut active = User::new();
    active.setup_behave(Some(client("amy")));
    active.handshake_sent(true).unwrap();
    match active.closing_action() {
        DropAction::Notify(ActivePacket::Shutdown { reason }) => assert_eq!(reason, "Server closed connection unexpectedly"),
        _ => panic!("expected a shutdown notice"),
    }
    active.close("bye".to_string());
    match active.state() {
        UserState::Closing { reason } => assert_eq!(reason, "bye"),
        _ => panic!("expected closing"),
    }
    assert!(matches!(active.closing_action(), DropAction::ShutdownSocket));
}

#[test]
fn disconnect_reason_text() {
    assert_eq!(disconnect_reason(NetCodeErr::UnknownError), "Disconnected: Unknown error");
}

#[test]
fn welcome_is_motd() {
    let config = ServerConfig::default();
    match welcome_packet(&config) {
        ActivePacket::SystemMessage(m) => {
            assert_eq!(m.content, "Default MOTD");
            assert_eq!(m.sender, "Default Server Name");
            assert_eq!(m.color, [255, 247, 0]);
        }
        _ => panic!("expected a system message"),
    }
}

#[test]
fn relay_tick_scenario() {
    let config = ServerConfig::default();
    let members = vec![1u32, 2, 3, 4];
    let names = vec!["ann".to_string(), "ben".to_string(), "cat".to_string(), "dan".to_string()];
    let events = vec![
        Some(Ok(ActivePacket::Message(msg("ann", "hello")))),
        Some(Ok(ActivePacket::Shutdown { reason: "gone".to_string() })),
        None,
        Some(Err(NetCodeErr::MessageSendFailed)),
    ];
    let plan = relay_tick(members, &names, events, vec![9u32], &vec!["eve".to_string()], &config);
    assert_eq!(plan.outbound.len(), 3);
    match &plan.outbound[0] {
        ActivePacket::SystemMessage(m) => {
            assert_eq!(m.content, "User eve has joined!");
            assert_eq!(m.sender, "Default Server Name");
        }
        _ => panic!("expected an announcement"),
    }
    match &plan.outbound[1] {
        ActivePacket::Message(m) => assert_eq!(m.content, "hello"),
        _ => panic!("expected the forwarded message"),
    }
    match &plan.outbound[2] {
        ActivePacket::SystemMessage(m) => assert_eq!(m.content, "User ben has disconnected"),
        _ => panic!("expected a leave announcement"),
    }
    assert_eq!(plan.roster, vec![1, 3, 9]);
    assert_eq!(plan.audience, 2);
    assert_eq!(plan.closed, vec![
        (2, "Client disconnect".to_string()),
        (4, "Disconnected: Could not send message".to_string()),
    ]);
}

#[test]
fn relay_tick_quiet() {
    let config = ServerConfig::default();
    let plan = relay_tick(vec!['a'], &vec!["a".to_string()], vec![None], vec![], &vec![], &config);
    assert!(plan.outbound.is_empty());
    assert_eq!(plan.roster, vec!['a']);
    assert_eq!(plan.audience, 1);
    assert!(plan.closed.is_empty());
}

#[test]
fn accept_sequence() {
    assert_eq!(accept_next(AcceptStep::SendConnected, true), Ok(Some(AcceptStep::SetNonBlocking)));
    assert_eq!(accept_next(AcceptStep::SendConnected, false), Err(NetCodeErr::UnknownError));
    assert_eq!(accept_next(AcceptStep::SetNonBlocking, true), Ok(Some(AcceptStep::SetNoDelay)));
    assert_eq!(accept_next(AcceptStep::SetNonBlocking, false), Ok(Some(AcceptStep::SendFailed)));
    assert_eq!(accept_next(AcceptStep::SendFailed, true), Ok(Some(AcceptStep::Shutdown)));
    assert_eq!(accept_next(AcceptStep::SendFailed, false), Err(NetCodeErr::MessageSendFailed));
    assert_eq!(accept_next(AcceptStep::Shutdown, true), Err(NetCodeErr::CouldNotSetNonBlocking));
    assert_eq!(accept_next(AcceptStep::Shutdown, false), Err(NetCodeErr::UnknownError));
    assert_eq!(accept_next(AcceptStep::SetNoDelay, true), Ok(None));
    assert_eq!(accept_next(AcceptStep::SetNoDelay, false), Err(NetCodeErr::UnknownError));
}

#[test]
fn setup_tick_routes_users() {
    let config = ServerConfig::default();
    let plan = setup_tick(vec![1u8, 2, 3, 4], vec![None, Some(Ok(())), Some(Err(NetCodeErr::UnknownError)), None], &config);
    assert_eq!(plan.ready.len(), 1);
    assert_eq!(plan.ready[0].0, 2);
    match &plan.ready[0].1 {
        ActivePacket::SystemMessage(m) => {
            assert_eq!(m.content, "Default MOTD");
            assert_eq!(m.sender, "Default Server Name");
        }
        _ => panic!("expected the welcome"),
    }
    assert_eq!(plan.failed, vec![(3, "Disconnected: Unknown error".to_string())]);
    assert_eq!(plan.waiting, vec![1, 4]);
}
