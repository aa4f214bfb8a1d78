use session_core::auth::{decide, AuthDecision};
use session_core::dispatcher::ServerCore;
use session_core::handler::{
    initial_form_payload, is_exit_command, ConnectionHandler, DataAction, HandlerState,
};
use session_core::registry::{RegistryError, SessionRegistry};
use session_core::session::Session;

#[test]
fn identities_are_pairwise_distinct() {
    let mut core = ServerCore::new();
    let mut ids = Vec::new();
    for _ in 0..8 {
        ids.push(core.new_connection().id());
    }
    for i in 0..ids.len() {
        for j in 0..ids.len() {
            if i != j {
                assert_ne!(ids[i], ids[j]);
            }
        }
    }
}

#[test]
fn remove_absent_is_noop() {
    let mut reg = SessionRegistry::new();
    reg.insert(1, Session::new());
    reg.remove(42);
    assert_eq!(reg.len(), 1);
    assert!(reg.contains(1));
    assert_eq!(reg.get(1), Some(Session { counter: 0 }));

    let mut empty = SessionRegistry::new();
    empty.remove(0);
    assert_eq!(empty.len(), 0);
}

#[test]
fn increments_are_counted_exactly() {
    let mut reg = SessionRegistry::new();
    reg.insert(5, Session::new());
    assert_eq!(reg.increment_counter(5), Ok(1));
    assert_eq!(reg.increment_counter(5), Ok(2));
    assert_eq!(reg.get(5), Some(Session { counter: 2 }));
}

#[test]
fn mutation_is_isolated_between_identities() {
    let mut reg = SessionRegistry::new();
    reg.insert(1, Session::new());
    reg.insert(2, Session::new());
    assert_eq!(reg.increment_counter(1), Ok(1));
    assert_eq!(reg.get(2), Some(Session { counter: 0 }));
    assert_eq!(reg.get(1), Some(Session { counter: 1 }));
}

#[test]
fn increment_of_absent_identity_signals_not_found() {
    let mut reg = SessionRegistry::new();
    assert_eq!(reg.increment_counter(9), Err(RegistryError::NotFound));
    assert_eq!(reg.len(), 0);
}

#[test]
fn exit_command_tears_down_and_closes_channel() {
    let mut reg = SessionRegistry::new();
    let mut h = ConnectionHandler::new(3);
    assert_eq!(h.on_auth("user", b"key"), AuthDecision::Accept);
    assert!(h.on_channel_open(&mut reg));
    assert!(reg.contains(3));
    let action = h.on_data(&mut reg, b"exit");
    assert_eq!(action, DataAction::CloseChannel);
    assert!(!reg.contains(3));
    assert_eq!(h.state(), HandlerState::Closed);
}

#[test]
fn disconnect_without_exit_removes_exactly_once() {
    let mut reg = SessionRegistry::new();
    let mut h = ConnectionHandler::new(4);
    h.on_auth("user", b"key");
    h.on_channel_open(&mut reg);
    assert_eq!(reg.len(), 1);
    h.on_close_or_disconnect(&mut reg);
    assert!(!reg.contains(4));
    assert_eq!(reg.len(), 0);
    // a repeated disconnect signal is a tolerated no-op
    h.on_close_or_disconnect(&mut reg);
    assert!(!reg.contains(4));
    assert_eq!(reg.len(), 0);
    assert_eq!(h.state(), HandlerState::Closed);
}

#[test]
fn single_connection_lifecycle_scenario() {
    let mut core = ServerCore::new();
    let mut c1 = core.new_connection();
    assert_eq!(c1.state(), HandlerState::Unauthenticated);

    // always-accept policy
    assert_eq!(c1.on_auth("alice", b"pubkey-bytes"), AuthDecision::Accept);
    assert_eq!(c1.state(), HandlerState::Authenticated);

    // channel open: exactly one session, counter zero
    assert!(c1.on_channel_open(&mut core.registry));
    assert_eq!(core.registry.len(), 1);
    assert_eq!(core.registry.get(c1.id()), Some(Session { counter: 0 }));

    // unknown input is silently ignored
    assert_eq!(c1.on_data(&mut core.registry, b"hello"), DataAction::Ignore);
    assert_eq!(core.registry.len(), 1);
    assert_eq!(c1.state(), HandlerState::ChannelOpen);

    // termination command: registry empty, channel closed
    assert_eq!(c1.on_data(&mut core.registry, b"exit"), DataAction::CloseChannel);
    assert_eq!(core.registry.len(), 0);
    assert_eq!(c1.state(), HandlerState::Closed);
}

#[test]
fn two_connections_open_channels_concurrently() {
    let mut core = ServerCore::new();
    let mut c1 = core.new_connection();
    let mut c2 = core.new_connection();
    assert_ne!(c1.id(), c2.id());

    c1.on_auth("alice", b"k1");
    c2.on_auth("bob", b"k2");

    // interleaved channel-open from both connections
    assert!(c1.on_channel_open(&mut core.registry));
    assert!(c2.on_channel_open(&mut core.registry));

    assert_eq!(core.registry.len(), 2);
    assert_eq!(core.registry.get(c1.id()), Some(Session { counter: 0 }));
    assert_eq!(core.registry.get(c2.id()), Some(Session { counter: 0 }));
}

#[test]
fn exit_command_is_exact_match() {
    assert!(is_exit_command(b"exit"));
    assert!(!is_exit_command(b"exit "));
    assert!(!is_exit_command(b" exit"));
    assert!(!is_exit_command(b"exi"));
    assert!(!is_exit_command(b"EXIT"));
    assert!(!is_exit_command(b""));
    assert!(!is_exit_command(b"quit"));
}

#[test]
fn admission_policy_accepts_all() {
    assert_eq!(decide("anyone", b"any-credential"), AuthDecision::Accept);
    assert_eq!(decide("", b""), AuthDecision::Accept);
}

#[test]
fn initial_payload_is_hello() {
    assert_eq!(initial_form_payload(), "Hello");
}

#[test]
fn session_starts_at_zero() {
    let s = Session::new();
    assert_eq!(s.counter, 0);
}

#[test]
fn reinserting_an_identity_overwrites() {
    let mut reg = SessionRegistry::new();
    reg.insert(8, Session { counter: 7 });
    reg.insert(8, Session { counter: 0 });
    assert_eq!(reg.len(), 1);
    assert_eq!(reg.get(8), Some(Session { counter: 0 }));
}

#[test]
fn allocation_leaves_registry_untouched() {
    let mut core = ServerCore::new();
    let c1 = core.new_connection();
    assert_eq!(core.registry.len(), 0);
    assert_eq!(core.next_id(), c1.id() + 1);
}
