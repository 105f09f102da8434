use udp_relay::endpoint::{Address, Endpoint};
use udp_relay::manager::RelayManager;
use udp_relay::relay::{relaying, Action, CompletionSignal, Event, RelaySession};

fn client(last_octet: u32, port: u16) -> Endpoint {
    Endpoint { address: Address::V4(0xC0A8_0100 + last_octet), port }
}

fn create(manager: &mut RelayManager, now: u64) -> Option<RelaySession> {
    let (first, second) = manager.run_relay(client(1, 5000), client(2, 6000))?;
    manager.start_session(first, second, true, now)
}

fn end(session: &mut RelaySession) -> CompletionSignal {
    match relaying(session, Event::TransportError) {
        Action::Complete(signal) => signal,
        other => panic!("a running session ends on a transport error, got {:?}", other),
    }
}

#[test]
fn new_manager_has_the_whole_range_free() {
    let manager = RelayManager::new(40000..40010);
    assert_eq!(manager.free_ports(), 10);
    assert!(manager.is_free(40000));
    assert!(manager.is_free(40009));
    assert!(!manager.is_free(40010));
}

#[test]
fn find_ports_gives_two_different_ports_of_the_range() {
    let mut manager = RelayManager::new(40000..40010);
    let (first, second) = manager.find_ports().expect("ten ports are free");
    assert_ne!(first, second);
    assert!((40000..40010).contains(&first));
    assert!((40000..40010).contains(&second));
    assert_eq!(manager.free_ports(), 8);
    assert!(!manager.is_free(first));
    assert!(!manager.is_free(second));
}

#[test]
fn find_ports_with_one_port_left_gives_nothing_and_changes_nothing() {
    let mut manager = RelayManager::new(40000..40003);
    assert!(manager.find_ports().is_some());
    assert_eq!(manager.free_ports(), 1);
    assert_eq!(manager.find_ports(), None);
    assert_eq!(manager.free_ports(), 1);
}

#[test]
fn run_relay_pairs_each_client_with_a_reserved_port() {
    let mut manager = RelayManager::new(40000..40002);
    let (first, second) = manager
        .run_relay(client(1, 5000), client(2, 6000))
        .expect("two ports are free");
    assert_eq!(first.peer_addr, client(1, 5000));
    assert_eq!(second.peer_addr, client(2, 6000));
    assert_ne!(first.port, second.port);
    assert!(first.port == 40000 || first.port == 40001);
    assert!(second.port == 40000 || second.port == 40001);
    assert_eq!(manager.free_ports(), 0);
}

#[test]
fn run_relay_without_two_free_ports_gives_nothing() {
    let mut manager = RelayManager::new(40000..40001);
    assert_eq!(manager.run_relay(client(1, 5000), client(2, 6000)), None);
    assert_eq!(manager.free_ports(), 1);
    assert!(manager.is_free(40000));
}

#[test]
fn start_session_with_bound_sockets_starts_a_running_session() {
    let mut manager = RelayManager::new(40000..40004);
    let (first, second) = manager
        .run_relay(client(1, 5000), client(2, 6000))
        .expect("four ports are free");
    let session = manager
        .start_session(first, second, true, 77)
        .expect("both sockets are bound");
    let state = session.state();
    assert!(state.running);
    assert!(!state.exit_requested);
    assert_eq!(state.entity_a, first);
    assert_eq!(state.entity_b, second);
    assert_eq!(state.last_known_a, client(1, 5000));
    assert_eq!(state.last_known_b, client(2, 6000));
    assert_eq!(state.last_activity, 77);
    assert_eq!(manager.free_ports(), 2);
    assert!(!manager.is_free(first.port));
    assert!(!manager.is_free(second.port));
}

#[test]
fn a_failed_bind_gives_both_ports_back_at_once() {
    let mut manager = RelayManager::new(40000..40002);
    let (first, second) = manager
        .run_relay(client(1, 5000), client(2, 6000))
        .expect("two ports are free");
    assert_eq!(manager.free_ports(), 0);
    assert!(manager.start_session(first, second, false, 0).is_none());
    assert_eq!(manager.free_ports(), 2);
    assert!(manager.is_free(first.port));
    assert!(manager.is_free(second.port));
    assert!(manager.run_relay(client(3, 7000), client(4, 8000)).is_some());
}

#[test]
fn reclaim_frees_the_ports_of_the_ended_session() {
    let mut manager = RelayManager::new(40000..40004);
    let mut kept = create(&mut manager, 0).expect("four ports are free");
    let mut ended = create(&mut manager, 0).expect("two ports are free");
    let kept_state = kept.state();
    let ended_state = ended.state();
    assert_eq!(manager.free_ports(), 0);

    let signal = end(&mut ended);
    assert_eq!(signal.ports(), (ended_state.entity_a.port, ended_state.entity_b.port));
    manager.reclaim(signal);

    assert_eq!(manager.free_ports(), 2);
    assert!(manager.is_free(ended_state.entity_a.port));
    assert!(manager.is_free(ended_state.entity_b.port));
    assert!(!manager.is_free(kept_state.entity_a.port));
    assert!(!manager.is_free(kept_state.entity_b.port));
    assert!(matches!(relaying(&mut kept, Event::CycleStart), Action::Wait));
}

#[test]
fn sessions_alive_together_never_share_a_port() {
    let mut manager = RelayManager::new(40000..40010);
    let mut held: Vec<u16> = Vec::new();
    let mut sessions: Vec<RelaySession> = Vec::new();
    while let Some(session) = create(&mut manager, 0) {
        let state = session.state();
        for port in [state.entity_a.port, state.entity_b.port] {
            assert!(!held.contains(&port));
            assert!(!manager.is_free(port));
            held.push(port);
        }
        sessions.push(session);
    }
    assert_eq!(sessions.len(), 5);

    let mut second = sessions.remove(1);
    let gone = second.state();
    manager.reclaim(end(&mut second));
    held.retain(|port| *port != gone.entity_a.port && *port != gone.entity_b.port);

    let fresh = create(&mut manager, 0).expect("one pair came back").state();
    for port in [fresh.entity_a.port, fresh.entity_b.port] {
        assert!(!held.contains(&port));
        held.push(port);
    }
    held.sort();
    assert_eq!(held, (40000u16..40010).collect::<Vec<u16>>());
}

#[test]
fn ten_ports_serve_five_sessions_and_one_more_after_each_cleanup() {
    let mut manager = RelayManager::new(40000..40010);
    let mut sessions: Vec<RelaySession> = Vec::new();
    for _ in 0..5 {
        sessions.push(create(&mut manager, 0).expect("a pair is still free"));
    }
    assert_eq!(manager.free_ports(), 0);
    for _ in 0..5 {
        assert!(create(&mut manager, 0).is_none());
        assert_eq!(manager.free_ports(), 0);
    }

    let mut third = sessions.remove(2);
    let freed = third.state();
    manager.reclaim(end(&mut third));
    assert_eq!(manager.free_ports(), 2);

    let again = create(&mut manager, 0).expect("exactly one pair came back").state();
    let mut got = vec![again.entity_a.port, again.entity_b.port];
    got.sort();
    let mut expected = vec![freed.entity_a.port, freed.entity_b.port];
    expected.sort();
    assert_eq!(got, expected);
    assert_eq!(manager.free_ports(), 0);
    assert!(create(&mut manager, 0).is_none());
}

#[test]
fn an_idle_session_returns_its_ports_through_the_same_path() {
    let mut manager = RelayManager::new(40000..40002);
    let mut session = create(&mut manager, 1_000).expect("two ports are free");
    let late = 1_000 + udp_relay::relay::MAX_INACTIVITY + 1;
    assert!(matches!(
        relaying(&mut session, Event::WatchdogTick { now: late }),
        Action::Stop
    ));
    assert_eq!(manager.free_ports(), 0);
    match relaying(&mut session, Event::WaitTimedOut) {
        Action::Complete(signal) => manager.reclaim(signal),
        other => panic!("the session was asked to end, got {:?}", other),
    }
    assert_eq!(manager.free_ports(), 2);
}
