//! Scenario tests driving the lifecycle manager through whole sessions.

use bevy_miniquinn::addr::PeerAddr;
use bevy_miniquinn::manager::{AcceptState, Action, Event, Input, LifecycleManager};
use bevy_miniquinn::message::ReadResult;
use bevy_miniquinn::record::{ConnState, Origin, StreamState};

fn addr() -> PeerAddr {
    PeerAddr::v4(127, 0, 0, 1, 4433)
}

fn start_connect(mgr: &mut LifecycleManager) -> Vec<Action> {
    mgr.step(Input::StartConnect {
        addr: addr(),
        server_name: String::from("my_server"),
    })
}

#[test]
fn client_connects_and_receives_one_message() {
    // Scenario: client connects to a live endpoint; one Connected event,
    // then one DataReceived with exactly the peer's payload.
    let mut mgr = LifecycleManager::new();

    let actions = start_connect(&mut mgr);
    assert_eq!(actions, vec![Action::SpawnConnect { session: 0 }]);
    assert_eq!(mgr.record_state(0), Some(ConnState::Connecting));

    let actions = mgr.step(Input::ConnectResult {
        session: 0,
        success: true,
    });
    assert!(actions.is_empty());
    assert_eq!(
        mgr.record_state(0),
        Some(ConnState::Connected(StreamState::Idle))
    );
    assert_eq!(mgr.take_events(), vec![Event::Connected { session: 0 }]);

    let actions = mgr.step(Input::StreamTick { session: 0 });
    assert_eq!(
        actions,
        vec![Action::SpawnStreamOpen {
            session: 0,
            initiate: true,
        }]
    );

    let actions = mgr.step(Input::StreamOpenResult {
        session: 0,
        success: true,
    });
    assert_eq!(actions, vec![Action::SpawnRead { session: 0 }]);

    let payload = b"hello from server".to_vec();
    let actions = mgr.step(Input::ReadDone {
        session: 0,
        outcome: ReadResult::Data(payload.clone()),
    });
    assert!(actions.is_empty());
    assert_eq!(
        mgr.take_events(),
        vec![Event::DataReceived {
            session: 0,
            bytes: payload,
        }]
    );
    assert_eq!(
        mgr.record_state(0),
        Some(ConnState::Connected(StreamState::Idle))
    );
}

#[test]
fn failed_connect_is_discarded_without_event() {
    // Scenario: nothing is listening; zero Connected events and the record
    // is removed as soon as the connect operation resolves.
    let mut mgr = LifecycleManager::new();
    start_connect(&mut mgr);

    let actions = mgr.step(Input::ConnectResult {
        session: 0,
        success: false,
    });
    assert_eq!(actions, vec![Action::Teardown { session: 0 }]);
    assert_eq!(mgr.take_events(), Vec::new());
    assert_eq!(mgr.record_state(0), None);
    assert_eq!(mgr.record_count(), 0);
}

#[test]
fn server_accepts_reads_then_peer_closes() {
    // Scenario: server accepts a connection, the client sends one message
    // and then closes the stream: Connected, DataReceived with the exact
    // bytes, then Disconnected.
    let mut mgr = LifecycleManager::new();

    let actions = mgr.step(Input::OpenEndpoint);
    assert_eq!(actions, vec![Action::RearmAccept]);

    let actions = mgr.step(Input::Incoming { addr: addr() });
    assert_eq!(
        actions,
        vec![Action::SpawnHandshake { session: 0 }, Action::RearmAccept]
    );
    assert_eq!(mgr.accept_state(), AcceptState::Accepting);
    let rec = mgr.record(0).expect("record created on accept");
    assert_eq!(rec.origin, Origin::Remote);
    assert_eq!(rec.peer_name, None);
    assert_eq!(rec.addr.port, 4433);

    mgr.step(Input::ConnectResult {
        session: 0,
        success: true,
    });

    let actions = mgr.step(Input::StreamTick { session: 0 });
    assert_eq!(
        actions,
        vec![Action::SpawnStreamOpen {
            session: 0,
            initiate: false,
        }]
    );
    mgr.step(Input::StreamOpenResult {
        session: 0,
        success: true,
    });
    mgr.step(Input::ReadDone {
        session: 0,
        outcome: ReadResult::Data(b"ping".to_vec()),
    });

    // The next cycle finds the stream closed.
    mgr.step(Input::StreamTick { session: 0 });
    mgr.step(Input::StreamOpenResult {
        session: 0,
        success: true,
    });
    let actions = mgr.step(Input::ReadDone {
        session: 0,
        outcome: ReadResult::Closed,
    });
    assert_eq!(actions, vec![Action::Teardown { session: 0 }]);

    assert_eq!(
        mgr.take_events(),
        vec![
            Event::Connected { session: 0 },
            Event::DataReceived {
                session: 0,
                bytes: b"ping".to_vec(),
            },
            Event::Disconnected { session: 0 },
        ]
    );
    assert_eq!(mgr.record_state(0), None);
}

#[test]
fn read_error_disconnects_without_data() {
    // Scenario: a transport error mid-read yields Disconnected, no
    // DataReceived for that cycle, and the record is removed.
    let mut mgr = LifecycleManager::new();
    start_connect(&mut mgr);
    mgr.step(Input::ConnectResult {
        session: 0,
        success: true,
    });
    mgr.step(Input::StreamTick { session: 0 });
    mgr.step(Input::StreamOpenResult {
        session: 0,
        success: true,
    });
    mgr.take_events();

    let actions = mgr.step(Input::ReadDone {
        session: 0,
        outcome: ReadResult::Error,
    });
    assert_eq!(actions, vec![Action::Teardown { session: 0 }]);
    assert_eq!(mgr.take_events(), vec![Event::Disconnected { session: 0 }]);
    assert_eq!(mgr.record_state(0), None);
    assert_eq!(mgr.record_count(), 0);
}

#[test]
fn stream_open_failure_disconnects() {
    // After consumers saw Connected, a failed stream open announces the
    // teardown with a Disconnected event.
    let mut mgr = LifecycleManager::new();
    start_connect(&mut mgr);
    mgr.step(Input::ConnectResult {
        session: 0,
        success: true,
    });
    mgr.step(Input::StreamTick { session: 0 });
    mgr.take_events();

    let actions = mgr.step(Input::StreamOpenResult {
        session: 0,
        success: false,
    });
    assert_eq!(actions, vec![Action::Teardown { session: 0 }]);
    assert_eq!(mgr.take_events(), vec![Event::Disconnected { session: 0 }]);
    assert_eq!(mgr.record_state(0), None);
}

#[test]
fn empty_message_still_yields_data_event() {
    // End-of-stream with no bytes read still emits DataReceived, with an
    // empty payload: emission is driven by end-of-stream, not buffer size.
    let mut mgr = LifecycleManager::new();
    start_connect(&mut mgr);
    mgr.step(Input::ConnectResult {
        session: 0,
        success: true,
    });
    mgr.step(Input::StreamTick { session: 0 });
    mgr.step(Input::StreamOpenResult {
        session: 0,
        success: true,
    });
    mgr.take_events();

    mgr.step(Input::ReadDone {
        session: 0,
        outcome: ReadResult::Data(Vec::new()),
    });
    assert_eq!(
        mgr.take_events(),
        vec![Event::DataReceived {
            session: 0,
            bytes: Vec::new(),
        }]
    );
    assert_eq!(
        mgr.record_state(0),
        Some(ConnState::Connected(StreamState::Idle))
    );
}

#[test]
fn idle_cycling_emits_one_event_per_cycle() {
    // Three error-free read cycles: exactly three DataReceived events, in
    // order, and the record stays Connected throughout.
    let mut mgr = LifecycleManager::new();
    start_connect(&mut mgr);
    mgr.step(Input::ConnectResult {
        session: 0,
        success: true,
    });
    mgr.take_events();

    for i in 0u8..3 {
        mgr.step(Input::StreamTick { session: 0 });
        mgr.step(Input::StreamOpenResult {
            session: 0,
            success: true,
        });
        mgr.step(Input::ReadDone {
            session: 0,
            outcome: ReadResult::Data(vec![i]),
        });
        assert_eq!(
            mgr.record_state(0),
            Some(ConnState::Connected(StreamState::Idle))
        );
    }

    assert_eq!(
        mgr.take_events(),
        vec![
            Event::DataReceived {
                session: 0,
                bytes: vec![0],
            },
            Event::DataReceived {
                session: 0,
                bytes: vec![1],
            },
            Event::DataReceived {
                session: 0,
                bytes: vec![2],
            },
        ]
    );
}

#[test]
fn connected_record_never_observed_connecting_again() {
    // Monotonic progression, observed on a concrete run: after Connected,
    // every later observation is Connected or gone, never Connecting.
    let mut mgr = LifecycleManager::new();
    start_connect(&mut mgr);
    mgr.step(Input::ConnectResult {
        session: 0,
        success: true,
    });

    let observations = [
        Input::StreamTick { session: 0 },
        Input::Incoming { addr: addr() },
        Input::ConnectResult {
            session: 0,
            success: true,
        },
        Input::StreamOpenResult {
            session: 0,
            success: true,
        },
        Input::ReadDone {
            session: 0,
            outcome: ReadResult::Data(b"x".to_vec()),
        },
    ];
    for input in observations {
        mgr.step(input);
        assert_ne!(mgr.record_state(0), Some(ConnState::Connecting));
    }
}

#[test]
fn endpoint_closed_stops_accepting() {
    // Endpoint exhaustion is terminal: no re-arm, and later inbound
    // attempts are ignored.
    let mut mgr = LifecycleManager::new();
    mgr.step(Input::OpenEndpoint);
    let actions = mgr.step(Input::EndpointClosed);
    assert!(actions.is_empty());
    assert_eq!(mgr.accept_state(), AcceptState::Exhausted);

    let actions = mgr.step(Input::Incoming { addr: addr() });
    assert!(actions.is_empty());
    assert_eq!(mgr.record_count(), 0);
}

#[test]
fn stale_completions_are_discarded() {
    // Results for a record that no longer exists, or that has moved on,
    // change nothing.
    let mut mgr = LifecycleManager::new();
    let actions = mgr.step(Input::ConnectResult {
        session: 7,
        success: true,
    });
    assert!(actions.is_empty());
    assert_eq!(mgr.take_events(), Vec::new());

    start_connect(&mut mgr);
    // A read completion for a record still connecting is stale.
    let actions = mgr.step(Input::ReadDone {
        session: 0,
        outcome: ReadResult::Error,
    });
    assert!(actions.is_empty());
    assert_eq!(mgr.record_state(0), Some(ConnState::Connecting));
    assert_eq!(mgr.take_events(), Vec::new());
}

#[test]
fn session_ids_are_never_reused() {
    let mut mgr = LifecycleManager::new();
    start_connect(&mut mgr);
    start_connect(&mut mgr);
    assert_eq!(mgr.record_count(), 2);

    mgr.step(Input::ConnectResult {
        session: 0,
        success: false,
    });
    let actions = start_connect(&mut mgr);
    assert_eq!(actions, vec![Action::SpawnConnect { session: 2 }]);
    assert_eq!(mgr.record_state(0), None);
    assert_eq!(mgr.record_state(1), Some(ConnState::Connecting));
    assert_eq!(mgr.record_state(2), Some(ConnState::Connecting));
}

#[test]
fn accept_loop_rearms_after_every_attempt() {
    // Re-arm liveness on a concrete run: each consumed inbound attempt
    // answers with a RearmAccept action and the endpoint stays accepting.
    let mut mgr = LifecycleManager::new();
    mgr.step(Input::OpenEndpoint);
    for expected_id in 0u64..3 {
        let actions = mgr.step(Input::Incoming { addr: addr() });
        assert_eq!(
            actions,
            vec![
                Action::SpawnHandshake {
                    session: expected_id,
                },
                Action::RearmAccept,
            ]
        );
        assert_eq!(mgr.accept_state(), AcceptState::Accepting);
    }
    assert_eq!(mgr.record_count(), 3);
}

#[test]
fn peer_addr_v4_octets() {
    let a = PeerAddr::v4(192, 168, 0, 17, 9000);
    assert_eq!(a.octets, vec![192, 168, 0, 17]);
    assert_eq!(a.port, 9000);
}
