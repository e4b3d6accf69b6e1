//! The lifecycle core: state machine, session coordinator, supervisor,
//! registry, and telemetry channel.

use netwatch_agent::inbound::InboundQueue;
use netwatch_agent::registry::{EventEnvelope, EventRegistry};
use netwatch_agent::session::{SessionAction, SessionCore};
use netwatch_agent::state::{step, ConnectionEvent, ConnectionState};
use netwatch_agent::supervisor::{ReconnectSupervisor, SupervisorAction};
use netwatch_agent::telemetry::{FlushOutcome, TelemetryChannel};

#[test]
fn state_walks_the_lifecycle_edges() {
    let s = ConnectionState::Disconnected;
    let s = step(s, ConnectionEvent::ConnectRequested);
    assert_eq!(s, ConnectionState::Connecting);
    let s = step(s, ConnectionEvent::TransportOpened);
    assert_eq!(s, ConnectionState::Connected);
    let s = step(s, ConnectionEvent::AuthSucceeded);
    assert_eq!(s, ConnectionState::Authenticated);
    let s = step(s, ConnectionEvent::TransportClosed);
    assert_eq!(s, ConnectionState::Reconnecting);
    let s = step(s, ConnectionEvent::ConnectRequested);
    assert_eq!(s, ConnectionState::Connecting);
}

#[test]
fn connected_is_never_reached_without_connecting() {
    // A transport-open report cannot skip the connecting phase.
    let s = step(ConnectionState::Disconnected, ConnectionEvent::TransportOpened);
    assert_eq!(s, ConnectionState::Disconnected);
    let s = step(ConnectionState::Reconnecting, ConnectionEvent::TransportOpened);
    assert_eq!(s, ConnectionState::Reconnecting);
}

#[test]
fn auth_failure_returns_to_disconnected() {
    let s = step(ConnectionState::Connected, ConnectionEvent::AuthFailed);
    assert_eq!(s, ConnectionState::Disconnected);
}

#[test]
fn closed_is_terminal() {
    let s = step(ConnectionState::Authenticated, ConnectionEvent::Shutdown);
    assert_eq!(s, ConnectionState::Closed);
    for e in [
        ConnectionEvent::ConnectRequested,
        ConnectionEvent::TransportOpened,
        ConnectionEvent::AuthSucceeded,
        ConnectionEvent::TransportClosed,
        ConnectionEvent::Shutdown,
    ] {
        assert_eq!(step(ConnectionState::Closed, e), ConnectionState::Closed);
    }
}

#[test]
fn fanout_invokes_every_handler_once_in_order() {
    let mut registry: EventRegistry<u32> = EventRegistry::new();
    registry.register(String::from("command"), 1);
    registry.register(String::from("heartbeat"), 10);
    registry.register(String::from("command"), 2);
    registry.register(String::from("command"), 3);

    let envelope = EventEnvelope::new(String::from("command"), String::from("{}"));
    let plan = registry.dispatch_plan(&envelope).expect("handlers registered");
    assert_eq!(plan.as_slice(), &[1, 2, 3]);

    let other = EventEnvelope::new(String::from("heartbeat"), String::new());
    let plan = registry.dispatch_plan(&other).expect("handler registered");
    assert_eq!(plan.as_slice(), &[10]);
}

#[test]
fn unknown_event_names_dispatch_nothing() {
    let mut registry: EventRegistry<u32> = EventRegistry::new();
    registry.register(String::from("command"), 1);
    let unknown = EventEnvelope::new(String::from("no-such-event"), String::new());
    assert!(registry.dispatch_plan(&unknown).is_none());
}

#[test]
fn flush_while_disconnected_discards_without_growth() {
    let mut channel: TelemetryChannel<u64> = TelemetryChannel::new(String::from("keystroke"));
    channel.append(1);
    channel.append(2);
    match channel.flush(ConnectionState::Disconnected, 1000) {
        FlushOutcome::Discarded(n) => assert_eq!(n, 2),
        _ => panic!("a non-empty drain while disconnected must discard"),
    }
    assert_eq!(channel.len(), 0);
    // Failed flushes leave no history behind: only fresh records count.
    channel.append(3);
    match channel.flush(ConnectionState::Reconnecting, 2000) {
        FlushOutcome::Discarded(n) => assert_eq!(n, 1),
        _ => panic!("a non-empty drain while reconnecting must discard"),
    }
    assert_eq!(channel.len(), 0);
    match channel.flush(ConnectionState::Disconnected, 3000) {
        FlushOutcome::Empty => {}
        _ => panic!("an empty buffer drains to nothing"),
    }
}

#[test]
fn five_records_leave_as_one_batch_of_five() {
    let mut channel: TelemetryChannel<u64> = TelemetryChannel::new(String::from("activity-log"));
    channel.start();
    for record in [11, 12, 13, 14, 15] {
        channel.append(record);
    }
    match channel.flush(ConnectionState::Authenticated, 30_000) {
        FlushOutcome::Send(batch) => {
            assert_eq!(batch.kind(), "activity-log");
            assert_eq!(batch.records().as_slice(), &[11, 12, 13, 14, 15]);
            assert_eq!(batch.created_at(), 30_000);
        }
        _ => panic!("an authenticated drain of five records must send one batch"),
    }
    assert_eq!(channel.len(), 0);
}

#[test]
fn stop_drains_once_and_leaves_the_buffer_empty() {
    let mut channel: TelemetryChannel<u64> = TelemetryChannel::new(String::from("keystroke"));
    channel.start();
    channel.append(7);
    // The send may fail (disconnected): the buffer is empty afterwards anyway.
    match channel.stop(ConnectionState::Disconnected, 500) {
        FlushOutcome::Discarded(n) => assert_eq!(n, 1),
        _ => panic!("the final drain must hand over or discard the record"),
    }
    assert!(!channel.is_active());
    assert_eq!(channel.len(), 0);
    // A second stop finds nothing: the one final drain already happened.
    match channel.stop(ConnectionState::Authenticated, 600) {
        FlushOutcome::Empty => {}
        _ => panic!("a second stop has nothing left to drain"),
    }
}

#[test]
fn start_and_stop_are_idempotent() {
    let mut channel: TelemetryChannel<u64> = TelemetryChannel::new(String::from("process-list"));
    assert!(channel.start());
    assert!(!channel.start());
    assert!(channel.is_active());
    channel.stop(ConnectionState::Authenticated, 0);
    assert!(!channel.is_active());
}

#[test]
fn buffer_size_limit_asks_for_a_flush() {
    let mut channel: TelemetryChannel<u64> = TelemetryChannel::new(String::from("keystroke"));
    channel.append(1);
    assert!(!channel.needs_flush(2));
    channel.append(2);
    assert!(channel.needs_flush(2));
}

#[test]
fn unreachable_address_keeps_retrying_from_disconnected() {
    let mut session = SessionCore::new();
    let supervisor = ReconnectSupervisor::new(10_000);
    for _ in 0..3 {
        assert_eq!(
            supervisor.poll(session.state, true),
            SupervisorAction::AttemptReconnect
        );
        let actions = session.handle(ConnectionEvent::ConnectRequested);
        assert_eq!(actions, vec![SessionAction::Dial]);
        // The dial fails: the state falls back to disconnected.
        session.handle(ConnectionEvent::DialFailed);
        assert_eq!(session.state, ConnectionState::Disconnected);
    }
    // A healthy or finished agent is left alone.
    assert_eq!(
        supervisor.poll(ConnectionState::Authenticated, true),
        SupervisorAction::Wait
    );
    assert_eq!(
        supervisor.poll(ConnectionState::Closed, true),
        SupervisorAction::Wait
    );
    assert_eq!(
        supervisor.poll(ConnectionState::Disconnected, false),
        SupervisorAction::Wait
    );
}

#[test]
fn reconnect_does_not_restart_running_services() {
    let mut session = SessionCore::new();
    session.handle(ConnectionEvent::ConnectRequested);
    let actions = session.handle(ConnectionEvent::TransportOpened);
    assert_eq!(actions, vec![SessionAction::SendIdentification]);
    let actions = session.handle(ConnectionEvent::AuthSucceeded);
    assert_eq!(actions, vec![SessionAction::StartServices]);
    assert!(session.services_running);

    // The connection drops mid-session: services stay marked running.
    session.handle(ConnectionEvent::TransportClosed);
    assert_eq!(session.state, ConnectionState::Reconnecting);
    assert!(session.services_running);

    // Reconnect and re-authenticate: no second start.
    session.handle(ConnectionEvent::ConnectRequested);
    session.handle(ConnectionEvent::TransportOpened);
    let actions = session.handle(ConnectionEvent::AuthSucceeded);
    assert!(actions.is_empty());
    assert!(session.services_running);
    assert_eq!(session.state, ConnectionState::Authenticated);
}

#[test]
fn shutdown_stops_services_and_closes() {
    let mut session = SessionCore::new();
    session.handle(ConnectionEvent::ConnectRequested);
    session.handle(ConnectionEvent::TransportOpened);
    session.handle(ConnectionEvent::AuthSucceeded);
    let actions = session.handle(ConnectionEvent::Shutdown);
    assert_eq!(
        actions,
        vec![SessionAction::StopServices, SessionAction::Disconnect]
    );
    assert_eq!(session.state, ConnectionState::Closed);
    assert!(!session.services_running);
    // Nothing more happens after the terminal state.
    assert!(session.handle(ConnectionEvent::ConnectRequested).is_empty());
}

#[test]
fn inbound_messages_dispatch_in_arrival_order() {
    let mut queue = InboundQueue::new();
    for name in ["first", "second", "third"] {
        queue.received(EventEnvelope::new(String::from(name), String::new()));
    }
    assert_eq!(queue.len(), 3);
    assert_eq!(queue.next_to_dispatch().unwrap().name, "first");
    assert_eq!(queue.next_to_dispatch().unwrap().name, "second");
    assert_eq!(queue.next_to_dispatch().unwrap().name, "third");
    assert!(queue.next_to_dispatch().is_none());
}
