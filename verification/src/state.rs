//! Connection lifecycle state machine.
//!
//! One `ConnectionState` value exists per agent instance. It is advanced
//! only by [`step`], which realizes exactly the lifecycle edges: a connect
//! request leaves `Disconnected` for `Connecting`, an open transport makes
//! the connection `Connected`, a successful handshake makes it
//! `Authenticated`, a closed transport sends an open connection to
//! `Reconnecting`, an explicit shutdown reaches the terminal `Closed` state,
//! and failures (of the dial or of the handshake) fall back to
//! `Disconnected`.

use vstd::prelude::*;

verus! {

/// Lifecycle phase of the agent's single server connection.
#[derive(Clone, Copy, Debug, PartialEq, Eq, Structural)]
pub enum ConnectionState {
    Disconnected,
    Connecting,
    Connected,
    Authenticated,
    Reconnecting,
    Closed,
}

/// An observable event that can advance the connection lifecycle.
#[derive(Clone, Copy, Debug, PartialEq, Eq, Structural)]
pub enum ConnectionEvent {
    /// `connect()` was invoked (first connect or a reconnect attempt).
    ConnectRequested,
    /// The transport finished dialing and the duplex channel is open.
    TransportOpened,
    /// The dial failed (DNS/TCP/TLS), surfaced as a network error.
    DialFailed,
    /// The server accepted the identification handshake.
    AuthSucceeded,
    /// The server rejected the identification handshake.
    AuthFailed,
    /// The transport closed or a heartbeat timeout fired.
    TransportClosed,
    /// Explicit shutdown of the agent.
    Shutdown,
}

impl ConnectionState {
    /// States in which a send may be attempted.
    pub open spec fn spec_sendable(self) -> bool {
        self == ConnectionState::Connected || self == ConnectionState::Authenticated
    }

    /// Returns whether sends may be attempted in this state.
    pub fn is_sendable(self) -> (r: bool)
        ensures
            r == self.spec_sendable(),
    {
        match self {
            ConnectionState::Connected => true,
            ConnectionState::Authenticated => true,
            _ => false,
        }
    }
}

/// The lifecycle edges. A pair `(pre, post)` with `pre != post` is a
/// transition; it is allowed exactly when this predicate holds. Staying in
/// place (`pre == post`) is no transition and always allowed.
pub open spec fn allowed_edge(pre: ConnectionState, post: ConnectionState) -> bool {
    ||| pre == post
    ||| (pre == ConnectionState::Disconnected && post == ConnectionState::Connecting)
    ||| (pre == ConnectionState::Connecting && post == ConnectionState::Connected)
    ||| (pre == ConnectionState::Connecting && post == ConnectionState::Disconnected)
    ||| (pre == ConnectionState::Connected && post == ConnectionState::Authenticated)
    ||| (pre == ConnectionState::Connected && post == ConnectionState::Disconnected)
    ||| (pre == ConnectionState::Connected && post == ConnectionState::Reconnecting)
    ||| (pre == ConnectionState::Authenticated && post == ConnectionState::Reconnecting)
    ||| (pre == ConnectionState::Reconnecting && post == ConnectionState::Connecting)
    ||| (pre != ConnectionState::Closed && post == ConnectionState::Closed)
}

/// The successor state for each state/event pair. Events that do not apply
/// in a state leave it unchanged; `Closed` is terminal.
pub open spec fn spec_step(s: ConnectionState, e: ConnectionEvent) -> ConnectionState {
    if s == ConnectionState::Closed {
        ConnectionState::Closed
    } else if e == ConnectionEvent::Shutdown {
        ConnectionState::Closed
    } else {
        match (s, e) {
            (ConnectionState::Disconnected, ConnectionEvent::ConnectRequested)
                => ConnectionState::Connecting,
            (ConnectionState::Reconnecting, ConnectionEvent::ConnectRequested)
                => ConnectionState::Connecting,
            (ConnectionState::Connecting, ConnectionEvent::TransportOpened)
                => ConnectionState::Connected,
            (ConnectionState::Connecting, ConnectionEvent::DialFailed)
                => ConnectionState::Disconnected,
            (ConnectionState::Connected, ConnectionEvent::AuthSucceeded)
                => ConnectionState::Authenticated,
            (ConnectionState::Connected, ConnectionEvent::AuthFailed)
                => ConnectionState::Disconnected,
            (ConnectionState::Connected, ConnectionEvent::TransportClosed)
                => ConnectionState::Reconnecting,
            (ConnectionState::Authenticated, ConnectionEvent::TransportClosed)
                => ConnectionState::Reconnecting,
            _ => s,
        }
    }
}

/// Advance the connection state by one event.
pub fn step(s: ConnectionState, e: ConnectionEvent) -> (r: ConnectionState)
    ensures
        r == spec_step(s, e),
        allowed_edge(s, r),
{
    if matches!(s, ConnectionState::Closed) {
        ConnectionState::Closed
    } else if matches!(e, ConnectionEvent::Shutdown) {
        ConnectionState::Closed
    } else {
        match (s, e) {
            (ConnectionState::Disconnected, ConnectionEvent::ConnectRequested)
                => ConnectionState::Connecting,
            (ConnectionState::Reconnecting, ConnectionEvent::ConnectRequested)
                => ConnectionState::Connecting,
            (ConnectionState::Connecting, ConnectionEvent::TransportOpened)
                => ConnectionState::Connected,
            (ConnectionState::Connecting, ConnectionEvent::DialFailed)
                => ConnectionState::Disconnected,
            (ConnectionState::Connected, ConnectionEvent::AuthSucceeded)
                => ConnectionState::Authenticated,
            (ConnectionState::Connected, ConnectionEvent::AuthFailed)
                => ConnectionState::Disconnected,
            (ConnectionState::Connected, ConnectionEvent::TransportClosed)
                => ConnectionState::Reconnecting,
            (ConnectionState::Authenticated, ConnectionEvent::TransportClosed)
                => ConnectionState::Reconnecting,
            _ => s,
        }
    }
}

/// The state reached from `s0` after the whole event sequence.
pub open spec fn run(s0: ConnectionState, events: Seq<ConnectionEvent>) -> ConnectionState
    decreases events.len(),
{
    if events.len() == 0 {
        s0
    } else {
        spec_step(run(s0, events.drop_last()), events.last())
    }
}

/// Each single step follows an allowed lifecycle edge.
pub proof fn lemma_step_follows_edges(s: ConnectionState, e: ConnectionEvent)
    ensures
        allowed_edge(s, spec_step(s, e)),
{
}

/// For every sequence of connection events, every consecutive pair of
/// states along the run follows an allowed lifecycle edge.
pub proof fn lemma_run_follows_edges(
    s0: ConnectionState,
    events: Seq<ConnectionEvent>,
    i: int,
)
    requires
        0 <= i < events.len(),
    ensures
        allowed_edge(run(s0, events.take(i)), run(s0, events.take(i + 1))),
{
    assert(events.take(i + 1).drop_last() =~= events.take(i));
    assert(run(s0, events.take(i + 1)) == spec_step(run(s0, events.take(i)), events[i]));
}

/// `Connected` is entered only from `Connecting`: no run reaches it while
/// skipping the connecting phase.
pub proof fn lemma_connected_only_from_connecting(pre: ConnectionState)
    ensures
        allowed_edge(pre, ConnectionState::Connected) && pre != ConnectionState::Connected
            ==> pre == ConnectionState::Connecting,
{
}

/// Along any run, `Connected` is never entered while skipping the
/// connecting phase.
pub proof fn lemma_no_skip_to_connected(
    s0: ConnectionState,
    events: Seq<ConnectionEvent>,
    i: int,
)
    requires
        0 <= i < events.len(),
        run(s0, events.take(i)) != ConnectionState::Connected,
        run(s0, events.take(i + 1)) == ConnectionState::Connected,
    ensures
        run(s0, events.take(i)) == ConnectionState::Connecting,
{
    lemma_run_follows_edges(s0, events, i);
}

/// `Closed` is terminal: no event leaves it.
pub proof fn lemma_closed_terminal(e: ConnectionEvent)
    ensures
        spec_step(ConnectionState::Closed, e) == ConnectionState::Closed,
{
}

} // verus!
