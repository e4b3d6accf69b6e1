//! Session coordinator.
//!
//! Drives the agent's lifecycle decisions: which action the surrounding
//! runtime must perform for each connection event. The coordinator owns the
//! connection state and the services flag; the runtime performs the actions
//! (dialing, sending the identification payload, starting or stopping the
//! monitoring services) and feeds the resulting events back in.
//!
//! Services are started exactly once per agent run: reaching
//! `Authenticated` starts them if they are not running, and a later
//! re-authentication after a reconnect leaves them untouched.

use vstd::prelude::*;

use crate::state::ConnectionEvent;
use crate::state::ConnectionState;
use crate::state::spec_step;
use crate::state::step;

verus! {

/// An action the surrounding runtime must perform in response to an event.
#[derive(Clone, Copy, Debug, PartialEq, Eq, Structural)]
pub enum SessionAction {
    /// Open the transport to the configured server address.
    Dial,
    /// Send the identification payload and await the handshake verdict.
    SendIdentification,
    /// Start all monitoring services.
    StartServices,
    /// Stop all monitoring services (each performs its final drain).
    StopServices,
    /// Tear down the transport.
    Disconnect,
}

/// The lifecycle decisions of one agent run.
pub struct SessionCore {
    /// Current connection lifecycle phase.
    pub state: ConnectionState,
    /// Whether the monitoring services have been started and not stopped.
    pub services_running: bool,
}

/// The services flag after handling one event: services start on the
/// transition into `Authenticated` and stop only on shutdown.
pub open spec fn spec_services_after(s: SessionCore, e: ConnectionEvent) -> bool {
    if s.state == ConnectionState::Closed {
        s.services_running
    } else if e == ConnectionEvent::Shutdown {
        false
    } else if s.state == ConnectionState::Connected && e == ConnectionEvent::AuthSucceeded {
        true
    } else {
        s.services_running
    }
}

/// The actions owed to the runtime for one event.
pub open spec fn spec_actions(s: SessionCore, e: ConnectionEvent) -> Seq<SessionAction> {
    if s.state == ConnectionState::Closed {
        seq![]
    } else if e == ConnectionEvent::Shutdown {
        if s.services_running {
            seq![SessionAction::StopServices, SessionAction::Disconnect]
        } else {
            seq![SessionAction::Disconnect]
        }
    } else {
        match (s.state, e) {
            (ConnectionState::Disconnected, ConnectionEvent::ConnectRequested)
                => seq![SessionAction::Dial],
            (ConnectionState::Reconnecting, ConnectionEvent::ConnectRequested)
                => seq![SessionAction::Dial],
            (ConnectionState::Connecting, ConnectionEvent::TransportOpened)
                => seq![SessionAction::SendIdentification],
            (ConnectionState::Connected, ConnectionEvent::AuthSucceeded)
                => if s.services_running {
                    seq![]
                } else {
                    seq![SessionAction::StartServices]
                },
            _ => seq![],
        }
    }
}

impl SessionCore {
    /// A freshly started agent: disconnected, no services running.
    pub fn new() -> (r: SessionCore)
        ensures
            r.state == ConnectionState::Disconnected,
            !r.services_running,
    {
        SessionCore { state: ConnectionState::Disconnected, services_running: false }
    }

    /// Whether sends may currently be attempted.
    pub fn is_connected(&self) -> (r: bool)
        ensures
            r == self.state.spec_sendable(),
    {
        self.state.is_sendable()
    }

    /// Handle one connection event: advance the lifecycle state along its
    /// allowed edges and return the actions the runtime must perform, in
    /// order.
    pub fn handle(&mut self, e: ConnectionEvent) -> (actions: Vec<SessionAction>)
        ensures
            final(self).state == spec_step(old(self).state, e),
            final(self).services_running == spec_services_after(*old(self), e),
            actions@ == spec_actions(*old(self), e),
    {
        let mut actions: Vec<SessionAction> = Vec::new();
        if matches!(self.state, ConnectionState::Closed) {
            return actions;
        }
        if matches!(e, ConnectionEvent::Shutdown) {
            if self.services_running {
                actions.push(SessionAction::StopServices);
                self.services_running = false;
            }
            actions.push(SessionAction::Disconnect);
            self.state = ConnectionState::Closed;
            return actions;
        }
        match (self.state, e) {
            (ConnectionState::Disconnected, ConnectionEvent::ConnectRequested)
            | (ConnectionState::Reconnecting, ConnectionEvent::ConnectRequested) => {
                actions.push(SessionAction::Dial);
            },
            (ConnectionState::Connecting, ConnectionEvent::TransportOpened) => {
                actions.push(SessionAction::SendIdentification);
            },
            (ConnectionState::Connected, ConnectionEvent::AuthSucceeded) => {
                if !self.services_running {
                    actions.push(SessionAction::StartServices);
                    self.services_running = true;
                }
            },
            _ => {},
        }
        self.state = step(self.state, e);
        actions
    }
}

/// The coordinator state after a whole sequence of events.
pub open spec fn session_run(s: SessionCore, events: Seq<ConnectionEvent>) -> SessionCore
    decreases events.len(),
{
    if events.len() == 0 {
        s
    } else {
        let prev = session_run(s, events.drop_last());
        SessionCore {
            state: spec_step(prev.state, events.last()),
            services_running: spec_services_after(prev, events.last()),
        }
    }
}

/// All actions owed over a whole sequence of events, in order.
pub open spec fn session_run_actions(
    s: SessionCore,
    events: Seq<ConnectionEvent>,
) -> Seq<SessionAction>
    decreases events.len(),
{
    if events.len() == 0 {
        seq![]
    } else {
        session_run_actions(s, events.drop_last())
            + spec_actions(session_run(s, events.drop_last()), events.last())
    }
}

/// How many of the owed actions start the services.
pub open spec fn count_starts(actions: Seq<SessionAction>) -> nat {
    actions.filter(|a: SessionAction| a == SessionAction::StartServices).len()
}

/// A single event starts the services only when they are not running.
pub proof fn lemma_no_restart_while_running(s: SessionCore, e: ConnectionEvent)
    requires
        s.services_running,
    ensures
        !spec_actions(s, e).contains(SessionAction::StartServices),
{
    let acts = spec_actions(s, e);
    assert forall|i: int| 0 <= i < acts.len() implies acts[i] != SessionAction::StartServices by {
    }
}

/// While the agent is not shut down, a whole run of events starts the
/// services at most once; if they are already running it never starts
/// them again. In particular, a connection drop followed by a successful
/// reconnect and re-authentication does not start them a second time.
pub proof fn lemma_services_started_at_most_once(s: SessionCore, events: Seq<ConnectionEvent>)
    requires
        forall|i: int| 0 <= i < events.len() ==> events[i] != ConnectionEvent::Shutdown,
    ensures
        s.services_running ==> count_starts(session_run_actions(s, events)) == 0
            && session_run(s, events).services_running,
        count_starts(session_run_actions(s, events)) <= 1,
        count_starts(session_run_actions(s, events)) == 1
            ==> session_run(s, events).services_running,
    decreases events.len(),
{
    if events.len() == 0 {
        reveal_with_fuel(Seq::filter, 2);
    } else {
        let head = events.drop_last();
        let e = events.last();
        let prev = session_run(s, head);
        lemma_services_started_at_most_once(s, head);
        let step_acts = spec_actions(prev, e);
        Seq::<SessionAction>::filter_distributes_over_add(
            session_run_actions(s, head),
            step_acts,
            |a: SessionAction| a == SessionAction::StartServices,
        );
        lemma_count_starts_of_step(prev, e);
        if prev.services_running {
            lemma_no_restart_while_running(prev, e);
            lemma_count_zero_when_absent(step_acts);
        }
    }
}

/// One event owes at most one start, and a start keeps the flag set.
proof fn lemma_count_starts_of_step(s: SessionCore, e: ConnectionEvent)
    requires
        e != ConnectionEvent::Shutdown,
    ensures
        count_starts(spec_actions(s, e)) <= 1,
        count_starts(spec_actions(s, e)) == 1 ==> spec_services_after(s, e),
        s.services_running ==> spec_services_after(s, e),
{
    reveal_with_fuel(Seq::filter, 3);
}

/// A sequence without the start action counts no starts.
proof fn lemma_count_zero_when_absent(actions: Seq<SessionAction>)
    requires
        !actions.contains(SessionAction::StartServices),
    ensures
        count_starts(actions) == 0,
    decreases actions.len(),
{
    reveal_with_fuel(Seq::filter, 2);
    if actions.len() > 0 {
        assert(!actions.drop_last().contains(SessionAction::StartServices));
        lemma_count_zero_when_absent(actions.drop_last());
    }
}

} // verus!
