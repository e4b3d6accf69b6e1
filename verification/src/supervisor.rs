//! Reconnect supervisor.
//!
//! A fixed-period liveness check against the connection state: while the
//! agent is supposed to be running and the connection is not open, the
//! supervisor asks for another connect attempt. It never restarts the
//! monitoring services — re-establishing and re-authenticating the
//! transport is its whole job; the authenticated transition takes care of
//! the services, idempotently. The check interval is configuration, so a
//! backoff policy can be put behind it without changing this contract.

use vstd::prelude::*;

use crate::state::ConnectionState;

verus! {

/// What one liveness check decided.
#[derive(Clone, Copy, Debug, PartialEq, Eq, Structural)]
pub enum SupervisorAction {
    /// Invoke `connect()` again.
    AttemptReconnect,
    /// The connection is healthy, or the agent is done: wait for the next
    /// check.
    Wait,
}

/// The reconnect supervisor and its check period.
pub struct ReconnectSupervisor {
    /// Milliseconds between liveness checks.
    pub check_interval: u64,
}

/// Whether a liveness check in this state must ask for a reconnect: the
/// agent still runs, the lifecycle is not over, and the connection is not
/// open.
pub open spec fn spec_wants_reconnect(state: ConnectionState, agent_running: bool) -> bool {
    agent_running && state != ConnectionState::Closed && !state.spec_sendable()
}

impl ReconnectSupervisor {
    /// A supervisor checking with the given period.
    pub fn new(check_interval: u64) -> (r: ReconnectSupervisor)
        ensures
            r.check_interval == check_interval,
    {
        ReconnectSupervisor { check_interval }
    }

    /// One liveness check: decide whether to invoke `connect()` again.
    /// Repeated failures keep yielding the same decision — the supervisor
    /// retries for as long as the agent runs, and never gives up on a
    /// network error.
    pub fn poll(&self, state: ConnectionState, agent_running: bool) -> (r: SupervisorAction)
        ensures
            r == SupervisorAction::AttemptReconnect
                <==> spec_wants_reconnect(state, agent_running),
    {
        if agent_running && !matches!(state, ConnectionState::Closed) && !state.is_sendable() {
            SupervisorAction::AttemptReconnect
        } else {
            SupervisorAction::Wait
        }
    }
}

} // verus!
