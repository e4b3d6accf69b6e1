//! Transport and event-coordination core of a monitoring agent.
//!
//! The crate models the session lifecycle of one persistent, authenticated
//! connection to a server: the connection state machine, the inbound event
//! registry with fan-out dispatch, the buffered outbound telemetry channel,
//! the reconnect supervisor, and the command/response correlator. All
//! platform work (network, timers, OS queries) happens outside; the library
//! receives plain values and decides.

pub mod activity;
pub mod clipboard;
pub mod command;
pub mod config;
pub mod errors;
pub mod inbound;
pub mod keystroke;
pub mod password;
pub mod platform;
pub mod registry;
pub mod session;
pub mod state;
pub mod supervisor;
pub mod system_info;
pub mod telemetry;
pub mod text;
