//! The error taxonomy of the core.
//!
//! Network errors are recoverable and end up with the reconnect
//! supervisor; a send outside an open state is dropped by its caller, not
//! retried; capture errors are a producer's to log and skip. None of these
//! is fatal to the agent.

use vstd::prelude::*;
use vstd::string::StringExecFns;

use crate::state::ConnectionState;

verus! {

/// Why establishing the connection failed.
#[derive(Debug)]
pub enum ConnectError {
    /// DNS, TCP or TLS failure; retried by the reconnect supervisor.
    NetworkError(String),
}

impl ConnectError {
    /// The error rendered as text.
    pub fn message(&self) -> (r: String)
        ensures
            match self {
                ConnectError::NetworkError(m) => r@ == "Network error: "@ + m@,
            },
    {
        match self {
            ConnectError::NetworkError(m) => {
                let mut s = "Network error: ".to_owned();
                s.append(m.as_str());
                s
            },
        }
    }
}

/// Why a send was refused.
#[derive(Debug, PartialEq, Eq, Structural)]
pub enum SendError {
    /// The connection is not open; the caller drops the message and must
    /// not treat this as fatal.
    NotConnected,
}

impl SendError {
    /// The error rendered as text.
    pub fn message(&self) -> (r: String)
        ensures
            r@ == "Not connected"@,
    {
        "Not connected".to_owned()
    }
}

/// The guard in front of every send: a send may be attempted exactly in
/// the open states, and outside them the message is dropped with
/// `NotConnected`.
pub fn guard_send(state: ConnectionState) -> (r: Result<(), SendError>)
    ensures
        r is Ok <==> state.spec_sendable(),
        !state.spec_sendable() ==> r == Err::<(), SendError>(SendError::NotConnected),
{
    if state.is_sendable() {
        Ok(())
    } else {
        Err(SendError::NotConnected)
    }
}

/// Why a screen capture cycle failed; the producer logs it and skips the
/// cycle.
#[derive(Debug)]
pub enum CaptureError {
    /// Enumerating the screens failed.
    ScreenList(String),
    /// No screen is available.
    NoScreens,
    /// Capturing the image failed.
    Capture(String),
    /// Converting the image failed.
    Conversion(String),
    /// Encoding the image failed.
    Encoding(String),
    /// Handing the image to the transport failed.
    Send(String),
}

impl CaptureError {
    /// The error rendered as text.
    pub fn message(&self) -> (r: String)
        ensures
            match self {
                CaptureError::ScreenList(m) => r@ == "Failed to list screens: "@ + m@,
                CaptureError::NoScreens => r@ == "No screens available"@,
                CaptureError::Capture(m) => r@ == "Screen capture failed: "@ + m@,
                CaptureError::Conversion(m) => r@ == "Image conversion failed: "@ + m@,
                CaptureError::Encoding(m) => r@ == "Image encoding failed: "@ + m@,
                CaptureError::Send(m) => r@ == "Failed to send: "@ + m@,
            },
    {
        match self {
            CaptureError::ScreenList(m) => {
                let mut s = "Failed to list screens: ".to_owned();
                s.append(m.as_str());
                s
            },
            CaptureError::NoScreens => "No screens available".to_owned(),
            CaptureError::Capture(m) => {
                let mut s = "Screen capture failed: ".to_owned();
                s.append(m.as_str());
                s
            },
            CaptureError::Conversion(m) => {
                let mut s = "Image conversion failed: ".to_owned();
                s.append(m.as_str());
                s
            },
            CaptureError::Encoding(m) => {
                let mut s = "Image encoding failed: ".to_owned();
                s.append(m.as_str());
                s
            },
            CaptureError::Send(m) => {
                let mut s = "Failed to send: ".to_owned();
                s.append(m.as_str());
                s
            },
        }
    }
}

} // verus!
