//! Platform capability decisions.
//!
//! The platform queries themselves (window managers, idle counters, TTY
//! access times) live outside; this module holds the decisions applied to
//! whatever they returned: assembling the active-window record with its
//! fallbacks, turning raw idle measurements into one idle time, and the
//! idleness test itself.

use vstd::prelude::*;
use vstd::string::StringExecFns;

verus! {

/// Platform-independent active window information.
#[derive(Clone, Debug)]
pub struct ActiveWindow {
    /// The window's title; empty when the platform gave none.
    pub title: String,
    /// The owning application's name; `Unknown` when the platform gave
    /// none.
    pub app_name: String,
    /// The owning process, when the platform could name it.
    pub process_id: Option<u32>,
}

/// Assembles the active-window record from what the platform query
/// returned. No window means no record; a missing title becomes empty; a
/// missing process name becomes `Unknown`.
pub fn get_active_window(
    window_found: bool,
    title: Option<String>,
    process_id: Option<u32>,
    process_name: Option<String>,
) -> (r: Option<ActiveWindow>)
    ensures
        match r {
            Some(w) => {
                &&& window_found
                &&& (match title {
                    Some(t) => w.title == t,
                    None => w.title@ == Seq::<char>::empty(),
                })
                &&& (match process_name {
                    Some(n) => w.app_name == n,
                    None => w.app_name@ == "Unknown"@,
                })
                &&& w.process_id == process_id
            },
            None => !window_found,
        },
{
    if !window_found {
        return None;
    }
    let t = match title {
        Some(t) => t,
        None => String::new(),
    };
    let app = match process_name {
        Some(n) => n,
        None => "Unknown".to_owned(),
    };
    Some(ActiveWindow { title: t, app_name: app, process_id })
}

/// The least of the samples; the type's largest value when there is none.
pub open spec fn spec_min_sample(s: Seq<u64>) -> u64
    decreases s.len(),
{
    if s.len() == 0 {
        u64::MAX
    } else if s.last() < spec_min_sample(s.drop_last()) {
        s.last()
    } else {
        spec_min_sample(s.drop_last())
    }
}

/// The system idle time in seconds, decided from the raw measurements: a
/// millisecond counter wins, rounded down to seconds; otherwise the
/// smallest TTY idle time; otherwise zero.
pub fn get_idle_time(idle_millis: Option<u64>, tty_idle_seconds: &Vec<u64>) -> (r: u64)
    ensures
        match idle_millis {
            Some(ms) => r == ms / 1000,
            None => {
                if spec_min_sample(tty_idle_seconds@) == u64::MAX {
                    r == 0
                } else {
                    r == spec_min_sample(tty_idle_seconds@)
                }
            },
        },
{
    if let Some(ms) = idle_millis {
        return ms / 1000;
    }
    let n = tty_idle_seconds.len();
    let mut min_idle: u64 = u64::MAX;
    let mut i: usize = 0;
    while i < n
        invariant
            i <= n,
            n == tty_idle_seconds@.len(),
            min_idle == spec_min_sample(tty_idle_seconds@.take(i as int)),
        decreases n - i,
    {
        let sample = tty_idle_seconds[i];
        if sample < min_idle {
            min_idle = sample;
        }
        proof {
            assert(tty_idle_seconds@.take(i + 1).drop_last() =~= tty_idle_seconds@.take(i as int));
        }
        i += 1;
    }
    proof {
        assert(tty_idle_seconds@.take(n as int) =~= tty_idle_seconds@);
    }
    if min_idle != u64::MAX {
        min_idle
    } else {
        0
    }
}

/// Whether the system counts as idle: the measured idle time has reached
/// the threshold.
pub fn is_system_idle(idle_seconds: u64, threshold_seconds: u64) -> (r: bool)
    ensures
        r == (idle_seconds >= threshold_seconds),
{
    idle_seconds >= threshold_seconds
}

} // verus!
