//! The scheduler's decisions.
//!
//! A background loop wakes once per fixed interval and asks
//! [`tick_decision`] whether to dispatch a sync; the answer turns on
//! the auto-sync flag as read at that moment, so a toggle
//! mid-interval takes effect on the next tick.  Exactly one startup sync runs
//! unconditionally.  A failed cycle is not retried before the next
//! tick.

use vstd::prelude::*;

verus! {

/// Fixed interval between scheduled background ticks, in seconds.
pub const SYNC_INTERVAL_SECS: u64 = 3600;

/// What the scheduler decides at a wake-up: dispatch one sync cycle
/// with the apply-all flag as read at that moment, or skip until the
/// next tick.
#[derive(PartialEq, Eq, Structural, Clone, Copy, Debug)]
pub enum TickDecision {
    Run { apply_all: bool },
    Skip,
}

/// The decision at a scheduled tick: run exactly when the auto-sync
/// flag is set at that moment, with the apply-all flag as read at
/// that moment.
pub fn tick_decision(auto_enabled: bool, apply_all: bool) -> (d: TickDecision)
    ensures
        auto_enabled ==> d == (TickDecision::Run { apply_all }),
        !auto_enabled ==> d == TickDecision::Skip,
{
    if auto_enabled {
        TickDecision::Run { apply_all }
    } else {
        TickDecision::Skip
    }
}

/// The decision at process startup: one sync always runs, whatever
/// the auto-sync flag says, with the apply-all flag as loaded.
pub fn startup_decision(apply_all: bool) -> (d: TickDecision)
    ensures
        d == (TickDecision::Run { apply_all }),
{
    TickDecision::Run { apply_all }
}

} // verus!
