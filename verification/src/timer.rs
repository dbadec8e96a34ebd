//! Scheduled cleanups: how long the program waits for the next one, and whether it then runs.
use vstd::prelude::*;
use crate::settings::{clamp_interval, clamped, Settings, MAX_INTERVAL, MIN_INTERVAL};

verus! {

/// How many seconds the program waits where no interval is set.
pub const UNSET_WAIT_SECONDS: u64 = 30;

/// What the schedule does next.
#[derive(Debug, Clone, Copy, PartialEq, Eq, Structural)]
pub struct TimerWait {
    /// How long it waits, in seconds.
    pub seconds: u64,
    /// Whether a cleanup is due afterwards.
    pub due: bool,
}

/// What the schedule does with an interval. Without one it only looks again a little later.
pub open spec fn timer_wait(minutes: u32) -> TimerWait {
    if minutes == 0 {
        TimerWait { seconds: UNSET_WAIT_SECONDS, due: false }
    } else {
        TimerWait { seconds: (clamped(minutes as int) * 60) as u64, due: true }
    }
}

/// Decides what the schedule does with an interval.
pub fn plan_wait(minutes: u32) -> (wait: TimerWait)
    ensures
        wait == timer_wait(minutes),
{
    if minutes == 0 {
        TimerWait { seconds: UNSET_WAIT_SECONDS, due: false }
    } else {
        TimerWait { seconds: clamp_interval(minutes) as u64 * 60, due: true }
    }
}

/// Whether a cleanup starts after the wait: one is due, and the settings of that moment ask for
/// scheduled cleanups.
pub fn timer_fires(wait: TimerWait, settings: &Settings) -> (fires: bool)
    ensures
        fires == (wait.due && settings@.auto_clean),
{
    wait.due && settings.auto_clean
}

/// A cleanup is due no sooner than a minute and no later than a day after the wait began; for an
/// interval that the program offers, exactly when it is over.
pub proof fn law_cleanups_keep_the_interval(minutes: u32)
    requires
        minutes > 0,
    ensures
        timer_wait(minutes).due,
        60 <= timer_wait(minutes).seconds <= 86400,
        MIN_INTERVAL <= minutes <= MAX_INTERVAL ==> timer_wait(minutes).seconds == minutes * 60,
{
}

} // verus!
