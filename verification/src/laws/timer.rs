//! Laws of scheduled cleanups.
use vstd::prelude::*;
use crate::command::{COMMAND_SECONDS, POLL_MILLISECONDS};
use crate::laws::changes::nearest_minutes;
use crate::settings::Settings;
use crate::timer::{plan_wait, timer_fires, TimerWait};
use crate::update::UPDATE_CHECK_SECONDS;
use crate::volume::VOLUME_FLUSH_SECONDS;
use crate::window::SHOW_EVENT_MILLISECONDS;

verus! {

/// The schedule waits as many times sixty seconds as the nearest interval has minutes, and then a
/// cleanup is due; without an interval it waits half a minute, and none is.
pub proof fn law_schedule_waits_for_the_interval(minutes: u32, wait: TimerWait)
    requires
        call_ensures(plan_wait, (minutes,), wait),
    ensures
        wait.due <==> minutes > 0,
        minutes > 0 ==> wait.seconds == nearest_minutes(minutes as int) * 60,
        minutes == 0 ==> wait.seconds == 30,
{
}

/// A cleanup starts after a wait exactly when one is due and the settings ask for scheduled cleanups,
/// whatever the other settings are.
pub proof fn law_due_cleanups_start_where_asked_for(
    minutes: u32,
    wait: TimerWait,
    settings: Settings,
    fires: bool,
)
    requires
        call_ensures(plan_wait, (minutes,), wait),
        call_ensures(timer_fires, (wait, &settings), fires),
    ensures
        fires <==> minutes > 0 && settings.auto_clean,
{
}

/// A command has twenty seconds and is looked at twenty times in each of them; a volume has a quarter of
/// that time. Another start is listened for five times in a second, and an update looked for every
/// hour.
pub proof fn law_waiting_times()
    ensures
        COMMAND_SECONDS == 20,
        POLL_MILLISECONDS * 20 == 1000,
        VOLUME_FLUSH_SECONDS * 4 == COMMAND_SECONDS,
        SHOW_EVENT_MILLISECONDS * 5 == 1000,
        UPDATE_CHECK_SECONDS == 60 * 60,
{
}

} // verus!
