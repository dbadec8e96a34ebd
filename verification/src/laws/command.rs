//! Laws of commands.
use vstd::prelude::*;
use crate::command::{wait_for_command, ChildStatus, WaitAction};
use crate::number::decimal;

verus! {

/// A command that has ended is collected, also where it was late; one that still runs is ended exactly
/// when it is out of time, and the reason tells how many seconds it had; one that cannot be looked at
/// is ended for that reason.
pub proof fn law_commands_have_their_time(
    status: ChildStatus,
    out_of_time: bool,
    seconds: u64,
    action: WaitAction,
)
    requires
        call_ensures(wait_for_command, (status, out_of_time, seconds), action),
    ensures
        action is Collect <==> status is Exited,
        action is Sleep <==> status is Running && !out_of_time,
        status is Running && out_of_time ==> (action matches WaitAction::Kill(reason) && reason@
            == "command timed out after "@ + decimal(seconds as nat) + " seconds"@),
        status matches ChildStatus::Unknown(error) ==> (action matches WaitAction::Kill(reason)
            && reason@ == error@),
{
}

} // verus!
