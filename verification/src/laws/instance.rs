//! Laws of instances.
use vstd::prelude::*;
use crate::instance::{start_instance, InstanceReply, InstanceStage};

verus! {

/// Whether the program ends with a code, after a word in the log or without one.
pub open spec fn ends_with(stage: InstanceStage, code: i32, log: Option<Seq<char>>) -> bool {
    stage matches InstanceStage::Exit { code: c, log: l } && c == code && log == match l {
        Some(text) => Some(text@),
        None => None,
    }
}

/// The mutex decides: without one the program ends with an error, with that of another instance it
/// turns to that instance, and with its own it goes on, whatever else the last error says.
pub proof fn law_mutex_decides(
    stage: InstanceStage,
    is_null: bool,
    last_error: u32,
    next: InstanceStage,
)
    requires
        stage is CreateMutex,
        call_ensures(start_instance, (stage, InstanceReply::Handle { is_null, last_error }), next),
    ensures
        is_null ==> ends_with(next, 1, Some("failed to create RAMOpt instance mutex"@)),
        !is_null && last_error == 183 ==> next is SignalOther,
        !is_null && last_error != 183 ==> next is CreateEvent,
{
}

/// Once the other instance was told, the program ends well and without a word.
pub proof fn law_told_instance_ends_the_start(stage: InstanceStage, next: InstanceStage)
    requires
        stage is SignalOther,
        call_ensures(start_instance, (stage, InstanceReply::Signalled), next),
    ensures
        ends_with(next, 0, None),
{
}

/// The program runs exactly when the event could be made, also where there was one already.
pub proof fn law_event_decides(
    stage: InstanceStage,
    is_null: bool,
    last_error: u32,
    next: InstanceStage,
)
    requires
        stage is CreateEvent,
        call_ensures(start_instance, (stage, InstanceReply::Handle { is_null, last_error }), next),
    ensures
        !is_null <==> next is Run,
        is_null ==> ends_with(next, 1, Some("failed to create RAMOpt show event"@)),
{
}

/// The program ends well exactly when it ran well; otherwise the log tells the error.
pub proof fn law_run_decides_the_code(
    stage: InstanceStage,
    result: Result<(), String>,
    next: InstanceStage,
)
    requires
        stage is Run,
        call_ensures(start_instance, (stage, InstanceReply::Ran(result)), next),
    ensures
        result is Ok ==> ends_with(next, 0, None),
        result matches Err(error) ==> ends_with(next, 1, Some("RAMOpt stopped: "@ + error@)),
{
}

/// A reply that does not belong to the step, or that comes after the end, changes nothing.
pub proof fn law_other_replies_do_not_move_the_start(
    stage: InstanceStage,
    reply: InstanceReply,
    next: InstanceStage,
)
    requires
        stage is CreateMutex || stage is CreateEvent ==> !(reply is Handle),
        stage is SignalOther ==> !(reply is Signalled),
        stage is Run ==> !(reply is Ran),
        call_ensures(start_instance, (stage, reply), next),
    ensures
        next@ == stage@,
{
}

} // verus!
