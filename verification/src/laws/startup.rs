//! Laws of the start at sign-in.
use vstd::prelude::*;
use crate::laws::native::is_error;
use crate::startup::{set_startup, StartupReply, StartupStage};

verus! {

/// An opened key leads to the path of the program where the start is turned on, and to the deletion of
/// the value where it is turned off.
pub proof fn law_opened_key_leads_on(enabled: bool, stage: StartupStage, next: StartupStage)
    requires
        stage is OpenKey,
        call_ensures(set_startup, (enabled, stage, StartupReply::Done), next),
    ensures
        enabled <==> next is FindProgram,
        !enabled <==> next is DeleteValue,
{
}

/// The value is the path of the program, whatever that is, between two quotes.
pub proof fn law_value_is_the_path_in_quotes(
    enabled: bool,
    stage: StartupStage,
    path: String,
    next: StartupStage,
)
    requires
        stage is FindProgram,
        call_ensures(set_startup, (enabled, stage, StartupReply::Program(path)), next),
    ensures
        next matches StartupStage::SetValue(value) && value@ == seq!['"'] + path@ + seq!['"'],
{
    reveal_strlit("\"");
    assert("\""@ =~= seq!['"']);
}

/// A value that could be set or deleted is the end, and a success.
pub proof fn law_done_value_is_the_end(enabled: bool, stage: StartupStage, next: StartupStage)
    requires
        stage is SetValue || stage is DeleteValue,
        call_ensures(set_startup, (enabled, stage, StartupReply::Done), next),
    ensures
        next matches StartupStage::Finished(Ok(())),
{
}

/// Any failure is the end, with its error, except that of deleting a value that is not there: that is
/// a success.
pub proof fn law_failures_end_the_change(
    enabled: bool,
    stage: StartupStage,
    error: String,
    code: Option<i32>,
    next: StartupStage,
)
    requires
        !(stage is Finished),
        call_ensures(set_startup, (enabled, stage, StartupReply::Failed { error, code }), next),
    ensures
        next is Finished,
        next->Finished_0 is Ok <==> stage is DeleteValue && code == Some(2i32),
        next->Finished_0 is Err ==> is_error(next->Finished_0, error@),
{
}

/// A reply that does not belong to the step, or that comes after the end, changes nothing.
pub proof fn law_other_replies_do_not_move_the_change(
    enabled: bool,
    stage: StartupStage,
    reply: StartupReply,
    next: StartupStage,
)
    requires
        stage is OpenKey || stage is SetValue || stage is DeleteValue ==> reply is Program,
        stage is FindProgram ==> reply is Done,
        call_ensures(set_startup, (enabled, stage, reply), next),
    ensures
        next@ == stage@,
{
}

} // verus!
