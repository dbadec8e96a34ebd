//! Laws of updates.
use vstd::prelude::*;
use crate::cleanup::SingleFlight;
use crate::command::CommandOutput;
use crate::laws::native::is_error;
use crate::text::trim;
use crate::update::{
    begin_update, check_update, latest_release_version, release_name, start_update, update_answer,
    updater_argument, UpdateCheck, UpdateMenu, UpdateReply, UpdateStage,
};
use crate::version::version_is_newer;

verus! {

/// A release is offered, under its name, exactly when it is newer, whatever was on offer before; any
/// other release takes the offer back, and nothing is logged.
pub proof fn law_newer_releases_are_offered(
    available: bool,
    name: String,
    tag: &str,
    newer: bool,
    check: UpdateCheck,
)
    requires
        tag@ == name@,
        call_ensures(version_is_newer, (tag,), newer),
        call_ensures(check_update, (available, Ok(name)), check),
    ensures
        check.available <==> newer,
        check.version is Some <==> newer,
        check.version matches Some(version) ==> version@ == name@,
        check.log is None,
{
}

/// A look that failed leaves the offer as it was, and the log tells the error.
pub proof fn law_failed_looks_are_logged(available: bool, error: String, check: UpdateCheck)
    requires
        call_ensures(check_update, (available, Err(error)), check),
    ensures
        check.available == available,
        check.version is None,
        check.log matches Some(text) && text@ == "Update check failed: "@ + error@,
{
}

/// What a script wrote is taken without the white space around it: as the name of the release where
/// the script ended well, and as the error otherwise.
pub proof fn law_release_names_are_trimmed(
    success: bool,
    written: &str,
    rest: &str,
    latest: Result<String, String>,
)
    requires
        call_ensures(trim, (written,), rest),
        call_ensures(release_name, (success, written), latest),
    ensures
        success <==> latest is Ok,
        latest matches Ok(name) ==> name@ == rest@,
        latest matches Err(error) ==> error@ == rest@,
{
}

/// A script that could not be run is its error; one that was run is what it wrote, to its output where
/// it ended well and to its errors otherwise.
pub proof fn law_outputs_tell_the_release(
    output: Result<CommandOutput, String>,
    written: &str,
    named: Result<String, String>,
    latest: Result<String, String>,
)
    requires
        output matches Ok(done) ==> written@ == crate::command::lossy_utf8(
            if done.success {
                done.stdout@
            } else {
                done.stderr@
            },
        ),
        output matches Ok(done) ==> call_ensures(release_name, (done.success, written), named),
        call_ensures(latest_release_version, (output,), latest),
    ensures
        output matches Err(error) ==> is_error(latest, error@),
        output is Ok ==> (latest is Ok <==> named is Ok),
        output is Ok && named is Ok ==> (latest->Ok_0)@ == (named->Ok_0)@,
        output is Ok && named is Err ==> (latest->Err_0)@ == (named->Err_0)@,
{
}

/// The entry is inserted exactly when there is an update and the menu lacks it, and then it is there.
pub proof fn law_entry_comes_with_the_update(menu: &mut UpdateMenu, available: bool, insert: bool)
    requires
        call_ensures(UpdateMenu::tick, (menu, available), insert),
    ensures
        insert <==> available && !old(menu).inserted,
        final(menu).inserted <==> available || old(menu).inserted,
{
}

/// An update begins with the updater, unless one is starting already: then it is refused.
pub proof fn law_updates_begin_with_the_updater(gate: &mut SingleFlight, stage: UpdateStage)
    requires
        call_ensures(begin_update, (gate,), stage),
    ensures
        final(gate).running,
        !old(gate).running <==> stage is FindUpdater,
        old(gate).running ==> stage is Finished && is_error(
            stage->Finished_0,
            "Update is already starting."@,
        ),
{
}

/// An updater that is there is launched. One that is not ends the attempt, with an error that names
/// it, and another attempt can be made.
pub proof fn law_found_updaters_are_launched(
    gate: &mut SingleFlight,
    path: &str,
    stage: UpdateStage,
    found: bool,
    next: UpdateStage,
)
    requires
        stage is FindUpdater,
        call_ensures(start_update, (gate, path, stage, UpdateReply::Updater { found }), next),
    ensures
        found <==> next is Launch,
        found ==> final(gate).running == old(gate).running,
        !found ==> next is Finished && is_error(
            next->Finished_0,
            "Updater not found: "@ + path@,
        ),
        !found ==> !final(gate).running,
{
}

/// What came of the launch is what comes of the update; after a failure another attempt can be made.
pub proof fn law_launch_decides(
    gate: &mut SingleFlight,
    path: &str,
    stage: UpdateStage,
    result: Result<(), String>,
    next: UpdateStage,
)
    requires
        stage is Launch,
        call_ensures(start_update, (gate, path, stage, UpdateReply::Launched(result)), next),
    ensures
        next is Finished,
        next->Finished_0 is Ok <==> result is Ok,
        result matches Err(error) ==> is_error(next->Finished_0, error@),
        final(gate).running <==> old(gate).running && result is Ok,
{
}

/// A reply that does not belong to the step, or that comes after the end, changes nothing.
pub proof fn law_other_replies_do_not_move_the_update(
    gate: &mut SingleFlight,
    path: &str,
    stage: UpdateStage,
    reply: UpdateReply,
    next: UpdateStage,
)
    requires
        stage is FindUpdater ==> reply is Launched,
        stage is Launch ==> reply is Updater,
        call_ensures(start_update, (gate, path, stage, reply), next),
    ensures
        next@ == stage@,
        final(gate).running == old(gate).running,
{
}

/// The path of the updater, whatever it holds, stands between two pairs of quotes.
pub proof fn law_updater_is_quoted_twice(path: &str, argument: String)
    requires
        call_ensures(updater_argument, (path,), argument),
    ensures
        argument@ == "/D /S /C "@ + seq!['"', '"'] + path@ + seq!['"', '"'],
{
    reveal_strlit("/D /S /C \"\"");
    reveal_strlit("/D /S /C ");
    reveal_strlit("\"\"");
    assert("/D /S /C \"\""@ =~= "/D /S /C "@ + seq!['"', '"']);
    assert("\"\""@ =~= seq!['"', '"']);
}

/// The program ends exactly when the update was started; the window says which, and why not.
pub proof fn law_started_updates_end_the_program(
    result: Result<(), String>,
    answer: (String, bool),
)
    requires
        call_ensures(update_answer, (result,), answer),
    ensures
        answer.1 <==> result is Ok,
        result is Ok ==> answer.0@ == "Downloading update... RAMOpt will restart automatically."@,
        result matches Err(error) ==> answer.0@ == "Update failed to start: "@ + error@,
{
}

} // verus!
