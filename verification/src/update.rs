//! Updates: how the program learns of one, offers it and starts it.
use vstd::prelude::*;
use crate::cleanup::SingleFlight;
use crate::command::{from_utf8_lossy, lossy_utf8, CommandOutput};
use crate::text::{optional, outcome, trim, trimmed};
use crate::version::{is_newer, version_is_newer};

verus! {

/// How many seconds lie between two looks for an update.
pub const UPDATE_CHECK_SECONDS: u64 = 3600;

/// The script that prints the name of the latest release.
pub fn release_script() -> (script: String)
    ensures
        script@ == "$ErrorActionPreference='Stop'; (Invoke-RestMethod -Headers @{'User-Agent'='RAMOpt'} -Uri '"@
            + "https://api.github.com/repos/thnonl/RAMOpt/releases/latest"@ + "').tag_name"@,
{
    let mut script =
        "$ErrorActionPreference='Stop'; (Invoke-RestMethod -Headers @{'User-Agent'='RAMOpt'} -Uri '".to_owned();
    script.append("https://api.github.com/repos/thnonl/RAMOpt/releases/latest");
    script.append("').tag_name");
    script
}

/// What the script came to: the name of the latest release, or what went wrong.
pub open spec fn release_outcome(output: Result<CommandOutput, String>) -> Result<
    Seq<char>,
    Seq<char>,
> {
    match output {
        Err(error) => Err(error@),
        Ok(output) => if output.success {
            Ok(trimmed(lossy_utf8(output.stdout@)))
        } else {
            Err(trimmed(lossy_utf8(output.stderr@)))
        },
    }
}

/// A result of texts, seen through their characters.
pub open spec fn text_outcome(result: Result<String, String>) -> Result<Seq<char>, Seq<char>> {
    match result {
        Ok(text) => Ok(text@),
        Err(error) => Err(error@),
    }
}

/// What a script wrote, to its output where it ended well and to its errors otherwise: the name of
/// the latest release, or what went wrong, without the white space around it.
pub fn release_name(success: bool, written: &str) -> (latest: Result<String, String>)
    ensures
        text_outcome(latest) == if success {
            Ok::<Seq<char>, Seq<char>>(trimmed(written@))
        } else {
            Err::<Seq<char>, Seq<char>>(trimmed(written@))
        },
{
    let text = trim(written).to_owned();
    if success {
        Ok(text)
    } else {
        Err(text)
    }
}

/// Decides what the script came to.
pub fn latest_release_version(output: Result<CommandOutput, String>) -> (latest: Result<
    String,
    String,
>)
    ensures
        text_outcome(latest) == release_outcome(output),
{
    match output {
        Err(error) => Err(error),
        Ok(output) => {
            let written = if output.success {
                from_utf8_lossy(&output.stdout)
            } else {
                from_utf8_lossy(&output.stderr)
            };
            release_name(output.success, written.as_str())
        },
    }
}

/// What a look for an update leads to.
#[derive(Debug)]
pub struct UpdateCheck {
    /// Whether an update is on offer now.
    pub available: bool,
    /// The version that the window is to show, where it is a new one.
    pub version: Option<String>,
    /// What is to be logged, if anything.
    pub log: Option<String>,
}

/// [`UpdateCheck`], seen through the characters of its texts.
pub struct UpdateCheckView {
    pub available: bool,
    pub version: Option<Seq<char>>,
    pub log: Option<Seq<char>>,
}

impl View for UpdateCheck {
    type V = UpdateCheckView;

    open spec fn view(&self) -> UpdateCheckView {
        UpdateCheckView {
            available: self.available,
            version: optional(self.version),
            log: optional(self.log),
        }
    }
}

/// What a look for an update leads to: a newer release is offered, any other release is not, and
/// a look that failed leaves the offer as it was.
pub open spec fn update_check(available: bool, latest: Result<Seq<char>, Seq<char>>) -> UpdateCheckView {
    match latest {
        Ok(version) => if is_newer(version, "1.0.0"@) {
            UpdateCheckView { available: true, version: Some(version), log: None }
        } else {
            UpdateCheckView { available: false, version: None, log: None }
        },
        Err(error) => UpdateCheckView {
            available,
            version: None,
            log: Some("Update check failed: "@ + error),
        },
    }
}

/// Decides what a look for an update leads to.
pub fn check_update(available: bool, latest: Result<String, String>) -> (check: UpdateCheck)
    ensures
        check@ == update_check(available, text_outcome(latest)),
{
    match latest {
        Ok(version) => if version_is_newer(version.as_str()) {
            UpdateCheck { available: true, version: Some(version), log: None }
        } else {
            UpdateCheck { available: false, version: None, log: None }
        },
        Err(error) => {
            let mut text = "Update check failed: ".to_owned();
            text.append(error.as_str());
            UpdateCheck { available, version: None, log: Some(text) }
        },
    }
}

/// Whether the tray menu has the entry that starts an update.
#[derive(Debug)]
pub struct UpdateMenu {
    pub inserted: bool,
}

/// Whether the entry is to be inserted: there is an update, and the menu lacks the entry.
pub open spec fn inserts(inserted: bool, available: bool) -> bool {
    available && !inserted
}

impl UpdateMenu {
    /// A menu without the entry.
    pub fn new() -> (menu: UpdateMenu)
        ensures
            !menu.inserted,
    {
        UpdateMenu { inserted: false }
    }

    /// Decides whether the entry is to be inserted now: once there is an update, and only once.
    pub fn tick(&mut self, available: bool) -> (insert: bool)
        ensures
            insert == inserts(old(self).inserted, available),
            final(self).inserted == (old(self).inserted || insert),
    {
        if available && !self.inserted {
            self.inserted = true;
            true
        } else {
            false
        }
    }
}

/// Whether the entry is in the menu after some looks at whether there is an update.
pub open spec fn inserted_after(looks: Seq<bool>) -> bool
    decreases looks.len(),
{
    looks.len() > 0 && (inserted_after(looks.drop_last()) || inserts(
        inserted_after(looks.drop_last()),
        looks.last(),
    ))
}

/// How often the entry was inserted during some looks.
pub open spec fn insertions(looks: Seq<bool>) -> nat
    decreases looks.len(),
{
    if looks.len() == 0 {
        0
    } else {
        let earlier = insertions(looks.drop_last());
        if inserts(inserted_after(looks.drop_last()), looks.last()) {
            earlier + 1
        } else {
            earlier
        }
    }
}

/// However often the menu is looked at, the entry is inserted once if there ever was an update, and
/// never otherwise.
pub proof fn law_update_entry_is_inserted_once(looks: Seq<bool>)
    ensures
        insertions(looks) == if inserted_after(looks) {
            1nat
        } else {
            0nat
        },
        inserted_after(looks) == looks.contains(true),
    decreases looks.len(),
{
    if looks.len() > 0 {
        let earlier = looks.drop_last();
        law_update_entry_is_inserted_once(earlier);
        if earlier.contains(true) {
            let k = choose|k: int| 0 <= k < earlier.len() && earlier[k] == true;
            assert(looks[k] == true);
        }
        if looks.contains(true) && !looks.last() {
            let k = choose|k: int| 0 <= k < looks.len() && looks[k] == true;
            assert(earlier[k] == true);
        }
    }
}

/// How far the start of an update has come. The first two say what is next.
#[derive(Debug)]
pub enum UpdateStage {
    /// The updater is to be looked for.
    FindUpdater,
    /// The updater is to be launched.
    Launch,
    /// Nothing is left to do.
    Finished(Result<(), String>),
}

/// [`UpdateStage`], seen through the characters of its error.
pub enum UpdateStageView {
    FindUpdater,
    Launch,
    Finished(Result<(), Seq<char>>),
}

impl View for UpdateStage {
    type V = UpdateStageView;

    open spec fn view(&self) -> UpdateStageView {
        match self {
            UpdateStage::FindUpdater => UpdateStageView::FindUpdater,
            UpdateStage::Launch => UpdateStageView::Launch,
            UpdateStage::Finished(result) => UpdateStageView::Finished(outcome(*result)),
        }
    }
}

/// What came of the step that was next.
#[derive(Debug)]
pub enum UpdateReply {
    /// Whether the updater is there.
    Updater { found: bool },
    /// What came of launching it.
    Launched(Result<(), String>),
}

/// [`UpdateReply`], seen through the characters of its error.
pub enum UpdateReplyView {
    Updater { found: bool },
    Launched(Result<(), Seq<char>>),
}

impl View for UpdateReply {
    type V = UpdateReplyView;

    open spec fn view(&self) -> UpdateReplyView {
        match self {
            UpdateReply::Updater { found } => UpdateReplyView::Updater { found: *found },
            UpdateReply::Launched(result) => UpdateReplyView::Launched(outcome(*result)),
        }
    }
}

/// Where the start of an update begins, and whether an update is starting from then on.
pub open spec fn update_begin(starting: bool) -> (UpdateStageView, bool) {
    if starting {
        (UpdateStageView::Finished(Err("Update is already starting."@)), true)
    } else {
        (UpdateStageView::FindUpdater, true)
    }
}

/// Where the start of an update goes after a step, and whether an update is still starting: it no
/// longer is once a step has failed. A reply that does not belong to the step changes nothing.
pub open spec fn update_next(
    path: Seq<char>,
    starting: bool,
    stage: UpdateStageView,
    reply: UpdateReplyView,
) -> (UpdateStageView, bool) {
    match (stage, reply) {
        (UpdateStageView::FindUpdater, UpdateReplyView::Updater { found }) => if found {
            (UpdateStageView::Launch, starting)
        } else {
            (UpdateStageView::Finished(Err("Updater not found: "@ + path)), false)
        },
        (UpdateStageView::Launch, UpdateReplyView::Launched(result)) => (
            UpdateStageView::Finished(result),
            starting && result is Ok,
        ),
        _ => (stage, starting),
    }
}

/// Begins the start of an update, unless one is starting already.
pub fn begin_update(gate: &mut SingleFlight) -> (stage: UpdateStage)
    ensures
        (stage@, final(gate).running) == update_begin(old(gate).running),
{
    if gate.try_start() {
        UpdateStage::FindUpdater
    } else {
        UpdateStage::Finished(Err("Update is already starting.".to_owned()))
    }
}

/// Goes on with the start of an update after a step.
pub fn start_update(gate: &mut SingleFlight, path: &str, stage: UpdateStage, reply: UpdateReply) -> (next:
    UpdateStage)
    ensures
        (next@, final(gate).running) == update_next(path@, old(gate).running, stage@, reply@),
{
    match (stage, reply) {
        (UpdateStage::FindUpdater, UpdateReply::Updater { found }) => if found {
            UpdateStage::Launch
        } else {
            gate.finish();
            let mut text = "Updater not found: ".to_owned();
            text.append(path);
            UpdateStage::Finished(Err(text))
        },
        (UpdateStage::Launch, UpdateReply::Launched(result)) => {
            if result.is_err() {
                gate.finish();
            }
            UpdateStage::Finished(result)
        },
        (stage, _) => stage,
    }
}

/// What the command processor is given to run the updater: quoted twice, so that a path with spaces
/// stays one word.
pub fn updater_argument(path: &str) -> (argument: String)
    ensures
        argument@ == "/D /S /C \"\""@ + path@ + "\"\""@,
{
    let mut argument = "/D /S /C \"\"".to_owned();
    argument.append(path);
    argument.append("\"\"");
    argument
}

/// What the window says of an update that was asked for. Once it is started, the program ends, and
/// the updater starts it again.
pub open spec fn update_status(result: Result<(), Seq<char>>) -> Seq<char> {
    match result {
        Ok(()) => "Downloading update... RAMOpt will restart automatically."@,
        Err(error) => "Update failed to start: "@ + error,
    }
}

/// What the window says of an update that was asked for, and whether the program ends.
pub fn update_answer(result: Result<(), String>) -> (answer: (String, bool))
    ensures
        answer.0@ == update_status(outcome(result)),
        answer.1 == (result is Ok),
{
    match result {
        Ok(()) => ("Downloading update... RAMOpt will restart automatically.".to_owned(), true),
        Err(error) => {
            let mut text = "Update failed to start: ".to_owned();
            text.append(error.as_str());
            (text, false)
        },
    }
}

/// One attempt at an update, from beginning to end: what it comes to, and whether an update is
/// starting afterwards.
pub open spec fn update_attempt(
    path: Seq<char>,
    starting: bool,
    found: bool,
    launched: Result<(), Seq<char>>,
) -> (UpdateStageView, bool) {
    let begun = update_begin(starting);
    let looked = update_next(path, begun.1, begun.0, UpdateReplyView::Updater { found });
    update_next(path, looked.1, looked.0, UpdateReplyView::Launched(launched))
}

/// An attempt that fails can be made again; one that succeeds bars every other.
pub proof fn law_update_starts_at_most_once(
    path: Seq<char>,
    starting: bool,
    found: bool,
    launched: Result<(), Seq<char>>,
)
    ensures
        ({
            let (end, starting_after) = update_attempt(path, starting, found, launched);
            &&& end is Finished
            &&& end->Finished_0 is Ok <==> !starting && found && launched is Ok
            &&& starting_after <==> starting || end->Finished_0 is Ok
            &&& starting ==> end == UpdateStageView::Finished(Err("Update is already starting."@))
        }),
{
}

/// A failed look never takes an offer back, and never makes one.
pub proof fn law_failed_check_changes_no_offer(available: bool, error: Seq<char>)
    ensures
        update_check(available, Err(error)).available == available,
        update_check(available, Err(error)).version is None,
{
}

} // verus!
