//! The start at sign-in: how the program enters itself into the registry and takes itself out.
use vstd::prelude::*;
use crate::text::outcome;

verus! {

/// The error of a value that is not there.
pub const ERROR_FILE_NOT_FOUND: i32 = 2;

/// The key of the programs that start at sign-in, under that of the user.
pub fn run_key() -> (name: &'static str)
    ensures
        name@ == r"Software\Microsoft\Windows\CurrentVersion\Run"@,
{
    r"Software\Microsoft\Windows\CurrentVersion\Run"
}

/// The value of this program.
pub fn run_value() -> (name: &'static str)
    ensures
        name@ == "RAMOpt"@,
{
    "RAMOpt"
}

/// How far the change of the start at sign-in has come. Every stage but the last says what is next.
#[derive(Debug)]
pub enum StartupStage {
    /// The key is to be opened, and made where it is missing.
    OpenKey,
    /// The path of the program is to be found.
    FindProgram,
    /// The value is to be set to this.
    SetValue(String),
    /// The value is to be deleted.
    DeleteValue,
    /// Nothing is left to do.
    Finished(Result<(), String>),
}

/// [`StartupStage`], seen through the characters of its texts.
pub enum StartupStageView {
    OpenKey,
    FindProgram,
    SetValue(Seq<char>),
    DeleteValue,
    Finished(Result<(), Seq<char>>),
}

impl View for StartupStage {
    type V = StartupStageView;

    open spec fn view(&self) -> StartupStageView {
        match self {
            StartupStage::OpenKey => StartupStageView::OpenKey,
            StartupStage::FindProgram => StartupStageView::FindProgram,
            StartupStage::SetValue(value) => StartupStageView::SetValue(value@),
            StartupStage::DeleteValue => StartupStageView::DeleteValue,
            StartupStage::Finished(result) => StartupStageView::Finished(outcome(*result)),
        }
    }
}

/// What came of the step that was next.
#[derive(Debug)]
pub enum StartupReply {
    /// The step went through.
    Done,
    /// The path of the program.
    Program(String),
    /// The step failed, with the code of the system where there is one.
    Failed { error: String, code: Option<i32> },
}

/// [`StartupReply`], seen through the characters of its texts.
pub enum StartupReplyView {
    Done,
    Program(Seq<char>),
    Failed { error: Seq<char>, code: Option<i32> },
}

impl View for StartupReply {
    type V = StartupReplyView;

    open spec fn view(&self) -> StartupReplyView {
        match self {
            StartupReply::Done => StartupReplyView::Done,
            StartupReply::Program(path) => StartupReplyView::Program(path@),
            StartupReply::Failed { error, code } => StartupReplyView::Failed {
                error: error@,
                code: *code,
            },
        }
    }
}

/// The value that starts a program: its path in quotes.
pub open spec fn quoted(path: Seq<char>) -> Seq<char> {
    "\""@ + path + "\""@
}

/// Where the change of the start at sign-in goes after a step. A value that is to be deleted and is
/// not there is no failure; a reply that does not belong to the step changes nothing.
pub open spec fn startup_next(
    enabled: bool,
    stage: StartupStageView,
    reply: StartupReplyView,
) -> StartupStageView {
    match (stage, reply) {
        (StartupStageView::Finished(result), _) => StartupStageView::Finished(result),
        (StartupStageView::DeleteValue, StartupReplyView::Failed { error, code }) => if code
            == Some(ERROR_FILE_NOT_FOUND) {
            StartupStageView::Finished(Ok(()))
        } else {
            StartupStageView::Finished(Err(error))
        },
        (_, StartupReplyView::Failed { error, code }) => StartupStageView::Finished(Err(error)),
        (StartupStageView::OpenKey, StartupReplyView::Done) => if enabled {
            StartupStageView::FindProgram
        } else {
            StartupStageView::DeleteValue
        },
        (StartupStageView::FindProgram, StartupReplyView::Program(path)) =>
            StartupStageView::SetValue(quoted(path)),
        (StartupStageView::SetValue(_), StartupReplyView::Done) => StartupStageView::Finished(
            Ok(()),
        ),
        (StartupStageView::DeleteValue, StartupReplyView::Done) => StartupStageView::Finished(
            Ok(()),
        ),
        _ => stage,
    }
}

/// Goes on with the change of the start at sign-in after a step.
pub fn set_startup(enabled: bool, stage: StartupStage, reply: StartupReply) -> (next: StartupStage)
    ensures
        next@ == startup_next(enabled, stage@, reply@),
{
    match (stage, reply) {
        (StartupStage::Finished(result), _) => StartupStage::Finished(result),
        (StartupStage::DeleteValue, StartupReply::Failed { error, code }) => match code {
            Some(ERROR_FILE_NOT_FOUND) => StartupStage::Finished(Ok(())),
            _ => StartupStage::Finished(Err(error)),
        },
        (_, StartupReply::Failed { error, .. }) => StartupStage::Finished(Err(error)),
        (StartupStage::OpenKey, StartupReply::Done) => if enabled {
            StartupStage::FindProgram
        } else {
            StartupStage::DeleteValue
        },
        (StartupStage::FindProgram, StartupReply::Program(path)) => {
            let mut value = "\"".to_owned();
            value.append(path.as_str());
            value.append("\"");
            StartupStage::SetValue(value)
        },
        (StartupStage::SetValue(_), StartupReply::Done) => StartupStage::Finished(Ok(())),
        (StartupStage::DeleteValue, StartupReply::Done) => StartupStage::Finished(Ok(())),
        (stage, _) => stage,
    }
}

/// Turning the start at sign-in off succeeds where it was off already, and turning it on enters the
/// path of the program in quotes.
pub proof fn law_startup_reaches_its_end(path: Seq<char>, error: Seq<char>)
    ensures
        ({
            let opened = startup_next(false, StartupStageView::OpenKey, StartupReplyView::Done);
            let missing = StartupReplyView::Failed { error, code: Some(ERROR_FILE_NOT_FOUND) };
            &&& opened == StartupStageView::DeleteValue
            &&& startup_next(false, opened, missing) == StartupStageView::Finished(Ok(()))
            &&& startup_next(false, opened, StartupReplyView::Done) == StartupStageView::Finished(
                Ok(()),
            )
        }),
        ({
            let opened = startup_next(true, StartupStageView::OpenKey, StartupReplyView::Done);
            let found = startup_next(true, opened, StartupReplyView::Program(path));
            &&& found == StartupStageView::SetValue("\""@ + path + "\""@)
            &&& startup_next(true, found, StartupReplyView::Done) == StartupStageView::Finished(
                Ok(()),
            )
        }),
{
}

} // verus!
