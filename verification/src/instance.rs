//! Instances: that only one runs, what another start does, and with which code the program ends.
use vstd::prelude::*;
use crate::text::{optional, outcome};

verus! {

/// The error of a mutex that another instance has made.
pub const ERROR_ALREADY_EXISTS: u32 = 183;

/// The name of the mutex that the running instance holds.
pub fn mutex_name() -> (name: &'static str)
    ensures
        name@ == "RAMOpt.SingleInstance"@,
{
    "RAMOpt.SingleInstance"
}

/// The name of the event that makes the running instance show its window.
pub fn show_event_name() -> (name: &'static str)
    ensures
        name@ == "RAMOpt.ShowEvent"@,
{
    "RAMOpt.ShowEvent"
}

/// How far a start of the program has come. Every stage but the last says what is next.
#[derive(Debug)]
pub enum InstanceStage {
    /// The mutex is to be made.
    CreateMutex,
    /// The event of the running instance is to be set, where it can be opened.
    SignalOther,
    /// The event is to be made.
    CreateEvent,
    /// The program is to be run.
    Run,
    /// The program ends with this code, after this word in the log.
    Exit { code: i32, log: Option<String> },
}

/// [`InstanceStage`], seen through the characters of its log.
pub enum InstanceStageView {
    CreateMutex,
    SignalOther,
    CreateEvent,
    Run,
    Exit { code: i32, log: Option<Seq<char>> },
}

impl View for InstanceStage {
    type V = InstanceStageView;

    open spec fn view(&self) -> InstanceStageView {
        match self {
            InstanceStage::CreateMutex => InstanceStageView::CreateMutex,
            InstanceStage::SignalOther => InstanceStageView::SignalOther,
            InstanceStage::CreateEvent => InstanceStageView::CreateEvent,
            InstanceStage::Run => InstanceStageView::Run,
            InstanceStage::Exit { code, log } => InstanceStageView::Exit {
                code: *code,
                log: optional(*log),
            },
        }
    }
}

/// What came of the step that was next.
#[derive(Debug)]
pub enum InstanceReply {
    /// Whether there is a handle, and the last error right after the call.
    Handle { is_null: bool, last_error: u32 },
    /// The running instance was told, or could not be.
    Signalled,
    /// What came of running the program.
    Ran(Result<(), String>),
}

/// [`InstanceReply`], seen through the characters of its error.
pub enum InstanceReplyView {
    Handle { is_null: bool, last_error: u32 },
    Signalled,
    Ran(Result<(), Seq<char>>),
}

impl View for InstanceReply {
    type V = InstanceReplyView;

    open spec fn view(&self) -> InstanceReplyView {
        match self {
            InstanceReply::Handle { is_null, last_error } => InstanceReplyView::Handle {
                is_null: *is_null,
                last_error: *last_error,
            },
            InstanceReply::Signalled => InstanceReplyView::Signalled,
            InstanceReply::Ran(result) => InstanceReplyView::Ran(outcome(*result)),
        }
    }
}

/// Where a start of the program goes after a step. A reply that does not belong to the step changes
/// nothing.
pub open spec fn instance_next(
    stage: InstanceStageView,
    reply: InstanceReplyView,
) -> InstanceStageView {
    match (stage, reply) {
        (
            InstanceStageView::CreateMutex,
            InstanceReplyView::Handle { is_null, last_error },
        ) => if is_null {
            InstanceStageView::Exit {
                code: 1,
                log: Some("failed to create RAMOpt instance mutex"@),
            }
        } else if last_error == ERROR_ALREADY_EXISTS {
            InstanceStageView::SignalOther
        } else {
            InstanceStageView::CreateEvent
        },
        (InstanceStageView::SignalOther, InstanceReplyView::Signalled) => InstanceStageView::Exit {
            code: 0,
            log: None,
        },
        (
            InstanceStageView::CreateEvent,
            InstanceReplyView::Handle { is_null, last_error },
        ) => if is_null {
            InstanceStageView::Exit { code: 1, log: Some("failed to create RAMOpt show event"@) }
        } else {
            InstanceStageView::Run
        },
        (InstanceStageView::Run, InstanceReplyView::Ran(result)) => match result {
            Ok(()) => InstanceStageView::Exit { code: 0, log: None },
            Err(error) => InstanceStageView::Exit {
                code: 1,
                log: Some("RAMOpt stopped: "@ + error),
            },
        },
        _ => stage,
    }
}

/// Goes on with a start of the program after a step.
pub fn start_instance(stage: InstanceStage, reply: InstanceReply) -> (next: InstanceStage)
    ensures
        next@ == instance_next(stage@, reply@),
{
    match (stage, reply) {
        (InstanceStage::CreateMutex, InstanceReply::Handle { is_null, last_error }) => if is_null {
            InstanceStage::Exit {
                code: 1,
                log: Some("failed to create RAMOpt instance mutex".to_owned()),
            }
        } else if last_error == ERROR_ALREADY_EXISTS {
            InstanceStage::SignalOther
        } else {
            InstanceStage::CreateEvent
        },
        (InstanceStage::SignalOther, InstanceReply::Signalled) => InstanceStage::Exit {
            code: 0,
            log: None,
        },
        (InstanceStage::CreateEvent, InstanceReply::Handle { is_null, .. }) => if is_null {
            InstanceStage::Exit {
                code: 1,
                log: Some("failed to create RAMOpt show event".to_owned()),
            }
        } else {
            InstanceStage::Run
        },
        (InstanceStage::Run, InstanceReply::Ran(result)) => match result {
            Ok(()) => InstanceStage::Exit { code: 0, log: None },
            Err(error) => {
                let mut text = "RAMOpt stopped: ".to_owned();
                text.append(error.as_str());
                InstanceStage::Exit { code: 1, log: Some(text) }
            },
        },
        (stage, _) => stage,
    }
}

/// A start that finds the mutex of another instance never runs the program: it tells the other
/// instance and ends without a complaint.
pub proof fn law_second_instance_does_not_run(answer: InstanceReplyView)
    ensures
        ({
            let met = instance_next(
                InstanceStageView::CreateMutex,
                InstanceReplyView::Handle { is_null: false, last_error: ERROR_ALREADY_EXISTS },
            );
            &&& met == InstanceStageView::SignalOther
            &&& !(instance_next(met, answer) is Run)
            &&& instance_next(met, InstanceReplyView::Signalled) == (InstanceStageView::Exit {
                code: 0,
                log: None,
            })
        }),
{
}

/// The program is run only once both the mutex and the event are its own.
pub proof fn law_program_runs_only_as_the_first_instance(
    stage: InstanceStageView,
    reply: InstanceReplyView,
)
    requires
        instance_next(stage, reply) is Run,
    ensures
        stage is Run || (stage is CreateEvent && reply is Handle && !reply->is_null),
        !(stage is CreateMutex || stage is SignalOther),
{
}

} // verus!
