//! Commands: how long the program waits for one, and what it reads of what one wrote.
use vstd::prelude::*;
use vstd::utf8::{decode_utf8, valid_utf8};
use crate::number::{decimal, push_decimal};
use crate::text::outcome;

verus! {

/// How many seconds a command may take.
pub const COMMAND_SECONDS: u64 = 20;

/// How many milliseconds lie between two looks at a running command.
pub const POLL_MILLISECONDS: u64 = 50;

/// What a command left behind.
#[derive(Debug)]
pub struct CommandOutput {
    /// Whether it ended well.
    pub success: bool,
    /// How it ended, in words.
    pub status: String,
    /// What it wrote to its standard output.
    pub stdout: Vec<u8>,
    /// What it wrote to its standard error.
    pub stderr: Vec<u8>,
}

/// What a look at a command shows.
#[derive(Debug)]
pub enum ChildStatus {
    /// It has ended.
    Exited,
    /// It is still running.
    Running,
    /// It cannot be looked at.
    Unknown(String),
}

/// What is to be done with a command.
#[derive(Debug)]
pub enum WaitAction {
    /// Its output is to be collected.
    Collect,
    /// It is to be looked at again after [`POLL_MILLISECONDS`].
    Sleep,
    /// It is to be ended, for this reason.
    Kill(String),
}

/// [`WaitAction`], seen through the characters of its reason.
pub enum WaitActionView {
    Collect,
    Sleep,
    Kill(Seq<char>),
}

impl View for WaitAction {
    type V = WaitActionView;

    open spec fn view(&self) -> WaitActionView {
        match self {
            WaitAction::Collect => WaitActionView::Collect,
            WaitAction::Sleep => WaitActionView::Sleep,
            WaitAction::Kill(reason) => WaitActionView::Kill(reason@),
        }
    }
}

/// What is to be done with a command that had `seconds` and may or may not be out of time. One that
/// has ended is not ended again, however late it was.
pub open spec fn wait_action(status: ChildStatus, out_of_time: bool, seconds: u64) -> WaitActionView {
    match status {
        ChildStatus::Exited => WaitActionView::Collect,
        ChildStatus::Running => if out_of_time {
            WaitActionView::Kill("command timed out after "@ + decimal(seconds as nat) + " seconds"@)
        } else {
            WaitActionView::Sleep
        },
        ChildStatus::Unknown(error) => WaitActionView::Kill(error@),
    }
}

/// Decides what is to be done with a command.
pub fn wait_for_command(status: ChildStatus, out_of_time: bool, seconds: u64) -> (action: WaitAction)
    ensures
        action@ == wait_action(status, out_of_time, seconds),
{
    match status {
        ChildStatus::Exited => WaitAction::Collect,
        ChildStatus::Running => if out_of_time {
            let mut reason = "command timed out after ".to_owned();
            push_decimal(&mut reason, seconds as u128);
            reason.append(" seconds");
            WaitAction::Kill(reason)
        } else {
            WaitAction::Sleep
        },
        ChildStatus::Unknown(error) => WaitAction::Kill(error),
    }
}

/// What `String::from_utf8` says of bytes that are no UTF-8.
pub uninterp spec fn utf8_error(bytes: Seq<u8>) -> Seq<char>;

/// What `String::from_utf8_lossy` makes of bytes.
pub uninterp spec fn lossy_utf8(bytes: Seq<u8>) -> Seq<char>;

/// `String::from_utf8`: valid UTF-8 becomes its characters; anything else is refused, with an error
/// that depends on the bytes alone. What the error says is left open.
#[verifier::external_body]
pub(crate) fn from_utf8(bytes: Vec<u8>) -> (text: Result<String, String>)
    ensures
        outcome_is_utf8(bytes@, outcome(text)),
        text matches Err(error) ==> error@ == utf8_error(bytes@),
{
    String::from_utf8(bytes).map_err(|error| error.to_string())
}

/// What decoding bytes comes to: their characters exactly when they are valid UTF-8.
pub open spec fn outcome_is_utf8(bytes: Seq<u8>, text: Result<String, Seq<char>>) -> bool {
    match text {
        Ok(text) => valid_utf8(bytes) && text@ == decode_utf8(bytes),
        Err(_) => !valid_utf8(bytes),
    }
}

/// `String::from_utf8_lossy`: valid UTF-8 becomes its characters; of anything else the result is a
/// text that depends on the bytes alone. Which replacement characters it holds is left open.
#[verifier::external_body]
pub(crate) fn from_utf8_lossy(bytes: &Vec<u8>) -> (text: String)
    ensures
        text@ == lossy_utf8(bytes@),
        valid_utf8(bytes@) ==> text@ == decode_utf8(bytes@),
{
    String::from_utf8_lossy(bytes).into_owned()
}

} // verus!
