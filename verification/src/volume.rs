//! Volumes: how the file cache of one drive is flushed.
use vstd::prelude::*;
use crate::native::{handle_is_valid, is_valid, win32_error, win32_text, CallReply};
use crate::number::{decimal, push_decimal};
use crate::text::outcome;

verus! {

/// The drive type of a disk that is built in.
pub const DRIVE_FIXED: u32 = 3;

/// How many seconds the flush of a volume may take.
pub const VOLUME_FLUSH_SECONDS: u64 = 5;

/// The name by which a volume is opened.
pub open spec fn volume_name(letter: u8) -> Seq<char> {
    r"\\.\"@ + seq![letter as char] + ":"@
}

/// The name by which a volume is opened.
pub fn volume_path(letter: u8) -> (name: String)
    ensures
        name@ == volume_name(letter),
{
    let mut name = r"\\.\".to_owned();
    name.push(letter as char);
    name.append(":");
    assert(name@ =~= volume_name(letter));
    name
}

/// The root folder of a volume.
pub open spec fn root_name(letter: u8) -> Seq<char> {
    seq![letter as char] + r":\"@
}

/// The root folder of a volume.
pub fn root_path(letter: u8) -> (name: String)
    ensures
        name@ == root_name(letter),
{
    let mut name = String::new();
    name.push(letter as char);
    name.append(r":\");
    assert(name@ =~= root_name(letter));
    name
}

/// How far the flush of a volume has come. The first three say what is next.
#[derive(Debug)]
pub enum VolumeStage {
    /// The type of the drive is to be asked for: `GetDriveTypeW` with [`root_path`].
    QueryType,
    /// The volume is to be opened: `CreateFileW` with [`volume_path`].
    Open,
    /// The volume is to be flushed: `FlushFileBuffers`, on a thread of its own.
    Flush,
    /// Nothing is left to do.
    Finished(Result<(), String>),
}

/// [`VolumeStage`], seen through the characters of its error.
pub enum VolumeStageView {
    QueryType,
    Open,
    Flush,
    Finished(Result<(), Seq<char>>),
}

impl View for VolumeStage {
    type V = VolumeStageView;

    open spec fn view(&self) -> VolumeStageView {
        match self {
            VolumeStage::QueryType => VolumeStageView::QueryType,
            VolumeStage::Open => VolumeStageView::Open,
            VolumeStage::Flush => VolumeStageView::Flush,
            VolumeStage::Finished(result) => VolumeStageView::Finished(outcome(*result)),
        }
    }
}

/// What came of the step that was next.
#[derive(Debug, Clone, Copy, PartialEq, Eq, Structural)]
pub enum VolumeReply {
    /// The type of the drive.
    Type(u32),
    /// What a native call answered.
    Call(CallReply),
    /// The flush did not answer in time.
    TimedOut,
    /// The thread of the flush ended without an answer.
    Disconnected,
}

/// A call on a volume, as errors name it.
pub open spec fn volume_call(call: Seq<char>, letter: u8) -> Seq<char> {
    call + "("@ + volume_name(letter) + ")"@
}

/// Where the flush of a volume goes after a step. A reply that does not belong to the step changes
/// nothing.
pub open spec fn volume_next(
    letter: u8,
    stage: VolumeStageView,
    reply: VolumeReply,
) -> VolumeStageView {
    match (stage, reply) {
        (VolumeStageView::QueryType, VolumeReply::Type(kind)) => if kind == DRIVE_FIXED {
            VolumeStageView::Open
        } else {
            VolumeStageView::Finished(Ok(()))
        },
        (VolumeStageView::Open, VolumeReply::Call(call)) => if handle_is_valid(call.handle) {
            VolumeStageView::Flush
        } else {
            VolumeStageView::Finished(
                Err(win32_text(volume_call("CreateFileW"@, letter), call.last_error)),
            )
        },
        (VolumeStageView::Flush, VolumeReply::Call(call)) => VolumeStageView::Finished(
            if call.returned != 0 {
                Ok(())
            } else {
                Err(win32_text(volume_call("FlushFileBuffers"@, letter), call.last_error))
            },
        ),
        (VolumeStageView::Flush, VolumeReply::TimedOut) => VolumeStageView::Finished(
            Err(
                volume_call("FlushFileBuffers"@, letter) + " timed out after "@ + decimal(
                    VOLUME_FLUSH_SECONDS as nat,
                ) + " seconds"@,
            ),
        ),
        (VolumeStageView::Flush, VolumeReply::Disconnected) => VolumeStageView::Finished(
            Err(volume_call("FlushFileBuffers"@, letter) + " worker disconnected"@),
        ),
        _ => stage,
    }
}

fn volume_call_text(call: &str, letter: u8) -> (text: String)
    ensures
        text@ == volume_call(call@, letter),
{
    let mut text = call.to_owned();
    text.append("(");
    text.append(volume_path(letter).as_str());
    text.append(")");
    text
}

/// Goes on with the flush of a volume after a step.
pub fn flush_volume_cache(letter: u8, stage: VolumeStage, reply: VolumeReply) -> (next: VolumeStage)
    ensures
        next@ == volume_next(letter, stage@, reply),
{
    match (stage, reply) {
        (VolumeStage::QueryType, VolumeReply::Type(kind)) => if kind == DRIVE_FIXED {
            VolumeStage::Open
        } else {
            VolumeStage::Finished(Ok(()))
        },
        (VolumeStage::Open, VolumeReply::Call(call)) => if is_valid(call.handle) {
            VolumeStage::Flush
        } else {
            let operation = volume_call_text("CreateFileW", letter);
            VolumeStage::Finished(Err(win32_error(operation.as_str(), call.last_error)))
        },
        (VolumeStage::Flush, VolumeReply::Call(call)) => if call.returned != 0 {
            VolumeStage::Finished(Ok(()))
        } else {
            let operation = volume_call_text("FlushFileBuffers", letter);
            VolumeStage::Finished(Err(win32_error(operation.as_str(), call.last_error)))
        },
        (VolumeStage::Flush, VolumeReply::TimedOut) => {
            let mut text = volume_call_text("FlushFileBuffers", letter);
            text.append(" timed out after ");
            push_decimal(&mut text, VOLUME_FLUSH_SECONDS as u128);
            text.append(" seconds");
            VolumeStage::Finished(Err(text))
        },
        (VolumeStage::Flush, VolumeReply::Disconnected) => {
            let mut text = volume_call_text("FlushFileBuffers", letter);
            text.append(" worker disconnected");
            VolumeStage::Finished(Err(text))
        },
        (stage, _) => stage,
    }
}

/// A drive that is not built in is left alone: it is never opened, and that is no failure.
pub proof fn law_other_drives_are_left_alone(letter: u8, kind: u32)
    requires
        kind != DRIVE_FIXED,
    ensures
        volume_next(letter, VolumeStageView::QueryType, VolumeReply::Type(kind))
            == VolumeStageView::Finished(Ok(())),
{
}

} // verus!
