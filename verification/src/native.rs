//! Native calls: what their results mean, and how a privilege is enabled.
use vstd::prelude::*;
use crate::number::{decimal, hexadecimal, push_decimal, push_hexadecimal};
use crate::text::outcome;

verus! {

/// The error of a privilege that the token does not hold.
pub const ERROR_NOT_ALL_ASSIGNED: u32 = 1300;

/// A name in the form that native calls take: its UTF-16 units and a terminating zero.
pub fn wide(units: &Vec<u16>) -> (terminated: Vec<u16>)
    ensures
        terminated@ == units@.push(0),
{
    let mut terminated: Vec<u16> = Vec::new();
    let mut i: usize = 0;
    while i < units.len()
        invariant
            i <= units@.len(),
            terminated@ == units@.take(i as int),
        decreases units@.len() - i,
    {
        terminated.push(units[i]);
        i = i + 1;
    }
    terminated.push(0);
    terminated
}

/// Whether a handle, as a number, is one: neither null nor the value that stands for a failure.
pub open spec fn handle_is_valid(handle: usize) -> bool {
    handle != 0 && handle != usize::MAX
}

/// Whether a handle, as a number, is one.
pub fn is_valid(handle: usize) -> (valid: bool)
    ensures
        valid == handle_is_valid(handle),
{
    handle != 0 && handle != usize::MAX
}

/// What is said of a native call that failed.
pub open spec fn win32_text(operation: Seq<char>, code: u32) -> Seq<char> {
    operation + " failed (Win32 error "@ + decimal(code as nat) + ")"@
}

/// What is said of a native call that failed.
pub fn win32_error(operation: &str, code: u32) -> (text: String)
    ensures
        text@ == win32_text(operation@, code),
{
    let mut text = operation.to_owned();
    text.append(" failed (Win32 error ");
    push_decimal(&mut text, code as u128);
    text.append(")");
    text
}

/// The bits of a status, read as an unsigned number.
pub open spec fn status_bits(status: i32) -> nat {
    if status >= 0 {
        status as nat
    } else {
        (status + 0x1_0000_0000) as nat
    }
}

/// What a status of the native interface means: a negative one is a failure.
pub open spec fn nt_outcome(operation: Seq<char>, status: i32) -> Result<(), Seq<char>> {
    if status >= 0 {
        Ok(())
    } else {
        Err(operation + " failed (NTSTATUS 0x"@ + hexadecimal(status_bits(status), 8) + ")"@)
    }
}

/// What a status of the native interface means.
pub fn nt_success(operation: &str, status: i32) -> (result: Result<(), String>)
    ensures
        outcome(result) == nt_outcome(operation@, status),
{
    if status >= 0 {
        return Ok(());
    }
    let bits: u32 = (status as i64 + 0x1_0000_0000) as u32;
    let mut text = operation.to_owned();
    text.append(" failed (NTSTATUS 0x");
    push_hexadecimal(&mut text, bits, 8);
    text.append(")");
    Err(text)
}

/// The size that asks Windows to empty the file cache: all bits set where addresses have 64 bits,
/// and the greatest signed number where they have 32.
pub open spec fn emptying_size() -> usize {
    if usize::BITS == 64 {
        usize::MAX
    } else {
        0x7fff_ffff
    }
}

/// The size that asks Windows to empty the file cache.
pub fn flush_sentinel() -> (size: usize)
    ensures
        size == emptying_size(),
{
    if usize::BITS == 64 {
        usize::MAX
    } else {
        0x7fff_ffff
    }
}

/// What a native call answered: its result, the handle that it filled in, and the last error.
#[derive(Debug, Clone, Copy, PartialEq, Eq, Structural)]
pub struct CallReply {
    /// The result: zero tells of a failure.
    pub returned: i32,
    /// The handle, as a number, where the call has one.
    pub handle: usize,
    /// The last error of the thread, as it was right after the call.
    pub last_error: u32,
}

/// How far the enabling of a privilege has come. The first three say which call is next.
#[derive(Debug)]
pub enum PrivilegeStage {
    /// The token of the process is to be opened: `OpenProcessToken`.
    OpenToken,
    /// The privilege is to be found by its name: `LookupPrivilegeValueW`.
    LookUp,
    /// The privilege is to be enabled in the token: `AdjustTokenPrivileges`.
    Adjust,
    /// No call is left.
    Finished(Result<(), String>),
}

/// [`PrivilegeStage`], seen through the characters of its error.
pub enum PrivilegeStageView {
    OpenToken,
    LookUp,
    Adjust,
    Finished(Result<(), Seq<char>>),
}

impl View for PrivilegeStage {
    type V = PrivilegeStageView;

    open spec fn view(&self) -> PrivilegeStageView {
        match self {
            PrivilegeStage::OpenToken => PrivilegeStageView::OpenToken,
            PrivilegeStage::LookUp => PrivilegeStageView::LookUp,
            PrivilegeStage::Adjust => PrivilegeStageView::Adjust,
            PrivilegeStage::Finished(result) => PrivilegeStageView::Finished(outcome(*result)),
        }
    }
}

/// A native call that names the privilege it is about.
pub open spec fn privilege_call(call: Seq<char>, name: Seq<char>) -> Seq<char> {
    call + "("@ + name + ")"@
}

/// Where the enabling of a privilege goes after a call has answered.
pub open spec fn privilege_next(
    name: Seq<char>,
    stage: PrivilegeStageView,
    reply: CallReply,
) -> PrivilegeStageView {
    match stage {
        PrivilegeStageView::OpenToken => if reply.returned != 0 && handle_is_valid(reply.handle) {
            PrivilegeStageView::LookUp
        } else {
            PrivilegeStageView::Finished(Err(win32_text("OpenProcessToken"@, reply.last_error)))
        },
        PrivilegeStageView::LookUp => if reply.returned != 0 {
            PrivilegeStageView::Adjust
        } else {
            PrivilegeStageView::Finished(
                Err(
                    win32_text(
                        privilege_call("LookupPrivilegeValueW"@, name),
                        reply.last_error,
                    ),
                ),
            )
        },
        PrivilegeStageView::Adjust => PrivilegeStageView::Finished(
            if reply.returned == 0 {
                Err(win32_text(privilege_call("AdjustTokenPrivileges"@, name), reply.last_error))
            } else if reply.last_error == ERROR_NOT_ALL_ASSIGNED {
                Err(
                    privilege_call("AdjustTokenPrivileges"@, name)
                        + " failed: privilege not assigned"@,
                )
            } else {
                Ok(())
            },
        ),
        PrivilegeStageView::Finished(result) => PrivilegeStageView::Finished(result),
    }
}

fn privilege_call_text(call: &str, name: &str) -> (text: String)
    ensures
        text@ == privilege_call(call@, name@),
{
    let mut text = call.to_owned();
    text.append("(");
    text.append(name);
    text.append(")");
    text
}

/// Goes on with the enabling of a privilege after a call has answered.
pub fn enable_privilege(name: &str, stage: PrivilegeStage, reply: CallReply) -> (next:
    PrivilegeStage)
    ensures
        next@ == privilege_next(name@, stage@, reply),
{
    match stage {
        PrivilegeStage::OpenToken => if reply.returned != 0 && is_valid(reply.handle) {
            PrivilegeStage::LookUp
        } else {
            PrivilegeStage::Finished(Err(win32_error("OpenProcessToken", reply.last_error)))
        },
        PrivilegeStage::LookUp => if reply.returned != 0 {
            PrivilegeStage::Adjust
        } else {
            let call = privilege_call_text("LookupPrivilegeValueW", name);
            PrivilegeStage::Finished(Err(win32_error(call.as_str(), reply.last_error)))
        },
        PrivilegeStage::Adjust => {
            let mut call = privilege_call_text("AdjustTokenPrivileges", name);
            if reply.returned == 0 {
                PrivilegeStage::Finished(Err(win32_error(call.as_str(), reply.last_error)))
            } else if reply.last_error == ERROR_NOT_ALL_ASSIGNED {
                call.append(" failed: privilege not assigned");
                PrivilegeStage::Finished(Err(call))
            } else {
                PrivilegeStage::Finished(Ok(()))
            }
        },
        PrivilegeStage::Finished(result) => PrivilegeStage::Finished(result),
    }
}

/// A privilege is reported as enabled exactly when the token could be opened, the name was known,
/// the adjustment went through, and Windows did not add that the token lacks the privilege.
pub proof fn law_privilege_is_enabled_only_if_every_call_succeeds(
    name: Seq<char>,
    opened: CallReply,
    found: CallReply,
    adjusted: CallReply,
)
    ensures
        ({
            let after_open = privilege_next(name, PrivilegeStageView::OpenToken, opened);
            let after_look_up = privilege_next(name, after_open, found);
            let end = privilege_next(name, after_look_up, adjusted);
            &&& end is Finished
            &&& end == PrivilegeStageView::Finished(Ok(())) <==> {
                &&& opened.returned != 0
                &&& handle_is_valid(opened.handle)
                &&& found.returned != 0
                &&& adjusted.returned != 0
                &&& adjusted.last_error != ERROR_NOT_ALL_ASSIGNED
            }
        }),
{
}

} // verus!
