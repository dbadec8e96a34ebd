//! Laws of native calls.
use vstd::prelude::*;
use crate::native::{
    enable_privilege, is_valid, nt_success, wide, win32_error, CallReply, PrivilegeStage,
};
use crate::number::{decimal, hexadecimal};

verus! {

/// What is said of an operation that failed with a code of Windows.
pub open spec fn failed_with(operation: Seq<char>, code: u32) -> Seq<char> {
    operation + " failed (Win32 error "@ + decimal(code as nat) + ")"@
}

/// What is said of an operation whose status is negative.
pub open spec fn failed_with_status(operation: Seq<char>, status: i32) -> Seq<char> {
    operation + " failed (NTSTATUS 0x"@ + hexadecimal((status + 4294967296) as nat, 8) + ")"@
}

/// Whether a result is an error with a text.
pub open spec fn is_error<T>(result: Result<T, String>, text: Seq<char>) -> bool {
    result is Err && (result->Err_0)@ == text
}

/// Neither zero nor the number with all bits set is a handle, and every other number is one.
pub proof fn law_handles(handle: usize, valid: bool)
    requires
        call_ensures(is_valid, (handle,), valid),
    ensures
        valid <==> 0 < handle < usize::MAX,
{
}

/// A failure is told by the operation and by the code in decimal digits.
pub proof fn law_failures_name_operation_and_code(operation: &str, code: u32, text: String)
    requires
        call_ensures(win32_error, (operation, code), text),
    ensures
        text@ == failed_with(operation@, code),
{
}

/// A status that is not negative is a success; any other is told by the operation and by its bits in
/// eight hexadecimal digits.
pub proof fn law_negative_statuses_are_failures(
    operation: &str,
    status: i32,
    result: Result<(), String>,
)
    requires
        call_ensures(nt_success, (operation, status), result),
    ensures
        result is Ok <==> status >= 0,
        result matches Err(error) ==> error@ == failed_with_status(operation@, status),
{
}

/// A token that could be opened leads on to the name, whatever the privilege and the last error are;
/// one that could not ends the attempt.
pub proof fn law_opened_token_leads_to_the_name(
    name: &str,
    stage: PrivilegeStage,
    reply: CallReply,
    next: PrivilegeStage,
)
    requires
        stage is OpenToken,
        call_ensures(enable_privilege, (name, stage, reply), next),
    ensures
        reply.returned != 0 && 0 < reply.handle < usize::MAX ==> next is LookUp,
        reply.returned == 0 || reply.handle == 0 || reply.handle == usize::MAX ==> next
            is Finished && is_error(
            next->Finished_0,
            failed_with("OpenProcessToken"@, reply.last_error),
        ),
{
}

/// A name that is known leads on to the token, and one that is not ends the attempt with an error
/// that names it.
pub proof fn law_known_name_leads_to_the_adjustment(
    name: &str,
    stage: PrivilegeStage,
    reply: CallReply,
    next: PrivilegeStage,
)
    requires
        stage is LookUp,
        call_ensures(enable_privilege, (name, stage, reply), next),
    ensures
        reply.returned != 0 ==> next is Adjust,
        reply.returned == 0 ==> next is Finished && is_error(
            next->Finished_0,
            failed_with("LookupPrivilegeValueW"@ + "("@ + name@ + ")"@, reply.last_error),
        ),
{
}

/// The adjustment is the last call. It enabled the privilege exactly when it went through and left no
/// word that the privilege is not the token's to have.
pub proof fn law_adjustment_decides(
    name: &str,
    stage: PrivilegeStage,
    reply: CallReply,
    next: PrivilegeStage,
)
    requires
        stage is Adjust,
        call_ensures(enable_privilege, (name, stage, reply), next),
    ensures
        next is Finished,
        next->Finished_0 is Ok <==> reply.returned != 0 && reply.last_error != 1300,
        reply.returned == 0 ==> is_error(
            next->Finished_0,
            failed_with("AdjustTokenPrivileges"@ + "("@ + name@ + ")"@, reply.last_error),
        ),
        reply.returned != 0 && reply.last_error == 1300 ==> is_error(
            next->Finished_0,
            "AdjustTokenPrivileges"@ + "("@ + name@ + ")"@ + " failed: privilege not assigned"@,
        ),
{
}

/// Once an attempt has ended, no call changes what came of it.
pub proof fn law_ended_attempts_stay(
    name: &str,
    stage: PrivilegeStage,
    reply: CallReply,
    next: PrivilegeStage,
)
    requires
        stage is Finished,
        call_ensures(enable_privilege, (name, stage, reply), next),
    ensures
        next is Finished,
        next->Finished_0 is Ok <==> stage->Finished_0 is Ok,
        stage->Finished_0 is Err ==> (next->Finished_0->Err_0)@ == (stage->Finished_0->Err_0)@,
{
}

/// A name for a native call has every unit in its place, and one zero more.
pub proof fn law_names_are_terminated(units: Vec<u16>, terminated: Vec<u16>)
    requires
        call_ensures(wide, (&units,), terminated),
    ensures
        terminated@.len() == units@.len() + 1,
        terminated@.last() == 0,
        forall|i: int| 0 <= i < units@.len() ==> terminated@[i] == units@[i],
{
}

} // verus!
