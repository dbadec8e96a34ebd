//! Laws of the flush of a volume.
use vstd::prelude::*;
use crate::laws::native::{failed_with, is_error};
use crate::native::CallReply;
use crate::volume::{flush_volume_cache, root_path, volume_path, VolumeReply, VolumeStage};

verus! {

/// A call on the volume of a letter.
pub open spec fn call_on(call: Seq<char>, letter: u8) -> Seq<char> {
    call + "("@ + (r"\\.\"@ + seq![letter as char] + ":"@) + ")"@
}

/// The names of a volume differ from those of another in nothing but the letter.
pub proof fn law_volumes_are_named_by_their_letter(letter: u8, name: String, root: String)
    requires
        call_ensures(volume_path, (letter,), name),
        call_ensures(root_path, (letter,), root),
    ensures
        name@ == r"\\.\"@.push(letter as char) + ":"@,
        root@ == seq![letter as char] + r":\"@,
{
    assert(name@ =~= r"\\.\"@.push(letter as char) + ":"@);
}

/// A drive that is built in is opened, whatever its letter; any other is left alone, and that is no
/// failure.
pub proof fn law_fixed_drives_are_opened(
    letter: u8,
    stage: VolumeStage,
    kind: u32,
    next: VolumeStage,
)
    requires
        stage is QueryType,
        call_ensures(flush_volume_cache, (letter, stage, VolumeReply::Type(kind)), next),
    ensures
        kind == 3 ==> next is Open,
        kind != 3 ==> next is Finished && next->Finished_0 is Ok,
{
}

/// A volume that could be opened is flushed; for one that could not, the error names it.
pub proof fn law_opened_volumes_are_flushed(
    letter: u8,
    stage: VolumeStage,
    call: CallReply,
    next: VolumeStage,
)
    requires
        stage is Open,
        call_ensures(flush_volume_cache, (letter, stage, VolumeReply::Call(call)), next),
    ensures
        0 < call.handle < usize::MAX ==> next is Flush,
        call.handle == 0 || call.handle == usize::MAX ==> next is Finished && is_error(
            next->Finished_0,
            failed_with(call_on("CreateFileW"@, letter), call.last_error),
        ),
{
}

/// A volume succeeds exactly when its flush was made and answered that it went through; every other
/// end is an error that names the volume.
pub proof fn law_flush_decides(letter: u8, stage: VolumeStage, reply: VolumeReply, next: VolumeStage)
    requires
        stage is Flush,
        !(reply is Type),
        call_ensures(flush_volume_cache, (letter, stage, reply), next),
    ensures
        next is Finished,
        next->Finished_0 is Ok <==> (reply matches VolumeReply::Call(call) && call.returned != 0),
        reply matches VolumeReply::Call(call) && call.returned == 0 ==> (next->Finished_0->Err_0)@
            == failed_with(
            call_on("FlushFileBuffers"@, letter),
            (reply->Call_0).last_error,
        ),
        reply is TimedOut ==> (next->Finished_0->Err_0)@ == call_on("FlushFileBuffers"@, letter)
            + " timed out after "@ + "5"@ + " seconds"@,
        reply is Disconnected ==> (next->Finished_0->Err_0)@ == call_on(
            "FlushFileBuffers"@,
            letter,
        ) + " worker disconnected"@,
{
    reveal_strlit("5");
    assert(crate::number::decimal(5) =~= "5"@);
}

/// A reply that does not belong to the step leaves the flush where it is.
pub proof fn law_other_replies_do_not_move_the_flush(
    letter: u8,
    stage: VolumeStage,
    reply: VolumeReply,
    next: VolumeStage,
)
    requires
        call_ensures(flush_volume_cache, (letter, stage, reply), next),
    ensures
        stage is QueryType && !(reply is Type) ==> next is QueryType,
        stage is Open && !(reply is Call) ==> next is Open,
        stage is Flush && reply is Type ==> next is Flush,
        stage is Finished ==> next is Finished && (next->Finished_0 is Ok <==> stage->Finished_0
            is Ok) && (stage->Finished_0 is Err ==> (next->Finished_0->Err_0)@ == (
        stage->Finished_0->Err_0)@),
{
}

} // verus!
