//! Laws of the memory areas.
use vstd::prelude::*;
use crate::areas::{
    area_next, begin_area, drive_letter, first_stage, has_drive, next_drive, optimize_area, AreaReply,
    AreaReplyView, AreaStage, AreaStageView, MemoryArea,
};
use crate::laws::native::{failed_with, failed_with_status, is_error};
use crate::native::CallReply;
use crate::text::{joined, strings};

verus! {

/// Whether a drive stands in a set of drives, one bit for each.
pub open spec fn lists(drives: u32, index: int) -> bool {
    0 <= index < 26 && drives & (1u32 << (index as u32)) != 0
}

/// What the native request of an area is called where it fails.
pub open spec fn request_of(area: MemoryArea) -> Seq<char> {
    if area == MemoryArea::WorkingSet {
        "working-set optimization"@
    } else if area == MemoryArea::SystemFileCache {
        "system-file-cache trim"@
    } else if area == MemoryArea::ModifiedPageList {
        "modified-page-list flush"@
    } else if area == MemoryArea::StandbyList {
        "standby-list purge"@
    } else if area == MemoryArea::CombinedPageList {
        "combined-page-list optimization"@
    } else {
        "registry-cache reconciliation"@
    }
}

/// The page lists and the working sets need the privilege to profile a process, the file cache that
/// to raise quotas, and the registry and the volumes none.
pub proof fn law_privileges(area: MemoryArea, name: Option<&'static str>)
    requires
        call_ensures(MemoryArea::privilege, (area,), name),
    ensures
        name is None <==> area == MemoryArea::RegistryCache || area
            == MemoryArea::ModifiedFileCache,
        area == MemoryArea::SystemFileCache ==> name->0@ == "SeIncreaseQuotaPrivilege"@,
        name is Some && area != MemoryArea::SystemFileCache ==> name->0@
            == "SeProfileSingleProcessPrivilege"@,
{
}

/// An area begins with its privilege where it needs one, the volumes begin with the drives, and the
/// registry begins with its request.
pub proof fn law_areas_begin(
    area: MemoryArea,
    name: Option<&'static str>,
    first: AreaStage,
)
    requires
        call_ensures(MemoryArea::privilege, (area,), name),
        call_ensures(begin_area, (area,), first),
    ensures
        name is Some <==> first is EnablePrivilege,
        area == MemoryArea::ModifiedFileCache <==> first is ListDrives,
        area == MemoryArea::RegistryCache <==> first is SetInformation,
{
}

/// A privilege that is granted leads to the native request, for every area; one that is refused ends
/// the area with the error of the refusal.
pub proof fn law_granted_privilege_leads_to_the_request(
    area: MemoryArea,
    stage: AreaStage,
    answer: Result<(), String>,
    next: AreaStage,
)
    requires
        stage is EnablePrivilege,
        call_ensures(optimize_area, (area, stage, AreaReply::Privilege(answer)), next),
    ensures
        answer is Ok ==> next is SetInformation,
        answer matches Err(refusal) ==> next is Finished && is_error(next->Finished_0, refusal@),
{
}

/// The status of the native request decides over every area but the file cache: the area succeeds
/// exactly when the status is not negative, and otherwise its error names the request and the status.
pub proof fn law_status_decides(area: MemoryArea, stage: AreaStage, status: i32, next: AreaStage)
    requires
        stage is SetInformation,
        area != MemoryArea::SystemFileCache,
        call_ensures(optimize_area, (area, stage, AreaReply::Status(status)), next),
    ensures
        next is Finished,
        next->Finished_0 is Ok <==> status >= 0,
        status < 0 && area != MemoryArea::ModifiedFileCache ==> (next->Finished_0->Err_0)@
            == failed_with_status(request_of(area), status),
{
}

/// The file cache is given its sizes whatever came of the native request; both sizes ask for it to be
/// emptied, and a failure so far is kept.
pub proof fn law_file_cache_is_given_its_sizes(stage: AreaStage, status: i32, next: AreaStage)
    requires
        stage is SetInformation,
        call_ensures(
            optimize_area,
            (MemoryArea::SystemFileCache, stage, AreaReply::Status(status)),
            next,
        ),
    ensures
        next matches AreaStage::SetFileCacheSize { minimum, maximum, errors } && {
            &&& minimum == maximum
            &&& usize::BITS == 64 ==> minimum == usize::MAX
            &&& usize::BITS == 32 ==> minimum == i32::MAX
            &&& status >= 0 ==> errors@.len() == 0
            &&& status < 0 ==> errors@.len() == 1 && errors@[0]@ == failed_with_status(
                "system-file-cache trim"@,
                status,
            )
        },
{
    if let AreaStage::SetFileCacheSize { errors, .. } = next {
        assert(strings(errors@).len() == errors@.len());
        if status < 0 {
            assert(strings(errors@)[0] == errors@[0]@);
        }
    }
}

/// The file cache succeeds exactly when neither of its calls failed; its error names each call that
/// did, the native request first.
pub proof fn law_both_calls_decide_over_the_file_cache(
    area: MemoryArea,
    stage: AreaStage,
    call: CallReply,
    next: AreaStage,
)
    requires
        stage is SetFileCacheSize,
        call_ensures(optimize_area, (area, stage, AreaReply::FileCacheSize(call)), next),
    ensures
        next is Finished,
        next->Finished_0 is Ok <==> call.returned != 0 && stage->SetFileCacheSize_errors@.len()
            == 0,
        call.returned == 0 && stage->SetFileCacheSize_errors@.len() == 0 ==> (
        next->Finished_0->Err_0)@ == failed_with("SetSystemFileCacheSize"@, call.last_error),
        call.returned != 0 && stage->SetFileCacheSize_errors@.len() == 1 ==> (
        next->Finished_0->Err_0)@ == stage->SetFileCacheSize_errors@[0]@,
        call.returned == 0 && stage->SetFileCacheSize_errors@.len() == 1 ==> (
        next->Finished_0->Err_0)@ == stage->SetFileCacheSize_errors@[0]@ + "; "@ + failed_with(
            "SetSystemFileCacheSize"@,
            call.last_error,
        ),
{
    reveal_with_fuel(joined, 2);
    let errors = strings(stage->SetFileCacheSize_errors@);
    assert(errors.len() == stage->SetFileCacheSize_errors@.len());
    if errors.len() == 1 {
        assert(errors[0] == stage->SetFileCacheSize_errors@[0]@);
        let text = failed_with("SetSystemFileCacheSize"@, call.last_error);
        assert(errors.push(text).drop_last() =~= errors);
    }
}

proof fn lemma_next_drive(drives: u32, from: nat)
    ensures
        next_drive(drives, from) <= 26,
        next_drive(drives, from) < 26 ==> from <= next_drive(drives, from) && lists(
            drives,
            next_drive(drives, from) as int,
        ),
        forall|k: int| from <= k < next_drive(drives, from) ==> !#[trigger] lists(drives, k),
    decreases 26 - from,
{
    if from < 26 && !has_drive(drives, from) {
        lemma_next_drive(drives, from + 1);
    }
}

/// Whether a stage is the flush of the first drive of a set at or after a place or, where there is
/// none, the end, which is a success exactly when there were no errors.
pub open spec fn goes_to_the_next_drive(
    next: AreaStage,
    drives: u32,
    from: int,
    errors: Seq<Seq<char>>,
) -> bool {
    match next {
        AreaStage::FlushVolume { drives: kept, index, errors: so_far } => {
            &&& kept == drives
            &&& from <= index
            &&& lists(drives, index as int)
            &&& forall|k: int| from <= k < index ==> !#[trigger] lists(drives, k)
            &&& strings(so_far@) == errors
        },
        AreaStage::Finished(result) => {
            &&& forall|k: int| from <= k ==> !#[trigger] lists(drives, k)
            &&& result is Ok <==> errors.len() == 0
            &&& result matches Err(error) ==> error@ == joined(errors, "; "@)
        },
        _ => false,
    }
}

/// Once the drives are listed, the first of them is flushed; where they cannot be listed, that is the
/// error of the area.
pub proof fn law_first_drive_is_flushed_first(
    area: MemoryArea,
    stage: AreaStage,
    drives: u32,
    last_error: u32,
    next: AreaStage,
)
    requires
        stage is ListDrives,
        call_ensures(optimize_area, (area, stage, AreaReply::Drives { drives, last_error }), next),
    ensures
        drives == 0 ==> next is Finished && is_error(
            next->Finished_0,
            failed_with("GetLogicalDrives"@, last_error),
        ),
        drives != 0 ==> goes_to_the_next_drive(next, drives, 0, Seq::empty()),
{
    lemma_next_drive(drives, 0);
}

/// After a drive the next one of the set is flushed, whatever came of it; no drive in between is left
/// out, an error is kept behind those before it, and the set stays as it is.
pub proof fn law_next_drive_follows(
    area: MemoryArea,
    stage: AreaStage,
    answer: Result<(), String>,
    next: AreaStage,
)
    requires
        stage is FlushVolume,
        call_ensures(optimize_area, (area, stage, AreaReply::Volume(answer)), next),
    ensures
        ({
            let earlier = strings(stage->FlushVolume_errors@);
            goes_to_the_next_drive(
                next,
                stage->FlushVolume_drives,
                stage->FlushVolume_index + 1,
                match answer {
                    Ok(()) => earlier,
                    Err(error) => earlier.push(error@),
                },
            )
        }),
{
    lemma_next_drive(stage->FlushVolume_drives, (stage->FlushVolume_index + 1) as nat);
}

/// A reply that does not belong to the step, or that comes after the end, changes nothing.
pub proof fn law_other_replies_do_not_move_an_area(
    area: MemoryArea,
    stage: AreaStage,
    reply: AreaReply,
    next: AreaStage,
)
    requires
        stage is EnablePrivilege ==> !(reply is Privilege),
        stage is SetInformation ==> !(reply is Status),
        stage is SetFileCacheSize ==> !(reply is FileCacheSize),
        stage is ListDrives ==> !(reply is Drives),
        stage is FlushVolume ==> !(reply is Volume),
        call_ensures(optimize_area, (area, stage, reply), next),
    ensures
        next@ == stage@,
{
}

/// The stage of an area after the first replies of a run.
pub open spec fn stage_after(area: MemoryArea, replies: Seq<AreaReplyView>, n: nat) -> AreaStageView
    decreases n,
{
    if n == 0 {
        first_stage(area)
    } else {
        area_next(area, stage_after(area, replies, (n - 1) as nat), replies[n - 1])
    }
}

/// Whether the native request was made at a point of a run, and answered with a status that is not
/// negative.
pub open spec fn request_went_through(area: MemoryArea, replies: Seq<AreaReplyView>, k: nat) -> bool {
    &&& stage_after(area, replies, k) is SetInformation
    &&& replies[k as int] matches AreaReplyView::Status(status) && status >= 0
}

/// Whatever the replies are, no area that has a native request succeeds unless the request was made
/// and went through.
pub proof fn law_no_success_without_the_request(
    area: MemoryArea,
    replies: Seq<AreaReplyView>,
    n: nat,
)
    requires
        area != MemoryArea::ModifiedFileCache,
        n <= replies.len(),
        stage_after(area, replies, n) == AreaStageView::Finished(Ok(())),
    ensures
        exists|k: nat| k < n && #[trigger] request_went_through(area, replies, k),
{
    lemma_no_success_without_the_request(area, replies, n);
}

proof fn lemma_no_success_without_the_request(
    area: MemoryArea,
    replies: Seq<AreaReplyView>,
    n: nat,
)
    requires
        area != MemoryArea::ModifiedFileCache,
        n <= replies.len(),
    ensures
        (exists|k: nat| k < n && #[trigger] request_went_through(area, replies, k)) || match (
        stage_after(area, replies, n)) {
            AreaStageView::EnablePrivilege => true,
            AreaStageView::SetInformation => true,
            AreaStageView::SetFileCacheSize { errors, .. } => errors.len() > 0,
            AreaStageView::Finished(result) => result is Err,
            _ => false,
        },
    decreases n,
{
    if n > 0 {
        let earlier = (n - 1) as nat;
        lemma_no_success_without_the_request(area, replies, earlier);
        if exists|k: nat| k < earlier && #[trigger] request_went_through(area, replies, k) {
            let k = choose|k: nat| k < earlier && #[trigger] request_went_through(area, replies, k);
            assert(k < n && request_went_through(area, replies, k));
        } else if request_went_through(area, replies, earlier) {
            assert(earlier < n);
        }
    }
}

/// An area whose calls all go through succeeds: with its privilege granted, a status that is not
/// negative and, for the file cache, sizes that could be set.
pub proof fn law_success_of_every_call_is_success(
    area: MemoryArea,
    status: i32,
    call: CallReply,
)
    requires
        area != MemoryArea::ModifiedFileCache,
        status >= 0,
        call.returned != 0,
    ensures
        ({
            let asked = area_next(area, first_stage(area), AreaReplyView::Privilege(Ok(())));
            let answered = area_next(area, asked, AreaReplyView::Status(status));
            let end = area_next(area, answered, AreaReplyView::FileCacheSize(call));
            &&& asked is SetInformation
            &&& end == AreaStageView::Finished(Ok(()))
        }),
{
}

/// The letters of the drives follow each other from `A` on.
pub proof fn law_drives_have_their_letters(index: u8, other: u8, letter: u8, other_letter: u8)
    requires
        index < 26,
        other < 26,
        call_ensures(drive_letter, (index,), letter),
        call_ensures(drive_letter, (other,), other_letter),
    ensures
        65 <= letter <= 90,
        letter - other_letter == index - other,
        index == 0 ==> letter == 65,
{
}

} // verus!
