//! The memory areas: which there are, and how each of them is optimized.
use vstd::prelude::*;
use crate::native::{
    emptying_size, flush_sentinel, nt_outcome, nt_success, win32_error, win32_text, CallReply,
};
use crate::text::{join, joined, outcome, strings};

verus! {

/// A part of memory that a cleanup optimizes.
#[derive(Debug, Clone, Copy, PartialEq, Eq, Structural)]
pub enum MemoryArea {
    WorkingSet,
    SystemFileCache,
    ModifiedPageList,
    StandbyList,
    CombinedPageList,
    RegistryCache,
    ModifiedFileCache,
}

/// How many areas there are.
pub const AREA_COUNT: usize = 7;

/// The drives that a letter can name.
pub const DRIVE_COUNT: u8 = 26;

/// The areas in the order in which a cleanup takes them: the working sets first, then the caches
/// and page lists, then page combining, the registry and the volumes.
pub open spec fn areas() -> Seq<MemoryArea> {
    seq![
        MemoryArea::WorkingSet,
        MemoryArea::SystemFileCache,
        MemoryArea::ModifiedPageList,
        MemoryArea::StandbyList,
        MemoryArea::CombinedPageList,
        MemoryArea::RegistryCache,
        MemoryArea::ModifiedFileCache,
    ]
}

/// The area at a place of the order.
pub fn area_at(place: usize) -> (area: MemoryArea)
    requires
        place < AREA_COUNT,
    ensures
        area == areas()[place as int],
{
    if place == 0 {
        MemoryArea::WorkingSet
    } else if place == 1 {
        MemoryArea::SystemFileCache
    } else if place == 2 {
        MemoryArea::ModifiedPageList
    } else if place == 3 {
        MemoryArea::StandbyList
    } else if place == 4 {
        MemoryArea::CombinedPageList
    } else if place == 5 {
        MemoryArea::RegistryCache
    } else {
        MemoryArea::ModifiedFileCache
    }
}

/// What a request to the native interface carries.
#[derive(Debug, Clone, Copy, PartialEq, Eq, Structural)]
pub enum NtPayload {
    /// A command on the page lists.
    Command(i32),
    /// The least and the greatest size of the file cache.
    FileCacheLimits { minimum: usize, maximum: usize },
    /// An empty request to combine equal pages.
    CombinePages,
    /// No data at all.
    Nothing,
}

/// A request to `NtSetSystemInformation`.
#[derive(Debug, Clone, Copy, PartialEq, Eq, Structural)]
pub struct NtRequest {
    /// The class of information that is set.
    pub class: u32,
    /// What is set.
    pub payload: NtPayload,
}

impl MemoryArea {
    /// What the area is called in the log and in the report.
    pub open spec fn label(self) -> Seq<char> {
        match self {
            MemoryArea::WorkingSet => "working set"@,
            MemoryArea::SystemFileCache => "system file cache"@,
            MemoryArea::ModifiedPageList => "modified page list"@,
            MemoryArea::StandbyList => "standby list"@,
            MemoryArea::CombinedPageList => "combined page list"@,
            MemoryArea::RegistryCache => "registry cache"@,
            MemoryArea::ModifiedFileCache => "modified file cache"@,
        }
    }

    /// What the area is called in the log and in the report.
    pub fn name(self) -> (name: &'static str)
        ensures
            name@ == self.label(),
    {
        match self {
            MemoryArea::WorkingSet => "working set",
            MemoryArea::SystemFileCache => "system file cache",
            MemoryArea::ModifiedPageList => "modified page list",
            MemoryArea::StandbyList => "standby list",
            MemoryArea::CombinedPageList => "combined page list",
            MemoryArea::RegistryCache => "registry cache",
            MemoryArea::ModifiedFileCache => "modified file cache",
        }
    }

    /// What the native request of the area is called where it fails.
    pub open spec fn request_label(self) -> Seq<char> {
        match self {
            MemoryArea::WorkingSet => "working-set optimization"@,
            MemoryArea::SystemFileCache => "system-file-cache trim"@,
            MemoryArea::ModifiedPageList => "modified-page-list flush"@,
            MemoryArea::StandbyList => "standby-list purge"@,
            MemoryArea::CombinedPageList => "combined-page-list optimization"@,
            MemoryArea::RegistryCache => "registry-cache reconciliation"@,
            MemoryArea::ModifiedFileCache => ""@,
        }
    }

    fn request_name(self) -> (name: &'static str)
        ensures
            name@ == self.request_label(),
    {
        match self {
            MemoryArea::WorkingSet => "working-set optimization",
            MemoryArea::SystemFileCache => "system-file-cache trim",
            MemoryArea::ModifiedPageList => "modified-page-list flush",
            MemoryArea::StandbyList => "standby-list purge",
            MemoryArea::CombinedPageList => "combined-page-list optimization",
            MemoryArea::RegistryCache => "registry-cache reconciliation",
            MemoryArea::ModifiedFileCache => "",
        }
    }

    /// The privilege that the native request of the area needs, if any.
    pub open spec fn needed_privilege(self) -> Option<Seq<char>> {
        match self {
            MemoryArea::SystemFileCache => Some("SeIncreaseQuotaPrivilege"@),
            MemoryArea::RegistryCache => None,
            MemoryArea::ModifiedFileCache => None,
            _ => Some("SeProfileSingleProcessPrivilege"@),
        }
    }

    /// The privilege that the native request of the area needs, if any.
    pub fn privilege(self) -> (name: Option<&'static str>)
        ensures
            self.needed_privilege() == (match name {
                Some(name) => Some(name@),
                None => None,
            }),
    {
        match self {
            MemoryArea::SystemFileCache => Some("SeIncreaseQuotaPrivilege"),
            MemoryArea::RegistryCache => None,
            MemoryArea::ModifiedFileCache => None,
            _ => Some("SeProfileSingleProcessPrivilege"),
        }
    }

    /// The native request that optimizes the area; the volumes are flushed one by one instead.
    pub open spec fn nt_request(self) -> Option<NtRequest> {
        match self {
            MemoryArea::WorkingSet => Some(NtRequest { class: 80, payload: NtPayload::Command(2) }),
            MemoryArea::SystemFileCache => Some(
                NtRequest {
                    class: 21,
                    payload: NtPayload::FileCacheLimits {
                        minimum: emptying_size(),
                        maximum: emptying_size(),
                    },
                },
            ),
            MemoryArea::ModifiedPageList => Some(
                NtRequest { class: 80, payload: NtPayload::Command(3) },
            ),
            MemoryArea::StandbyList => Some(NtRequest { class: 80, payload: NtPayload::Command(4) }),
            MemoryArea::CombinedPageList => Some(
                NtRequest { class: 130, payload: NtPayload::CombinePages },
            ),
            MemoryArea::RegistryCache => Some(NtRequest { class: 155, payload: NtPayload::Nothing }),
            MemoryArea::ModifiedFileCache => None,
        }
    }

    /// The native request that optimizes the area, if any.
    pub fn request(self) -> (request: Option<NtRequest>)
        ensures
            request == self.nt_request(),
    {
        match self {
            MemoryArea::WorkingSet => Some(NtRequest { class: 80, payload: NtPayload::Command(2) }),
            MemoryArea::SystemFileCache => Some(
                NtRequest {
                    class: 21,
                    payload: NtPayload::FileCacheLimits {
                        minimum: flush_sentinel(),
                        maximum: flush_sentinel(),
                    },
                },
            ),
            MemoryArea::ModifiedPageList => Some(
                NtRequest { class: 80, payload: NtPayload::Command(3) },
            ),
            MemoryArea::StandbyList => Some(NtRequest { class: 80, payload: NtPayload::Command(4) }),
            MemoryArea::CombinedPageList => Some(
                NtRequest { class: 130, payload: NtPayload::CombinePages },
            ),
            MemoryArea::RegistryCache => Some(NtRequest { class: 155, payload: NtPayload::Nothing }),
            MemoryArea::ModifiedFileCache => None,
        }
    }
}

/// Whether a drive stands in the set of drives that Windows reports, one bit for each.
pub open spec fn has_drive(drives: u32, index: nat) -> bool {
    drives & (1u32 << (index as u32)) != 0
}

/// The first drive at or after a place, or [`DRIVE_COUNT`] where there is none.
pub open spec fn next_drive(drives: u32, from: nat) -> nat
    decreases DRIVE_COUNT - from,
{
    if from >= DRIVE_COUNT {
        DRIVE_COUNT as nat
    } else if has_drive(drives, from) {
        from
    } else {
        next_drive(drives, from + 1)
    }
}

fn find_drive(drives: u32, from: u8) -> (index: u8)
    requires
        from <= DRIVE_COUNT,
    ensures
        index == next_drive(drives, from as nat),
        from <= index <= DRIVE_COUNT,
{
    let mut index: u8 = from;
    while index < DRIVE_COUNT && drives & (1u32 << (index as u32)) == 0
        invariant
            from <= index <= DRIVE_COUNT,
            next_drive(drives, index as nat) == next_drive(drives, from as nat),
        decreases DRIVE_COUNT - index,
    {
        index = index + 1;
    }
    index
}

/// How far the optimization of an area has come. Every stage but the last says what is next.
#[derive(Debug)]
pub enum AreaStage {
    /// The privilege of the area is to be enabled.
    EnablePrivilege,
    /// The native request of the area is to be made.
    SetInformation,
    /// The sizes of the file cache are to be set, too: `SetSystemFileCacheSize`.
    SetFileCacheSize { minimum: usize, maximum: usize, errors: Vec<String> },
    /// The drives are to be listed: `GetLogicalDrives`.
    ListDrives,
    /// The volume of a drive is to be flushed. The letter counts from `A`.
    FlushVolume { drives: u32, index: u8, errors: Vec<String> },
    /// Nothing is left to do.
    Finished(Result<(), String>),
}

/// [`AreaStage`], seen through the characters of its errors.
#[verifier::ext_equal]
pub enum AreaStageView {
    EnablePrivilege,
    SetInformation,
    SetFileCacheSize { minimum: usize, maximum: usize, errors: Seq<Seq<char>> },
    ListDrives,
    FlushVolume { drives: u32, index: nat, errors: Seq<Seq<char>> },
    Finished(Result<(), Seq<char>>),
}

impl View for AreaStage {
    type V = AreaStageView;

    open spec fn view(&self) -> AreaStageView {
        match self {
            AreaStage::EnablePrivilege => AreaStageView::EnablePrivilege,
            AreaStage::SetInformation => AreaStageView::SetInformation,
            AreaStage::SetFileCacheSize {
                minimum,
                maximum,
                errors,
            } => AreaStageView::SetFileCacheSize {
                minimum: *minimum,
                maximum: *maximum,
                errors: strings(errors@),
            },
            AreaStage::ListDrives => AreaStageView::ListDrives,
            AreaStage::FlushVolume { drives, index, errors } => AreaStageView::FlushVolume {
                drives: *drives,
                index: *index as nat,
                errors: strings(errors@),
            },
            AreaStage::Finished(result) => AreaStageView::Finished(outcome(*result)),
        }
    }
}

/// What came of the step that was next.
#[derive(Debug)]
pub enum AreaReply {
    /// What came of enabling the privilege.
    Privilege(Result<(), String>),
    /// The status of the native request.
    Status(i32),
    /// What the call that sets the size of the file cache answered.
    FileCacheSize(CallReply),
    /// The set of drives, and the last error where it is empty.
    Drives { drives: u32, last_error: u32 },
    /// What came of flushing the volume.
    Volume(Result<(), String>),
}

/// [`AreaReply`], seen through the characters of its error.
pub enum AreaReplyView {
    Privilege(Result<(), Seq<char>>),
    Status(i32),
    FileCacheSize(CallReply),
    Drives { drives: u32, last_error: u32 },
    Volume(Result<(), Seq<char>>),
}

impl View for AreaReply {
    type V = AreaReplyView;

    open spec fn view(&self) -> AreaReplyView {
        match self {
            AreaReply::Privilege(result) => AreaReplyView::Privilege(outcome(*result)),
            AreaReply::Status(status) => AreaReplyView::Status(*status),
            AreaReply::FileCacheSize(call) => AreaReplyView::FileCacheSize(*call),
            AreaReply::Drives { drives, last_error } => AreaReplyView::Drives {
                drives: *drives,
                last_error: *last_error,
            },
            AreaReply::Volume(result) => AreaReplyView::Volume(outcome(*result)),
        }
    }
}

/// The errors so far and, where the result is one, its error.
pub open spec fn with_error(errors: Seq<Seq<char>>, result: Result<(), Seq<char>>) -> Seq<
    Seq<char>,
> {
    match result {
        Ok(()) => errors,
        Err(error) => errors.push(error),
    }
}

/// No error is a success; several are one error that names them all.
pub open spec fn combined(errors: Seq<Seq<char>>) -> Result<(), Seq<char>> {
    if errors.len() == 0 {
        Ok(())
    } else {
        Err(joined(errors, "; "@))
    }
}

/// The stage that flushes the first drive at or after a place, or that ends where there is none.
pub open spec fn volumes_from(drives: u32, from: nat, errors: Seq<Seq<char>>) -> AreaStageView {
    let index = next_drive(drives, from);
    if index < DRIVE_COUNT {
        AreaStageView::FlushVolume { drives, index, errors }
    } else {
        AreaStageView::Finished(combined(errors))
    }
}

/// What is next once the native request of an area has answered. Both calls on the file cache are
/// made, whatever came of the first.
pub open spec fn after_request(area: MemoryArea, status: i32) -> AreaStageView {
    let result = nt_outcome(area.request_label(), status);
    if area == MemoryArea::SystemFileCache {
        AreaStageView::SetFileCacheSize {
            minimum: emptying_size(),
            maximum: emptying_size(),
            errors: with_error(Seq::empty(), result),
        }
    } else {
        AreaStageView::Finished(result)
    }
}

/// Where the optimization of an area begins.
pub open spec fn first_stage(area: MemoryArea) -> AreaStageView {
    if area == MemoryArea::ModifiedFileCache {
        AreaStageView::ListDrives
    } else if area.needed_privilege() is Some {
        AreaStageView::EnablePrivilege
    } else {
        AreaStageView::SetInformation
    }
}

/// Where the optimization of an area goes after a step. A reply that does not belong to the step
/// changes nothing.
pub open spec fn area_next(
    area: MemoryArea,
    stage: AreaStageView,
    reply: AreaReplyView,
) -> AreaStageView {
    match (stage, reply) {
        (AreaStageView::EnablePrivilege, AreaReplyView::Privilege(result)) => match result {
            Ok(()) => AreaStageView::SetInformation,
            Err(error) => AreaStageView::Finished(Err(error)),
        },
        (AreaStageView::SetInformation, AreaReplyView::Status(status)) => after_request(
            area,
            status,
        ),
        (
            AreaStageView::SetFileCacheSize { errors, .. },
            AreaReplyView::FileCacheSize(call),
        ) => AreaStageView::Finished(
            combined(
                with_error(
                    errors,
                    if call.returned != 0 {
                        Ok(())
                    } else {
                        Err(win32_text("SetSystemFileCacheSize"@, call.last_error))
                    },
                ),
            ),
        ),
        (AreaStageView::ListDrives, AreaReplyView::Drives { drives, last_error }) => if drives
            == 0 {
            AreaStageView::Finished(Err(win32_text("GetLogicalDrives"@, last_error)))
        } else {
            volumes_from(drives, 0, Seq::empty())
        },
        (
            AreaStageView::FlushVolume { drives, index, errors },
            AreaReplyView::Volume(result),
        ) => volumes_from(drives, index + 1, with_error(errors, result)),
        _ => stage,
    }
}

/// Begins the optimization of an area.
pub fn begin_area(area: MemoryArea) -> (stage: AreaStage)
    ensures
        stage@ == first_stage(area),
{
    match area {
        MemoryArea::ModifiedFileCache => AreaStage::ListDrives,
        MemoryArea::RegistryCache => AreaStage::SetInformation,
        _ => AreaStage::EnablePrivilege,
    }
}

fn keep_error(errors: &mut Vec<String>, result: Result<(), String>)
    ensures
        strings(final(errors)@) == with_error(strings(old(errors)@), outcome(result)),
{
    match result {
        Ok(()) => {},
        Err(error) => {
            errors.push(error);
            assert(strings(errors@) =~= strings(old(errors)@).push(error@));
        },
    }
}

fn combine(errors: Vec<String>) -> (result: Result<(), String>)
    ensures
        outcome(result) == combined(strings(errors@)),
{
    if errors.len() == 0 {
        Ok(())
    } else {
        Err(join(&errors, "; "))
    }
}

fn go_to_drive(drives: u32, from: u8, errors: Vec<String>) -> (stage: AreaStage)
    requires
        from <= DRIVE_COUNT,
    ensures
        stage@ == volumes_from(drives, from as nat, strings(errors@)),
{
    let index: u8 = find_drive(drives, from);
    if index < DRIVE_COUNT {
        AreaStage::FlushVolume { drives, index, errors }
    } else {
        AreaStage::Finished(combine(errors))
    }
}

/// Goes on with the optimization of an area after a step.
pub fn optimize_area(area: MemoryArea, stage: AreaStage, reply: AreaReply) -> (next: AreaStage)
    ensures
        next@ == area_next(area, stage@, reply@),
{
    match (stage, reply) {
        (AreaStage::EnablePrivilege, AreaReply::Privilege(result)) => match result {
            Ok(()) => AreaStage::SetInformation,
            Err(error) => AreaStage::Finished(Err(error)),
        },
        (AreaStage::SetInformation, AreaReply::Status(status)) => {
            let result = nt_success(area.request_name(), status);
            if area == MemoryArea::SystemFileCache {
                let mut errors: Vec<String> = Vec::new();
                assert(strings(errors@) =~= Seq::empty());
                keep_error(&mut errors, result);
                AreaStage::SetFileCacheSize {
                    minimum: flush_sentinel(),
                    maximum: flush_sentinel(),
                    errors,
                }
            } else {
                AreaStage::Finished(result)
            }
        },
        (AreaStage::SetFileCacheSize { errors, .. }, AreaReply::FileCacheSize(call)) => {
            let mut errors = errors;
            if call.returned == 0 {
                keep_error(
                    &mut errors,
                    Err(win32_error("SetSystemFileCacheSize", call.last_error)),
                );
            }
            AreaStage::Finished(combine(errors))
        },
        (AreaStage::ListDrives, AreaReply::Drives { drives, last_error }) => if drives == 0 {
            AreaStage::Finished(Err(win32_error("GetLogicalDrives", last_error)))
        } else {
            let errors: Vec<String> = Vec::new();
            assert(strings(errors@) =~= Seq::empty());
            go_to_drive(drives, 0, errors)
        },
        (AreaStage::FlushVolume { drives, index, errors }, AreaReply::Volume(result)) => {
            let mut errors = errors;
            keep_error(&mut errors, result);
            let from: u8 = if index < DRIVE_COUNT {
                index + 1
            } else {
                DRIVE_COUNT
            };
            go_to_drive(drives, from, errors)
        },
        (stage, _) => stage,
    }
}

/// The letter of the drive at a place.
pub fn drive_letter(index: u8) -> (letter: u8)
    requires
        index < DRIVE_COUNT,
    ensures
        letter == 'A' as u8 + index,
{
    65 + index
}

/// The drives of a set at or after a place, in the order of their letters.
pub open spec fn drives_from(drives: u32, from: nat) -> Seq<nat>
    decreases DRIVE_COUNT - from,
{
    if from >= DRIVE_COUNT {
        Seq::empty()
    } else if has_drive(drives, from) {
        seq![from] + drives_from(drives, from + 1)
    } else {
        drives_from(drives, from + 1)
    }
}

/// The errors of flushing the drives of a set at or after a place, where each drive answers alone.
pub open spec fn drive_errors(
    drives: u32,
    from: nat,
    replies: spec_fn(nat) -> Result<(), Seq<char>>,
) -> Seq<Seq<char>>
    decreases DRIVE_COUNT - from,
{
    if from >= DRIVE_COUNT {
        Seq::empty()
    } else if has_drive(drives, from) {
        with_error(Seq::empty(), replies(from)) + drive_errors(drives, from + 1, replies)
    } else {
        drive_errors(drives, from + 1, replies)
    }
}

/// The whole run of a stage that flushes volumes: the drives that it flushes, and where it ends.
pub open spec fn volumes_run(
    stage: AreaStageView,
    replies: spec_fn(nat) -> Result<(), Seq<char>>,
) -> (Seq<nat>, AreaStageView)
    decreases (match stage {
        AreaStageView::FlushVolume { index, .. } => if index < DRIVE_COUNT { DRIVE_COUNT - index } else { 0 },
        _ => 0,
    }),
{
    match stage {
        AreaStageView::FlushVolume { drives, index, errors } => if index < DRIVE_COUNT {
            proof {
                lemma_next_drive(drives, index + 1);
            }
            let next = area_next(
                MemoryArea::ModifiedFileCache,
                stage,
                AreaReplyView::Volume(replies(index)),
            );
            let (flushed, end) = volumes_run(next, replies);
            (seq![index] + flushed, end)
        } else {
            (Seq::empty(), stage)
        },
        _ => (Seq::empty(), stage),
    }
}

/// The next drive stands at or after the place that the search began at.
pub proof fn lemma_next_drive(drives: u32, from: nat)
    ensures
        from <= DRIVE_COUNT ==> from <= next_drive(drives, from) <= DRIVE_COUNT,
        from > DRIVE_COUNT ==> next_drive(drives, from) == DRIVE_COUNT,
        next_drive(drives, from) < DRIVE_COUNT ==> has_drive(drives, next_drive(drives, from)),
    decreases DRIVE_COUNT - from,
{
    if from < DRIVE_COUNT && !has_drive(drives, from) {
        lemma_next_drive(drives, from + 1);
    }
}

proof fn lemma_skip_to_drive(
    drives: u32,
    from: nat,
    replies: spec_fn(nat) -> Result<(), Seq<char>>,
)
    ensures
        drives_from(drives, from) == drives_from(drives, next_drive(drives, from)),
        drive_errors(drives, from, replies) == drive_errors(
            drives,
            next_drive(drives, from),
            replies,
        ),
    decreases DRIVE_COUNT - from,
{
    if from < DRIVE_COUNT && !has_drive(drives, from) {
        lemma_skip_to_drive(drives, from + 1, replies);
    }
}

proof fn lemma_volumes_run(
    drives: u32,
    from: nat,
    errors: Seq<Seq<char>>,
    replies: spec_fn(nat) -> Result<(), Seq<char>>,
)
    ensures
        volumes_run(volumes_from(drives, from, errors), replies) == (
            drives_from(drives, from),
            AreaStageView::Finished(combined(errors + drive_errors(drives, from, replies))),
        ),
    decreases DRIVE_COUNT - from,
{
    let index = next_drive(drives, from);
    lemma_next_drive(drives, from);
    lemma_skip_to_drive(drives, from, replies);
    if index < DRIVE_COUNT {
        let longer = with_error(errors, replies(index));
        lemma_volumes_run(drives, index + 1, longer, replies);
        lemma_next_drive(drives, index + 1);
        assert(longer + drive_errors(drives, index + 1, replies) =~= errors + drive_errors(
            drives,
            index,
            replies,
        ));
    } else {
        assert(errors + drive_errors(drives, index, replies) =~= errors);
    }
}

proof fn lemma_drives_from(drives: u32, from: nat, index: nat)
    ensures
        drives_from(drives, from).contains(index) <==> from <= index < DRIVE_COUNT && has_drive(
            drives,
            index,
        ),
    decreases DRIVE_COUNT - from,
{
    if from < DRIVE_COUNT {
        lemma_drives_from(drives, from + 1, index);
        let rest = drives_from(drives, from + 1);
        if has_drive(drives, from) {
            let list = seq![from] + rest;
            assert(list[0] == from);
            if rest.contains(index) {
                let k = choose|k: int| 0 <= k < rest.len() && rest[k] == index;
                assert(list[k + 1] == index);
            }
            if list.contains(index) && index != from {
                let k = choose|k: int| 0 <= k < list.len() && list[k] == index;
                assert(rest[k - 1] == index);
            }
        }
    }
}

/// Once the drives are listed, each of them is flushed once, in the order of the letters, whatever
/// came of the drives before it; the area succeeds exactly when no flush failed, and otherwise its
/// error names every failure in that order.
pub proof fn law_every_drive_is_flushed(
    drives: u32,
    last_error: u32,
    replies: spec_fn(nat) -> Result<(), Seq<char>>,
)
    requires
        drives != 0,
    ensures
        volumes_run(
            area_next(
                MemoryArea::ModifiedFileCache,
                AreaStageView::ListDrives,
                AreaReplyView::Drives { drives, last_error },
            ),
            replies,
        ) == (
            drives_from(drives, 0),
            AreaStageView::Finished(combined(drive_errors(drives, 0, replies))),
        ),
        forall|index: nat| #[trigger]
            drives_from(drives, 0).contains(index) <==> index < DRIVE_COUNT && has_drive(
                drives,
                index,
            ),
{
    lemma_volumes_run(drives, 0, Seq::empty(), replies);
    assert(Seq::<Seq<char>>::empty() + drive_errors(drives, 0, replies) =~= drive_errors(
        drives,
        0,
        replies,
    ));
    assert forall|index: nat| #[trigger]
        drives_from(drives, 0).contains(index) <==> index < DRIVE_COUNT && has_drive(
            drives,
            index,
        ) by {
        lemma_drives_from(drives, 0, index);
    }
}

/// An area whose privilege is refused fails with the error of the refusal and makes no request.
pub proof fn law_refused_privilege_ends_the_area(area: MemoryArea, error: Seq<char>)
    requires
        area.needed_privilege() is Some,
    ensures
        area_next(area, first_stage(area), AreaReplyView::Privilege(Err(error)))
            == AreaStageView::Finished(Err(error)),
{
}

} // verus!
