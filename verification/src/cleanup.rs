//! Cleanups: what one does in which order, what it reports, and that only one runs at a time.
use vstd::prelude::*;
use crate::areas::{area_at, areas, MemoryArea, AREA_COUNT};
use crate::memory::{freed_megabytes, freed_text, memory_snapshot, snapshot_text, MemoryStatus};
use crate::number::{decimal, push_decimal};
use crate::settings::{Settings, SettingsView};
use crate::text::{optional, outcome, strings};

verus! {

/// What became of the memory areas.
#[derive(Debug)]
pub struct MemoryOptimizationReport {
    /// The memory in use before and after, in bytes, where both could be measured.
    pub used: Option<(u64, u64)>,
    /// How many areas were tried.
    pub attempted_areas: u32,
    /// How many areas were optimized.
    pub successful_areas: u32,
    /// The areas that were skipped, each with its error.
    pub failed_areas: Vec<String>,
}

/// [`MemoryOptimizationReport`], seen through the characters of its errors.
#[verifier::ext_equal]
pub struct ReportView {
    pub used: Option<(u64, u64)>,
    pub attempted: nat,
    pub successful: nat,
    pub failed: Seq<Seq<char>>,
}

impl View for MemoryOptimizationReport {
    type V = ReportView;

    open spec fn view(&self) -> ReportView {
        ReportView {
            used: self.used,
            attempted: self.attempted_areas as nat,
            successful: self.successful_areas as nat,
            failed: strings(self.failed_areas@),
        }
    }
}

impl ReportView {
    /// The report of a cleanup that has tried nothing yet.
    pub open spec fn empty() -> ReportView {
        ReportView { used: None, attempted: 0, successful: 0, failed: Seq::empty() }
    }

    /// Every area that was tried was either optimized or skipped.
    pub open spec fn is_consistent(self) -> bool {
        self.attempted == self.successful + self.failed.len()
    }

    /// The report after one more area.
    pub open spec fn with_area(self, name: Seq<char>, result: Result<(), Seq<char>>) -> ReportView {
        match result {
            Ok(()) => ReportView {
                attempted: self.attempted + 1,
                successful: self.successful + 1,
                ..self
            },
            Err(error) => ReportView {
                attempted: self.attempted + 1,
                failed: self.failed.push(name + ": "@ + error),
                ..self
            },
        }
    }
}

impl Default for MemoryOptimizationReport {
    fn default() -> (report: MemoryOptimizationReport)
        ensures
            report@ == ReportView::empty(),
    {
        let report = MemoryOptimizationReport {
            used: None,
            attempted_areas: 0,
            successful_areas: 0,
            failed_areas: Vec::new(),
        };
        assert(report@ =~= ReportView::empty());
        report
    }
}

/// Enters into the report what came of an area.
pub fn run_memory_area(
    report: &mut MemoryOptimizationReport,
    name: &str,
    result: Result<(), String>,
)
    requires
        old(report).attempted_areas < u32::MAX,
        old(report).successful_areas < u32::MAX,
    ensures
        final(report)@ == old(report)@.with_area(name@, outcome(result)),
        old(report)@.is_consistent() ==> final(report)@.is_consistent(),
{
    report.attempted_areas = report.attempted_areas + 1;
    match result {
        Ok(()) => {
            report.successful_areas = report.successful_areas + 1;
        },
        Err(error) => {
            let mut entry = name.to_owned();
            entry.append(": ");
            entry.append(error.as_str());
            report.failed_areas.push(entry);
            assert(strings(report.failed_areas@) =~= strings(old(report).failed_areas@).push(
                entry@,
            ));
        },
    }
}

/// What the status says of the measurement.
pub open spec fn measurement_text(used: Option<(u64, u64)>) -> Seq<char> {
    match used {
        Some((before, after)) => freed_text(before as nat, after as nat)
            + " MB estimated physical delta"@,
        None => "measurement unavailable"@,
    }
}

/// The part of the status that every cleanup has.
pub open spec fn areas_text(report: ReportView, closed: u32) -> Seq<char> {
    "Memory cleaned: "@ + measurement_text(report.used) + "; areas "@ + decimal(report.successful)
        + "/"@ + decimal(report.attempted) + "; closed "@ + decimal(closed as nat) + " user apps"@
}

/// The part of the status that tells of orphan processes, if any.
pub open spec fn orphans_text(terminated: u32) -> Seq<char> {
    if terminated > 0 {
        "; cleaned "@ + decimal(terminated as nat) + " orphan processes"@
    } else {
        Seq::empty()
    }
}

/// The part of the status that tells of skipped areas, if any.
pub open spec fn skipped_text(skipped: nat) -> Seq<char> {
    if skipped > 0 {
        "; skipped "@ + decimal(skipped) + " areas"@
    } else {
        Seq::empty()
    }
}

/// What a cleanup says once it is done. Closed applications and orphan processes count only where
/// the settings ask for them; that they could not be cleaned up is said last.
pub open spec fn status_text(
    trim_background_apps: bool,
    report: ReportView,
    apps: Result<(u32, u32), Seq<char>>,
) -> Seq<char> {
    let counted = if trim_background_apps && apps is Ok {
        apps->Ok_0
    } else {
        (0u32, 0u32)
    };
    areas_text(report, counted.0) + orphans_text(counted.1) + skipped_text(report.failed.len()) + (
    if trim_background_apps && apps is Err {
        "; app cleanup failed"@
    } else {
        Seq::empty()
    })
}

/// What a cleanup says once it is done.
pub fn clean_memory(
    settings: &Settings,
    report: &MemoryOptimizationReport,
    apps: &Result<(u32, u32), String>,
) -> (status: String)
    ensures
        status@ == status_text(settings.trim_background_apps, report@, outcome(*apps)),
{
    let mut counted: (u32, u32) = (0, 0);
    let mut failed: bool = false;
    if settings.trim_background_apps {
        match apps {
            Ok(counts) => {
                counted = *counts;
            },
            Err(_) => {
                failed = true;
            },
        }
    }
    let mut status = "Memory cleaned: ".to_owned();
    let mut measurement = "measurement unavailable".to_owned();
    if let Some((before, after)) = report.used {
        measurement = freed_megabytes(before, after);
        measurement.append(" MB estimated physical delta");
    }
    status.append(measurement.as_str());
    status.append("; areas ");
    push_decimal(&mut status, report.successful_areas as u128);
    status.append("/");
    push_decimal(&mut status, report.attempted_areas as u128);
    status.append("; closed ");
    push_decimal(&mut status, counted.0 as u128);
    status.append(" user apps");
    let ghost always = status@;
    if counted.1 > 0 {
        status.append("; cleaned ");
        push_decimal(&mut status, counted.1 as u128);
        status.append(" orphan processes");
    }
    assert(status@ =~= always + orphans_text(counted.1));
    let ghost shorter = status@;
    let skipped: usize = report.failed_areas.len();
    if skipped > 0 {
        status.append("; skipped ");
        push_decimal(&mut status, skipped as u128);
        status.append(" areas");
    }
    assert(status@ =~= shorter + skipped_text(skipped as nat));
    if failed {
        status.append("; app cleanup failed");
    }
    assert(status@ =~= status_text(settings.trim_background_apps, report@, outcome(*apps)));
    status
}

/// How far a cleanup has come: what it does next.
#[derive(Debug, Clone, Copy, PartialEq, Eq, Structural)]
pub enum CleanupStage {
    /// The memory is to be measured before anything is done.
    MeasureBefore,
    /// The area at this place of the order is to be optimized.
    Area(usize),
    /// The memory is to be measured again.
    MeasureAfter,
    /// The stale temporary files are to be removed.
    ClearTemp,
    /// The selected user applications are to be closed.
    CloseApps,
    /// Nothing is left to do.
    Finished,
}

/// What came of the step that was next.
#[derive(Debug)]
pub enum CleanupReply {
    /// The memory, where it could be measured.
    Memory(Option<MemoryStatus>),
    /// What came of the area.
    Area(Result<(), String>),
    /// The temporary files were gone through.
    TempCleared,
    /// How many applications were closed and how many orphan processes were ended.
    Apps(Result<(u32, u32), String>),
}

/// [`CleanupReply`], seen through the characters of its error.
pub enum CleanupReplyView {
    Memory(Option<MemoryStatus>),
    Area(Result<(), Seq<char>>),
    TempCleared,
    Apps(Result<(u32, u32), Seq<char>>),
}

impl View for CleanupReply {
    type V = CleanupReplyView;

    open spec fn view(&self) -> CleanupReplyView {
        match self {
            CleanupReply::Memory(status) => CleanupReplyView::Memory(*status),
            CleanupReply::Area(result) => CleanupReplyView::Area(outcome(*result)),
            CleanupReply::TempCleared => CleanupReplyView::TempCleared,
            CleanupReply::Apps(result) => CleanupReplyView::Apps(outcome(*result)),
        }
    }
}

/// A cleanup that is under way.
#[derive(Debug)]
pub struct CleanupRun {
    /// The settings that it was started with.
    pub settings: Settings,
    /// What it does next.
    pub stage: CleanupStage,
    /// The memory before anything was done, where it could be measured.
    pub before: Option<MemoryStatus>,
    /// What became of the areas so far.
    pub report: MemoryOptimizationReport,
    /// What became of the user applications so far.
    pub apps: Result<(u32, u32), String>,
}

/// [`CleanupRun`], seen through the characters of its texts.
#[verifier::ext_equal]
pub struct CleanupView {
    pub settings: SettingsView,
    pub stage: CleanupStage,
    pub before: Option<MemoryStatus>,
    pub report: ReportView,
    pub apps: Result<(u32, u32), Seq<char>>,
}

impl View for CleanupRun {
    type V = CleanupView;

    open spec fn view(&self) -> CleanupView {
        CleanupView {
            settings: self.settings@,
            stage: self.stage,
            before: self.before,
            report: self.report@,
            apps: outcome(self.apps),
        }
    }
}

/// What follows the second measurement.
pub open spec fn after_memory(settings: SettingsView) -> CleanupStage {
    if settings.clean_temp {
        CleanupStage::ClearTemp
    } else {
        after_temp(settings)
    }
}

/// What follows the temporary files.
pub open spec fn after_temp(settings: SettingsView) -> CleanupStage {
    if settings.trim_background_apps {
        CleanupStage::CloseApps
    } else {
        CleanupStage::Finished
    }
}

/// What the log says of an area: how long it took, in milliseconds, and why it was skipped where it
/// was.
pub open spec fn area_line(
    name: Seq<char>,
    result: Result<(), Seq<char>>,
    milliseconds: Seq<char>,
) -> Seq<char> {
    match result {
        Ok(()) => "Memory area "@ + name + ": completed in "@ + milliseconds + " ms"@,
        Err(error) => "Memory area "@ + name + ": skipped after "@ + milliseconds + " ms: "@ + error,
    }
}

impl CleanupView {
    /// A cleanup that has not begun.
    pub open spec fn start(settings: SettingsView) -> CleanupView {
        CleanupView {
            settings,
            stage: CleanupStage::MeasureBefore,
            before: None,
            report: ReportView::empty(),
            apps: Ok((0u32, 0u32)),
        }
    }

    /// As many areas were tried as the stage tells.
    pub open spec fn is_valid(self) -> bool {
        &&& self.report.is_consistent()
        &&& match self.stage {
            CleanupStage::MeasureBefore => self.report.attempted == 0,
            CleanupStage::Area(place) => place < AREA_COUNT && self.report.attempted == place,
            _ => self.report.attempted == AREA_COUNT,
        }
    }

    /// The cleanup after a step. A reply that does not belong to the step changes nothing.
    pub open spec fn next(self, reply: CleanupReplyView) -> CleanupView {
        match (self.stage, reply) {
            (CleanupStage::MeasureBefore, CleanupReplyView::Memory(status)) => CleanupView {
                stage: CleanupStage::Area(0),
                before: status,
                ..self
            },
            (CleanupStage::Area(place), CleanupReplyView::Area(result)) => CleanupView {
                stage: if place + 1 < AREA_COUNT {
                    CleanupStage::Area((place + 1) as usize)
                } else {
                    CleanupStage::MeasureAfter
                },
                report: self.report.with_area(areas()[place as int].label(), result),
                ..self
            },
            (CleanupStage::MeasureAfter, CleanupReplyView::Memory(status)) => CleanupView {
                stage: after_memory(self.settings),
                report: ReportView {
                    used: match (self.before, status) {
                        (Some(before), Some(after)) => Some((before.used, after.used)),
                        _ => None,
                    },
                    ..self.report
                },
                ..self
            },
            (CleanupStage::ClearTemp, CleanupReplyView::TempCleared) => CleanupView {
                stage: after_temp(self.settings),
                ..self
            },
            (CleanupStage::CloseApps, CleanupReplyView::Apps(result)) => CleanupView {
                stage: CleanupStage::Finished,
                apps: result,
                ..self
            },
            _ => self,
        }
    }

    /// What the log says of a step that took some milliseconds: of each area in a line of its own, of
    /// the memory before and after, and of an error in closing the applications.
    pub open spec fn log(self, reply: CleanupReplyView, milliseconds: Seq<char>) -> Option<Seq<char>> {
        match (self.stage, reply) {
            (CleanupStage::MeasureBefore, CleanupReplyView::Memory(None)) => Some(
                "Memory snapshot before optimization unavailable."@,
            ),
            (CleanupStage::Area(place), CleanupReplyView::Area(result)) => Some(
                area_line(areas()[place as int].label(), result, milliseconds),
            ),
            (CleanupStage::MeasureAfter, CleanupReplyView::Memory(status)) => match (
                self.before,
                status,
            ) {
                (Some(before), Some(after)) => Some(snapshot_text(before, after)),
                _ => Some("Memory snapshot before or after optimization unavailable."@),
            },
            (CleanupStage::CloseApps, CleanupReplyView::Apps(Err(error))) => Some(error),
            _ => None,
        }
    }

    /// What the cleanup says once it is done.
    pub open spec fn status(self) -> Seq<char> {
        status_text(self.settings.trim_background_apps, self.report, self.apps)
    }
}

impl CleanupRun {
    /// Begins a cleanup.
    pub fn begin(settings: Settings) -> (run: CleanupRun)
        ensures
            run@ == CleanupView::start(settings@),
            run@.is_valid(),
    {
        CleanupRun {
            settings,
            stage: CleanupStage::MeasureBefore,
            before: None,
            report: MemoryOptimizationReport::default(),
            apps: Ok((0, 0)),
        }
    }

    /// The area that is next.
    pub fn area(&self) -> (area: Option<MemoryArea>)
        requires
            self@.is_valid(),
        ensures
            area == (match self.stage {
                CleanupStage::Area(place) => Some(areas()[place as int]),
                _ => None,
            }),
    {
        match self.stage {
            CleanupStage::Area(place) => Some(area_at(place)),
            _ => None,
        }
    }

    fn temp_is_done(&self) -> (stage: CleanupStage)
        ensures
            stage == after_temp(self.settings@),
    {
        if self.settings.trim_background_apps {
            CleanupStage::CloseApps
        } else {
            CleanupStage::Finished
        }
    }

    fn log_text(&self, reply: &CleanupReply, milliseconds: &str) -> (log: Option<String>)
        requires
            self@.is_valid(),
        ensures
            optional(log) == self@.log(reply@, milliseconds@),
    {
        match (self.stage, reply) {
            (CleanupStage::MeasureBefore, CleanupReply::Memory(None)) => Some(
                "Memory snapshot before optimization unavailable.".to_owned(),
            ),
            (CleanupStage::Area(place), CleanupReply::Area(result)) => {
                let mut line = "Memory area ".to_owned();
                line.append(area_at(place).name());
                match result {
                    Ok(()) => {
                        line.append(": completed in ");
                        line.append(milliseconds);
                        line.append(" ms");
                    },
                    Err(error) => {
                        line.append(": skipped after ");
                        line.append(milliseconds);
                        line.append(" ms: ");
                        line.append(error.as_str());
                    },
                }
                Some(line)
            },
            (CleanupStage::MeasureAfter, CleanupReply::Memory(status)) => match (
                self.before,
                *status,
            ) {
                (Some(before), Some(after)) => Some(memory_snapshot(before, after)),
                _ => Some("Memory snapshot before or after optimization unavailable.".to_owned()),
            },
            (CleanupStage::CloseApps, CleanupReply::Apps(Err(error))) => Some(error.clone()),
            _ => None,
        }
    }

    /// Goes on with the cleanup after a step, and tells what the log says of it. The milliseconds are
    /// those that the step took.
    pub fn step(&mut self, reply: CleanupReply, milliseconds: &str) -> (log: Option<String>)
        requires
            old(self)@.is_valid(),
        ensures
            final(self)@ == old(self)@.next(reply@),
            optional(log) == old(self)@.log(reply@, milliseconds@),
            final(self)@.is_valid(),
    {
        let log = self.log_text(&reply, milliseconds);
        match (self.stage, reply) {
            (CleanupStage::MeasureBefore, CleanupReply::Memory(status)) => {
                self.before = status;
                self.stage = CleanupStage::Area(0);
            },
            (CleanupStage::Area(place), CleanupReply::Area(result)) => {
                run_memory_area(&mut self.report, area_at(place).name(), result);
                self.stage = if place + 1 < AREA_COUNT {
                    CleanupStage::Area(place + 1)
                } else {
                    CleanupStage::MeasureAfter
                };
            },
            (CleanupStage::MeasureAfter, CleanupReply::Memory(status)) => {
                self.report.used = match (self.before, status) {
                    (Some(before), Some(after)) => Some((before.used, after.used)),
                    _ => None,
                };
                self.stage = if self.settings.clean_temp {
                    CleanupStage::ClearTemp
                } else {
                    self.temp_is_done()
                };
            },
            (CleanupStage::ClearTemp, CleanupReply::TempCleared) => {
                self.stage = self.temp_is_done();
            },
            (CleanupStage::CloseApps, CleanupReply::Apps(result)) => {
                self.apps = result;
                self.stage = CleanupStage::Finished;
            },
            _ => {},
        }
        log
    }

    /// What the cleanup says once it is done.
    pub fn status(&self) -> (status: String)
        ensures
            status@ == self@.status(),
    {
        clean_memory(&self.settings, &self.report, &self.apps)
    }
}

/// What happens at a gate: someone asks to go in, or whoever is in goes out.
pub enum GateEvent {
    Start,
    Finish,
}

/// Whether someone who asks to go in is let in.
pub open spec fn admits(running: bool) -> bool {
    !running
}

/// Whether someone is in after an event. Whoever asks and is not let in changes nothing.
pub open spec fn gate_next(running: bool, event: GateEvent) -> bool {
    match event {
        GateEvent::Start => running || admits(running),
        GateEvent::Finish => false,
    }
}

/// A gate that lets one at a time through.
#[derive(Debug)]
pub struct SingleFlight {
    /// Whether someone is in.
    pub running: bool,
}

impl SingleFlight {
    /// A gate that nobody has gone through.
    pub fn new() -> (gate: SingleFlight)
        ensures
            !gate.running,
    {
        SingleFlight { running: false }
    }

    /// Goes in, unless someone is in already.
    pub fn try_start(&mut self) -> (started: bool)
        ensures
            started == admits(old(self).running),
            final(self).running == gate_next(old(self).running, GateEvent::Start),
    {
        if self.running {
            false
        } else {
            self.running = true;
            true
        }
    }

    /// Goes out.
    pub fn finish(&mut self)
        ensures
            final(self).running == gate_next(old(self).running, GateEvent::Finish),
    {
        self.running = false;
    }
}

/// What the window says of a cleanup that is asked for: that it is refused while another runs.
pub fn start_cleanup(gate: &mut SingleFlight) -> (refused: Option<&'static str>)
    ensures
        final(gate).running == gate_next(old(gate).running, GateEvent::Start),
        refused is None == admits(old(gate).running),
        refused matches Some(text) ==> text@ == "Cleanup already running."@,
{
    if gate.try_start() {
        None
    } else {
        Some("Cleanup already running.")
    }
}

/// The number of successes among the first `n` outcomes.
pub open spec fn successes(results: Seq<Result<(), Seq<char>>>, n: nat) -> nat
    decreases n,
{
    if n == 0 {
        0
    } else if results[n - 1] is Ok {
        successes(results, (n - 1) as nat) + 1
    } else {
        successes(results, (n - 1) as nat)
    }
}

/// The failures among the first `n` outcomes, each with the name of its area.
pub open spec fn failures(results: Seq<Result<(), Seq<char>>>, n: nat) -> Seq<Seq<char>>
    decreases n,
{
    if n == 0 {
        Seq::empty()
    } else {
        match results[n - 1] {
            Ok(()) => failures(results, (n - 1) as nat),
            Err(error) => failures(results, (n - 1) as nat).push(
                areas()[n - 1].label() + ": "@ + error,
            ),
        }
    }
}

/// A cleanup after the first measurement and the first `n` areas.
pub open spec fn after_areas(
    settings: SettingsView,
    before: Option<MemoryStatus>,
    results: Seq<Result<(), Seq<char>>>,
    n: nat,
) -> CleanupView
    decreases n,
{
    if n == 0 {
        CleanupView::start(settings).next(CleanupReplyView::Memory(before))
    } else {
        after_areas(settings, before, results, (n - 1) as nat).next(
            CleanupReplyView::Area(results[n - 1]),
        )
    }
}

proof fn lemma_after_areas(
    settings: SettingsView,
    before: Option<MemoryStatus>,
    results: Seq<Result<(), Seq<char>>>,
    n: nat,
)
    requires
        n <= AREA_COUNT,
    ensures
        after_areas(settings, before, results, n) == (CleanupView {
            settings,
            stage: if n < AREA_COUNT {
                CleanupStage::Area(n as usize)
            } else {
                CleanupStage::MeasureAfter
            },
            before,
            report: ReportView {
                used: None,
                attempted: n,
                successful: successes(results, n),
                failed: failures(results, n),
            },
            apps: Ok((0u32, 0u32)),
        }),
    decreases n,
{
    if n > 0 {
        lemma_after_areas(settings, before, results, (n - 1) as nat);
    }
}

/// A cleanup from beginning to end, with everything that it is told on the way.
pub open spec fn whole_cleanup(
    settings: SettingsView,
    before: Option<MemoryStatus>,
    results: Seq<Result<(), Seq<char>>>,
    after: Option<MemoryStatus>,
    apps: Result<(u32, u32), Seq<char>>,
) -> CleanupView {
    after_areas(settings, before, results, AREA_COUNT as nat).next(
        CleanupReplyView::Memory(after),
    ).next(CleanupReplyView::TempCleared).next(CleanupReplyView::Apps(apps))
}

proof fn lemma_counts(results: Seq<Result<(), Seq<char>>>, n: nat)
    ensures
        successes(results, n) + failures(results, n).len() == n,
    decreases n,
{
    if n > 0 {
        lemma_counts(results, (n - 1) as nat);
    }
}

/// Every cleanup comes to an end, tries all the areas whatever became of the earlier ones, and
/// reports each failure under the name of its area, in order, and each other area as a success. It
/// has a measurement exactly when the memory could be measured both times, and counts applications
/// exactly when the settings ask for it.
pub proof fn law_every_area_is_tried(
    settings: SettingsView,
    before: Option<MemoryStatus>,
    results: Seq<Result<(), Seq<char>>>,
    after: Option<MemoryStatus>,
    apps: Result<(u32, u32), Seq<char>>,
)
    requires
        results.len() == AREA_COUNT,
    ensures
        ({
            let end = whole_cleanup(settings, before, results, after, apps);
            &&& end.stage == CleanupStage::Finished
            &&& end.report.attempted == AREA_COUNT
            &&& end.report.successful == successes(results, AREA_COUNT as nat)
            &&& end.report.failed == failures(results, AREA_COUNT as nat)
            &&& end.report.successful + end.report.failed.len() == AREA_COUNT
            &&& end.report.used is Some <==> before is Some && after is Some
            &&& end.apps == if settings.trim_background_apps {
                apps
            } else {
                Ok((0u32, 0u32))
            }
        }),
{
    lemma_after_areas(settings, before, results, AREA_COUNT as nat);
    lemma_counts(results, AREA_COUNT as nat);
}

/// Each area has a line of its own in the log, under its name, whatever became of the areas before
/// it, and the line of one that failed holds the error.
pub proof fn law_each_area_is_logged(
    settings: SettingsView,
    before: Option<MemoryStatus>,
    results: Seq<Result<(), Seq<char>>>,
    place: nat,
    milliseconds: Seq<char>,
)
    requires
        results.len() == AREA_COUNT,
        place < AREA_COUNT,
    ensures
        after_areas(settings, before, results, place).log(
            CleanupReplyView::Area(results[place as int]),
            milliseconds,
        ) == Some(area_line(areas()[place as int].label(), results[place as int], milliseconds)),
{
    lemma_after_areas(settings, before, results, place);
}

/// An error in closing the applications is logged as it is.
pub proof fn law_application_errors_are_logged(
    run: CleanupView,
    error: Seq<char>,
    milliseconds: Seq<char>,
)
    requires
        run.stage == CleanupStage::CloseApps,
    ensures
        run.log(CleanupReplyView::Apps(Err(error)), milliseconds) == Some(error),
{
}

/// A cleanup turns to temporary files and user applications only where the settings ask for it,
/// and keeps the settings that it was started with.
pub proof fn law_only_what_was_asked_for(run: CleanupView, reply: CleanupReplyView)
    ensures
        run.next(reply).stage == CleanupStage::ClearTemp ==> run.stage == CleanupStage::ClearTemp
            || run.settings.clean_temp,
        run.next(reply).stage == CleanupStage::CloseApps ==> run.stage == CleanupStage::CloseApps
            || run.settings.trim_background_apps,
        run.next(reply).settings == run.settings,
{
}

/// Whether someone is in after the first `n` events.
pub open spec fn is_running(events: Seq<GateEvent>, n: nat) -> bool
    decreases n,
{
    n > 0 && gate_next(is_running(events, (n - 1) as nat), events[n - 1])
}

/// How many are in after the first `n` events: one more for each that was let in, one less for
/// each that went out.
pub open spec fn inside(events: Seq<GateEvent>, n: nat) -> int
    decreases n,
{
    if n == 0 {
        0
    } else {
        let earlier = (n - 1) as nat;
        match events[n - 1] {
            GateEvent::Start => if admits(is_running(events, earlier)) {
                inside(events, earlier) + 1
            } else {
                inside(events, earlier)
            },
            GateEvent::Finish => inside(events, earlier) - 1,
        }
    }
}

/// However often cleanups are asked for, at most one is running, as long as only a running one
/// finishes.
pub proof fn law_one_at_a_time(events: Seq<GateEvent>, n: nat)
    requires
        n <= events.len(),
        forall|k: int|
            0 <= k < events.len() && #[trigger] events[k] is Finish ==> is_running(
                events,
                k as nat,
            ),
    ensures
        inside(events, n) == if is_running(events, n) {
            1int
        } else {
            0int
        },
    decreases n,
{
    if n > 0 {
        law_one_at_a_time(events, (n - 1) as nat);
        assert(events[n - 1] is Finish ==> is_running(events, (n - 1) as nat));
    }
}

} // verus!
