//! Laws of cleanups.
use vstd::prelude::*;
use crate::areas::{area_at, areas, MemoryArea};
use crate::cleanup::{
    after_areas, clean_memory, failures, run_memory_area, start_cleanup, successes, whole_cleanup,
    CleanupReply, CleanupReplyView, CleanupRun, CleanupStage, CleanupView, MemoryOptimizationReport,
    SingleFlight,
};
use crate::memory::{freed_megabytes, memory_snapshot, MemoryStatus};
use crate::number::decimal;
use crate::settings::{Settings, SettingsView};
use crate::text::strings;

verus! {

/// What a status says of closed applications and orphan processes.
pub open spec fn counts_part(closed: u32, terminated: u32) -> Seq<char> {
    "; closed "@ + decimal(closed as nat) + " user apps"@ + (if terminated == 0 {
        Seq::empty()
    } else {
        "; cleaned "@ + decimal(terminated as nat) + " orphan processes"@
    })
}

/// What a status says of areas.
pub open spec fn areas_part(report: MemoryOptimizationReport) -> Seq<char> {
    "; areas "@ + decimal(report.successful_areas as nat) + "/"@ + decimal(
        report.attempted_areas as nat,
    )
}

/// What a status says of skipped areas.
pub open spec fn skipped_part(report: MemoryOptimizationReport) -> Seq<char> {
    if report.failed_areas@.len() == 0 {
        Seq::empty()
    } else {
        "; skipped "@ + decimal(report.failed_areas@.len()) + " areas"@
    }
}

/// A status tells the difference of the two measurements, as megabytes, or that there is none, and
/// then the areas, the counts of the script and the skipped areas. The counts are those of the script
/// whatever became of the areas, and the areas are those of the report whatever the script counted.
pub proof fn law_status_reports_the_counts_of_the_script(
    settings: Settings,
    report: MemoryOptimizationReport,
    closed: u32,
    terminated: u32,
    freed: String,
    status: String,
)
    requires
        settings.trim_background_apps,
        report.used is Some ==> call_ensures(
            freed_megabytes,
            ((report.used->0).0, (report.used->0).1),
            freed,
        ),
        call_ensures(clean_memory, (&settings, &report, &Ok((closed, terminated))), status),
    ensures
        status@ == "Memory cleaned: "@ + (if report.used is Some {
            freed@ + " MB estimated physical delta"@
        } else {
            "measurement unavailable"@
        }) + areas_part(report) + counts_part(closed, terminated) + skipped_part(report),
{
    assert(strings(report.failed_areas@).len() == report.failed_areas@.len());
    assert(status@ =~= "Memory cleaned: "@ + (if report.used is Some {
        freed@ + " MB estimated physical delta"@
    } else {
        "measurement unavailable"@
    }) + areas_part(report) + counts_part(closed, terminated) + skipped_part(report));
}

/// Where the settings do not ask for applications, the status is that of a script which found none,
/// whatever a script would have said.
pub proof fn law_status_counts_only_what_was_asked_for(
    asking: Settings,
    silent: Settings,
    report: MemoryOptimizationReport,
    apps: Result<(u32, u32), String>,
    with_none: String,
    status: String,
)
    requires
        asking.trim_background_apps,
        !silent.trim_background_apps,
        call_ensures(clean_memory, (&asking, &report, &Ok((0u32, 0u32))), with_none),
        call_ensures(clean_memory, (&silent, &report, &apps), status),
    ensures
        status@ == with_none@,
{
}

/// A script that failed leaves the status of one which found nothing, and a word that it failed at
/// the end, whatever the error is.
pub proof fn law_failed_script_is_mentioned_last(
    settings: Settings,
    report: MemoryOptimizationReport,
    error: String,
    with_none: String,
    status: String,
)
    requires
        settings.trim_background_apps,
        call_ensures(clean_memory, (&settings, &report, &Ok((0u32, 0u32))), with_none),
        call_ensures(clean_memory, (&settings, &report, &Err(error)), status),
    ensures
        status@ == with_none@ + "; app cleanup failed"@,
{
    assert(status@ =~= with_none@ + "; app cleanup failed"@);
}

/// Two reports that differ only in the failed areas give statuses that differ only in the areas and
/// in the skipped ones: the front and the counts are the same.
pub proof fn law_failed_areas_do_not_change_the_counts(
    settings: Settings,
    report: MemoryOptimizationReport,
    other: MemoryOptimizationReport,
    counts: (u32, u32),
    status: String,
    other_status: String,
)
    requires
        settings.trim_background_apps,
        report.used == other.used,
        call_ensures(clean_memory, (&settings, &report, &Ok(counts)), status),
        call_ensures(clean_memory, (&settings, &other, &Ok(counts)), other_status),
    ensures
        exists|front: Seq<char>|
            {
                &&& status@ == #[trigger] (front + areas_part(report)) + counts_part(
                    counts.0,
                    counts.1,
                ) + skipped_part(report)
                &&& other_status@ == #[trigger] (front + areas_part(other)) + counts_part(
                    counts.0,
                    counts.1,
                ) + skipped_part(other)
            },
{
    assert(strings(report.failed_areas@).len() == report.failed_areas@.len());
    assert(strings(other.failed_areas@).len() == other.failed_areas@.len());
    let front = "Memory cleaned: "@ + crate::cleanup::measurement_text(report.used);
    assert(status@ =~= front + areas_part(report) + counts_part(counts.0, counts.1) + skipped_part(
        report,
    ));
    assert(other_status@ =~= front + areas_part(other) + counts_part(counts.0, counts.1)
        + skipped_part(other));
}

/// Each area that is tried is counted once. A success counts as one and leaves the failures alone; a
/// failure counts as none and is put behind the others with the name of its area.
pub proof fn law_areas_are_counted(
    report: &mut MemoryOptimizationReport,
    name: &str,
    result: Result<(), String>,
)
    requires
        old(report).attempted_areas < u32::MAX,
        old(report).successful_areas < u32::MAX,
        call_ensures(run_memory_area, (report, name, result), ()),
    ensures
        final(report).used == old(report).used,
        final(report).attempted_areas == old(report).attempted_areas + 1,
        result is Ok ==> final(report).successful_areas == old(report).successful_areas + 1
            && strings(final(report).failed_areas@) == strings(old(report).failed_areas@),
        result matches Err(error) ==> final(report).successful_areas == old(report).successful_areas
            && strings(final(report).failed_areas@) == strings(old(report).failed_areas@).push(
            name@ + ": "@ + error@,
        ),
{
}

/// A cleanup begins with nothing measured, tried or closed, and with the settings that it is given.
pub proof fn law_cleanups_begin_with_nothing(settings: Settings, run: CleanupRun)
    requires
        call_ensures(CleanupRun::begin, (settings,), run),
    ensures
        run.settings@ == settings@,
        run.stage == CleanupStage::MeasureBefore,
        run.before is None,
        run.report.used is None,
        run.report.attempted_areas == 0,
        run.report.successful_areas == 0,
        run.report.failed_areas@.len() == 0,
        run.apps is Ok,
        run.apps->Ok_0 == (0u32, 0u32),
{
    assert(strings(run.report.failed_areas@).len() == run.report.failed_areas@.len());
}

/// The first measurement is kept, and the first area follows, whether or not it came to anything.
pub proof fn law_areas_follow_the_first_measurement(
    run: &mut CleanupRun,
    status: Option<MemoryStatus>,
    milliseconds: &str,
    log: Option<String>,
)
    requires
        old(run)@.is_valid(),
        old(run).stage == CleanupStage::MeasureBefore,
        call_ensures(CleanupRun::step, (run, CleanupReply::Memory(status), milliseconds), log),
    ensures
        final(run).stage == CleanupStage::Area(0),
        final(run).before == status,
        final(run).settings@ == old(run).settings@,
        final(run)@.apps == old(run)@.apps,
        final(run).report@ == old(run).report@,
        log is None <==> status is Some,
        log matches Some(text) ==> text@ == "Memory snapshot before optimization unavailable."@,
{
}

/// Whatever came of an area, the next one follows, and the second measurement follows the last one.
/// The area is counted, and its line in the log tells its name, its time and its error.
pub proof fn law_every_area_follows_the_one_before(
    run: &mut CleanupRun,
    place: usize,
    area: MemoryArea,
    name: &'static str,
    result: Result<(), String>,
    milliseconds: &str,
    log: Option<String>,
)
    requires
        old(run)@.is_valid(),
        old(run).stage == CleanupStage::Area(place),
        call_ensures(area_at, (place,), area),
        call_ensures(MemoryArea::name, (area,), name),
        call_ensures(CleanupRun::step, (run, CleanupReply::Area(result), milliseconds), log),
    ensures
        place < 6 ==> final(run).stage == CleanupStage::Area((place + 1) as usize),
        place == 6 ==> final(run).stage == CleanupStage::MeasureAfter,
        place <= 6,
        final(run).settings@ == old(run).settings@,
        final(run)@.apps == old(run)@.apps,
        final(run).before == old(run).before,
        final(run).report.used == old(run).report.used,
        final(run).report.attempted_areas == old(run).report.attempted_areas + 1,
        result is Ok ==> {
            &&& final(run).report.successful_areas == old(run).report.successful_areas + 1
            &&& strings(final(run).report.failed_areas@) == strings(old(run).report.failed_areas@)
            &&& log matches Some(line) && line@ == "Memory area "@ + name@ + ": completed in "@
                + milliseconds@ + " ms"@
        },
        result matches Err(error) ==> {
            &&& final(run).report.successful_areas == old(run).report.successful_areas
            &&& strings(final(run).report.failed_areas@) == strings(
                old(run).report.failed_areas@,
            ).push(name@ + ": "@ + error@)
            &&& log matches Some(line) && line@ == "Memory area "@ + name@ + ": skipped after "@
                + milliseconds@ + " ms: "@ + error@
        },
{
}

/// After the second measurement the temporary files are gone through exactly when the settings ask
/// for that, whatever was measured, became of the areas or is asked of the applications; otherwise the
/// applications are closed exactly when the settings ask for that, and otherwise the cleanup is over.
pub proof fn law_settings_decide_what_follows_the_second_measurement(
    run: &mut CleanupRun,
    status: Option<MemoryStatus>,
    milliseconds: &str,
    log: Option<String>,
    snapshot: String,
)
    requires
        old(run)@.is_valid(),
        old(run).stage == CleanupStage::MeasureAfter,
        old(run).before is Some && status is Some ==> call_ensures(
            memory_snapshot,
            (old(run).before->0, status->0),
            snapshot,
        ),
        call_ensures(CleanupRun::step, (run, CleanupReply::Memory(status), milliseconds), log),
    ensures
        final(run).stage == CleanupStage::ClearTemp <==> old(run).settings.clean_temp,
        final(run).stage == CleanupStage::CloseApps <==> !old(run).settings.clean_temp && old(run).settings.trim_background_apps,
        final(run).stage == CleanupStage::Finished <==> !old(run).settings.clean_temp && !old(run).settings.trim_background_apps,
        final(run).settings@ == old(run).settings@,
        final(run)@.apps == old(run)@.apps,
        final(run).before == old(run).before,
        final(run).report.attempted_areas == old(run).report.attempted_areas,
        final(run).report.successful_areas == old(run).report.successful_areas,
        strings(final(run).report.failed_areas@) == strings(old(run).report.failed_areas@),
        old(run).before is Some && status is Some ==> {
            &&& final(run).report.used == Some(((old(run).before->0).used, (status->0).used))
            &&& log matches Some(line) && line@ == snapshot@
        },
        old(run).before is None || status is None ==> {
            &&& final(run).report.used is None
            &&& log matches Some(line) && line@
                == "Memory snapshot before or after optimization unavailable."@
        },
{
}

/// After the temporary files the applications are closed exactly when the settings ask for that.
pub proof fn law_settings_decide_what_follows_the_temporary_files(
    run: &mut CleanupRun,
    milliseconds: &str,
    log: Option<String>,
)
    requires
        old(run)@.is_valid(),
        old(run).stage == CleanupStage::ClearTemp,
        call_ensures(CleanupRun::step, (run, CleanupReply::TempCleared, milliseconds), log),
    ensures
        final(run).stage == CleanupStage::CloseApps <==> old(run).settings.trim_background_apps,
        final(run).stage == CleanupStage::Finished <==> !old(run).settings.trim_background_apps,
        final(run).settings@ == old(run).settings@,
        final(run)@.apps == old(run)@.apps,
        final(run).before == old(run).before,
        final(run).report@ == old(run).report@,
        log is None,
{
}

/// What came of the applications is kept as it is, and the cleanup is over; an error is logged.
pub proof fn law_applications_end_the_cleanup(
    run: &mut CleanupRun,
    apps: Result<(u32, u32), String>,
    milliseconds: &str,
    log: Option<String>,
)
    requires
        old(run)@.is_valid(),
        old(run).stage == CleanupStage::CloseApps,
        call_ensures(CleanupRun::step, (run, CleanupReply::Apps(apps), milliseconds), log),
    ensures
        final(run).stage == CleanupStage::Finished,
        final(run).settings@ == old(run).settings@,
        final(run).before == old(run).before,
        final(run).report@ == old(run).report@,
        apps matches Ok(counts) ==> final(run).apps is Ok && final(run).apps->Ok_0 == counts,
        apps matches Err(error) ==> final(run).apps is Err && (final(run).apps->Err_0)@ == error@,
        apps is Ok ==> log is None,
        apps matches Err(error) ==> log is Some && (log->0)@ == error@,
{
}

/// A reply that does not belong to the step, or that comes after the end, changes nothing and is not
/// logged.
pub proof fn law_other_replies_do_not_move_a_cleanup(
    run: &mut CleanupRun,
    reply: CleanupReply,
    milliseconds: &str,
    log: Option<String>,
)
    requires
        old(run)@.is_valid(),
        old(run).stage is MeasureBefore || old(run).stage is MeasureAfter ==> !(reply is Memory),
        old(run).stage is Area ==> !(reply is Area),
        old(run).stage is ClearTemp ==> !(reply is TempCleared),
        old(run).stage is CloseApps ==> !(reply is Apps),
        call_ensures(CleanupRun::step, (run, reply, milliseconds), log),
    ensures
        final(run)@ == old(run)@,
        log is None,
{
}

/// The area that is next is the one at the place that the stage tells, and there is one exactly while
/// the areas are under way.
pub proof fn law_stage_tells_the_area(run: CleanupRun, area: Option<MemoryArea>, named: MemoryArea)
    requires
        run@.is_valid(),
        run.stage is Area ==> call_ensures(area_at, (run.stage->Area_0,), named),
        call_ensures(CleanupRun::area, (&run,), area),
    ensures
        area is Some <==> run.stage is Area,
        area is Some ==> area->0 == named,
{
}

/// A cleanup says what its settings, its report and its applications make the status.
pub proof fn law_cleanup_says_its_status(run: CleanupRun, said: String, status: String)
    requires
        call_ensures(CleanupRun::status, (&run,), said),
        call_ensures(clean_memory, (&run.settings, &run.report, &run.apps), status),
    ensures
        said@ == status@,
{
}

/// How far a stage is along a cleanup.
pub open spec fn progress(stage: CleanupStage) -> int {
    match stage {
        CleanupStage::MeasureBefore => 0,
        CleanupStage::Area(place) => 1 + place,
        CleanupStage::MeasureAfter => 8,
        CleanupStage::ClearTemp => 9,
        CleanupStage::CloseApps => 10,
        CleanupStage::Finished => 11,
    }
}

/// A cleanup never goes back: a step leads on, or changes nothing at all. So no stage comes twice.
pub proof fn law_cleanups_never_go_back(run: CleanupView, reply: CleanupReplyView)
    requires
        run.is_valid(),
    ensures
        run.next(reply) == run || progress(run.stage) < progress(run.next(reply).stage),
{
}

/// The cleanups of a run from its start on: before the first step, after the first measurement, after
/// each area, after the second measurement, after the temporary files and after the applications.
pub open spec fn whole_run(
    settings: SettingsView,
    before: Option<MemoryStatus>,
    results: Seq<Result<(), Seq<char>>>,
    after: Option<MemoryStatus>,
    apps: Result<(u32, u32), Seq<char>>,
) -> Seq<CleanupView> {
    let measured = after_areas(settings, before, results, 7).next(CleanupReplyView::Memory(after));
    let cleared = measured.next(CleanupReplyView::TempCleared);
    seq![CleanupView::start(settings)] + Seq::new(
        8,
        |n: int| after_areas(settings, before, results, n as nat),
    ) + seq![measured, cleared, cleared.next(CleanupReplyView::Apps(apps))]
}

proof fn lemma_after_some_areas(
    settings: SettingsView,
    before: Option<MemoryStatus>,
    results: Seq<Result<(), Seq<char>>>,
    n: nat,
)
    requires
        n <= 7,
    ensures
        ({
            let run = after_areas(settings, before, results, n);
            &&& run.settings == settings
            &&& run.before == before
            &&& run.apps == Ok::<(u32, u32), Seq<char>>((0u32, 0u32))
            &&& run.report.attempted == n
            &&& n < 7 ==> run.stage == CleanupStage::Area(n as usize)
            &&& n == 7 ==> run.stage == CleanupStage::MeasureAfter
        }),
    decreases n,
{
    if n > 0 {
        lemma_after_some_areas(settings, before, results, (n - 1) as nat);
    }
}

/// A whole cleanup clears the temporary files exactly when the settings ask for that, and closes the
/// applications exactly when they ask for that, whatever is measured and whatever becomes of the areas
/// and of the applications; then it is over.
pub proof fn law_whole_cleanup_does_what_was_asked_for(
    settings: SettingsView,
    before: Option<MemoryStatus>,
    results: Seq<Result<(), Seq<char>>>,
    after: Option<MemoryStatus>,
    apps: Result<(u32, u32), Seq<char>>,
)
    requires
        results.len() == 7,
    ensures
        ({
            let run = whole_run(settings, before, results, after, apps);
            &&& forall|k: int|
                0 <= k < run.len() ==> ((#[trigger] run[k]).stage == CleanupStage::ClearTemp <==> k
                    == 9 && settings.clean_temp)
            &&& (exists|k: int|
                0 <= k < run.len() && (#[trigger] run[k]).stage == CleanupStage::CloseApps)
                <==> settings.trim_background_apps
            &&& run.last().stage == CleanupStage::Finished
        }),
{
    let run = whole_run(settings, before, results, after, apps);
    assert(run.len() == 12);
    assert forall|k: int| 1 <= k <= 8 implies (#[trigger] run[k]).stage != CleanupStage::ClearTemp
        && run[k].stage != CleanupStage::CloseApps by {
        lemma_after_some_areas(settings, before, results, (k - 1) as nat);
        assert(run[k] == after_areas(settings, before, results, (k - 1) as nat));
    }
    lemma_after_some_areas(settings, before, results, 7);
    assert(run[0] == CleanupView::start(settings));
    let measured = after_areas(settings, before, results, 7).next(CleanupReplyView::Memory(after));
    let cleared = measured.next(CleanupReplyView::TempCleared);
    assert(run[9] == measured);
    assert(run[10] == cleared);
    assert(run[11] == cleared.next(CleanupReplyView::Apps(apps)));
    if settings.trim_background_apps {
        assert(run[10].stage == CleanupStage::CloseApps);
    }
}

/// The areas with what came of them, in the order in which they are tried.
pub open spec fn tried(results: Seq<Result<(), Seq<char>>>, n: nat) -> Seq<
    (MemoryArea, Result<(), Seq<char>>),
> {
    Seq::new(n, |k: int| (areas()[k], results[k]))
}

proof fn lemma_tried(results: Seq<Result<(), Seq<char>>>, n: nat)
    requires
        n <= results.len(),
    ensures
        successes(results, n) == tried(results, n).filter(
            |one: (MemoryArea, Result<(), Seq<char>>)| one.1 is Ok,
        ).len(),
        failures(results, n) == tried(results, n).filter(
            |one: (MemoryArea, Result<(), Seq<char>>)| one.1 is Err,
        ).map_values(
            |one: (MemoryArea, Result<(), Seq<char>>)| one.0.label() + ": "@ + one.1->Err_0,
        ),
    decreases n,
{
    reveal(Seq::filter);
    if n > 0 {
        let m = (n - 1) as nat;
        lemma_tried(results, m);
        assert(tried(results, n).drop_last() =~= tried(results, m));
        assert(tried(results, n).last() == (areas()[m as int], results[m as int]));
        let good = |one: (MemoryArea, Result<(), Seq<char>>)| one.1 is Ok;
        let bad = |one: (MemoryArea, Result<(), Seq<char>>)| one.1 is Err;
        let entry = |one: (MemoryArea, Result<(), Seq<char>>)|
            one.0.label() + ": "@ + one.1->Err_0;
        let earlier = tried(results, m).filter(bad);
        if results[m as int] is Err {
            assert(tried(results, n).filter(bad) == earlier.push(tried(results, n).last()));
            assert(earlier.push(tried(results, n).last()).map_values(entry)
                =~= earlier.map_values(entry).push(entry(tried(results, n).last())));
        } else {
            assert(tried(results, n).filter(good) == tried(results, m).filter(good).push(
                tried(results, n).last(),
            ));
        }
    } else {
        assert(tried(results, n).filter(
            |one: (MemoryArea, Result<(), Seq<char>>)| one.1 is Err,
        ).map_values(
            |one: (MemoryArea, Result<(), Seq<char>>)| one.0.label() + ": "@ + one.1->Err_0,
        ) =~= Seq::empty());
    }
}

/// The report of a whole cleanup counts the areas that were optimized, tells each other one with its
/// name and its error in the order of the areas, and holds the two measurements.
pub proof fn law_report_tells_what_became_of_the_areas(
    settings: SettingsView,
    before: Option<MemoryStatus>,
    results: Seq<Result<(), Seq<char>>>,
    after: Option<MemoryStatus>,
    apps: Result<(u32, u32), Seq<char>>,
)
    requires
        results.len() == 7,
    ensures
        ({
            let report = whole_cleanup(settings, before, results, after, apps).report;
            &&& report.attempted == 7
            &&& report.successful == tried(results, 7).filter(
                |one: (MemoryArea, Result<(), Seq<char>>)| one.1 is Ok,
            ).len()
            &&& report.failed == tried(results, 7).filter(
                |one: (MemoryArea, Result<(), Seq<char>>)| one.1 is Err,
            ).map_values(
                |one: (MemoryArea, Result<(), Seq<char>>)| one.0.label() + ": "@ + one.1->Err_0,
            )
            &&& before is Some && after is Some ==> report.used == Some(
                ((before->0).used, (after->0).used),
            )
            &&& before is None || after is None ==> report.used is None
        }),
{
    lemma_tried(results, 7);
    lemma_after_some_areas(settings, before, results, 7);
    crate::cleanup::law_every_area_is_tried(settings, before, results, after, apps);
}

/// Whoever asks to go in is let in exactly when nobody is in; then, and also otherwise, someone is in.
pub proof fn law_gate_lets_one_in(gate: &mut SingleFlight, started: bool)
    requires
        call_ensures(SingleFlight::try_start, (gate,), started),
    ensures
        started <==> !old(gate).running,
        final(gate).running,
{
}

/// Nobody is in once someone went out.
pub proof fn law_gate_is_open_again(gate: &mut SingleFlight)
    requires
        call_ensures(SingleFlight::finish, (gate,), ()),
    ensures
        !final(gate).running,
{
}

/// A cleanup that is asked for while another runs is refused, with a word for the window.
pub proof fn law_second_cleanup_is_refused(gate: &mut SingleFlight, refused: Option<&'static str>)
    requires
        call_ensures(start_cleanup, (gate,), refused),
    ensures
        refused is Some <==> old(gate).running,
        refused matches Some(text) ==> text@ == "Cleanup already running."@,
        final(gate).running,
{
}

} // verus!
