use ramopt::cleanup::{
    clean_memory, run_memory_area, start_cleanup, CleanupReply, CleanupRun, CleanupStage,
    MemoryOptimizationReport, SingleFlight,
};
use ramopt::memory::MemoryStatus;
use ramopt::settings::Settings;

fn settings(clean_temp: bool, trim_background_apps: bool) -> Settings {
    let mut settings = Settings::default();
    settings.clean_temp = clean_temp;
    settings.trim_background_apps = trim_background_apps;
    settings
}

fn memory(megabytes: u64) -> Option<MemoryStatus> {
    Some(MemoryStatus { used: megabytes << 20, total: 1 << 40 })
}

/// Runs a whole cleanup and tells the stages that it went through.
fn clean(
    settings: Settings,
    before: Option<MemoryStatus>,
    after: Option<MemoryStatus>,
    failing: &[&str],
    apps: Result<(u32, u32), String>,
) -> (Vec<String>, String) {
    let mut run = CleanupRun::begin(settings);
    let mut stages: Vec<String> = vec![];
    loop {
        let reply = match run.stage {
            CleanupStage::MeasureBefore => CleanupReply::Memory(before),
            CleanupStage::Area(_) => {
                let name = run.area().expect("an area").name();
                stages.push(name.to_string());
                CleanupReply::Area(if failing.contains(&name) {
                    Err("broken".to_string())
                } else {
                    Ok(())
                })
            }
            CleanupStage::MeasureAfter => CleanupReply::Memory(after),
            CleanupStage::ClearTemp => {
                stages.push("temp".to_string());
                CleanupReply::TempCleared
            }
            CleanupStage::CloseApps => {
                stages.push("apps".to_string());
                CleanupReply::Apps(apps.clone())
            }
            CleanupStage::Finished => return (stages, run.status()),
        };
        run.step(reply, "7");
    }
}

#[test]
fn a_cleanup_that_goes_well() {
    let (stages, status) = clean(settings(true, true), memory(300), memory(100), &[], Ok((2, 1)));
    assert_eq!(
        stages,
        vec![
            "working set",
            "system file cache",
            "modified page list",
            "standby list",
            "combined page list",
            "registry cache",
            "modified file cache",
            "temp",
            "apps",
        ]
    );
    assert_eq!(
        status,
        "Memory cleaned: 200.0 MB estimated physical delta; areas 7/7; closed 2 user apps; cleaned 1 orphan processes"
    );
}

#[test]
fn failing_areas_do_not_stop_the_others() {
    let (stages, status) = clean(
        settings(false, false),
        memory(100),
        memory(101),
        &["working set", "registry cache"],
        Ok((9, 9)),
    );
    assert_eq!(stages.len(), 7);
    assert_eq!(
        status,
        "Memory cleaned: -1.0 MB estimated physical delta; areas 5/7; closed 0 user apps; skipped 2 areas"
    );
}

#[test]
fn a_cleanup_without_a_measurement() {
    let all = [
        "working set", "system file cache", "modified page list", "standby list",
        "combined page list", "registry cache", "modified file cache",
    ];
    for (before, after) in [(None, memory(1)), (memory(1), None), (None, None)] {
        let (stages, status) =
            clean(settings(true, true), before, after, &all, Err("no shell".to_string()));
        assert_eq!(stages.len(), 9);
        assert_eq!(
            status,
            "Memory cleaned: measurement unavailable; areas 0/7; closed 0 user apps; skipped 7 areas; app cleanup failed"
        );
    }
}

#[test]
fn a_cleanup_does_only_what_was_asked_for() {
    let (stages, _) = clean(settings(true, false), None, None, &[], Ok((0, 0)));
    assert_eq!(stages.last().map(String::as_str), Some("temp"));
    let (stages, _) = clean(settings(false, true), None, None, &[], Ok((0, 0)));
    assert_eq!(stages.last().map(String::as_str), Some("apps"));
    assert!(!stages.contains(&"temp".to_string()));
    let (stages, _) = clean(settings(false, false), None, None, &[], Ok((0, 0)));
    assert_eq!(stages.last().map(String::as_str), Some("modified file cache"));
}

#[test]
fn replies_out_of_turn_are_ignored() {
    let mut run = CleanupRun::begin(settings(true, true));
    assert_eq!(run.step(CleanupReply::TempCleared, "1"), None);
    assert_eq!(run.stage, CleanupStage::MeasureBefore);
    run.step(CleanupReply::Memory(None), "1");
    assert_eq!(run.step(CleanupReply::Memory(None), "1"), None);
    assert_eq!(run.stage, CleanupStage::Area(0));
}

#[test]
fn reports_count_areas() {
    let mut report = MemoryOptimizationReport::default();
    run_memory_area(&mut report, "working set", Ok(()));
    run_memory_area(&mut report, "standby list", Err("denied".to_string()));
    assert_eq!(report.attempted_areas, 2);
    assert_eq!(report.successful_areas, 1);
    assert_eq!(report.failed_areas, vec!["standby list: denied".to_string()]);
    assert_eq!(report.used, None);
}

#[test]
fn applications_count_only_where_they_were_asked_for() {
    let report = MemoryOptimizationReport::default();
    assert_eq!(
        clean_memory(&settings(true, false), &report, &Ok((3, 4))),
        "Memory cleaned: measurement unavailable; areas 0/0; closed 0 user apps"
    );
    assert_eq!(
        clean_memory(&settings(true, false), &report, &Err("x".to_string())),
        "Memory cleaned: measurement unavailable; areas 0/0; closed 0 user apps"
    );
    assert_eq!(
        clean_memory(&settings(true, true), &report, &Ok((3, 0))),
        "Memory cleaned: measurement unavailable; areas 0/0; closed 3 user apps"
    );
}

#[test]
fn one_cleanup_at_a_time() {
    let mut gate = SingleFlight::new();
    assert_eq!(start_cleanup(&mut gate), None);
    assert_eq!(start_cleanup(&mut gate), Some("Cleanup already running."));
    assert_eq!(start_cleanup(&mut gate), Some("Cleanup already running."));
    gate.finish();
    assert_eq!(start_cleanup(&mut gate), None);
    assert!(gate.running);
}

/// The lines that a whole cleanup leaves in the log.
fn logged(before: Option<MemoryStatus>, after: Option<MemoryStatus>, apps: Result<(u32, u32), String>) -> Vec<String> {
    let mut run = CleanupRun::begin(settings(true, true));
    let mut lines: Vec<String> = vec![];
    loop {
        let reply = match run.stage {
            CleanupStage::MeasureBefore => CleanupReply::Memory(before),
            CleanupStage::Area(3) => CleanupReply::Area(Err("denied".to_string())),
            CleanupStage::Area(_) => CleanupReply::Area(Ok(())),
            CleanupStage::MeasureAfter => CleanupReply::Memory(after),
            CleanupStage::ClearTemp => CleanupReply::TempCleared,
            CleanupStage::CloseApps => CleanupReply::Apps(apps.clone()),
            CleanupStage::Finished => return lines,
        };
        lines.extend(run.step(reply, "12"));
    }
}

#[test]
fn each_area_is_logged_separately() {
    assert_eq!(
        logged(memory(3), memory(2), Ok((0, 0))),
        vec![
            "Memory area working set: completed in 12 ms",
            "Memory area system file cache: completed in 12 ms",
            "Memory area modified page list: completed in 12 ms",
            "Memory area standby list: skipped after 12 ms: denied",
            "Memory area combined page list: completed in 12 ms",
            "Memory area registry cache: completed in 12 ms",
            "Memory area modified file cache: completed in 12 ms",
            "Memory snapshot: used 3 -> 2 MB; available 1048573 -> 1048574 MB",
        ]
    );
}

#[test]
fn what_is_unavailable_is_logged() {
    let lines = logged(None, memory(2), Err("boom".to_string()));
    assert_eq!(lines.len(), 10);
    assert_eq!(lines[0], "Memory snapshot before optimization unavailable.");
    assert_eq!(lines[8], "Memory snapshot before or after optimization unavailable.");
    assert_eq!(lines[9], "boom");
    let lines = logged(memory(2), None, Ok((0, 0)));
    assert_eq!(lines.len(), 8);
    assert_eq!(lines[7], "Memory snapshot before or after optimization unavailable.");
}

#[test]
fn an_application_error_leaves_its_mark_on_the_status() {
    let (_, status) = clean(settings(true, true), None, None, &[], Err("boom".to_string()));
    assert_eq!(
        status,
        "Memory cleaned: measurement unavailable; areas 7/7; closed 0 user apps; app cleanup failed"
    );
}
