use ramopt::instance::{
    mutex_name, show_event_name, start_instance, InstanceReply, InstanceStage,
};
use ramopt::locations::{
    data_directory, legacy_settings_path, log_path, rotated_log_path, settings_draft_path,
    settings_path, system_binary, updater_path, BaseFolder, Location,
};
use ramopt::logfile::{log, push_log, LOG_ROTATE_BYTES};
use ramopt::settings::Settings;
use ramopt::startup::{run_key, run_value, set_startup, StartupReply, StartupStage};
use ramopt::temp::{clear_temp, clear_temp_folder, temp_folders, TempEntry, TempFolder};
use ramopt::timer::{plan_wait, timer_fires, TimerWait};
use ramopt::window::{
    center_if_possible, center_window, close_quits, show_event_fires, show_failure, Edges,
};

fn place(location: Location) -> (BaseFolder, String) {
    (location.base, location.names.join("/"))
}

#[test]
fn files_of_the_program() {
    let own = BaseFolder::LocalAppData;
    assert_eq!(place(data_directory(true)), (own, "RAMOpt".to_string()));
    assert_eq!(place(data_directory(false)), (BaseFolder::Program, String::new()));
    assert_eq!(place(settings_path(true)), (own, "RAMOpt/settings.json".to_string()));
    assert_eq!(place(settings_draft_path(true)), (own, "RAMOpt/settings.json.tmp".to_string()));
    assert_eq!(place(log_path(true)), (own, "RAMOpt/ramopt.log".to_string()));
    assert_eq!(place(rotated_log_path(true)), (own, "RAMOpt/ramopt.log.1".to_string()));
    assert_eq!(place(settings_path(false)), place(legacy_settings_path()));
    assert_ne!(place(settings_path(true)), place(legacy_settings_path()));
    assert_eq!(place(updater_path()), (BaseFolder::Program, "RAMOpt-updater.bat".to_string()));
    assert_eq!(
        place(system_binary(true, "cmd.exe")),
        (BaseFolder::SystemRoot, "System32/cmd.exe".to_string())
    );
    assert_eq!(
        place(system_binary(false, "cmd.exe")),
        (BaseFolder::Windows, "System32/cmd.exe".to_string())
    );
}

#[test]
fn lines_of_the_log() {
    let write = log(None, 1700000000, "Hotkey pressed.");
    assert!(!write.rotate);
    assert_eq!(write.line, "1700000000 | Hotkey pressed.\n");
    assert!(!log(Some(LOG_ROTATE_BYTES - 1), 0, "").rotate);
    assert!(log(Some(LOG_ROTATE_BYTES), 0, "").rotate);
    assert_eq!(log(Some(2 * 1024 * 1024), 0, "").line, "0 | \n");
    assert!(log(Some(2 * 1024 * 1024), 0, "").rotate);
}

#[test]
fn entries_of_the_window() {
    assert_eq!(push_log("", "one"), "\u{2022} one");
    assert_eq!(push_log("\u{2022} one", "two"), "\u{2022} one\n\u{2022} two");
    assert_eq!(push_log("plain\n\n\u{2022} \u{2022} twice\r\n", "\u{2022} new"), "\u{2022} plain\n\u{2022} twice\n\u{2022} new");
    assert_eq!(push_log("\u{2022} one", ""), "\u{2022} one");
    assert_eq!(push_log("", ""), "");
}

#[test]
fn the_window_shows_the_last_five_messages() {
    let mut shown = String::new();
    for n in 1..=8 {
        shown = push_log(&shown, &format!("cleanup {n}"));
    }
    assert_eq!(
        shown,
        "\u{2022} cleanup 4\n\u{2022} cleanup 5\n\u{2022} cleanup 6\n\u{2022} cleanup 7\n\u{2022} cleanup 8"
    );
}

fn entry(is_symlink: bool, is_file: bool, age_seconds: Option<u64>) -> Option<TempEntry> {
    Some(TempEntry { is_symlink, is_file, age_seconds })
}

#[test]
fn stale_files_are_removed() {
    let entries = vec![
        entry(false, true, Some(86399)),
        entry(false, true, Some(86400)),
        entry(true, true, Some(999999)),
        entry(false, false, Some(999999)),
        None,
        entry(false, true, None),
        entry(false, true, Some(u64::MAX)),
    ];
    assert_eq!(clear_temp_folder(&entries), vec![1, 6]);
    assert_eq!(clear_temp_folder(&vec![]), Vec::<usize>::new());
    assert_eq!(clear_temp(&vec![true, false, true]), 2);
    assert_eq!(clear_temp(&vec![]), 0);
}

#[test]
fn folders_of_temporary_files() {
    assert_eq!(temp_folders(), vec![TempFolder::User, TempFolder::Windows]);
    assert_eq!(TempFolder::User.path(), None);
    assert_eq!(TempFolder::Windows.path(), Some(r"C:\Windows\Temp"));
}

fn end(stage: StartupStage) -> Result<(), String> {
    match stage {
        StartupStage::Finished(result) => result,
        other => panic!("{other:?}"),
    }
}

fn failed(error: &str, code: Option<i32>) -> StartupReply {
    StartupReply::Failed { error: error.to_string(), code }
}

#[test]
fn the_start_at_sign_in_is_turned_on() {
    assert_eq!(run_key(), r"Software\Microsoft\Windows\CurrentVersion\Run");
    assert_eq!(run_value(), "RAMOpt");
    let stage = set_startup(true, StartupStage::OpenKey, StartupReply::Done);
    assert!(matches!(stage, StartupStage::FindProgram));
    let stage = set_startup(true, stage, StartupReply::Program(r"C:\My Tools\RAMOpt.exe".to_string()));
    assert!(matches!(&stage, StartupStage::SetValue(value) if value == "\"C:\\My Tools\\RAMOpt.exe\""));
    assert_eq!(end(set_startup(true, stage, StartupReply::Done)), Ok(()));
    let refused = set_startup(true, StartupStage::OpenKey, failed("denied", Some(2)));
    assert_eq!(end(refused), Err("denied".to_string()));
    let lost = set_startup(true, StartupStage::FindProgram, failed("lost", None));
    assert_eq!(end(lost), Err("lost".to_string()));
    let unset = set_startup(true, StartupStage::SetValue("x".to_string()), failed("full", Some(2)));
    assert_eq!(end(unset), Err("full".to_string()));
}

#[test]
fn the_start_at_sign_in_is_turned_off() {
    let stage = || set_startup(false, StartupStage::OpenKey, StartupReply::Done);
    assert!(matches!(stage(), StartupStage::DeleteValue));
    assert_eq!(end(set_startup(false, stage(), StartupReply::Done)), Ok(()));
    assert_eq!(end(set_startup(false, stage(), failed("absent", Some(2)))), Ok(()));
    assert_eq!(end(set_startup(false, stage(), failed("denied", Some(5)))), Err("denied".to_string()));
    assert_eq!(end(set_startup(false, stage(), failed("odd", None))), Err("odd".to_string()));
}

#[test]
fn the_schedule() {
    assert_eq!(plan_wait(0), TimerWait { seconds: 30, due: false });
    assert_eq!(plan_wait(1), TimerWait { seconds: 60, due: true });
    assert_eq!(plan_wait(15), TimerWait { seconds: 900, due: true });
    assert_eq!(plan_wait(u32::MAX), TimerWait { seconds: 86400, due: true });
    let mut settings = Settings::default();
    assert!(!timer_fires(plan_wait(15), &settings));
    settings.auto_clean = true;
    assert!(timer_fires(plan_wait(15), &settings));
    assert!(!timer_fires(plan_wait(0), &settings));
}

#[test]
fn the_window_stands_in_the_middle() {
    let edges = |right: i32, bottom: i32| Edges { left: 0, top: 0, right, bottom };
    assert_eq!(center_window(1920, 1080, edges(800, 600)), (560, 240));
    assert_eq!(center_window(1921, 1080, edges(800, 601)), (560, 239));
    assert_eq!(center_window(100, 100, edges(103, 200)), (-1, -50));
    assert_eq!(
        center_window(1000, 1000, Edges { left: 100, top: 200, right: 300, bottom: 250 }),
        (400, 475)
    );
    assert_eq!(center_if_possible(1920, 1080, edges(800, 600)), Some((560, 240)));
    let wide = Edges { left: i32::MIN, top: 0, right: 1, bottom: 1 };
    assert_eq!(center_if_possible(10, 10, wide), None);
    let high = Edges { left: 0, top: i32::MIN, right: 1, bottom: 1 };
    assert_eq!(center_if_possible(10, 10, high), None);
    assert_eq!(center_if_possible(i32::MAX, 10, Edges { left: 0, top: 0, right: -1, bottom: 1 }), None);
}

#[test]
fn closing_and_showing_the_window() {
    assert!(!close_quits(true));
    assert!(close_quits(false));
    assert!(show_event_fires(0, false));
    assert!(!show_event_fires(0, true));
    assert!(!show_event_fires(258, false));
    assert_eq!(
        show_failure("tray click", "no window"),
        "Show window failed from tray click: no window"
    );
}

fn exit(stage: InstanceStage) -> (i32, Option<String>) {
    match stage {
        InstanceStage::Exit { code, log } => (code, log),
        other => panic!("{other:?}"),
    }
}

fn handle(is_null: bool, last_error: u32) -> InstanceReply {
    InstanceReply::Handle { is_null, last_error }
}

#[test]
fn only_one_instance_runs() {
    assert_eq!(mutex_name(), "RAMOpt.SingleInstance");
    assert_eq!(show_event_name(), "RAMOpt.ShowEvent");
    let second = start_instance(InstanceStage::CreateMutex, handle(false, 183));
    assert!(matches!(second, InstanceStage::SignalOther));
    assert_eq!(exit(start_instance(second, InstanceReply::Signalled)), (0, None));
    assert_eq!(
        exit(start_instance(InstanceStage::CreateMutex, handle(true, 5))),
        (1, Some("failed to create RAMOpt instance mutex".to_string()))
    );
}

#[test]
fn the_first_instance_runs() {
    let stage = start_instance(InstanceStage::CreateMutex, handle(false, 0));
    assert!(matches!(stage, InstanceStage::CreateEvent));
    assert_eq!(
        exit(start_instance(InstanceStage::CreateEvent, handle(true, 5))),
        (1, Some("failed to create RAMOpt show event".to_string()))
    );
    let stage = start_instance(stage, handle(false, 183));
    assert!(matches!(stage, InstanceStage::Run));
    assert_eq!(exit(start_instance(stage, InstanceReply::Ran(Ok(())))), (0, None));
    assert_eq!(
        exit(start_instance(InstanceStage::Run, InstanceReply::Ran(Err("no display".to_string())))),
        (1, Some("RAMOpt stopped: no display".to_string()))
    );
}
