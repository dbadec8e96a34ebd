use ramopt::changes::{clean_now, Change, ChangeStage};
use ramopt::settings::{sync_ui, Settings};
use ramopt::tray::{
    ends_program, item_at, opens_window, sync_checks, tray_action, tray_menu, update_menu, MenuEntry, TrayAction,
    TrayClick, TrayItem, TrayToggle,
};

/// What lies outside the program.
struct World {
    registered: bool,
    file: String,
    control: Option<bool>,
}

fn text(settings: &Settings) -> String {
    format!("{settings:?}")
}

fn world(settings: &Settings) -> World {
    World { registered: settings.start_with_windows, file: text(settings), control: None }
}

/// Carries a change out, with what the steps come to, and tells what is shown and what is logged.
fn carry_out(
    change: &mut Change,
    world: &mut World,
    startup: Result<(), String>,
    save: Result<(), String>,
) -> (Vec<String>, Vec<String>) {
    let mut shown: Vec<String> = vec![];
    let mut logged: Vec<String> = vec![];
    loop {
        let reply = match change.stage {
            ChangeStage::SetStartup => {
                if startup.is_ok() {
                    world.registered = change.settings.start_with_windows;
                }
                startup.clone()
            }
            ChangeStage::Save => {
                if save.is_ok() {
                    world.file = text(&change.settings);
                }
                save.clone()
            }
            ChangeStage::RollBack(value) => {
                world.registered = value;
                Ok(())
            }
            ChangeStage::Saved | ChangeStage::Abandoned => return (shown, logged),
        };
        if let Some(notice) = change.step(reply) {
            shown.extend(notice.shown);
            logged.extend(notice.logged);
            if notice.startup_control.is_some() {
                world.control = notice.startup_control;
            }
        }
    }
}

fn bad(error: &str) -> Result<(), String> {
    Err(error.to_string())
}

fn other() -> Settings {
    let mut settings = Settings::default();
    settings.start_with_windows = true;
    settings.hotkey = "shift+KeyQ".to_string();
    settings.dark_mode = true;
    settings
}

#[test]
fn a_change_of_the_window() {
    let previous = Settings::default();
    let mut outside = world(&previous);
    let mut change = Change::persist(previous, sync_ui(&other()));
    assert_eq!(change.stage, ChangeStage::SetStartup);
    assert_eq!(carry_out(&mut change, &mut outside, Ok(()), Ok(())), (vec![], vec![]));
    assert_eq!(change.stage, ChangeStage::Saved);
    assert_eq!(text(&change.result()), text(&other()));
    assert_eq!(change.hotkey_update(), Some("shift+KeyQ".to_string()));
    assert!(outside.registered);
    assert_eq!(outside.file, text(&other()));
    assert!(!change.updates_window());
    assert!(change.updates_tray());
}

#[test]
fn a_change_that_leaves_the_start_alone() {
    let mut wanted = Settings::default();
    wanted.dark_mode = true;
    let change = Change::persist(Settings::default(), sync_ui(&wanted));
    assert_eq!(change.stage, ChangeStage::Save);
    assert_eq!(change.hotkey_update(), None);
}

#[test]
fn a_start_that_cannot_be_set_is_left_out() {
    let previous = Settings::default();
    let mut outside = world(&previous);
    let mut change = Change::persist(previous, sync_ui(&other()));
    let notice = "Startup setting failed: denied".to_string();
    assert_eq!(
        carry_out(&mut change, &mut outside, bad("denied"), Ok(())),
        (vec![notice.clone()], vec![notice])
    );
    assert_eq!(change.stage, ChangeStage::Saved);
    let kept = change.result();
    assert!(!kept.start_with_windows);
    assert!(kept.dark_mode);
    assert_eq!(outside.control, Some(false));
    assert!(!outside.registered);
    assert_eq!(outside.file, text(&kept));
}

#[test]
fn a_change_that_cannot_be_saved_is_undone() {
    let previous = Settings::default();
    let mut outside = world(&previous);
    let mut change = Change::persist(previous, sync_ui(&other()));
    let notice = "Settings save failed: full".to_string();
    assert_eq!(
        carry_out(&mut change, &mut outside, Ok(()), bad("full")),
        (vec![notice.clone()], vec![notice])
    );
    assert_eq!(change.stage, ChangeStage::Abandoned);
    assert_eq!(text(&change.result()), text(&Settings::default()));
    assert_eq!(change.hotkey_update(), None);
    assert_eq!(outside.control, None);
    assert!(!outside.registered);
    assert_eq!(outside.file, text(&Settings::default()));
}

#[test]
fn nothing_is_rolled_back_where_nothing_was_set() {
    let mut change = Change::persist(Settings::default(), sync_ui(&other()));
    change.step(bad("denied"));
    assert_eq!(change.stage, ChangeStage::Save);
    change.step(bad("full"));
    assert_eq!(change.stage, ChangeStage::Abandoned);
}

#[test]
fn restoring_the_defaults() {
    let mut outside = world(&other());
    let mut change = Change::restore_defaults(other());
    assert_eq!(carry_out(&mut change, &mut outside, Ok(()), Ok(())), (vec![], vec![]));
    assert_eq!(text(&change.result()), text(&Settings::default()));
    assert_eq!(change.hotkey_update(), Some("ctrl+alt+KeyR".to_string()));
    assert!(!outside.registered);
    assert!(change.updates_window() && change.updates_tray());

    let mut again = Change::restore_defaults(Settings::default());
    carry_out(&mut again, &mut outside, Ok(()), Ok(()));
    assert_eq!(again.hotkey_update(), Some("ctrl+alt+KeyR".to_string()));
}

#[test]
fn defaults_that_cannot_be_restored() {
    let mut outside = world(&other());
    let mut change = Change::restore_defaults(other());
    assert_eq!(
        carry_out(&mut change, &mut outside, bad("denied"), Ok(())),
        (vec!["Startup setting failed: denied".to_string()], vec![])
    );
    assert_eq!(text(&change.result()), text(&other()));
    assert!(outside.registered);

    let mut change = Change::restore_defaults(other());
    assert_eq!(
        carry_out(&mut change, &mut outside, Ok(()), bad("full")),
        (
            vec!["Settings save failed: full".to_string()],
            vec!["Settings save failed restoring defaults: full".to_string()]
        )
    );
    assert_eq!(text(&change.result()), text(&other()));
    assert!(outside.registered);
    assert_eq!(outside.file, text(&other()));
    assert!(!change.updates_window() && !change.updates_tray());
}

#[test]
fn toggles_of_the_tray_menu() {
    for toggle in [TrayToggle::Auto, TrayToggle::Temp, TrayToggle::Apps, TrayToggle::Startup] {
        let mut outside = world(&Settings::default());
        let mut change = Change::toggle(Settings::default(), toggle);
        assert_eq!(carry_out(&mut change, &mut outside, Ok(()), Ok(())), (vec![], vec![]));
        let once = change.result();
        assert_eq!(once.auto_clean, toggle == TrayToggle::Auto);
        assert_eq!(once.clean_temp, toggle != TrayToggle::Temp);
        assert_eq!(once.trim_background_apps, toggle == TrayToggle::Apps);
        assert_eq!(once.start_with_windows, toggle == TrayToggle::Startup);
        assert_eq!(outside.registered, toggle == TrayToggle::Startup);
        assert_eq!(change.hotkey_update(), None);
        assert!(change.updates_window() && !change.updates_tray());
        let mut back = Change::toggle(once, toggle);
        carry_out(&mut back, &mut outside, Ok(()), Ok(()));
        assert_eq!(text(&back.result()), text(&Settings::default()));
        assert_eq!(outside.file, text(&Settings::default()));
    }
}

#[test]
fn toggles_that_fail() {
    let mut outside = world(&Settings::default());
    let mut change = Change::toggle(Settings::default(), TrayToggle::Startup);
    assert_eq!(
        carry_out(&mut change, &mut outside, bad("denied"), Ok(())),
        (vec![], vec!["Startup setting failed: denied".to_string()])
    );
    assert!(!change.result().start_with_windows);
    assert_eq!(outside.control, None);

    let mut change = Change::toggle(Settings::default(), TrayToggle::Startup);
    assert_eq!(
        carry_out(&mut change, &mut outside, Ok(()), bad("full")),
        (vec![], vec!["Settings save failed from tray: full".to_string()])
    );
    assert_eq!(change.stage, ChangeStage::Abandoned);
    assert!(!outside.registered);
    assert!(change.result().start_with_windows);

    let mut change = Change::toggle(Settings::default(), TrayToggle::Startup);
    change.step(bad("denied"));
    change.step(bad("full"));
    assert_eq!(change.stage, ChangeStage::RollBack(true));

    let mut change = Change::toggle(Settings::default(), TrayToggle::Auto);
    change.step(bad("full"));
    assert_eq!(change.stage, ChangeStage::Abandoned);
    assert!(change.result().auto_clean);
    assert!(!change.updates_window());
}

#[test]
fn cleaning_right_away_takes_the_controls() {
    let (settings, status) = clean_now(sync_ui(&other()));
    assert_eq!(text(&settings), text(&other()));
    assert_eq!(status, "Cleaning RAM...");
}

#[test]
fn the_tray_menu() {
    let labels: Vec<String> = tray_menu(&other())
        .into_iter()
        .map(|entry| match entry {
            MenuEntry::Plain(item) => item.name().to_string(),
            MenuEntry::Check(item, mark) => format!("{} {mark}", item.name()),
            MenuEntry::Separator => "-".to_string(),
        })
        .collect();
    assert_eq!(
        labels,
        vec![
            "Show RAMOpt",
            "Clean RAM now",
            "-",
            "Scheduled cleanup false",
            "Clean temp files true",
            "Close user apps (safe) false",
            "Start with Windows true",
            "-",
            "Exit RAMOpt",
        ]
    );
    assert_eq!(update_menu(), vec![MenuEntry::Plain(TrayItem::Update), MenuEntry::Separator]);
    assert_eq!(TrayItem::Update.name(), "Update now");
}

#[test]
fn check_marks_follow_the_settings() {
    let marks = sync_checks(&other());
    assert_eq!(
        marks,
        vec![
            (TrayItem::Auto, false),
            (TrayItem::Temp, true),
            (TrayItem::Apps, false),
            (TrayItem::Startup, true),
        ]
    );
    for (item, mark) in marks {
        assert_eq!(item.checked(&other()), Some(mark));
        assert!(tray_menu(&other()).contains(&MenuEntry::Check(item, mark)));
    }
    assert_eq!(TrayItem::Exit.checked(&other()), None);
}

#[test]
fn entries_of_the_tray_menu() {
    let actions: Vec<Option<TrayAction>> = (0..9).map(|place| item_at(place).map(tray_action)).collect();
    assert_eq!(
        actions,
        vec![
            Some(TrayAction::Update),
            Some(TrayAction::Show),
            Some(TrayAction::Clean),
            Some(TrayAction::Toggle(TrayToggle::Auto)),
            Some(TrayAction::Toggle(TrayToggle::Temp)),
            Some(TrayAction::Toggle(TrayToggle::Apps)),
            Some(TrayAction::Toggle(TrayToggle::Startup)),
            Some(TrayAction::Exit),
            None,
        ]
    );
}

#[test]
fn entries_that_end_the_program() {
    for started in [true, false] {
        assert!(ends_program(TrayAction::Exit, started));
        assert_eq!(ends_program(TrayAction::Update, started), started);
        assert!(!ends_program(TrayAction::Show, started));
        assert!(!ends_program(TrayAction::Clean, started));
        assert!(!ends_program(TrayAction::Toggle(TrayToggle::Auto), started));
    }
}

#[test]
fn clicks_on_the_tray_icon() {
    assert!(opens_window(TrayClick::Click { left: true, up: true }));
    assert!(!opens_window(TrayClick::Click { left: true, up: false }));
    assert!(!opens_window(TrayClick::Click { left: false, up: true }));
    assert!(opens_window(TrayClick::DoubleClick { left: true }));
    assert!(!opens_window(TrayClick::DoubleClick { left: false }));
    assert!(!opens_window(TrayClick::Other));
}
