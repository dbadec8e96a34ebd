use ramopt::settings::{
    clamp_interval, default_close_to_tray, load_settings, read_ui, remove_legacy, sync_ui, LoadAction,
    Settings, SettingsFile, StoredSettings, UiState,
};

fn flag(value: &serde_json::Value, name: &str) -> bool {
    value.get(name).and_then(|v| v.as_bool()).expect("valid settings")
}

fn stored(text: &str) -> StoredSettings {
    let value = serde_json::from_str::<serde_json::Value>(text).expect("valid settings");
    StoredSettings {
        auto_clean: flag(&value, "auto_clean"),
        interval_minutes: value
            .get("interval_minutes")
            .and_then(|v| v.as_u64())
            .expect("valid settings") as u32,
        hotkey: value
            .get("hotkey")
            .and_then(|v| v.as_str())
            .expect("valid settings")
            .to_string(),
        clean_temp: flag(&value, "clean_temp"),
        trim_background_apps: flag(&value, "trim_background_apps"),
        start_with_windows: flag(&value, "start_with_windows"),
        close_to_tray: value.get("close_to_tray").map(|_| flag(&value, "close_to_tray")),
        dark_mode: value.get("dark_mode").map(|_| flag(&value, "dark_mode")),
    }
}

fn sample(interval_minutes: u32) -> StoredSettings {
    StoredSettings {
        auto_clean: true,
        interval_minutes,
        hotkey: "shift+KeyQ".to_string(),
        clean_temp: false,
        trim_background_apps: true,
        start_with_windows: true,
        close_to_tray: Some(false),
        dark_mode: Some(true),
    }
}

fn assert_same(a: &Settings, b: &Settings) {
    assert_eq!(format!("{a:?}"), format!("{b:?}"));
}

#[test]
fn settings_deserialize_old_format_with_defaults() {
    let settings = Settings::from_stored(stored(
        r#"{"auto_clean":true,"interval_minutes":10,"hotkey":"ctrl+alt+KeyR","clean_temp":false,"trim_background_apps":false,"start_with_windows":true}"#,
    ));
    assert!(settings.close_to_tray);
    assert!(!settings.dark_mode);
    assert!(settings.auto_clean);
    assert_eq!(settings.interval_minutes, 10);
    assert_eq!(settings.hotkey, "ctrl+alt+KeyR");
    assert!(!settings.clean_temp);
    assert!(settings.start_with_windows);
}

#[test]
fn settings_default_is_safe() {
    let settings = Settings::default();
    assert_eq!(settings.interval_minutes, 15);
    assert!(!settings.auto_clean);
    assert!(!settings.trim_background_apps);
    assert!(!settings.start_with_windows);
    assert!(settings.close_to_tray);
}

#[test]
fn default_settings_are_complete() {
    let settings = Settings::default();
    assert_eq!(settings.hotkey, "ctrl+alt+KeyR");
    assert!(settings.clean_temp);
    assert!(!settings.dark_mode);
    assert!(default_close_to_tray());
}

#[test]
fn interval_is_clamped() {
    assert_eq!(clamp_interval(0), 1);
    assert_eq!(clamp_interval(1), 1);
    assert_eq!(clamp_interval(77), 77);
    assert_eq!(clamp_interval(1440), 1440);
    assert_eq!(clamp_interval(1441), 1440);
    assert_eq!(clamp_interval(u32::MAX), 1440);
}

#[test]
fn stored_settings_are_loaded_with_a_clamped_interval() {
    let action = load_settings(SettingsFile::Stored(sample(0)), None);
    let LoadAction::Use(settings) = action else {
        panic!("stored settings are not used");
    };
    assert_eq!(settings.interval_minutes, 1);
    assert_eq!(settings.hotkey, "shift+KeyQ");
    assert!(!settings.close_to_tray);
    assert!(settings.dark_mode);
}

#[test]
fn the_first_file_wins() {
    let action = load_settings(
        SettingsFile::Stored(sample(20)),
        Some(SettingsFile::Stored(sample(30))),
    );
    assert!(matches!(action, LoadAction::Use(settings) if settings.interval_minutes == 20));
}

#[test]
fn a_file_without_settings_leads_to_the_legacy_file() {
    assert!(matches!(
        load_settings(SettingsFile::Unreadable, None),
        LoadAction::ReadLegacy { primary_invalid: false }
    ));
    assert!(matches!(
        load_settings(SettingsFile::Invalid, None),
        LoadAction::ReadLegacy { primary_invalid: true }
    ));
}

#[test]
fn legacy_settings_are_migrated() {
    for first in [SettingsFile::Unreadable, SettingsFile::Invalid] {
        let action = load_settings(first, Some(SettingsFile::Stored(sample(5000))));
        let LoadAction::Migrate(settings) = action else {
            panic!("legacy settings are not migrated");
        };
        assert_eq!(settings.interval_minutes, 1440);
        let again = load_settings(SettingsFile::Stored(settings.to_stored()), None);
        let LoadAction::Use(next) = again else {
            panic!("migrated settings are not used");
        };
        assert_same(&settings, &next);
    }
    assert!(remove_legacy(&Ok(())));
    assert!(!remove_legacy(&Err("full".to_string())));
}

#[test]
fn defaults_hold_where_no_file_has_settings() {
    for second in [SettingsFile::Unreadable, SettingsFile::Invalid] {
        let action = load_settings(SettingsFile::Invalid, Some(second));
        let LoadAction::Use(settings) = action else {
            panic!("defaults are not used");
        };
        assert_same(&settings, &Settings::default());
    }
}

#[test]
fn saved_settings_come_back() {
    let settings = Settings::from_stored(sample(42));
    let stored = settings.to_stored();
    assert_eq!(stored.close_to_tray, Some(false));
    assert_eq!(stored.dark_mode, Some(true));
    let LoadAction::Use(loaded) = load_settings(SettingsFile::Stored(stored), None) else {
        panic!("saved settings are not used");
    };
    assert_same(&settings, &loaded);
}

#[test]
fn shown_settings_are_read_back() {
    let settings = Settings::from_stored(sample(42));
    let ui = sync_ui(&settings);
    assert_eq!(ui.interval_minutes, 42);
    assert!(ui.close_apps);
    assert!(ui.startup);
    assert_same(&read_ui(ui), &settings);
}

#[test]
fn controls_outside_the_offer_are_clamped() {
    for (minutes, expected) in [(-5, 1), (0, 1), (1, 1), (1440, 1440), (1441, 1440), (i32::MIN, 1), (i32::MAX, 1440)] {
        let ui = UiState {
            auto_clean: false,
            interval_minutes: minutes,
            hotkey: String::new(),
            clean_temp: false,
            close_apps: false,
            startup: false,
            close_to_tray: false,
            dark_mode: false,
        };
        assert_eq!(read_ui(ui).interval_minutes, expected);
    }
}
