//! Settings: their defaults, how stored ones are loaded, and how the window shows them.
use vstd::prelude::*;

verus! {

/// The shortest interval of scheduled cleanups, in minutes.
pub const MIN_INTERVAL: u32 = 1;

/// The longest interval of scheduled cleanups, in minutes.
pub const MAX_INTERVAL: u32 = 1440;

/// What the user can choose.
#[derive(Debug)]
pub struct Settings {
    /// Whether cleanups run on a schedule.
    pub auto_clean: bool,
    /// The minutes between scheduled cleanups.
    pub interval_minutes: u32,
    /// The keys that start a cleanup from anywhere.
    pub hotkey: String,
    /// Whether a cleanup removes stale temporary files.
    pub clean_temp: bool,
    /// Whether a cleanup closes the selected user applications.
    pub trim_background_apps: bool,
    /// Whether the program starts when the user signs in.
    pub start_with_windows: bool,
    /// Whether closing the window leaves the program in the tray.
    pub close_to_tray: bool,
    /// Whether the window is dark.
    pub dark_mode: bool,
}

/// [`Settings`], seen through the characters of the hotkey.
pub struct SettingsView {
    pub auto_clean: bool,
    pub interval_minutes: u32,
    pub hotkey: Seq<char>,
    pub clean_temp: bool,
    pub trim_background_apps: bool,
    pub start_with_windows: bool,
    pub close_to_tray: bool,
    pub dark_mode: bool,
}

impl View for Settings {
    type V = SettingsView;

    open spec fn view(&self) -> SettingsView {
        SettingsView {
            auto_clean: self.auto_clean,
            interval_minutes: self.interval_minutes,
            hotkey: self.hotkey@,
            clean_temp: self.clean_temp,
            trim_background_apps: self.trim_background_apps,
            start_with_windows: self.start_with_windows,
            close_to_tray: self.close_to_tray,
            dark_mode: self.dark_mode,
        }
    }
}

impl SettingsView {
    /// Whether the interval is one that the program offers.
    pub open spec fn is_valid(self) -> bool {
        MIN_INTERVAL <= self.interval_minutes <= MAX_INTERVAL
    }
}

impl Clone for Settings {
    fn clone(&self) -> (copy: Settings)
        ensures
            copy == *self,
    {
        Settings {
            auto_clean: self.auto_clean,
            interval_minutes: self.interval_minutes,
            hotkey: self.hotkey.clone(),
            clean_temp: self.clean_temp,
            trim_background_apps: self.trim_background_apps,
            start_with_windows: self.start_with_windows,
            close_to_tray: self.close_to_tray,
            dark_mode: self.dark_mode,
        }
    }
}

/// Closing the window leaves the program in the tray unless the user chose otherwise.
pub fn default_close_to_tray() -> (value: bool)
    ensures
        value,
{
    true
}

/// The settings of a program that was never set up.
pub open spec fn default_settings() -> SettingsView {
    SettingsView {
        auto_clean: false,
        interval_minutes: 15,
        hotkey: "ctrl+alt+KeyR"@,
        clean_temp: true,
        trim_background_apps: false,
        start_with_windows: false,
        close_to_tray: true,
        dark_mode: false,
    }
}

impl Default for Settings {
    fn default() -> (settings: Settings)
        ensures
            settings@ == default_settings(),
    {
        Settings {
            auto_clean: false,
            interval_minutes: 15,
            hotkey: "ctrl+alt+KeyR".to_owned(),
            clean_temp: true,
            trim_background_apps: false,
            start_with_windows: false,
            close_to_tray: default_close_to_tray(),
            dark_mode: false,
        }
    }
}

/// The nearest interval that the program offers.
pub open spec fn clamped(minutes: int) -> int {
    if minutes < MIN_INTERVAL {
        MIN_INTERVAL as int
    } else if minutes > MAX_INTERVAL {
        MAX_INTERVAL as int
    } else {
        minutes
    }
}

/// The nearest interval that the program offers.
pub fn clamp_interval(minutes: u32) -> (nearest: u32)
    ensures
        nearest == clamped(minutes as int),
{
    if minutes < MIN_INTERVAL {
        MIN_INTERVAL
    } else if minutes > MAX_INTERVAL {
        MAX_INTERVAL
    } else {
        minutes
    }
}

/// The settings as a file holds them. The last two came later: an older file lacks them.
#[derive(Debug)]
pub struct StoredSettings {
    pub auto_clean: bool,
    pub interval_minutes: u32,
    pub hotkey: String,
    pub clean_temp: bool,
    pub trim_background_apps: bool,
    pub start_with_windows: bool,
    pub close_to_tray: Option<bool>,
    pub dark_mode: Option<bool>,
}

impl StoredSettings {
    /// The settings that a file stands for: what it lacks has its default.
    pub open spec fn meaning(self) -> SettingsView {
        SettingsView {
            auto_clean: self.auto_clean,
            interval_minutes: self.interval_minutes,
            hotkey: self.hotkey@,
            clean_temp: self.clean_temp,
            trim_background_apps: self.trim_background_apps,
            start_with_windows: self.start_with_windows,
            close_to_tray: match self.close_to_tray {
                Some(value) => value,
                None => true,
            },
            dark_mode: match self.dark_mode {
                Some(value) => value,
                None => false,
            },
        }
    }
}

/// The settings with an interval that the program offers.
pub open spec fn with_clamped_interval(settings: SettingsView) -> SettingsView {
    SettingsView { interval_minutes: clamped(settings.interval_minutes as int) as u32, ..settings }
}

impl Settings {
    /// The settings that a file stands for.
    pub fn from_stored(stored: StoredSettings) -> (settings: Settings)
        ensures
            settings@ == stored.meaning(),
    {
        Settings {
            auto_clean: stored.auto_clean,
            interval_minutes: stored.interval_minutes,
            hotkey: stored.hotkey,
            clean_temp: stored.clean_temp,
            trim_background_apps: stored.trim_background_apps,
            start_with_windows: stored.start_with_windows,
            close_to_tray: match stored.close_to_tray {
                Some(value) => value,
                None => default_close_to_tray(),
            },
            dark_mode: match stored.dark_mode {
                Some(value) => value,
                None => false,
            },
        }
    }

    /// The settings as a file holds them: everything is written.
    pub fn to_stored(&self) -> (stored: StoredSettings)
        ensures
            stored.meaning() == self@,
            stored.close_to_tray is Some,
            stored.dark_mode is Some,
    {
        StoredSettings {
            auto_clean: self.auto_clean,
            interval_minutes: self.interval_minutes,
            hotkey: self.hotkey.clone(),
            clean_temp: self.clean_temp,
            trim_background_apps: self.trim_background_apps,
            start_with_windows: self.start_with_windows,
            close_to_tray: Some(self.close_to_tray),
            dark_mode: Some(self.dark_mode),
        }
    }
}

/// What came of reading a settings file.
#[derive(Debug)]
pub enum SettingsFile {
    /// There is no file, or it cannot be read.
    Unreadable,
    /// The file does not hold settings.
    Invalid,
    /// The file holds settings.
    Stored(StoredSettings),
}

/// What is to be done to have settings.
#[derive(Debug)]
pub enum LoadAction {
    /// The file beside the program is to be read, too. An invalid first file is worth a word in the
    /// log.
    ReadLegacy { primary_invalid: bool },
    /// The settings came from the file beside the program: they are to be saved in their new place,
    /// and the old file goes once that is done.
    Migrate(Settings),
    /// These are the settings.
    Use(Settings),
}

/// [`LoadAction`], seen through the characters of the hotkey.
pub enum LoadActionView {
    ReadLegacy { primary_invalid: bool },
    Migrate(SettingsView),
    Use(SettingsView),
}

impl View for LoadAction {
    type V = LoadActionView;

    open spec fn view(&self) -> LoadActionView {
        match self {
            LoadAction::ReadLegacy { primary_invalid } => LoadActionView::ReadLegacy {
                primary_invalid: *primary_invalid,
            },
            LoadAction::Migrate(settings) => LoadActionView::Migrate(settings@),
            LoadAction::Use(settings) => LoadActionView::Use(settings@),
        }
    }
}

/// What two settings files lead to. The first one that holds settings is taken, with an interval
/// that the program offers; where neither does, the defaults are.
pub open spec fn load_action(primary: SettingsFile, legacy: Option<SettingsFile>) -> LoadActionView {
    match (primary, legacy) {
        (SettingsFile::Stored(stored), _) => LoadActionView::Use(
            with_clamped_interval(stored.meaning()),
        ),
        (_, None) => LoadActionView::ReadLegacy { primary_invalid: primary is Invalid },
        (_, Some(SettingsFile::Stored(stored))) => LoadActionView::Migrate(
            with_clamped_interval(stored.meaning()),
        ),
        (_, Some(_)) => LoadActionView::Use(default_settings()),
    }
}

fn stored_settings(stored: StoredSettings) -> (settings: Settings)
    ensures
        settings@ == with_clamped_interval(stored.meaning()),
{
    let mut settings = Settings::from_stored(stored);
    settings.interval_minutes = clamp_interval(settings.interval_minutes);
    settings
}

/// Decides what two settings files lead to. The second is read only where the first holds no
/// settings, so the first call comes without it.
pub fn load_settings(primary: SettingsFile, legacy: Option<SettingsFile>) -> (action: LoadAction)
    ensures
        action@ == load_action(primary, legacy),
{
    match primary {
        SettingsFile::Stored(stored) => LoadAction::Use(stored_settings(stored)),
        SettingsFile::Invalid => match legacy {
            None => LoadAction::ReadLegacy { primary_invalid: true },
            Some(file) => load_legacy(file),
        },
        SettingsFile::Unreadable => match legacy {
            None => LoadAction::ReadLegacy { primary_invalid: false },
            Some(file) => load_legacy(file),
        },
    }
}

fn load_legacy(file: SettingsFile) -> (action: LoadAction)
    ensures
        action@ == load_action(SettingsFile::Unreadable, Some(file)),
{
    match file {
        SettingsFile::Stored(stored) => LoadAction::Migrate(stored_settings(stored)),
        _ => LoadAction::Use(Settings::default()),
    }
}

/// Whether the file beside the program is to be removed: only once its settings are saved in their
/// new place.
pub fn remove_legacy(saved: &Result<(), String>) -> (remove: bool)
    ensures
        remove == (saved is Ok),
{
    match saved {
        Ok(()) => true,
        Err(_) => false,
    }
}

/// The settings as the controls of the window hold them.
#[derive(Debug)]
pub struct UiState {
    pub auto_clean: bool,
    pub interval_minutes: i32,
    pub hotkey: String,
    pub clean_temp: bool,
    pub close_apps: bool,
    pub startup: bool,
    pub close_to_tray: bool,
    pub dark_mode: bool,
}

impl UiState {
    /// The settings that the controls stand for. An interval outside what the program offers is
    /// taken as the nearest one.
    pub open spec fn meaning(self) -> SettingsView {
        SettingsView {
            auto_clean: self.auto_clean,
            interval_minutes: clamped(self.interval_minutes as int) as u32,
            hotkey: self.hotkey@,
            clean_temp: self.clean_temp,
            trim_background_apps: self.close_apps,
            start_with_windows: self.startup,
            close_to_tray: self.close_to_tray,
            dark_mode: self.dark_mode,
        }
    }

    /// Whether the controls show settings.
    pub open spec fn shows(self, settings: SettingsView) -> bool {
        &&& self.auto_clean == settings.auto_clean
        &&& self.interval_minutes == settings.interval_minutes as i32
        &&& self.hotkey@ == settings.hotkey
        &&& self.clean_temp == settings.clean_temp
        &&& self.close_apps == settings.trim_background_apps
        &&& self.startup == settings.start_with_windows
        &&& self.close_to_tray == settings.close_to_tray
        &&& self.dark_mode == settings.dark_mode
    }
}

/// The controls that show the settings.
pub fn sync_ui(settings: &Settings) -> (ui: UiState)
    ensures
        ui.shows(settings@),
{
    UiState {
        auto_clean: settings.auto_clean,
        interval_minutes: settings.interval_minutes as i32,
        hotkey: settings.hotkey.clone(),
        clean_temp: settings.clean_temp,
        close_apps: settings.trim_background_apps,
        startup: settings.start_with_windows,
        close_to_tray: settings.close_to_tray,
        dark_mode: settings.dark_mode,
    }
}

/// The settings that the controls hold.
pub fn read_ui(ui: UiState) -> (settings: Settings)
    ensures
        settings@ == ui.meaning(),
        settings@.is_valid(),
{
    let minutes: i32 = ui.interval_minutes;
    let positive: u32 = if minutes < 1 {
        1
    } else {
        minutes as u32
    };
    Settings {
        auto_clean: ui.auto_clean,
        interval_minutes: clamp_interval(positive),
        hotkey: ui.hotkey,
        clean_temp: ui.clean_temp,
        trim_background_apps: ui.close_apps,
        start_with_windows: ui.startup,
        close_to_tray: ui.close_to_tray,
        dark_mode: ui.dark_mode,
    }
}

/// Whatever the files hold, the settings that come of loading have an interval between one minute
/// and a day.
pub proof fn law_loaded_settings_are_valid(primary: SettingsFile, legacy: Option<SettingsFile>)
    ensures
        load_action(primary, legacy) matches LoadActionView::Use(settings) ==> settings.is_valid(),
        load_action(primary, legacy) matches LoadActionView::Migrate(settings)
            ==> settings.is_valid(),
{
}

/// Valid settings that are saved are loaded back unchanged, and no other file is consulted.
pub proof fn law_saved_settings_are_loaded_back(
    settings: SettingsView,
    stored: StoredSettings,
    legacy: Option<SettingsFile>,
)
    requires
        settings.is_valid(),
        stored.meaning() == settings,
    ensures
        load_action(SettingsFile::Stored(stored), legacy) == LoadActionView::Use(settings),
{
}

/// Where only the file beside the program holds settings, those are taken and saved in their new
/// place; once they are, the next start takes the same ones from there, and the old file goes.
pub proof fn law_legacy_settings_are_migrated(
    primary: SettingsFile,
    legacy: StoredSettings,
    saved: StoredSettings,
)
    requires
        !(primary is Stored),
        saved.meaning() == with_clamped_interval(legacy.meaning()),
    ensures
        load_action(primary, None) is ReadLegacy,
        load_action(primary, Some(SettingsFile::Stored(legacy))) == LoadActionView::Migrate(
            with_clamped_interval(legacy.meaning()),
        ),
        load_action(SettingsFile::Stored(saved), None) == LoadActionView::Use(
            with_clamped_interval(legacy.meaning()),
        ),
{
}

/// The window gives back the valid settings that it was given to show.
pub proof fn law_shown_settings_are_read_back(settings: SettingsView, ui: UiState)
    requires
        settings.is_valid(),
        ui.shows(settings),
    ensures
        ui.meaning() == settings,
{
}

/// A program that was never set up closes nothing, schedules nothing and does not start by itself.
pub proof fn law_defaults_are_safe()
    ensures
        default_settings().is_valid(),
        !default_settings().auto_clean,
        !default_settings().trim_background_apps,
        !default_settings().start_with_windows,
        default_settings().close_to_tray,
{
}

} // verus!
