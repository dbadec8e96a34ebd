//! Laws of the settings.
use vstd::prelude::*;
use crate::laws::changes::{as_asked, nearest_minutes};
use crate::settings::{
    clamp_interval, load_settings, read_ui, remove_legacy, sync_ui, LoadAction, Settings,
    SettingsFile, StoredSettings, UiState,
};

verus! {

/// Whether settings are, one by one, what a file holds, with an interval that the program offers and
/// the usual choice where the file holds none.
pub open spec fn as_stored(settings: Settings, stored: StoredSettings) -> bool {
    &&& settings.auto_clean == stored.auto_clean
    &&& settings.interval_minutes == nearest_minutes(stored.interval_minutes as int)
    &&& settings.hotkey@ == stored.hotkey@
    &&& settings.clean_temp == stored.clean_temp
    &&& settings.trim_background_apps == stored.trim_background_apps
    &&& settings.start_with_windows == stored.start_with_windows
    &&& settings.close_to_tray == (stored.close_to_tray != Some(false))
    &&& settings.dark_mode == (stored.dark_mode == Some(true))
}

/// Whether settings are the usual choices, one by one.
pub open spec fn as_usual(settings: Settings) -> bool {
    &&& !settings.auto_clean
    &&& settings.interval_minutes == 15
    &&& settings.hotkey@ == "ctrl+alt+KeyR"@
    &&& settings.clean_temp
    &&& !settings.trim_background_apps
    &&& !settings.start_with_windows
    &&& settings.close_to_tray
    &&& !settings.dark_mode
}

/// How far two numbers are from each other.
pub open spec fn distance(a: int, b: int) -> int {
    if a <= b {
        b - a
    } else {
        a - b
    }
}

/// The interval that is taken is between one minute and a day, and no other one that is lies nearer.
pub proof fn law_nearest_interval_is_taken(minutes: u32, nearest: u32, other: u32)
    requires
        1 <= other <= 1440,
        call_ensures(clamp_interval, (minutes,), nearest),
    ensures
        1 <= nearest <= 1440,
        distance(minutes as int, nearest as int) <= distance(minutes as int, other as int),
{
}

/// The usual choices.
pub proof fn law_usual_choices(settings: Settings)
    requires
        call_ensures(<Settings as Default>::default, (), settings),
    ensures
        as_usual(settings),
{
}

/// A copy of settings is the same setting by setting.
pub proof fn law_copies_of_settings(settings: Settings, copy: Settings)
    requires
        call_ensures(<Settings as Clone>::clone, (&settings,), copy),
    ensures
        copy@ == settings@,
        copy.hotkey@ == settings.hotkey@,
{
}

/// Settings that are stored hold each setting under its own name, and none is left out.
pub proof fn law_every_setting_is_stored(settings: Settings, stored: StoredSettings)
    requires
        call_ensures(Settings::to_stored, (&settings,), stored),
    ensures
        stored.auto_clean == settings.auto_clean,
        stored.interval_minutes == settings.interval_minutes,
        stored.hotkey@ == settings.hotkey@,
        stored.clean_temp == settings.clean_temp,
        stored.trim_background_apps == settings.trim_background_apps,
        stored.start_with_windows == settings.start_with_windows,
        stored.close_to_tray == Some(settings.close_to_tray),
        stored.dark_mode == Some(settings.dark_mode),
{
}

/// Stored settings are taken setting by setting; where a file lacks one, the usual choice is.
pub proof fn law_every_setting_is_taken(stored: StoredSettings, settings: Settings)
    requires
        call_ensures(Settings::from_stored, (stored,), settings),
    ensures
        settings.interval_minutes == stored.interval_minutes,
        1 <= stored.interval_minutes <= 1440 ==> as_stored(settings, stored),
        settings.auto_clean == stored.auto_clean,
        settings.hotkey@ == stored.hotkey@,
        settings.clean_temp == stored.clean_temp,
        settings.trim_background_apps == stored.trim_background_apps,
        settings.start_with_windows == stored.start_with_windows,
        settings.close_to_tray == (stored.close_to_tray != Some(false)),
        settings.dark_mode == (stored.dark_mode == Some(true)),
{
}

/// A file that holds settings is taken setting by setting, whatever any other file holds.
pub proof fn law_first_file_comes_first(
    stored: StoredSettings,
    legacy: Option<SettingsFile>,
    action: LoadAction,
)
    requires
        call_ensures(load_settings, (SettingsFile::Stored(stored), legacy), action),
    ensures
        action matches LoadAction::Use(settings) && as_stored(settings, stored),
{
}

/// Where the first file holds no settings, the second one is asked for; its settings are taken setting
/// by setting and moved, and where it holds none either, the usual choices are taken.
pub proof fn law_second_file_comes_second(
    primary: SettingsFile,
    legacy: Option<SettingsFile>,
    action: LoadAction,
)
    requires
        !(primary is Stored),
        call_ensures(load_settings, (primary, legacy), action),
    ensures
        legacy is None ==> (action matches LoadAction::ReadLegacy { primary_invalid }
            && primary_invalid == (primary is Invalid)),
        legacy matches Some(SettingsFile::Stored(stored)) ==> (action matches LoadAction::Migrate(
            settings,
        ) && as_stored(settings, stored)),
        legacy is Some && !(legacy->0 is Stored) ==> (action matches LoadAction::Use(settings)
            && as_usual(settings)),
{
}

/// An old file goes exactly when its settings were saved in their new place.
pub proof fn law_old_file_goes_once_its_settings_are_saved(saved: Result<(), String>, remove: bool)
    requires
        call_ensures(remove_legacy, (&saved,), remove),
    ensures
        remove <==> saved is Ok,
{
}

/// The controls show each setting in its place.
pub proof fn law_controls_show_every_setting(settings: Settings, ui: UiState)
    requires
        call_ensures(sync_ui, (&settings,), ui),
    ensures
        ui.auto_clean == settings.auto_clean,
        settings.interval_minutes <= i32::MAX ==> ui.interval_minutes == settings.interval_minutes,
        ui.hotkey@ == settings.hotkey@,
        ui.clean_temp == settings.clean_temp,
        ui.close_apps == settings.trim_background_apps,
        ui.startup == settings.start_with_windows,
        ui.close_to_tray == settings.close_to_tray,
        ui.dark_mode == settings.dark_mode,
{
}

/// The controls are read setting by setting, with the nearest interval that the program offers.
pub proof fn law_controls_are_read_setting_by_setting(ui: UiState, settings: Settings)
    requires
        call_ensures(read_ui, (ui,), settings),
    ensures
        as_asked(settings, ui),
{
}

} // verus!
