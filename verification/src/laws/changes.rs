//! Laws of changes of the settings.
use vstd::prelude::*;
use crate::changes::{
    carried_out, clean_now, Change, ChangeSource, ChangeStage, ChangeView, Notice, World,
};
use crate::settings::{Settings, SettingsView, UiState};
use crate::text::optional;
use crate::tray::TrayToggle;

verus! {

/// The nearest number of minutes between one and a day.
pub open spec fn nearest_minutes(minutes: int) -> int {
    if minutes < 1 {
        1
    } else if minutes > 1440 {
        1440
    } else {
        minutes
    }
}

/// Whether settings are, one by one, what the controls of the window ask for.
pub open spec fn as_asked(settings: Settings, ui: UiState) -> bool {
    &&& settings.auto_clean == ui.auto_clean
    &&& settings.interval_minutes == nearest_minutes(ui.interval_minutes as int)
    &&& settings.hotkey@ == ui.hotkey@
    &&& settings.clean_temp == ui.clean_temp
    &&& settings.trim_background_apps == ui.close_apps
    &&& settings.start_with_windows == ui.startup
    &&& settings.close_to_tray == ui.close_to_tray
    &&& settings.dark_mode == ui.dark_mode
}

/// Whether two settings agree, one by one, but for the start at sign-in.
pub open spec fn agree_but_for_the_start(a: SettingsView, b: SettingsView) -> bool {
    &&& a.auto_clean == b.auto_clean
    &&& a.interval_minutes == b.interval_minutes
    &&& a.hotkey == b.hotkey
    &&& a.clean_temp == b.clean_temp
    &&& a.trim_background_apps == b.trim_background_apps
    &&& a.close_to_tray == b.close_to_tray
    &&& a.dark_mode == b.dark_mode
}

/// A change of the window leads to what its controls ask for, setting by setting. The start at sign-in
/// is set first exactly where the controls differ in it from what held before.
pub proof fn law_window_asks_for_what_its_controls_show(
    previous: Settings,
    ui: UiState,
    change: Change,
)
    requires
        call_ensures(Change::persist, (previous, ui), change),
    ensures
        as_asked(change.settings, ui),
        change.previous@ == previous@,
        change.source == ChangeSource::Window,
        ui.startup != previous.start_with_windows ==> change.stage == ChangeStage::SetStartup,
        ui.startup == previous.start_with_windows ==> change.stage == ChangeStage::Save,
{
}

/// A cleanup from the button of the window runs with what its controls ask for, setting by setting.
pub proof fn law_button_cleans_with_what_the_controls_show(
    ui: UiState,
    start: (Settings, &'static str),
)
    requires
        call_ensures(clean_now, (ui,), start),
    ensures
        as_asked(start.0, ui),
        start.1@ == "Cleaning RAM..."@,
{
}

/// Restoring the defaults leads to them whatever held before, and always sets the start at sign-in
/// first.
pub proof fn law_defaults_do_not_depend_on_what_held(previous: Settings, change: Change)
    requires
        call_ensures(Change::restore_defaults, (previous,), change),
    ensures
        !change.settings.auto_clean,
        change.settings.interval_minutes == 15,
        change.settings.hotkey@ == "ctrl+alt+KeyR"@,
        change.settings.clean_temp,
        !change.settings.trim_background_apps,
        !change.settings.start_with_windows,
        change.settings.close_to_tray,
        !change.settings.dark_mode,
        change.previous@ == previous@,
        change.source == ChangeSource::Defaults,
        change.stage == ChangeStage::SetStartup,
{
}

/// An entry of the tray menu turns its setting round and leaves every other one as it was. The start
/// at sign-in is set first exactly where that is the setting.
pub proof fn law_tray_turns_one_setting(previous: Settings, toggle: TrayToggle, change: Change)
    requires
        call_ensures(Change::toggle, (previous, toggle), change),
    ensures
        change.settings.auto_clean == (previous.auto_clean != (toggle == TrayToggle::Auto)),
        change.settings.clean_temp == (previous.clean_temp != (toggle == TrayToggle::Temp)),
        change.settings.trim_background_apps == (previous.trim_background_apps != (toggle
            == TrayToggle::Apps)),
        change.settings.start_with_windows == (previous.start_with_windows != (toggle
            == TrayToggle::Startup)),
        change.settings.interval_minutes == previous.interval_minutes,
        change.settings.hotkey@ == previous.hotkey@,
        change.settings.close_to_tray == previous.close_to_tray,
        change.settings.dark_mode == previous.dark_mode,
        change.previous@ == previous@,
        change.source == ChangeSource::Tray(toggle),
        toggle == TrayToggle::Startup ==> change.stage == ChangeStage::SetStartup,
        toggle != TrayToggle::Startup ==> change.stage == ChangeStage::Save,
{
}

/// Once the start at sign-in is set, the settings are saved as they are. Where it cannot be set, they
/// are saved with the start that held before and nothing else changed, but the defaults are not saved
/// at all. Only a failure is spoken of.
pub proof fn law_start_that_cannot_be_set(
    change: &mut Change,
    reply: Result<(), String>,
    notice: Option<Notice>,
)
    requires
        old(change).stage == ChangeStage::SetStartup,
        call_ensures(Change::step, (change, reply), notice),
    ensures
        final(change).source == old(change).source,
        final(change).previous@ == old(change).previous@,
        agree_but_for_the_start(final(change).settings@, old(change).settings@),
        reply is Ok || !(old(change).source is Defaults) ==> final(change).stage
            == ChangeStage::Save,
        reply is Err && old(change).source is Defaults ==> final(change).stage
            == ChangeStage::Abandoned,
        reply is Ok || old(change).source is Defaults ==> final(change).settings.start_with_windows
            == old(change).settings.start_with_windows,
        reply is Err && !(old(change).source is Defaults) ==> final(change).settings.start_with_windows == old(change).previous.start_with_windows,
        notice is Some <==> reply is Err,
        reply matches Err(error) ==> ({
            let said = Some("Startup setting failed: "@ + error@);
            &&& optional((notice->0).shown) == if old(change).source is Tray {
                None
            } else {
                said
            }
            &&& optional((notice->0).logged) == if old(change).source is Defaults {
                None
            } else {
                said
            }
            &&& (notice->0).startup_control == if old(change).source is Window {
                Some(old(change).previous.start_with_windows)
            } else {
                None
            }
        }),
{
}

/// A save that goes through ends the change. One that fails ends it, too, once the start at sign-in is
/// set back where it was set: for the window where it differs from what held before, for the defaults
/// always, and for the tray menu where it is what was turned. Only a failure is spoken of.
pub proof fn law_save_decides(
    change: &mut Change,
    reply: Result<(), String>,
    notice: Option<Notice>,
)
    requires
        old(change).stage == ChangeStage::Save,
        call_ensures(Change::step, (change, reply), notice),
    ensures
        final(change).source == old(change).source,
        final(change).previous@ == old(change).previous@,
        final(change).settings@ == old(change).settings@,
        reply is Ok <==> final(change).stage == ChangeStage::Saved,
        reply is Err && old(change).source == ChangeSource::Window ==> final(change).stage == if old(change).settings.start_with_windows == old(change).previous.start_with_windows {
            ChangeStage::Abandoned
        } else {
            ChangeStage::RollBack(old(change).previous.start_with_windows)
        },
        reply is Err && old(change).source == ChangeSource::Defaults ==> final(change).stage
            == ChangeStage::RollBack(old(change).previous.start_with_windows),
        reply is Err && old(change).source == ChangeSource::Tray(TrayToggle::Startup) ==> final(change).stage == ChangeStage::RollBack(!old(change).settings.start_with_windows),
        reply is Err && old(change).source is Tray && old(change).source != ChangeSource::Tray(
            TrayToggle::Startup,
        ) ==> final(change).stage == ChangeStage::Abandoned,
        notice is Some <==> reply is Err,
        reply matches Err(error) ==> ({
            &&& optional((notice->0).shown) == if old(change).source is Tray {
                None
            } else {
                Some("Settings save failed: "@ + error@)
            }
            &&& optional((notice->0).logged) == Some(
                if old(change).source is Window {
                    "Settings save failed: "@
                } else if old(change).source is Defaults {
                    "Settings save failed restoring defaults: "@
                } else {
                    "Settings save failed from tray: "@
                } + error@,
            )
            &&& (notice->0).startup_control is None
        }),
{
}

/// Whatever comes of setting the start back, the change is given up, and nothing is said of it. A
/// change that has ended stays as it is.
pub proof fn law_changes_end(change: &mut Change, reply: Result<(), String>, notice: Option<Notice>)
    requires
        old(change).stage != ChangeStage::SetStartup,
        old(change).stage != ChangeStage::Save,
        call_ensures(Change::step, (change, reply), notice),
    ensures
        final(change).source == old(change).source,
        final(change).previous@ == old(change).previous@,
        final(change).settings@ == old(change).settings@,
        old(change).stage == ChangeStage::Saved ==> final(change).stage == ChangeStage::Saved,
        old(change).stage != ChangeStage::Saved ==> final(change).stage == ChangeStage::Abandoned,
        notice is None,
{
}

/// The settings of a change hold afterwards where it was saved, and where the tray menu made it; those
/// before it hold otherwise. A new hotkey is registered only where one was saved.
pub proof fn law_what_holds_after_a_change(
    change: Change,
    settings: Settings,
    hotkey: Option<String>,
    window: bool,
    tray: bool,
)
    requires
        call_ensures(Change::result, (&change,), settings),
        call_ensures(Change::hotkey_update, (&change,), hotkey),
        call_ensures(Change::updates_window, (&change,), window),
        call_ensures(Change::updates_tray, (&change,), tray),
    ensures
        change.stage == ChangeStage::Saved || change.source is Tray ==> settings@
            == change.settings@,
        change.stage != ChangeStage::Saved && !(change.source is Tray) ==> settings@
            == change.previous@,
        hotkey is Some <==> change.stage == ChangeStage::Saved && !(change.source is Tray) && (
        change.source is Defaults || change.settings.hotkey@ != change.previous.hotkey@),
        hotkey matches Some(text) ==> text@ == change.settings.hotkey@,
        window <==> change.stage == ChangeStage::Saved && !(change.source is Window),
        tray <==> change.source is Window || (change.source is Defaults && change.stage
            == ChangeStage::Saved),
{
}

/// A change of the window that is saved has, in the file and in its outcome, every setting as the
/// controls ask for it, except the start at sign-in where that could not be set: then it is what it
/// was. One that is not saved leaves the file and every setting as they were.
pub proof fn law_saved_window_has_what_was_requested(
    previous: SettingsView,
    requested: SettingsView,
    world: World,
    first: Result<(), Seq<char>>,
    second: Result<(), Seq<char>>,
    third: Result<(), Seq<char>>,
)
    ensures
        ({
            let differs = requested.start_with_windows != previous.start_with_windows;
            let saved = if differs {
                second is Ok
            } else {
                first is Ok
            };
            let (end, after) = carried_out(
                ChangeView::from_window(previous, requested),
                world,
                first,
                second,
                third,
            );
            &&& saved ==> end.stage == ChangeStage::Saved
            &&& !saved ==> end.stage == ChangeStage::Abandoned
            &&& saved && !(differs && first is Err) ==> end.outcome() == requested && after.file
                == requested
            &&& saved ==> agree_but_for_the_start(end.outcome(), requested)
                && agree_but_for_the_start(after.file, requested)
            &&& saved && differs && first is Err ==> end.outcome().start_with_windows
                == previous.start_with_windows && after.file.start_with_windows
                == previous.start_with_windows
            &&& !saved ==> end.outcome() == previous && after.file == world.file
            &&& !differs ==> after.registered == world.registered
            &&& differs && first is Ok && saved ==> after.registered
                == requested.start_with_windows
            &&& differs && first is Err ==> after.registered == world.registered
        }),
{
}

/// Restored defaults that are saved hold setting by setting, in the file and in the outcome; where a
/// step fails, every setting and the file stay as they were.
pub proof fn law_defaults_are_restored_as_a_whole(
    previous: SettingsView,
    world: World,
    first: Result<(), Seq<char>>,
    second: Result<(), Seq<char>>,
    third: Result<(), Seq<char>>,
)
    ensures
        ({
            let (end, after) = carried_out(
                ChangeView::to_defaults(previous),
                world,
                first,
                second,
                third,
            );
            let holds = end.outcome();
            &&& first is Ok && second is Ok ==> {
                &&& end.stage == ChangeStage::Saved
                &&& !holds.auto_clean && holds.interval_minutes == 15 && holds.hotkey
                    == "ctrl+alt+KeyR"@ && holds.clean_temp && !holds.trim_background_apps
                    && !holds.start_with_windows && holds.close_to_tray && !holds.dark_mode
                &&& after.file == holds
                &&& !after.registered
            }
            &&& first is Err || second is Err ==> {
                &&& end.stage == ChangeStage::Abandoned
                &&& holds == previous
                &&& after.file == world.file
            }
            &&& first is Err ==> after.registered == world.registered
            &&& first is Ok && second is Err && third is Ok ==> after.registered
                == previous.start_with_windows
        }),
{
}

/// What the tray menu turned holds afterwards, saved or not, unless it is the start at sign-in and
/// that could not be set; a file that could be saved has it, and one that could not stays.
pub proof fn law_tray_changes_hold(
    previous: SettingsView,
    toggle: TrayToggle,
    world: World,
    first: Result<(), Seq<char>>,
    second: Result<(), Seq<char>>,
    third: Result<(), Seq<char>>,
)
    ensures
        ({
            let (end, after) = carried_out(
                ChangeView::from_tray(previous, toggle),
                world,
                first,
                second,
                third,
            );
            let holds = end.outcome();
            let startup = toggle == TrayToggle::Startup;
            let saved = if startup {
                second is Ok
            } else {
                first is Ok
            };
            &&& holds.auto_clean == (previous.auto_clean != (toggle == TrayToggle::Auto))
            &&& holds.clean_temp == (previous.clean_temp != (toggle == TrayToggle::Temp))
            &&& holds.trim_background_apps == (previous.trim_background_apps != (toggle
                == TrayToggle::Apps))
            &&& holds.start_with_windows == (previous.start_with_windows != (startup && first
                is Ok))
            &&& holds.interval_minutes == previous.interval_minutes
            &&& holds.hotkey == previous.hotkey
            &&& holds.close_to_tray == previous.close_to_tray
            &&& holds.dark_mode == previous.dark_mode
            &&& saved ==> end.stage == ChangeStage::Saved && after.file == holds
            &&& !saved ==> end.stage == ChangeStage::Abandoned && after.file == world.file
        }),
{
}

} // verus!
