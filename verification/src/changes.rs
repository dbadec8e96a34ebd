//! Changes of the settings: how the window, the tray menu and the restoring of the defaults carry
//! one out, and what becomes of it where a step fails.
use vstd::prelude::*;
use crate::settings::{default_settings, read_ui, Settings, SettingsView, UiState};
use crate::text::{optional, outcome};
use crate::tray::TrayToggle;

verus! {

/// Where a change comes from.
#[derive(Debug, Clone, Copy, PartialEq, Eq, Structural)]
pub enum ChangeSource {
    /// The controls of the window.
    Window,
    /// The button that restores the defaults.
    Defaults,
    /// An entry of the tray menu.
    Tray(TrayToggle),
}

/// How far a change has come. The first three say what is next.
#[derive(Debug, Clone, Copy, PartialEq, Eq, Structural)]
pub enum ChangeStage {
    /// Whether the program starts when the user signs in is to be set as the change has it.
    SetStartup,
    /// The settings of the change are to be saved.
    Save,
    /// Whether the program starts when the user signs in is to be set back to this. What comes of
    /// it does not matter.
    RollBack(bool),
    /// The change is saved.
    Saved,
    /// The change is given up.
    Abandoned,
}

/// What is said of a step that failed.
#[derive(Debug)]
pub struct Notice {
    /// What the window says, if anything.
    pub shown: Option<String>,
    /// What the log says, if anything.
    pub logged: Option<String>,
    /// What the control for the start at sign-in is put back to, where it is.
    pub startup_control: Option<bool>,
}

/// [`Notice`], seen through the characters of its texts.
pub struct NoticeView {
    pub shown: Option<Seq<char>>,
    pub logged: Option<Seq<char>>,
    pub startup_control: Option<bool>,
}

impl View for Notice {
    type V = NoticeView;

    open spec fn view(&self) -> NoticeView {
        NoticeView {
            shown: optional(self.shown),
            logged: optional(self.logged),
            startup_control: self.startup_control,
        }
    }
}

/// A change that is under way.
#[derive(Debug)]
pub struct Change {
    /// Where it comes from.
    pub source: ChangeSource,
    /// The settings before it.
    pub previous: Settings,
    /// The settings that it leads to.
    pub settings: Settings,
    /// What is next.
    pub stage: ChangeStage,
}

/// [`Change`], seen through the characters of its texts.
pub struct ChangeView {
    pub source: ChangeSource,
    pub previous: SettingsView,
    pub settings: SettingsView,
    pub stage: ChangeStage,
}

impl View for Change {
    type V = ChangeView;

    open spec fn view(&self) -> ChangeView {
        ChangeView {
            source: self.source,
            previous: self.previous@,
            settings: self.settings@,
            stage: self.stage,
        }
    }
}

/// The settings with one of them turned on or off.
pub open spec fn toggled(settings: SettingsView, toggle: TrayToggle) -> SettingsView {
    match toggle {
        TrayToggle::Auto => SettingsView { auto_clean: !settings.auto_clean, ..settings },
        TrayToggle::Temp => SettingsView { clean_temp: !settings.clean_temp, ..settings },
        TrayToggle::Apps => SettingsView {
            trim_background_apps: !settings.trim_background_apps,
            ..settings
        },
        TrayToggle::Startup => SettingsView {
            start_with_windows: !settings.start_with_windows,
            ..settings
        },
    }
}

/// What is said where the start at sign-in could not be set. The button that restores the defaults
/// tells only the window, and the tray menu only the log. Where the window asked for the change, its
/// control is put back to what held before.
pub open spec fn startup_notice(
    source: ChangeSource,
    previous: SettingsView,
    error: Seq<char>,
) -> NoticeView {
    let text = "Startup setting failed: "@ + error;
    match source {
        ChangeSource::Window => NoticeView {
            shown: Some(text),
            logged: Some(text),
            startup_control: Some(previous.start_with_windows),
        },
        ChangeSource::Defaults => NoticeView {
            shown: Some(text),
            logged: None,
            startup_control: None,
        },
        ChangeSource::Tray(_) => NoticeView {
            shown: None,
            logged: Some(text),
            startup_control: None,
        },
    }
}

/// What is said where the settings could not be saved.
pub open spec fn save_notice(source: ChangeSource, error: Seq<char>) -> NoticeView {
    let text = "Settings save failed: "@ + error;
    match source {
        ChangeSource::Window => NoticeView {
            shown: Some(text),
            logged: Some(text),
            startup_control: None,
        },
        ChangeSource::Defaults => NoticeView {
            shown: Some(text),
            logged: Some("Settings save failed restoring defaults: "@ + error),
            startup_control: None,
        },
        ChangeSource::Tray(_) => NoticeView {
            shown: None,
            logged: Some("Settings save failed from tray: "@ + error),
            startup_control: None,
        },
    }
}

impl ChangeView {
    /// A change that the controls of the window ask for. The start at sign-in is set only where it
    /// differs.
    pub open spec fn from_window(previous: SettingsView, requested: SettingsView) -> ChangeView {
        ChangeView {
            source: ChangeSource::Window,
            previous,
            settings: requested,
            stage: if requested.start_with_windows != previous.start_with_windows {
                ChangeStage::SetStartup
            } else {
                ChangeStage::Save
            },
        }
    }

    /// The change that restores the defaults.
    pub open spec fn to_defaults(previous: SettingsView) -> ChangeView {
        ChangeView {
            source: ChangeSource::Defaults,
            previous,
            settings: default_settings(),
            stage: ChangeStage::SetStartup,
        }
    }

    /// A change that the tray menu asks for.
    pub open spec fn from_tray(previous: SettingsView, toggle: TrayToggle) -> ChangeView {
        ChangeView {
            source: ChangeSource::Tray(toggle),
            previous,
            settings: toggled(previous, toggle),
            stage: if toggle == TrayToggle::Startup {
                ChangeStage::SetStartup
            } else {
                ChangeStage::Save
            },
        }
    }

    /// What follows a save that failed.
    pub open spec fn after_failed_save(self) -> ChangeStage {
        match self.source {
            ChangeSource::Window => if self.settings.start_with_windows
                != self.previous.start_with_windows {
                ChangeStage::RollBack(self.previous.start_with_windows)
            } else {
                ChangeStage::Abandoned
            },
            ChangeSource::Defaults => ChangeStage::RollBack(self.previous.start_with_windows),
            ChangeSource::Tray(TrayToggle::Startup) => ChangeStage::RollBack(
                !self.settings.start_with_windows,
            ),
            ChangeSource::Tray(_) => ChangeStage::Abandoned,
        }
    }

    /// The change after a step. Where the start at sign-in cannot be set, the rest of the change
    /// goes on without it, but the defaults are restored as a whole or not at all.
    pub open spec fn next(self, reply: Result<(), Seq<char>>) -> ChangeView {
        match self.stage {
            ChangeStage::SetStartup => if reply is Ok {
                ChangeView { stage: ChangeStage::Save, ..self }
            } else if self.source == ChangeSource::Defaults {
                ChangeView { stage: ChangeStage::Abandoned, ..self }
            } else {
                ChangeView {
                    settings: SettingsView {
                        start_with_windows: self.previous.start_with_windows,
                        ..self.settings
                    },
                    stage: ChangeStage::Save,
                    ..self
                }
            },
            ChangeStage::Save => ChangeView {
                stage: if reply is Ok {
                    ChangeStage::Saved
                } else {
                    self.after_failed_save()
                },
                ..self
            },
            ChangeStage::RollBack(_) => ChangeView { stage: ChangeStage::Abandoned, ..self },
            _ => self,
        }
    }

    /// Whether the start at sign-in could be set back after two steps, where that was needed.
    pub open spec fn undone(
        self,
        first: Result<(), Seq<char>>,
        second: Result<(), Seq<char>>,
        third: Result<(), Seq<char>>,
    ) -> bool {
        self.next(first).next(second).stage is RollBack ==> third is Ok
    }

    /// What is said of a step, where it failed.
    pub open spec fn notice(self, reply: Result<(), Seq<char>>) -> Option<NoticeView> {
        match (self.stage, reply) {
            (ChangeStage::SetStartup, Err(error)) => Some(
                startup_notice(self.source, self.previous, error),
            ),
            (ChangeStage::Save, Err(error)) => Some(save_notice(self.source, error)),
            _ => None,
        }
    }

    /// Whether nothing is left to do.
    pub open spec fn is_finished(self) -> bool {
        self.stage == ChangeStage::Saved || self.stage == ChangeStage::Abandoned
    }

    /// The settings that hold once nothing is left to do. What the tray menu turned on or off stays
    /// so, saved or not.
    pub open spec fn outcome(self) -> SettingsView {
        if self.stage == ChangeStage::Saved || self.source is Tray {
            self.settings
        } else {
            self.previous
        }
    }

    /// The hotkey that is to be registered, where the change is saved and may have a new one.
    pub open spec fn new_hotkey(self) -> Option<Seq<char>> {
        if self.stage == ChangeStage::Saved && (self.source == ChangeSource::Defaults || (
        self.source == ChangeSource::Window && self.settings.hotkey != self.previous.hotkey)) {
            Some(self.settings.hotkey)
        } else {
            None
        }
    }

    /// Whether the controls of the window are to show the settings anew.
    pub open spec fn refreshes_window(self) -> bool {
        self.stage == ChangeStage::Saved && self.source != ChangeSource::Window
    }

    /// Whether the check marks of the tray menu are to show the settings anew.
    pub open spec fn refreshes_tray(self) -> bool {
        self.source == ChangeSource::Window || (self.source == ChangeSource::Defaults && self.stage
            == ChangeStage::Saved)
    }
}

fn with_prefix(prefix: &str, error: &str) -> (text: String)
    ensures
        text@ == prefix@ + error@,
{
    let mut text = prefix.to_owned();
    text.append(error);
    text
}

fn startup_failure(source: ChangeSource, previous: &Settings, error: &str) -> (notice: Notice)
    ensures
        notice@ == startup_notice(source, previous@, error@),
{
    let text = with_prefix("Startup setting failed: ", error);
    match source {
        ChangeSource::Window => Notice {
            shown: Some(text.clone()),
            logged: Some(text),
            startup_control: Some(previous.start_with_windows),
        },
        ChangeSource::Defaults => Notice {
            shown: Some(text),
            logged: None,
            startup_control: None,
        },
        ChangeSource::Tray(_) => Notice {
            shown: None,
            logged: Some(text),
            startup_control: None,
        },
    }
}

fn save_failure(source: ChangeSource, error: &str) -> (notice: Notice)
    ensures
        notice@ == save_notice(source, error@),
{
    let text = with_prefix("Settings save failed: ", error);
    match source {
        ChangeSource::Window => Notice {
            shown: Some(text.clone()),
            logged: Some(text),
            startup_control: None,
        },
        ChangeSource::Defaults => Notice {
            shown: Some(text),
            logged: Some(with_prefix("Settings save failed restoring defaults: ", error)),
            startup_control: None,
        },
        ChangeSource::Tray(_) => Notice {
            shown: None,
            logged: Some(with_prefix("Settings save failed from tray: ", error)),
            startup_control: None,
        },
    }
}

/// An optional notice, seen through the characters of its texts.
pub open spec fn notice_view(notice: Option<Notice>) -> Option<NoticeView> {
    match notice {
        Some(notice) => Some(notice@),
        None => None,
    }
}

impl Change {
    /// Begins a change that the controls of the window ask for.
    pub fn persist(previous: Settings, ui: UiState) -> (change: Change)
        ensures
            change@ == ChangeView::from_window(previous@, ui.meaning()),
    {
        let requested = read_ui(ui);
        let stage = if requested.start_with_windows != previous.start_with_windows {
            ChangeStage::SetStartup
        } else {
            ChangeStage::Save
        };
        Change { source: ChangeSource::Window, previous, settings: requested, stage }
    }

    /// Begins the change that restores the defaults.
    pub fn restore_defaults(previous: Settings) -> (change: Change)
        ensures
            change@ == ChangeView::to_defaults(previous@),
    {
        Change {
            source: ChangeSource::Defaults,
            previous,
            settings: Settings::default(),
            stage: ChangeStage::SetStartup,
        }
    }

    /// Begins a change that the tray menu asks for.
    pub fn toggle(previous: Settings, toggle: TrayToggle) -> (change: Change)
        ensures
            change@ == ChangeView::from_tray(previous@, toggle),
    {
        let mut settings = previous.clone();
        let mut stage = ChangeStage::Save;
        match toggle {
            TrayToggle::Auto => {
                settings.auto_clean = !settings.auto_clean;
            },
            TrayToggle::Temp => {
                settings.clean_temp = !settings.clean_temp;
            },
            TrayToggle::Apps => {
                settings.trim_background_apps = !settings.trim_background_apps;
            },
            TrayToggle::Startup => {
                settings.start_with_windows = !settings.start_with_windows;
                stage = ChangeStage::SetStartup;
            },
        }
        Change { source: ChangeSource::Tray(toggle), previous, settings, stage }
    }

    fn failed_save_stage(&self) -> (stage: ChangeStage)
        ensures
            stage == self@.after_failed_save(),
    {
        match self.source {
            ChangeSource::Window => if self.settings.start_with_windows
                != self.previous.start_with_windows {
                ChangeStage::RollBack(self.previous.start_with_windows)
            } else {
                ChangeStage::Abandoned
            },
            ChangeSource::Defaults => ChangeStage::RollBack(self.previous.start_with_windows),
            ChangeSource::Tray(TrayToggle::Startup) => ChangeStage::RollBack(
                !self.settings.start_with_windows,
            ),
            ChangeSource::Tray(_) => ChangeStage::Abandoned,
        }
    }

    /// Goes on with the change after a step, and tells what is to be said of the step.
    pub fn step(&mut self, reply: Result<(), String>) -> (notice: Option<Notice>)
        ensures
            final(self)@ == old(self)@.next(outcome(reply)),
            notice_view(notice) == old(self)@.notice(outcome(reply)),
    {
        match (self.stage, reply) {
            (ChangeStage::SetStartup, Ok(())) => {
                self.stage = ChangeStage::Save;
                None
            },
            (ChangeStage::SetStartup, Err(error)) => {
                if self.source == ChangeSource::Defaults {
                    self.stage = ChangeStage::Abandoned;
                } else {
                    self.settings.start_with_windows = self.previous.start_with_windows;
                    self.stage = ChangeStage::Save;
                }
                Some(startup_failure(self.source, &self.previous, error.as_str()))
            },
            (ChangeStage::Save, Ok(())) => {
                self.stage = ChangeStage::Saved;
                None
            },
            (ChangeStage::Save, Err(error)) => {
                self.stage = self.failed_save_stage();
                Some(save_failure(self.source, error.as_str()))
            },
            (ChangeStage::RollBack(_), _) => {
                self.stage = ChangeStage::Abandoned;
                None
            },
            _ => None,
        }
    }

    /// The settings that hold once nothing is left to do.
    pub fn result(&self) -> (settings: Settings)
        ensures
            settings@ == self@.outcome(),
    {
        match (self.stage, self.source) {
            (ChangeStage::Saved, _) => self.settings.clone(),
            (_, ChangeSource::Tray(_)) => self.settings.clone(),
            _ => self.previous.clone(),
        }
    }

    /// The hotkey that is to be registered, if any.
    pub fn hotkey_update(&self) -> (hotkey: Option<String>)
        ensures
            optional(hotkey) == self@.new_hotkey(),
    {
        if self.stage != ChangeStage::Saved {
            return None;
        }
        match self.source {
            ChangeSource::Window => if self.settings.hotkey == self.previous.hotkey {
                None
            } else {
                Some(self.settings.hotkey.clone())
            },
            ChangeSource::Defaults => Some(self.settings.hotkey.clone()),
            ChangeSource::Tray(_) => None,
        }
    }

    /// Whether the controls of the window are to show the settings anew.
    pub fn updates_window(&self) -> (updates: bool)
        ensures
            updates == self@.refreshes_window(),
    {
        self.stage == ChangeStage::Saved && self.source != ChangeSource::Window
    }

    /// Whether the check marks of the tray menu are to show the settings anew.
    pub fn updates_tray(&self) -> (updates: bool)
        ensures
            updates == self@.refreshes_tray(),
    {
        self.source == ChangeSource::Window || (self.source == ChangeSource::Defaults && self.stage
            == ChangeStage::Saved)
    }
}

/// What the button that cleans right away does: the settings of the controls hold from now on,
/// unsaved, and the window says that a cleanup runs.
pub fn clean_now(ui: UiState) -> (start: (Settings, &'static str))
    ensures
        start.0@ == ui.meaning(),
        start.1@ == "Cleaning RAM..."@,
{
    (read_ui(ui), "Cleaning RAM...")
}

/// What lies outside the program: whether Windows starts it at sign-in, and what the settings file
/// holds.
pub struct World {
    pub registered: bool,
    pub file: SettingsView,
}

impl World {
    /// Whether the world is as the settings have it.
    pub open spec fn agrees_with(self, settings: SettingsView) -> bool {
        self.registered == settings.start_with_windows && self.file == settings
    }

    /// The world after a step of a change: one that fails leaves it alone.
    pub open spec fn next(self, change: ChangeView, reply: Result<(), Seq<char>>) -> World {
        if reply is Err {
            self
        } else {
            match change.stage {
                ChangeStage::SetStartup => World {
                    registered: change.settings.start_with_windows,
                    ..self
                },
                ChangeStage::Save => World { file: change.settings, ..self },
                ChangeStage::RollBack(value) => World { registered: value, ..self },
                _ => self,
            }
        }
    }
}

/// A change and the world after all the steps of the change, which are at most three.
pub open spec fn carried_out(
    change: ChangeView,
    world: World,
    first: Result<(), Seq<char>>,
    second: Result<(), Seq<char>>,
    third: Result<(), Seq<char>>,
) -> (ChangeView, World) {
    let change1 = change.next(first);
    let world1 = world.next(change, first);
    let change2 = change1.next(second);
    let world2 = world1.next(change1, second);
    (change2.next(third), world2.next(change2, third))
}

/// Every change ends after at most three steps, and it ends saved exactly when its save went
/// through; the defaults are not even saved where the start at sign-in could not be set.
pub proof fn law_every_change_ends(
    previous: SettingsView,
    requested: SettingsView,
    toggle: TrayToggle,
    world: World,
    first: Result<(), Seq<char>>,
    second: Result<(), Seq<char>>,
    third: Result<(), Seq<char>>,
)
    ensures
        ({
            let start = ChangeView::from_window(previous, requested);
            let end = carried_out(start, world, first, second, third).0;
            let save = if start.stage == ChangeStage::Save {
                first
            } else {
                second
            };
            end.is_finished() && (end.stage == ChangeStage::Saved <==> save is Ok)
        }),
        ({
            let start = ChangeView::to_defaults(previous);
            let end = carried_out(start, world, first, second, third).0;
            end.is_finished() && (end.stage == ChangeStage::Saved <==> first is Ok && second is Ok)
        }),
        ({
            let start = ChangeView::from_tray(previous, toggle);
            let end = carried_out(start, world, first, second, third).0;
            let save = if start.stage == ChangeStage::Save {
                first
            } else {
                second
            };
            end.is_finished() && (end.stage == ChangeStage::Saved <==> save is Ok)
        }),
{
}

/// Where the world agreed with the settings before a change of the window or the restoring of the
/// defaults, it agrees with those that hold afterwards, as long as the start at sign-in could be
/// set back where that was needed.
pub proof fn law_world_keeps_up_with_the_window(
    previous: SettingsView,
    requested: SettingsView,
    world: World,
    first: Result<(), Seq<char>>,
    second: Result<(), Seq<char>>,
    third: Result<(), Seq<char>>,
)
    requires
        world.agrees_with(previous),
    ensures
        ChangeView::from_window(previous, requested).undone(first, second, third) ==> ({
            let start = ChangeView::from_window(previous, requested);
            let (end, after) = carried_out(start, world, first, second, third);
            after.agrees_with(end.outcome())
        }),
        ChangeView::to_defaults(previous).undone(first, second, third) ==> ({
            let start = ChangeView::to_defaults(previous);
            let (end, after) = carried_out(start, world, first, second, third);
            after.agrees_with(end.outcome())
        }),
{
}

/// Where the world agreed with the settings before a change of the tray menu that is saved, it
/// agrees with those that hold afterwards.
pub proof fn law_world_keeps_up_with_the_tray(
    previous: SettingsView,
    toggle: TrayToggle,
    world: World,
    first: Result<(), Seq<char>>,
    second: Result<(), Seq<char>>,
    third: Result<(), Seq<char>>,
)
    requires
        world.agrees_with(previous),
        carried_out(
            ChangeView::from_tray(previous, toggle),
            world,
            first,
            second,
            third,
        ).0.stage == ChangeStage::Saved,
    ensures
        ({
            let start = ChangeView::from_tray(previous, toggle);
            let (end, after) = carried_out(start, world, first, second, third);
            after.agrees_with(end.outcome())
        }),
{
}

/// The control for the start at sign-in after a step of a change.
pub open spec fn control_after(control: bool, change: ChangeView, reply: Result<(), Seq<char>>) -> bool {
    match change.notice(reply) {
        Some(notice) => match notice.startup_control {
            Some(value) => value,
            None => control,
        },
        None => control,
    }
}

/// Once a change of the window is saved, the control for the start at sign-in shows what was saved,
/// also where the start could not be set.
pub proof fn law_startup_control_shows_what_was_saved(
    previous: SettingsView,
    requested: SettingsView,
    first: Result<(), Seq<char>>,
    second: Result<(), Seq<char>>,
)
    ensures
        ({
            let start = ChangeView::from_window(previous, requested);
            let middle = start.next(first);
            let end = middle.next(second);
            let control = control_after(
                control_after(requested.start_with_windows, start, first),
                middle,
                second,
            );
            end.stage == ChangeStage::Saved ==> control == end.settings.start_with_windows
        }),
{
}

/// A change that is given up leaves the settings as they were, and the hotkey with them, unless it
/// comes from the tray menu.
pub proof fn law_abandoned_changes_leave_the_settings(
    change: ChangeView,
    reply: Result<(), Seq<char>>,
)
    requires
        change.next(reply).stage == ChangeStage::Abandoned,
        !(change.source is Tray),
    ensures
        change.next(reply).outcome() == change.previous,
        change.next(reply).new_hotkey() is None,
{
}

/// An entry of the tray menu turns one setting and no other, and turning it twice leaves everything
/// as it was.
pub proof fn law_toggling_twice_changes_nothing(settings: SettingsView, toggle: TrayToggle)
    ensures
        toggled(toggled(settings, toggle), toggle) == settings,
        toggled(settings, toggle).auto_clean != settings.auto_clean <==> toggle == TrayToggle::Auto,
        toggled(settings, toggle).clean_temp != settings.clean_temp <==> toggle == TrayToggle::Temp,
        toggled(settings, toggle).trim_background_apps != settings.trim_background_apps <==> toggle
            == TrayToggle::Apps,
        toggled(settings, toggle).start_with_windows != settings.start_with_windows <==> toggle
            == TrayToggle::Startup,
        toggled(settings, toggle).interval_minutes == settings.interval_minutes,
        toggled(settings, toggle).hotkey == settings.hotkey,
        toggled(settings, toggle).close_to_tray == settings.close_to_tray,
        toggled(settings, toggle).dark_mode == settings.dark_mode,
{
}

} // verus!
