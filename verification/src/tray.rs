//! The tray icon: its menu, what each entry does, and which clicks open the window.
use vstd::prelude::*;
use crate::settings::{Settings, SettingsView};

verus! {

/// An entry of the tray menu that can be chosen.
#[derive(Debug, Clone, Copy, PartialEq, Eq, Structural)]
pub enum TrayItem {
    Update,
    Show,
    Clean,
    Auto,
    Temp,
    Apps,
    Startup,
    Exit,
}

/// How many entries can be chosen.
pub const TRAY_ITEM_COUNT: usize = 8;

/// The entries that can be chosen, in the order in which their identifiers are kept.
pub open spec fn tray_items() -> Seq<TrayItem> {
    seq![
        TrayItem::Update,
        TrayItem::Show,
        TrayItem::Clean,
        TrayItem::Auto,
        TrayItem::Temp,
        TrayItem::Apps,
        TrayItem::Startup,
        TrayItem::Exit,
    ]
}

/// The entry whose identifier is kept at a place. An identifier that is not kept names none.
pub fn item_at(place: usize) -> (item: Option<TrayItem>)
    ensures
        item == if place < TRAY_ITEM_COUNT {
            Some(tray_items()[place as int])
        } else {
            None
        },
{
    if place == 0 {
        Some(TrayItem::Update)
    } else if place == 1 {
        Some(TrayItem::Show)
    } else if place == 2 {
        Some(TrayItem::Clean)
    } else if place == 3 {
        Some(TrayItem::Auto)
    } else if place == 4 {
        Some(TrayItem::Temp)
    } else if place == 5 {
        Some(TrayItem::Apps)
    } else if place == 6 {
        Some(TrayItem::Startup)
    } else if place == 7 {
        Some(TrayItem::Exit)
    } else {
        None
    }
}

impl TrayItem {
    /// What the entry is called.
    pub open spec fn label(self) -> Seq<char> {
        match self {
            TrayItem::Update => "Update now"@,
            TrayItem::Show => "Show RAMOpt"@,
            TrayItem::Clean => "Clean RAM now"@,
            TrayItem::Auto => "Scheduled cleanup"@,
            TrayItem::Temp => "Clean temp files"@,
            TrayItem::Apps => "Close user apps (safe)"@,
            TrayItem::Startup => "Start with Windows"@,
            TrayItem::Exit => "Exit RAMOpt"@,
        }
    }

    /// What the entry is called.
    pub fn name(self) -> (name: &'static str)
        ensures
            name@ == self.label(),
    {
        match self {
            TrayItem::Update => "Update now",
            TrayItem::Show => "Show RAMOpt",
            TrayItem::Clean => "Clean RAM now",
            TrayItem::Auto => "Scheduled cleanup",
            TrayItem::Temp => "Clean temp files",
            TrayItem::Apps => "Close user apps (safe)",
            TrayItem::Startup => "Start with Windows",
            TrayItem::Exit => "Exit RAMOpt",
        }
    }

    /// The check mark of the entry, where it has one.
    pub open spec fn check(self, settings: SettingsView) -> Option<bool> {
        match self {
            TrayItem::Auto => Some(settings.auto_clean),
            TrayItem::Temp => Some(settings.clean_temp),
            TrayItem::Apps => Some(settings.trim_background_apps),
            TrayItem::Startup => Some(settings.start_with_windows),
            _ => None,
        }
    }

    /// The check mark of the entry, where it has one.
    pub fn checked(self, settings: &Settings) -> (checked: Option<bool>)
        ensures
            checked == self.check(settings@),
    {
        match self {
            TrayItem::Auto => Some(settings.auto_clean),
            TrayItem::Temp => Some(settings.clean_temp),
            TrayItem::Apps => Some(settings.trim_background_apps),
            TrayItem::Startup => Some(settings.start_with_windows),
            _ => None,
        }
    }
}

/// A line of the tray menu.
#[derive(Debug, Clone, Copy, PartialEq, Eq, Structural)]
pub enum MenuEntry {
    /// An entry without a check mark.
    Plain(TrayItem),
    /// An entry with a check mark.
    Check(TrayItem, bool),
    /// A line between groups.
    Separator,
}

/// The lines of the tray menu from top to bottom.
pub open spec fn menu_entries(settings: SettingsView) -> Seq<MenuEntry> {
    seq![
        MenuEntry::Plain(TrayItem::Show),
        MenuEntry::Plain(TrayItem::Clean),
        MenuEntry::Separator,
        MenuEntry::Check(TrayItem::Auto, settings.auto_clean),
        MenuEntry::Check(TrayItem::Temp, settings.clean_temp),
        MenuEntry::Check(TrayItem::Apps, settings.trim_background_apps),
        MenuEntry::Check(TrayItem::Startup, settings.start_with_windows),
        MenuEntry::Separator,
        MenuEntry::Plain(TrayItem::Exit),
    ]
}

/// The lines of the tray menu from top to bottom.
pub fn tray_menu(settings: &Settings) -> (entries: Vec<MenuEntry>)
    ensures
        entries@ == menu_entries(settings@),
{
    let mut entries: Vec<MenuEntry> = Vec::new();
    entries.push(MenuEntry::Plain(TrayItem::Show));
    entries.push(MenuEntry::Plain(TrayItem::Clean));
    entries.push(MenuEntry::Separator);
    entries.push(MenuEntry::Check(TrayItem::Auto, settings.auto_clean));
    entries.push(MenuEntry::Check(TrayItem::Temp, settings.clean_temp));
    entries.push(MenuEntry::Check(TrayItem::Apps, settings.trim_background_apps));
    entries.push(MenuEntry::Check(TrayItem::Startup, settings.start_with_windows));
    entries.push(MenuEntry::Separator);
    entries.push(MenuEntry::Plain(TrayItem::Exit));
    entries
}

/// The lines that are put above the others once there is an update.
pub open spec fn update_entries() -> Seq<MenuEntry> {
    seq![MenuEntry::Plain(TrayItem::Update), MenuEntry::Separator]
}

/// The lines that are put above the others once there is an update.
pub fn update_menu() -> (entries: Vec<MenuEntry>)
    ensures
        entries@ == update_entries(),
{
    let mut entries: Vec<MenuEntry> = Vec::new();
    entries.push(MenuEntry::Plain(TrayItem::Update));
    entries.push(MenuEntry::Separator);
    entries
}

/// The entries whose check marks follow the settings, each with its mark.
pub open spec fn check_marks(settings: SettingsView) -> Seq<(TrayItem, bool)> {
    seq![
        (TrayItem::Auto, settings.auto_clean),
        (TrayItem::Temp, settings.clean_temp),
        (TrayItem::Apps, settings.trim_background_apps),
        (TrayItem::Startup, settings.start_with_windows),
    ]
}

/// The entries whose check marks follow the settings, each with its mark.
pub fn sync_checks(settings: &Settings) -> (marks: Vec<(TrayItem, bool)>)
    ensures
        marks@ == check_marks(settings@),
{
    let mut marks: Vec<(TrayItem, bool)> = Vec::new();
    marks.push((TrayItem::Auto, settings.auto_clean));
    marks.push((TrayItem::Temp, settings.clean_temp));
    marks.push((TrayItem::Apps, settings.trim_background_apps));
    marks.push((TrayItem::Startup, settings.start_with_windows));
    marks
}

/// A setting that the tray menu turns on and off.
#[derive(Debug, Clone, Copy, PartialEq, Eq, Structural)]
pub enum TrayToggle {
    Auto,
    Temp,
    Apps,
    Startup,
}

/// What an entry of the menu does.
#[derive(Debug, Clone, Copy, PartialEq, Eq, Structural)]
pub enum TrayAction {
    /// An update is started.
    Update,
    /// The window is shown.
    Show,
    /// A cleanup is started.
    Clean,
    /// A setting is turned on or off.
    Toggle(TrayToggle),
    /// The program ends.
    Exit,
}

/// What an entry of the menu does.
pub open spec fn item_action(item: TrayItem) -> TrayAction {
    match item {
        TrayItem::Update => TrayAction::Update,
        TrayItem::Show => TrayAction::Show,
        TrayItem::Clean => TrayAction::Clean,
        TrayItem::Auto => TrayAction::Toggle(TrayToggle::Auto),
        TrayItem::Temp => TrayAction::Toggle(TrayToggle::Temp),
        TrayItem::Apps => TrayAction::Toggle(TrayToggle::Apps),
        TrayItem::Startup => TrayAction::Toggle(TrayToggle::Startup),
        TrayItem::Exit => TrayAction::Exit,
    }
}

/// What an entry of the menu does.
pub fn tray_action(item: TrayItem) -> (action: TrayAction)
    ensures
        action == item_action(item),
{
    match item {
        TrayItem::Update => TrayAction::Update,
        TrayItem::Show => TrayAction::Show,
        TrayItem::Clean => TrayAction::Clean,
        TrayItem::Auto => TrayAction::Toggle(TrayToggle::Auto),
        TrayItem::Temp => TrayAction::Toggle(TrayToggle::Temp),
        TrayItem::Apps => TrayAction::Toggle(TrayToggle::Apps),
        TrayItem::Startup => TrayAction::Toggle(TrayToggle::Startup),
        TrayItem::Exit => TrayAction::Exit,
    }
}

/// Whether the program ends once an entry has done what it does: it was the entry to exit, or an
/// update was started.
pub fn ends_program(action: TrayAction, update_started: bool) -> (ends: bool)
    ensures
        ends == (action == TrayAction::Exit || (action == TrayAction::Update && update_started)),
{
    match action {
        TrayAction::Exit => true,
        TrayAction::Update => update_started,
        _ => false,
    }
}

/// What the mouse did on the tray icon.
#[derive(Debug, Clone, Copy, PartialEq, Eq, Structural)]
pub enum TrayClick {
    /// A button went down or came up.
    Click { left: bool, up: bool },
    /// A button was pressed twice.
    DoubleClick { left: bool },
    /// Anything else.
    Other,
}

/// The left button opens the window, when it comes up or is pressed twice.
pub open spec fn click_opens_window(click: TrayClick) -> bool {
    ||| click == TrayClick::Click { left: true, up: true }
    ||| click == TrayClick::DoubleClick { left: true }
}

/// Whether a click opens the window.
pub fn opens_window(click: TrayClick) -> (opens: bool)
    ensures
        opens == click_opens_window(click),
{
    match click {
        TrayClick::Click { left, up } => left && up,
        TrayClick::DoubleClick { left } => left,
        TrayClick::Other => false,
    }
}

/// The menu is built with the check marks that it is later kept at: those of the settings.
pub proof fn law_menu_shows_the_settings(settings: SettingsView, item: TrayItem, mark: bool)
    ensures
        menu_entries(settings).contains(MenuEntry::Check(item, mark)) <==> item.check(settings)
            == Some(mark),
        check_marks(settings).contains((item, mark)) <==> item.check(settings) == Some(mark),
{
    let entries = menu_entries(settings);
    assert(entries[3] == MenuEntry::Check(TrayItem::Auto, settings.auto_clean));
    assert(entries[4] == MenuEntry::Check(TrayItem::Temp, settings.clean_temp));
    assert(entries[5] == MenuEntry::Check(TrayItem::Apps, settings.trim_background_apps));
    assert(entries[6] == MenuEntry::Check(TrayItem::Startup, settings.start_with_windows));
    let marks = check_marks(settings);
    assert(marks[0] == (TrayItem::Auto, settings.auto_clean));
    assert(marks[1] == (TrayItem::Temp, settings.clean_temp));
    assert(marks[2] == (TrayItem::Apps, settings.trim_background_apps));
    assert(marks[3] == (TrayItem::Startup, settings.start_with_windows));
}

} // verus!
