//! Laws of the tray icon.
use vstd::prelude::*;
use crate::settings::Settings;
use crate::tray::{
    ends_program, item_at, opens_window, sync_checks, tray_action, tray_menu, MenuEntry, TrayAction,
    TrayClick, TrayItem, TrayToggle,
};

verus! {

/// The menu has an entry for each thing that can be done, in its order, and each check mark is that of
/// its own setting.
pub proof fn law_menu_has_the_marks_of_the_settings(settings: Settings, entries: Vec<MenuEntry>)
    requires
        call_ensures(tray_menu, (&settings,), entries),
    ensures
        entries@.len() == 9,
        entries@[0] == MenuEntry::Plain(TrayItem::Show),
        entries@[1] == MenuEntry::Plain(TrayItem::Clean),
        entries@[2] == MenuEntry::Separator,
        entries@[3] == MenuEntry::Check(TrayItem::Auto, settings.auto_clean),
        entries@[4] == MenuEntry::Check(TrayItem::Temp, settings.clean_temp),
        entries@[5] == MenuEntry::Check(TrayItem::Apps, settings.trim_background_apps),
        entries@[6] == MenuEntry::Check(TrayItem::Startup, settings.start_with_windows),
        entries@[7] == MenuEntry::Separator,
        entries@[8] == MenuEntry::Plain(TrayItem::Exit),
{
}

/// The check marks that are kept up are those of the four settings that the menu turns.
pub proof fn law_marks_follow_the_settings(settings: Settings, marks: Vec<(TrayItem, bool)>)
    requires
        call_ensures(sync_checks, (&settings,), marks),
    ensures
        marks@.len() == 4,
        marks@[0] == (TrayItem::Auto, settings.auto_clean),
        marks@[1] == (TrayItem::Temp, settings.clean_temp),
        marks@[2] == (TrayItem::Apps, settings.trim_background_apps),
        marks@[3] == (TrayItem::Startup, settings.start_with_windows),
{
}

/// An entry has the check mark of the setting that it turns, and no mark where it turns none.
pub proof fn law_marks_are_those_of_what_is_turned(
    item: TrayItem,
    settings: Settings,
    mark: Option<bool>,
    action: TrayAction,
)
    requires
        call_ensures(TrayItem::checked, (item, &settings), mark),
        call_ensures(tray_action, (item,), action),
    ensures
        mark is Some <==> action is Toggle,
        action == TrayAction::Toggle(TrayToggle::Auto) ==> mark == Some(settings.auto_clean),
        action == TrayAction::Toggle(TrayToggle::Temp) ==> mark == Some(settings.clean_temp),
        action == TrayAction::Toggle(TrayToggle::Apps) ==> mark == Some(
            settings.trim_background_apps,
        ),
        action == TrayAction::Toggle(TrayToggle::Startup) ==> mark == Some(
            settings.start_with_windows,
        ),
        action == TrayAction::Toggle(TrayToggle::Auto) <==> item == TrayItem::Auto,
        action == TrayAction::Toggle(TrayToggle::Temp) <==> item == TrayItem::Temp,
        action == TrayAction::Toggle(TrayToggle::Apps) <==> item == TrayItem::Apps,
        action == TrayAction::Toggle(TrayToggle::Startup) <==> item == TrayItem::Startup,
        action == TrayAction::Update <==> item == TrayItem::Update,
        action == TrayAction::Show <==> item == TrayItem::Show,
        action == TrayAction::Clean <==> item == TrayItem::Clean,
        action == TrayAction::Exit <==> item == TrayItem::Exit,
{
}

/// The program ends after the entry to exit, and after an update exactly when that was started.
pub proof fn law_exit_and_updates_end_the_program(
    item: TrayItem,
    action: TrayAction,
    update_started: bool,
    ends: bool,
)
    requires
        call_ensures(tray_action, (item,), action),
        call_ensures(ends_program, (action, update_started), ends),
    ensures
        ends <==> item == TrayItem::Exit || (item == TrayItem::Update && update_started),
{
}

/// Only the left button opens the window: when it comes up, and when it is pressed twice.
pub proof fn law_left_button_opens_the_window(click: TrayClick, opens: bool)
    requires
        call_ensures(opens_window, (click,), opens),
    ensures
        click matches TrayClick::Click { left, up } ==> opens == (left && up),
        click matches TrayClick::DoubleClick { left } ==> opens == left,
        click is Other ==> !opens,
{
}

/// Each entry that can be chosen is kept at one place, and there are eight of them.
pub proof fn law_each_entry_is_kept_at_one_place(
    place: usize,
    other: usize,
    item: Option<TrayItem>,
    other_item: Option<TrayItem>,
)
    requires
        call_ensures(item_at, (place,), item),
        call_ensures(item_at, (other,), other_item),
    ensures
        item is Some <==> place < 8,
        item is Some && item == other_item ==> place == other,
{
    let list = crate::tray::tray_items();
    if place < 8 {
        assert(item == Some(list[place as int]));
    }
    if other < 8 {
        assert(other_item == Some(list[other as int]));
    }
}

} // verus!
