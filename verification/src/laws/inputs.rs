//! Laws of what can be handed to the library: every input of these calls is accepted.
use vstd::prelude::*;
use crate::apps::{close_background_apps, exit_failure, parse_counts};
use crate::areas::{begin_area, optimize_area, AreaReply, AreaStage, MemoryArea};
use crate::changes::{clean_now, Change};
use crate::cleanup::{
    clean_memory, start_cleanup, CleanupReply, CleanupRun, MemoryOptimizationReport, SingleFlight,
};
use crate::command::{wait_for_command, ChildStatus, CommandOutput};
use crate::hotkey::{hotkey_start, registration_message, Hotkey, HotkeyBinding, KeyState};
use crate::icon::{icon, icon_from};
use crate::instance::{start_instance, InstanceReply, InstanceStage};
use crate::locations::{
    data_directory, log_path, rotated_log_path, settings_draft_path, settings_path, system_binary,
};
use crate::logfile::{log, push_log};
use crate::memory::{
    freed_megabytes, gb, measured_memory, measurement_failure, memory_display, memory_snapshot,
    memory_status, memory_tooltip, MemoryStatus,
};
use crate::native::{
    enable_privilege, is_valid, nt_success, wide, win32_error, CallReply, PrivilegeStage,
};
use crate::number::{parse_u32, push_decimal, push_hexadecimal};
use crate::picture::has_broken_palette;
use crate::rounding::percent;
use crate::settings::{
    clamp_interval, load_settings, read_ui, remove_legacy, sync_ui, Settings, SettingsFile,
    StoredSettings, UiState,
};
use crate::startup::{set_startup, StartupReply, StartupStage};
use crate::temp::{clear_temp, clear_temp_folder, TempEntry};
use crate::text::{
    characters, is_whitespace, join, lines, split, starts_with, trim, trim_start_matches,
};
use crate::timer::{plan_wait, timer_fires, TimerWait};
use crate::tray::{
    ends_program, item_at, opens_window, sync_checks, tray_action, tray_menu, TrayAction, TrayClick,
    TrayItem, TrayToggle,
};
use crate::update::{
    begin_update, check_update, latest_release_version, release_name, start_update, update_answer,
    updater_argument, UpdateMenu, UpdateReply, UpdateStage,
};
use crate::version::{newer_than, version_is_newer};
use crate::volume::{flush_volume_cache, root_path, volume_path, VolumeReply, VolumeStage};
use crate::window::{center_if_possible, close_quits, show_event_fires, show_failure, Edges};

verus! {

/// Any text can be searched, taken apart, put together and read.
pub proof fn law_any_text_is_accepted(
    text: &str,
    other: &str,
    c: char,
    list: Vec<String>,
    written: &mut String,
    n: u128,
    bits: u32,
    width: u32,
)
    ensures
        call_requires(characters, (text,)),
        call_requires(starts_with, (text, other)),
        call_requires(trim_start_matches, (text, other)),
        call_requires(split, (text, c)),
        call_requires(lines, (text,)),
        call_requires(is_whitespace, (c,)),
        call_requires(trim, (text,)),
        call_requires(join, (&list, other)),
        call_requires(parse_u32, (text,)),
        call_requires(push_decimal, (written, n)),
        call_requires(push_hexadecimal, (written, bits, width)),
        call_requires(newer_than, (text, other)),
        call_requires(version_is_newer, (text,)),
{
}

/// Any settings, stored, shown or held, are accepted.
pub proof fn law_any_settings_are_accepted(
    settings: Settings,
    stored: StoredSettings,
    ui: UiState,
    file: SettingsFile,
    legacy: Option<SettingsFile>,
    saved: Result<(), String>,
    minutes: u32,
    wait: TimerWait,
    state: KeyState,
)
    ensures
        call_requires(clamp_interval, (minutes,)),
        call_requires(Settings::from_stored, (stored,)),
        call_requires(Settings::to_stored, (&settings,)),
        call_requires(load_settings, (file, legacy)),
        call_requires(remove_legacy, (&saved,)),
        call_requires(sync_ui, (&settings,)),
        call_requires(read_ui, (ui,)),
        call_requires(plan_wait, (minutes,)),
        call_requires(timer_fires, (wait, &settings)),
        call_requires(hotkey_start, (state, &settings)),
        call_requires(clean_now, (ui,)),
        call_requires(CleanupRun::begin, (settings,)),
{
}

/// Any change can be begun and carried on, with any answer.
pub proof fn law_any_change_is_accepted(
    settings: Settings,
    ui: UiState,
    toggle: TrayToggle,
    change: Change,
    running: &mut Change,
    reply: Result<(), String>,
)
    ensures
        call_requires(Change::persist, (settings, ui)),
        call_requires(Change::restore_defaults, (settings,)),
        call_requires(Change::toggle, (settings, toggle)),
        call_requires(Change::step, (running, reply)),
        call_requires(Change::result, (&change,)),
        call_requires(Change::hotkey_update, (&change,)),
        call_requires(Change::updates_window, (&change,)),
        call_requires(Change::updates_tray, (&change,)),
{
}

/// Any area, privilege, volume, start and update can be carried on, with any answer.
pub proof fn law_any_answer_is_accepted(
    area: MemoryArea,
    area_stage: AreaStage,
    area_reply: AreaReply,
    name: &str,
    privilege_stage: PrivilegeStage,
    call: CallReply,
    letter: u8,
    volume_stage: VolumeStage,
    volume_reply: VolumeReply,
    enabled: bool,
    startup_stage: StartupStage,
    startup_reply: StartupReply,
    instance_stage: InstanceStage,
    instance_reply: InstanceReply,
    gate: &mut SingleFlight,
    update_stage: UpdateStage,
    update_reply: UpdateReply,
)
    ensures
        call_requires(begin_area, (area,)),
        call_requires(optimize_area, (area, area_stage, area_reply)),
        call_requires(MemoryArea::privilege, (area,)),
        call_requires(MemoryArea::request, (area,)),
        call_requires(MemoryArea::name, (area,)),
        call_requires(enable_privilege, (name, privilege_stage, call)),
        call_requires(flush_volume_cache, (letter, volume_stage, volume_reply)),
        call_requires(volume_path, (letter,)),
        call_requires(root_path, (letter,)),
        call_requires(set_startup, (enabled, startup_stage, startup_reply)),
        call_requires(start_instance, (instance_stage, instance_reply)),
        call_requires(begin_update, (gate,)),
        call_requires(start_update, (gate, name, update_stage, update_reply)),
        call_requires(start_cleanup, (gate,)),
        call_requires(SingleFlight::try_start, (gate,)),
        call_requires(SingleFlight::finish, (gate,)),
{
}

/// Whatever a command, a call or a script left behind is accepted.
pub proof fn law_any_result_is_accepted(
    output: Result<CommandOutput, String>,
    child: ChildStatus,
    out_of_time: bool,
    seconds: u64,
    text: &str,
    other: &str,
    result: Result<(), String>,
    latest: Result<String, String>,
    available: bool,
    menu: &mut UpdateMenu,
    status: i32,
    code: u32,
    handle: usize,
    units: Vec<u16>,
)
    ensures
        call_requires(close_background_apps, (output,)),
        call_requires(exit_failure, (text, other)),
        call_requires(parse_counts, (text,)),
        call_requires(wait_for_command, (child, out_of_time, seconds)),
        call_requires(latest_release_version, (output,)),
        call_requires(release_name, (available, text)),
        call_requires(check_update, (available, latest)),
        call_requires(UpdateMenu::tick, (menu, available)),
        call_requires(update_answer, (result,)),
        call_requires(updater_argument, (text,)),
        call_requires(registration_message, (text, &result)),
        call_requires(nt_success, (text, status)),
        call_requires(win32_error, (text, code)),
        call_requires(is_valid, (handle,)),
        call_requires(wide, (&units,)),
{
}

/// Any measurement, report and message can be told, and any file looked at.
pub proof fn law_anything_can_be_told(
    before: MemoryStatus,
    after: MemoryStatus,
    status: Option<MemoryStatus>,
    used: u64,
    total: u64,
    answered: i32,
    code: u32,
    settings: Settings,
    report: MemoryOptimizationReport,
    apps: Result<(u32, u32), String>,
    run: CleanupRun,
    size: Option<u64>,
    text: &str,
    message: &str,
    bytes: Vec<u8>,
    picture: Result<(Vec<u8>, u32, u32), String>,
    entry: TempEntry,
    entries: Vec<Option<TempEntry>>,
    removals: Vec<bool>,
)
    ensures
        call_requires(memory_status, (total, used)),
        call_requires(measured_memory, (answered, total, used)),
        call_requires(measurement_failure, (code,)),
        call_requires(gb, (used,)),
        call_requires(percent, (used, total)),
        call_requires(memory_tooltip, (used, total)),
        call_requires(memory_display, (status,)),
        call_requires(freed_megabytes, (used, total)),
        call_requires(memory_snapshot, (before, after)),
        call_requires(clean_memory, (&settings, &report, &apps)),
        call_requires(CleanupRun::status, (&run,)),
        call_requires(log, (size, used, message)),
        call_requires(push_log, (text, message)),
        call_requires(has_broken_palette, (&bytes,)),
        call_requires(icon, (&bytes,)),
        call_requires(icon_from, (picture,)),
        call_requires(TempEntry::is_stale, (entry,)),
        call_requires(clear_temp_folder, (&entries,)),
        call_requires(clear_temp, (&removals,)),
{
}

/// Anything that the user does with the tray icon and the window is accepted.
pub proof fn law_anything_can_be_done(
    settings: Settings,
    item: TrayItem,
    action: TrayAction,
    click: TrayClick,
    place: usize,
    flag: bool,
    width: i32,
    height: i32,
    edges: Edges,
    wait_result: u32,
    text: &str,
    other: &str,
)
    ensures
        call_requires(item_at, (place,)),
        call_requires(tray_menu, (&settings,)),
        call_requires(sync_checks, (&settings,)),
        call_requires(TrayItem::checked, (item, &settings)),
        call_requires(TrayItem::name, (item,)),
        call_requires(tray_action, (item,)),
        call_requires(ends_program, (action, flag)),
        call_requires(opens_window, (click,)),
        call_requires(center_if_possible, (width, height, edges)),
        call_requires(close_quits, (flag,)),
        call_requires(show_event_fires, (wait_result, flag)),
        call_requires(show_failure, (text, other)),
        call_requires(data_directory, (flag,)),
        call_requires(settings_path, (flag,)),
        call_requires(settings_draft_path, (flag,)),
        call_requires(log_path, (flag,)),
        call_requires(rotated_log_path, (flag,)),
        call_requires(system_binary, (flag, text)),
{
}

/// A cleanup can be carried on from its beginning on, with any answer: what every step leaves is
/// accepted by the next one.
pub proof fn law_cleanups_can_be_carried_on(
    settings: Settings,
    begun: CleanupRun,
    run: &mut CleanupRun,
    reply: CleanupReply,
    milliseconds: &str,
    told: Option<String>,
    next: &mut CleanupRun,
    next_reply: CleanupReply,
)
    requires
        call_ensures(CleanupRun::begin, (settings,), begun),
        *old(run) == begun || old(run)@.is_valid(),
        call_ensures(CleanupRun::step, (run, reply, milliseconds), told),
        *old(next) == *final(run),
    ensures
        call_requires(CleanupRun::step, (run, reply, milliseconds)),
        call_requires(CleanupRun::step, (next, next_reply, milliseconds)),
        call_requires(CleanupRun::area, (&*old(next),)),
{
}

/// A hotkey can be asked for from the beginning on and whenever nothing is left to do, and what that
/// leaves can be carried on with any answer.
pub proof fn law_hotkeys_can_be_carried_on(
    begun: HotkeyBinding,
    binding: &mut HotkeyBinding,
    wanted: Option<Hotkey>,
    asked: &mut HotkeyBinding,
    reply: Result<(), String>,
    later: &mut HotkeyBinding,
    later_reply: Result<(), String>,
    text: &str,
)
    requires
        call_ensures(HotkeyBinding::new, (), begun),
        *old(binding) == begun || old(binding).stage is Idle,
        call_ensures(HotkeyBinding::replace, (binding, wanted), ()),
        *old(asked) == *final(binding),
        call_ensures(HotkeyBinding::step, (asked, reply), ()),
        *old(later) == *final(asked),
    ensures
        call_requires(HotkeyBinding::replace, (binding, wanted)),
        call_requires(HotkeyBinding::request, (binding, text)),
        call_requires(HotkeyBinding::request_parsed, (binding, text, wanted)),
        call_requires(HotkeyBinding::step, (asked, reply)),
        call_requires(HotkeyBinding::step, (later, later_reply)),
{
}

} // verus!
