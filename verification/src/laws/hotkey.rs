//! Laws of the global hotkey.
use vstd::prelude::*;
use crate::hotkey::{
    hotkey_start, parsed_hotkey, registration_message, Hotkey, HotkeyBinding, HotkeyStage, KeyState,
};
use crate::settings::Settings;

verus! {

/// Whether two hotkeys have the same modifiers and the same key, or there are none.
pub open spec fn same_hotkey(a: Option<Hotkey>, b: Option<Hotkey>) -> bool {
    &&& a is Some <==> b is Some
    &&& a is Some ==> (a->0).modifiers == (b->0).modifiers && (a->0).key@ == (b->0).key@
}

/// Whether a stage is what follows once nothing is registered: a wanted hotkey is to be registered.
pub open spec fn goes_for(stage: HotkeyStage, wanted: Option<Hotkey>) -> bool {
    &&& wanted is None ==> stage is Idle
    &&& wanted is Some ==> stage is Register && same_hotkey(Some(stage->Register_0), wanted)
}

/// A press starts a cleanup with the settings of that moment, setting by setting, and letting go starts
/// none.
pub proof fn law_presses_start_cleanups(
    state: KeyState,
    settings: Settings,
    start: Option<(Settings, &'static str)>,
)
    requires
        call_ensures(hotkey_start, (state, &settings), start),
    ensures
        start is Some <==> state == KeyState::Pressed,
        start matches Some((used, log)) ==> {
            &&& used.auto_clean == settings.auto_clean
            &&& used.interval_minutes == settings.interval_minutes
            &&& used.hotkey@ == settings.hotkey@
            &&& used.clean_temp == settings.clean_temp
            &&& used.trim_background_apps == settings.trim_background_apps
            &&& used.start_with_windows == settings.start_with_windows
            &&& used.close_to_tray == settings.close_to_tray
            &&& used.dark_mode == settings.dark_mode
            &&& log@ == "Hotkey pressed. Starting manual cleanup."@
        },
{
    if let Some((used, _)) = start {
        assert(used@ == settings@);
    }
}

/// A program begins without a hotkey.
pub proof fn law_programs_begin_without_a_hotkey(binding: HotkeyBinding)
    requires
        call_ensures(HotkeyBinding::new, (), binding),
    ensures
        binding.registered is None,
        binding.stage is Idle,
{
}

/// A hotkey that is asked for is registered once the registered one is unregistered, where there is
/// one; until then that one stays.
pub proof fn law_old_hotkey_goes_first(binding: &mut HotkeyBinding, next: Option<Hotkey>)
    requires
        old(binding).stage is Idle,
        call_ensures(HotkeyBinding::replace, (binding, next), ()),
    ensures
        same_hotkey(final(binding).registered, old(binding).registered),
        old(binding).registered is None ==> goes_for(final(binding).stage, next),
        old(binding).registered is Some ==> final(binding).stage is Unregister && same_hotkey(
            final(binding).stage->Unregister_next,
            next,
        ),
{
    assert(old(binding)@.stage is Idle);
}

/// The same of a hotkey that was read in a text; where none was, the log says which text it was.
pub proof fn law_hotkey_that_was_read_is_asked_for(
    binding: &mut HotkeyBinding,
    text: &str,
    parsed: Option<Hotkey>,
    log: Option<String>,
)
    requires
        old(binding).stage is Idle,
        call_ensures(HotkeyBinding::request_parsed, (binding, text, parsed), log),
    ensures
        same_hotkey(final(binding).registered, old(binding).registered),
        old(binding).registered is None ==> goes_for(final(binding).stage, parsed),
        old(binding).registered is Some ==> final(binding).stage is Unregister && same_hotkey(
            final(binding).stage->Unregister_next,
            parsed,
        ),
        log is None <==> parsed is Some,
        log matches Some(message) ==> message@ == "Hotkey parse failed: "@ + text@,
{
    assert(old(binding)@.stage is Idle);
}

/// The hotkey that is next, if any.
pub open spec fn wanted_by(stage: HotkeyStage) -> Option<Hotkey> {
    match stage {
        HotkeyStage::Idle => None,
        HotkeyStage::Unregister { next } => next,
        HotkeyStage::Register(hotkey) => Some(hotkey),
    }
}

/// A text leads to the hotkey that is read in it, with its key and one of its readings, or to none
/// where none is read; then, and only then, the log says so. The registered one goes first.
pub proof fn law_texts_are_asked_for(
    binding: &mut HotkeyBinding,
    text: &str,
    log: Option<String>,
)
    requires
        old(binding).stage is Idle,
        call_ensures(HotkeyBinding::request, (binding, text), log),
    ensures
        same_hotkey(final(binding).registered, old(binding).registered),
        final(binding).stage is Unregister <==> old(binding).registered is Some,
        wanted_by(final(binding).stage) is Some <==> parsed_hotkey(text@, true) is Some,
        wanted_by(final(binding).stage) matches Some(hotkey) ==> {
            ||| (hotkey.modifiers, hotkey.key@) == parsed_hotkey(text@, true)->0
            ||| (hotkey.modifiers, hotkey.key@) == parsed_hotkey(text@, false)->0
        },
        log is None <==> parsed_hotkey(text@, true) is Some,
        log matches Some(message) ==> message@ == "Hotkey parse failed: "@ + text@,
{
    assert(old(binding)@.stage is Idle);
}

/// Unregistering leaves no hotkey, whatever comes of it, and the wanted one is to be registered next.
/// Registering leaves the hotkey exactly when it went through, and then nothing is to do. Without
/// anything to do nothing changes.
pub proof fn law_steps_of_a_hotkey(binding: &mut HotkeyBinding, reply: Result<(), String>)
    requires
        old(binding)@.is_valid(),
        call_ensures(HotkeyBinding::step, (binding, reply), ()),
    ensures
        old(binding).stage matches HotkeyStage::Unregister { next } ==> final(binding).registered
            is None && goes_for(final(binding).stage, next),
        old(binding).stage matches HotkeyStage::Register(hotkey) ==> {
            &&& final(binding).stage is Idle
            &&& reply is Ok ==> same_hotkey(final(binding).registered, Some(hotkey))
            &&& reply is Err ==> final(binding).registered is None
        },
        old(binding).stage is Idle ==> final(binding).stage is Idle && same_hotkey(
            final(binding).registered,
            old(binding).registered,
        ),
{
}

/// The log names the hotkey that was asked for, and the error where it could not be registered.
pub proof fn law_registrations_are_logged(name: &str, reply: Result<(), String>, text: String)
    requires
        call_ensures(registration_message, (name, &reply), text),
    ensures
        reply is Ok ==> text@ == "Hotkey registered: "@ + name@,
        reply matches Err(error) ==> text@ == "Hotkey registration failed for "@ + name@ + ": "@
            + error@,
{
}

} // verus!
