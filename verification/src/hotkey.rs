//! The global hotkey: how a text names one, and how one takes the place of another.
use vstd::prelude::*;
use crate::settings::{Settings, SettingsView};
use crate::text::{optional, outcome};

verus! {

/// A key together with the modifiers that are held down.
#[derive(Debug)]
pub struct Hotkey {
    /// The modifiers, one bit for each.
    pub modifiers: u32,
    /// The name of the key.
    pub key: String,
}

/// [`Hotkey`], seen through the characters of its key.
#[verifier::ext_equal]
pub struct HotkeyView {
    pub modifiers: u32,
    pub key: Seq<char>,
}

impl View for Hotkey {
    type V = HotkeyView;

    open spec fn view(&self) -> HotkeyView {
        HotkeyView { modifiers: self.modifiers, key: self.key@ }
    }
}

impl Clone for Hotkey {
    fn clone(&self) -> (copy: Hotkey)
        ensures
            copy@ == self@,
    {
        Hotkey { modifiers: self.modifiers, key: self.key.clone() }
    }
}

/// An optional hotkey, seen through the characters of its key.
pub open spec fn hotkey_view(hotkey: Option<Hotkey>) -> Option<HotkeyView> {
    match hotkey {
        Some(hotkey) => Some(hotkey@),
        None => None,
    }
}

/// The modifiers and the key of an optional hotkey.
pub open spec fn hotkey_parts(hotkey: Option<Hotkey>) -> Option<(u32, Seq<char>)> {
    match hotkey {
        Some(hotkey) => Some((hotkey.modifiers, hotkey.key@)),
        None => None,
    }
}

/// The modifiers and the key that `HotKey::from_str` of the crate `global-hotkey` reads in a text,
/// where it accepts the text, on macOS or on any other system.
pub uninterp spec fn parsed_hotkey(text: Seq<char>, apple: bool) -> Option<(u32, Seq<char>)>;

/// Whether the letters `dor`, in either case, stand at a place of a text.
pub open spec fn has_dor_at(text: Seq<char>, i: int) -> bool {
    &&& 0 <= i
    &&& i + 2 < text.len()
    &&& text[i] == 'd' || text[i] == 'D'
    &&& text[i + 1] == 'o' || text[i + 1] == 'O'
    &&& text[i + 2] == 'r' || text[i + 2] == 'R'
}

/// Whether a text names the same hotkey on every system. The modifiers `CmdOrCtrl`,
/// `CommandOrControl` and their like mean another key on macOS; all of them hold the letters `dor`.
pub open spec fn means_the_same_everywhere(text: Seq<char>) -> bool {
    forall|i: int| !#[trigger] has_dor_at(text, i)
}

/// The hotkey that was read, as a view.
pub open spec fn read_hotkey(text: Seq<char>, apple: bool) -> Option<HotkeyView> {
    match parsed_hotkey(text, apple) {
        Some((modifiers, key)) => Some(HotkeyView { modifiers, key }),
        None => None,
    }
}

/// `HotKey::from_str` of the crate `global-hotkey`: what it reads depends on the text, and on whether
/// the system is macOS. That changes neither whether it accepts a text nor the key, and the modifiers
/// only where the text does not name the same hotkey on every system. Which system it is, and which
/// texts are accepted, is left open.
#[verifier::external_body]
fn parse_hotkey(text: &str) -> (hotkey: Option<Hotkey>)
    ensures
        hotkey_parts(hotkey) == parsed_hotkey(text@, true) || hotkey_parts(hotkey)
            == parsed_hotkey(text@, false),
        hotkey is Some <==> parsed_hotkey(text@, true) is Some,
        hotkey is Some <==> parsed_hotkey(text@, false) is Some,
        hotkey is Some ==> (hotkey->0).key@ == (parsed_hotkey(text@, true)->0).1,
        hotkey is Some ==> (hotkey->0).key@ == (parsed_hotkey(text@, false)->0).1,
        means_the_same_everywhere(text@) ==> hotkey_parts(hotkey) == parsed_hotkey(text@, true)
            && hotkey_parts(hotkey) == parsed_hotkey(text@, false),
{
    text.parse::<global_hotkey::hotkey::HotKey>().ok().map(
        |hotkey| Hotkey { modifiers: hotkey.mods.bits(), key: hotkey.key.to_string() },
    )
}

/// What the keys of the hotkey did.
#[derive(Debug, Clone, Copy, PartialEq, Eq, Structural)]
pub enum KeyState {
    Pressed,
    Released,
}

/// The settings that a cleanup is started with, where one is, and what the log says of it.
pub open spec fn start_view(start: Option<(Settings, &'static str)>) -> Option<
    (SettingsView, Seq<char>),
> {
    match start {
        Some((settings, log)) => Some((settings@, log@)),
        None => None,
    }
}

/// What the hotkey does: a press starts a cleanup with the settings of that moment, and letting go
/// starts none.
pub open spec fn start_for(state: KeyState, settings: SettingsView) -> Option<
    (SettingsView, Seq<char>),
> {
    match state {
        KeyState::Pressed => Some((settings, "Hotkey pressed. Starting manual cleanup."@)),
        KeyState::Released => None,
    }
}

/// What the hotkey does: the settings of the cleanup that it starts, if any, and a word for the log.
pub fn hotkey_start(state: KeyState, settings: &Settings) -> (start: Option<(Settings, &'static str)>)
    ensures
        start_view(start) == start_for(state, settings@),
{
    match state {
        KeyState::Pressed => Some((settings.clone(), "Hotkey pressed. Starting manual cleanup.")),
        KeyState::Released => None,
    }
}

/// What is next for the hotkey.
#[derive(Debug)]
pub enum HotkeyStage {
    /// Nothing.
    Idle,
    /// The registered hotkey is to be unregistered, and another one may take its place. What comes
    /// of unregistering does not matter.
    Unregister { next: Option<Hotkey> },
    /// A hotkey is to be registered.
    Register(Hotkey),
}

/// [`HotkeyStage`], seen through the characters of its keys.
#[verifier::ext_equal]
pub enum HotkeyStageView {
    Idle,
    Unregister { next: Option<HotkeyView> },
    Register(HotkeyView),
}

impl View for HotkeyStage {
    type V = HotkeyStageView;

    open spec fn view(&self) -> HotkeyStageView {
        match self {
            HotkeyStage::Idle => HotkeyStageView::Idle,
            HotkeyStage::Unregister { next } => HotkeyStageView::Unregister {
                next: hotkey_view(*next),
            },
            HotkeyStage::Register(hotkey) => HotkeyStageView::Register(hotkey@),
        }
    }
}

/// The hotkey of the program.
#[derive(Debug)]
pub struct HotkeyBinding {
    /// The hotkey that is registered, if any.
    pub registered: Option<Hotkey>,
    /// What is next.
    pub stage: HotkeyStage,
}

/// [`HotkeyBinding`], seen through the characters of its keys.
#[verifier::ext_equal]
pub struct BindingView {
    pub registered: Option<HotkeyView>,
    pub stage: HotkeyStageView,
}

impl View for HotkeyBinding {
    type V = BindingView;

    open spec fn view(&self) -> BindingView {
        BindingView { registered: hotkey_view(self.registered), stage: self.stage@ }
    }
}

/// What is next once no hotkey is registered and another one may take its place.
pub open spec fn stage_for(next: Option<HotkeyView>) -> HotkeyStageView {
    match next {
        Some(hotkey) => HotkeyStageView::Register(hotkey),
        None => HotkeyStageView::Idle,
    }
}

impl BindingView {
    /// No hotkey at all.
    pub open spec fn start() -> BindingView {
        BindingView { registered: None, stage: HotkeyStageView::Idle }
    }

    /// Whether the stage fits: what is unregistered is registered, and what is registered takes no
    /// place.
    pub open spec fn is_valid(self) -> bool {
        match self.stage {
            HotkeyStageView::Idle => true,
            HotkeyStageView::Unregister { .. } => self.registered is Some,
            HotkeyStageView::Register(_) => self.registered is None,
        }
    }

    /// The binding once another hotkey, or none, is asked for. The old one goes first.
    pub open spec fn asked(self, next: Option<HotkeyView>) -> BindingView {
        BindingView {
            stage: if self.registered is Some {
                HotkeyStageView::Unregister { next }
            } else {
                stage_for(next)
            },
            ..self
        }
    }

    /// The binding after a step.
    pub open spec fn next(self, reply: Result<(), Seq<char>>) -> BindingView {
        match self.stage {
            HotkeyStageView::Idle => self,
            HotkeyStageView::Unregister { next } => BindingView {
                registered: None,
                stage: stage_for(next),
            },
            HotkeyStageView::Register(hotkey) => BindingView {
                registered: if reply is Ok {
                    Some(hotkey)
                } else {
                    None
                },
                stage: HotkeyStageView::Idle,
            },
        }
    }
}

fn go_to(next: Option<Hotkey>) -> (stage: HotkeyStage)
    ensures
        stage@ == stage_for(hotkey_view(next)),
{
    match next {
        Some(hotkey) => HotkeyStage::Register(hotkey),
        None => HotkeyStage::Idle,
    }
}

/// What the log says of a text that names no hotkey.
pub open spec fn unreadable_text(text: Seq<char>) -> Seq<char> {
    "Hotkey parse failed: "@ + text
}

/// What the log says where a text was read: only that it names no hotkey, where it names none.
pub open spec fn refusal(text: Seq<char>, read: Option<HotkeyView>) -> Option<Seq<char>> {
    if read is Some {
        None
    } else {
        Some(unreadable_text(text))
    }
}

/// Whether two readings both have a hotkey with the same key, or both have none.
pub open spec fn same_key(a: Option<HotkeyView>, b: Option<HotkeyView>) -> bool {
    &&& a is Some <==> b is Some
    &&& a is Some ==> a->0.key == b->0.key
}

/// What the log says of a hotkey that was asked for, once it is registered or not.
pub open spec fn registration_text(name: Seq<char>, reply: Result<(), Seq<char>>) -> Seq<char> {
    match reply {
        Ok(()) => "Hotkey registered: "@ + name,
        Err(error) => "Hotkey registration failed for "@ + name + ": "@ + error,
    }
}

/// What the log says of a hotkey that was asked for, once it is registered or not.
pub fn registration_message(name: &str, reply: &Result<(), String>) -> (text: String)
    ensures
        text@ == registration_text(name@, outcome(*reply)),
{
    match reply {
        Ok(()) => {
            let mut text = "Hotkey registered: ".to_owned();
            text.append(name);
            text
        },
        Err(error) => {
            let mut text = "Hotkey registration failed for ".to_owned();
            text.append(name);
            text.append(": ");
            text.append(error.as_str());
            text
        },
    }
}

impl HotkeyBinding {
    /// No hotkey at all.
    pub fn new() -> (binding: HotkeyBinding)
        ensures
            binding@ == BindingView::start(),
            binding@.is_valid(),
    {
        HotkeyBinding { registered: None, stage: HotkeyStage::Idle }
    }

    /// Asks for another hotkey, or for none.
    pub fn replace(&mut self, next: Option<Hotkey>)
        requires
            old(self)@.stage is Idle,
        ensures
            final(self)@ == old(self)@.asked(hotkey_view(next)),
            final(self)@.is_valid(),
    {
        match &self.registered {
            Some(_) => {
                self.stage = HotkeyStage::Unregister { next };
            },
            None => {
                self.stage = go_to(next);
            },
        }
    }

    /// Asks for the hotkey that was read in a text, and tells what the log says where none was.
    pub fn request_parsed(&mut self, text: &str, parsed: Option<Hotkey>) -> (log: Option<String>)
        requires
            old(self)@.stage is Idle,
        ensures
            final(self)@ == old(self)@.asked(hotkey_view(parsed)),
            final(self)@.is_valid(),
            optional(log) == refusal(text@, hotkey_view(parsed)),
    {
        let log = match &parsed {
            Some(_) => None,
            None => {
                let mut message = "Hotkey parse failed: ".to_owned();
                message.append(text);
                Some(message)
            },
        };
        self.replace(parsed);
        log
    }

    /// Asks for the hotkey that a text names, and tells what the log says where it names none. A
    /// text that names none leaves the program without a hotkey. Where a text means another hotkey on
    /// macOS, the modifiers are those of the system that the program runs on.
    pub fn request(&mut self, text: &str) -> (log: Option<String>)
        requires
            old(self)@.stage is Idle,
        ensures
            exists|parsed: Option<HotkeyView>|
                {
                    &&& final(self)@ == #[trigger] old(self)@.asked(parsed)
                    &&& parsed == read_hotkey(text@, true) || parsed == read_hotkey(text@, false)
                    &&& same_key(parsed, read_hotkey(text@, true))
                    &&& same_key(parsed, read_hotkey(text@, false))
                },
            means_the_same_everywhere(text@) ==> final(self)@ == old(self)@.asked(
                read_hotkey(text@, true),
            ) && final(self)@ == old(self)@.asked(read_hotkey(text@, false)),
            optional(log) == refusal(text@, read_hotkey(text@, true)),
            optional(log) == refusal(text@, read_hotkey(text@, false)),
            final(self)@.is_valid(),
    {
        let parsed = parse_hotkey(text);
        let ghost view = hotkey_view(parsed);
        let log = self.request_parsed(text, parsed);
        assert(self@ == old(self)@.asked(view));
        log
    }

    /// Goes on after a step.
    pub fn step(&mut self, reply: Result<(), String>)
        requires
            old(self)@.is_valid(),
        ensures
            final(self)@ == old(self)@.next(outcome(reply)),
            final(self)@.is_valid(),
    {
        let mut stage = HotkeyStage::Idle;
        std::mem::swap(&mut stage, &mut self.stage);
        match stage {
            HotkeyStage::Idle => {},
            HotkeyStage::Unregister { next } => {
                self.registered = None;
                self.stage = go_to(next);
            },
            HotkeyStage::Register(hotkey) => {
                self.registered = if reply.is_ok() {
                    Some(hotkey)
                } else {
                    None
                };
            },
        }
    }
}

/// The hotkeys that Windows holds for the program after a step: one that fails changes nothing.
pub open spec fn held_after(
    held: Set<HotkeyView>,
    binding: BindingView,
    reply: Result<(), Seq<char>>,
) -> Set<HotkeyView> {
    if reply is Err {
        held
    } else {
        match binding.stage {
            HotkeyStageView::Idle => held,
            HotkeyStageView::Unregister { .. } => held.remove(binding.registered->0),
            HotkeyStageView::Register(hotkey) => held.insert(hotkey),
        }
    }
}

/// The hotkeys that a binding says are held: the registered one.
pub open spec fn held_by(binding: BindingView) -> Set<HotkeyView> {
    match binding.registered {
        Some(hotkey) => set![hotkey],
        None => Set::empty(),
    }
}

/// As long as unregistering does not fail, Windows holds the registered hotkey and no other: what
/// held before a step holds after it.
pub proof fn law_at_most_one_hotkey_is_held(
    binding: BindingView,
    next: Option<HotkeyView>,
    reply: Result<(), Seq<char>>,
)
    requires
        binding.is_valid(),
        binding.stage is Unregister ==> reply is Ok,
    ensures
        held_after(held_by(binding), binding, reply) == held_by(binding.next(reply)),
        held_by(binding.asked(next)) == held_by(binding),
        binding.next(reply).is_valid(),
        binding.stage is Idle ==> binding.asked(next).is_valid(),
{
    assert(held_after(held_by(binding), binding, reply) =~= held_by(binding.next(reply)));
}

/// What happens to the hotkey: another one, or none, is asked for, or a step is answered.
pub enum HotkeyEvent {
    Asked(Option<HotkeyView>),
    Replied(Result<(), Seq<char>>),
}

/// The binding after the first `n` events of a program that began without a hotkey.
pub open spec fn binding_after(events: Seq<HotkeyEvent>, n: nat) -> BindingView
    decreases n,
{
    if n == 0 {
        BindingView::start()
    } else {
        let earlier = binding_after(events, (n - 1) as nat);
        match events[n - 1] {
            HotkeyEvent::Asked(next) => earlier.asked(next),
            HotkeyEvent::Replied(reply) => earlier.next(reply),
        }
    }
}

/// The hotkeys that Windows holds after the first `n` events, where it held none before.
pub open spec fn all_held_after(events: Seq<HotkeyEvent>, n: nat) -> Set<HotkeyView>
    decreases n,
{
    if n == 0 {
        Set::empty()
    } else {
        let earlier = all_held_after(events, (n - 1) as nat);
        match events[n - 1] {
            HotkeyEvent::Asked(_) => earlier,
            HotkeyEvent::Replied(reply) => held_after(
                earlier,
                binding_after(events, (n - 1) as nat),
                reply,
            ),
        }
    }
}

/// Whether an event can follow those before it: a hotkey is asked for only where no step is
/// outstanding, and unregistering does not fail.
pub open spec fn can_follow(events: Seq<HotkeyEvent>, n: nat) -> bool {
    match events[n as int] {
        HotkeyEvent::Asked(_) => binding_after(events, n).stage is Idle,
        HotkeyEvent::Replied(reply) => binding_after(events, n).stage is Unregister ==> reply is Ok,
    }
}

/// Whatever hotkeys are asked for from the start on, and whatever comes of registering them, Windows
/// holds at every time the registered hotkey and no other, so at most one; and none once none is
/// registered.
pub proof fn law_at_most_one_hotkey_is_ever_held(events: Seq<HotkeyEvent>, n: nat)
    requires
        n <= events.len(),
        forall|k: nat| k < events.len() ==> #[trigger] can_follow(events, k),
    ensures
        all_held_after(events, n) == held_by(binding_after(events, n)),
        all_held_after(events, n).finite(),
        all_held_after(events, n).len() <= 1,
        binding_after(events, n).registered is None ==> all_held_after(events, n) == Set::<
            HotkeyView,
        >::empty(),
        binding_after(events, n).is_valid(),
    decreases n,
{
    if n > 0 {
        let earlier = (n - 1) as nat;
        law_at_most_one_hotkey_is_ever_held(events, earlier);
        assert(can_follow(events, earlier));
        let binding = binding_after(events, earlier);
        match events[n - 1] {
            HotkeyEvent::Asked(next) => {
                assert(held_by(binding.asked(next)) == held_by(binding));
            },
            HotkeyEvent::Replied(reply) => {
                law_at_most_one_hotkey_is_held(binding, None, reply);
            },
        }
    }
}

/// A hotkey that is asked for, or none, and what comes of the steps that this takes.
pub struct HotkeyRequest {
    pub wanted: Option<HotkeyView>,
    pub unregistered: Result<(), Seq<char>>,
    pub registered: Result<(), Seq<char>>,
}

/// The binding once a request is carried out to its end.
pub open spec fn served(binding: BindingView, request: HotkeyRequest) -> BindingView {
    let asked = binding.asked(request.wanted);
    let freed = if asked.stage is Unregister {
        asked.next(request.unregistered)
    } else {
        asked
    };
    freed.next(request.registered)
}

/// The binding of a program that began without a hotkey once all requests are carried out.
pub open spec fn all_served(requests: Seq<HotkeyRequest>) -> BindingView
    decreases requests.len(),
{
    if requests.len() == 0 {
        BindingView::start()
    } else {
        served(all_served(requests.drop_last()), requests.last())
    }
}

/// After any number of requests the registered hotkey is the one asked for last, where that text
/// named one that could be registered, and none otherwise; so none is left once none is asked for.
pub proof fn law_last_request_decides(requests: Seq<HotkeyRequest>)
    ensures
        all_served(requests).stage is Idle,
        all_served(requests).registered == if requests.len() > 0 && requests.last().registered is Ok {
            requests.last().wanted
        } else {
            None
        },
        requests.len() > 0 && requests.last().wanted is None ==> all_served(requests).registered
            is None,
    decreases requests.len(),
{
    if requests.len() > 0 {
        law_last_request_decides(requests.drop_last());
    }
}

/// Whatever hotkey was registered, asking for another one leads in at most two steps to a program
/// that has the new one exactly when it could be registered; asking for none leads to none.
pub proof fn law_new_hotkey_takes_the_place_of_the_old(
    binding: BindingView,
    next: Option<HotkeyView>,
    unregistered: Result<(), Seq<char>>,
    registered: Result<(), Seq<char>>,
)
    requires
        binding.stage is Idle,
    ensures
        served(binding, (HotkeyRequest { wanted: next, unregistered, registered })) == (BindingView {
            registered: if registered is Ok {
                next
            } else {
                None
            },
            stage: HotkeyStageView::Idle,
        }),
{
}

/// The settings of the cleanups that the keys start one after another, each with the settings of its
/// moment.
pub open spec fn started(history: Seq<(KeyState, SettingsView)>) -> Seq<SettingsView>
    decreases history.len(),
{
    if history.len() == 0 {
        Seq::empty()
    } else {
        let earlier = started(history.drop_last());
        match start_for(history.last().0, history.last().1) {
            Some((settings, _)) => earlier.push(settings),
            None => earlier,
        }
    }
}

/// The presses of a history.
pub open spec fn presses(history: Seq<(KeyState, SettingsView)>) -> Seq<(KeyState, SettingsView)> {
    history.filter(|event: (KeyState, SettingsView)| event.0 == KeyState::Pressed)
}

/// Each press starts exactly one cleanup, with the settings of its moment, and nothing else starts
/// one.
pub proof fn law_every_press_starts_one_cleanup(history: Seq<(KeyState, SettingsView)>)
    ensures
        started(history) == presses(history).map_values(
            |event: (KeyState, SettingsView)| event.1,
        ),
    decreases history.len(),
{
    reveal(Seq::filter);
    if history.len() > 0 {
        law_every_press_starts_one_cleanup(history.drop_last());
        let earlier = presses(history.drop_last());
        if history.last().0 == KeyState::Pressed {
            assert(presses(history) == earlier.push(history.last()));
        } else {
            assert(presses(history) == earlier);
        }
    }
    assert(started(history) =~= presses(history).map_values(
        |event: (KeyState, SettingsView)| event.1,
    ));
}

} // verus!
