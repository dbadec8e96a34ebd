use global_hotkey::hotkey::{Code, HotKey, Modifiers};
use ramopt::hotkey::{
    hotkey_start, registration_message, Hotkey, HotkeyBinding, HotkeyStage, KeyState,
};
use ramopt::icon::{icon, icon_from, invalid_icon};
use ramopt::settings::Settings;

fn to_register(binding: &HotkeyBinding) -> Option<(u32, String)> {
    match &binding.stage {
        HotkeyStage::Register(hotkey) => Some((hotkey.modifiers, hotkey.key.clone())),
        _ => None,
    }
}

fn registered(binding: &HotkeyBinding) -> Option<String> {
    binding.registered.as_ref().map(|hotkey| hotkey.key.clone())
}

#[test]
fn the_default_hotkey_is_control_alt_r() {
    let mut binding = HotkeyBinding::new();
    assert_eq!(binding.request(&Settings::default().hotkey), None);
    let modifiers = (Modifiers::CONTROL | Modifiers::ALT).bits();
    assert_eq!(to_register(&binding), Some((modifiers, "KeyR".to_string())));
}

#[test]
fn read_hotkeys_can_be_rebuilt() {
    for text in ["ctrl+alt+KeyR", "shift+F5", "a", "Super + Space", "CmdOrCtrl+K"] {
        let mut binding = HotkeyBinding::new();
        assert_eq!(binding.request(text), None);
        let (modifiers, key) = to_register(&binding).expect("a hotkey");
        let rebuilt = HotKey::new(
            Some(Modifiers::from_bits_truncate(modifiers)),
            key.parse::<Code>().expect("a key"),
        );
        assert_eq!(rebuilt, text.parse::<HotKey>().expect("a hotkey"));
    }
}

#[test]
fn unreadable_hotkeys_are_logged() {
    for text in ["", "ctrl+", "KeyR+ctrl", "ctrl+nothing"] {
        let mut binding = HotkeyBinding::new();
        assert_eq!(binding.request(text), Some(format!("Hotkey parse failed: {text}")));
        assert!(matches!(binding.stage, HotkeyStage::Idle));
    }
}

#[test]
fn a_new_hotkey_takes_the_place_of_the_old() {
    let mut binding = HotkeyBinding::new();
    binding.request("ctrl+alt+KeyR");
    binding.step(Ok(()));
    assert_eq!(registered(&binding), Some("KeyR".to_string()));

    binding.request("ctrl+alt+KeyQ");
    assert!(matches!(binding.stage, HotkeyStage::Unregister { .. }));
    assert_eq!(registered(&binding), Some("KeyR".to_string()));
    binding.step(Err("stuck".to_string()));
    assert_eq!(registered(&binding), None);
    assert_eq!(to_register(&binding).map(|(_, key)| key), Some("KeyQ".to_string()));
    binding.step(Ok(()));
    assert_eq!(registered(&binding), Some("KeyQ".to_string()));
    assert!(matches!(binding.stage, HotkeyStage::Idle));

    binding.replace(None);
    binding.step(Ok(()));
    assert_eq!(registered(&binding), None);
    assert!(matches!(binding.stage, HotkeyStage::Idle));
}

#[test]
fn a_hotkey_that_cannot_be_registered_is_none() {
    let mut binding = HotkeyBinding::new();
    let wanted = Hotkey { modifiers: 1, key: "KeyB".to_string() };
    assert_eq!(binding.request_parsed("alt+KeyB", Some(wanted)), None);
    assert_eq!(to_register(&binding), Some((1, "KeyB".to_string())));
    binding.step(Err("taken".to_string()));
    assert_eq!(registered(&binding), None);
    assert!(matches!(binding.stage, HotkeyStage::Idle));
}

#[test]
fn an_unreadable_hotkey_leaves_the_program_without_one() {
    let mut binding = HotkeyBinding::new();
    binding.request("F9");
    binding.step(Ok(()));
    assert_eq!(binding.request_parsed("??", None), Some("Hotkey parse failed: ??".to_string()));
    binding.step(Ok(()));
    assert_eq!(registered(&binding), None);
    assert!(matches!(binding.stage, HotkeyStage::Idle));
}

#[test]
fn the_last_request_decides() {
    let mut binding = HotkeyBinding::new();
    for (text, works, expected) in [
        ("F5", true, Some("F5")),
        ("F6", false, None),
        ("F7", true, Some("F7")),
        ("CmdOrCtrl+K", true, Some("KeyK")),
        ("??", true, None),
        ("F8", true, Some("F8")),
    ] {
        binding.request(text);
        while !matches!(binding.stage, HotkeyStage::Idle) {
            let registers = matches!(binding.stage, HotkeyStage::Register(_));
            binding.step(if registers && !works { Err("taken".to_string()) } else { Ok(()) });
        }
        assert_eq!(registered(&binding), expected.map(str::to_string));
    }
}

#[test]
fn a_press_starts_a_cleanup() {
    let mut settings = Settings::default();
    settings.dark_mode = true;
    let (started, message) = hotkey_start(KeyState::Pressed, &settings).expect("a cleanup");
    assert_eq!(format!("{started:?}"), format!("{settings:?}"));
    assert_eq!(message, "Hotkey pressed. Starting manual cleanup.");
    assert!(hotkey_start(KeyState::Released, &settings).is_none());
}

#[test]
fn what_the_log_says_of_a_hotkey() {
    assert_eq!(registration_message("F9", &Ok(())), "Hotkey registered: F9");
    assert_eq!(
        registration_message("F9", &Err("taken".to_string())),
        "Hotkey registration failed for F9: taken"
    );
}

/// A bitmap of one pixel: red 1, green 2, blue 3.
fn bitmap() -> Vec<u8> {
    let mut bytes: Vec<u8> = vec![b'B', b'M'];
    for word in [58u32, 0, 54, 40, 1, 1] {
        bytes.extend(word.to_le_bytes());
    }
    for half in [1u16, 24] {
        bytes.extend(half.to_le_bytes());
    }
    for word in [0u32, 4, 2835, 2835, 0, 0] {
        bytes.extend(word.to_le_bytes());
    }
    bytes.extend([3, 2, 1, 0]);
    bytes
}

#[test]
fn pictures_are_decoded() {
    let image = icon(&bitmap()).expect("a picture");
    assert_eq!((image.width, image.height), (1, 1));
    assert_eq!(image.rgba, vec![1, 2, 3, 255]);
}

#[test]
fn pictures_that_are_none() {
    let mut cut = bitmap();
    cut.truncate(30);
    for bytes in [vec![], vec![1, 2, 3], b"<svg/>".to_vec(), cut, b"\xff\xd8\xff".to_vec()] {
        let said = image::load_from_memory(&bytes).expect_err("no picture").to_string();
        assert_eq!(icon(&bytes).map(|_| ()), Err(format!("invalid tray icon: {said}")));
    }
    assert_eq!(icon_from(Err("x".to_string())).map(|_| ()), Err("invalid tray icon: x".to_string()));
    assert_eq!(invalid_icon("BadIcon"), "invalid tray icon: BadIcon");
    let kept = icon_from(Ok((vec![9, 9, 9, 9], 1, 1))).expect("a picture");
    assert_eq!(kept.rgba, vec![9, 9, 9, 9]);
}
