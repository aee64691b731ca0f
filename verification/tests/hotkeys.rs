//! The hotkeys that the keyboard and mouse hooks look for.

use clipline_app::hotkeys::{
    hook_input, install_hotkey_hook, is_supported_keyboard_hook_vk, keyboard_key_vk_code,
    parse_hook_bindings, parse_hook_hotkey, set_hotkeys, wait_for_keyboard_hook_ready,
    xbutton_vk_code, HookAction, HookBinding, HookHotkey, HookHotkeys, HookInput, HookMessage,
    HookReady, HookState, HotkeyHook, HotkeyKey, HotkeySpec, ReadHotkeys, VK_F1_CODE, VK_F24_CODE,
    VK_MBUTTON_CODE, VK_XBUTTON1_CODE, VK_XBUTTON2_CODE,
};

/// Reads the notation of a hotkey, as far as these tests write it.
fn read(raw: &str) -> Result<HotkeySpec, String> {
    let mut spec = HotkeySpec { ctrl: false, alt: false, shift: false, key: HotkeyKey::Middle };
    let mut parts: Vec<&str> = raw.split('+').collect();
    let key = parts.pop().unwrap_or("");
    for part in parts {
        match part {
            "Ctrl" => spec.ctrl = true,
            "Alt" => spec.alt = true,
            "Shift" => spec.shift = true,
            _ => return Err(format!("unknown modifier {part}")),
        }
    }
    spec.key = match key {
        "Middle" => HotkeyKey::Middle,
        "Mouse4" => HotkeyKey::Mouse4,
        "Mouse5" => HotkeyKey::Mouse5,
        "F12" => return Err("F12 is reserved".to_string()),
        _ => match key.strip_prefix('F').map(str::parse::<u8>) {
            Some(Ok(number)) if (1..=24).contains(&number) => HotkeyKey::Function(number),
            _ => HotkeyKey::Keyboard(key.to_string()),
        },
    };
    Ok(spec)
}

fn hotkey(raw: &str) -> Result<HookHotkey, String> {
    parse_hook_hotkey(&read(raw))
}

fn read_all(hotkeys: &HookHotkeys<'_>) -> ReadHotkeys {
    ReadHotkeys {
        save: hotkeys.save.iter().map(|raw| read(raw)).collect(),
        recording: hotkeys.recording.iter().map(|raw| read(raw)).collect(),
        bookmark: hotkeys.bookmark.iter().map(|raw| read(raw)).collect(),
    }
}

fn bindings(
    save: &[&str],
    recording: &[&str],
    bookmark: &[&str],
) -> Result<Vec<HookBinding>, String> {
    let hotkeys = HookHotkeys { save, recording, bookmark };
    let found = read_all(&hotkeys);
    parse_hook_bindings(hotkeys, &found)
}

fn state(save: &[&str], recording: &[&str], bookmark: &[&str]) -> HookState {
    HookState::new(bindings(save, recording, bookmark).unwrap(), None)
}

#[test]
fn parses_function_key_hotkeys_for_hook_matching() {
    let hotkey = hotkey("Ctrl+Alt+F9").unwrap();

    assert!(hotkey.matches(VK_F1_CODE + 8, true, true, false));
    assert!(!hotkey.matches(VK_F1_CODE + 8, true, true, true));
    assert!(!hotkey.matches(VK_F1_CODE + 9, true, true, false));
}

#[test]
fn parses_modified_keyboard_hotkeys_for_hook_matching() {
    let letter = hotkey("Ctrl+G").unwrap();
    assert!(letter.matches(0x47, true, false, false));
    assert!(!letter.matches(0x47, false, false, false));

    let literal_f = hotkey("Ctrl+Shift+F").unwrap();
    assert!(literal_f.matches(0x46, true, false, true));
    assert!(!literal_f.matches(VK_F1_CODE, true, false, true));

    let arrow = hotkey("Alt+Shift+ArrowLeft").unwrap();
    assert!(arrow.matches(0x25, false, true, true));
    assert!(!arrow.matches(0x25, false, true, false));

    let slash = hotkey("Ctrl+Slash").unwrap();
    assert!(slash.matches(0xBF, true, false, false));
}

#[test]
fn function_key_range_keeps_distinct_virtual_keys() {
    assert!(hotkey("F1").unwrap().matches(VK_F1_CODE, false, false, false));
    assert!(hotkey("F24").unwrap().matches(VK_F24_CODE, false, false, false));
}

#[test]
fn parses_mouse_button_hotkeys_for_hook_matching() {
    let ctrl_mouse = hotkey("Ctrl+Mouse5").unwrap();

    assert!(ctrl_mouse.matches(0x06, true, false, false));
    assert!(!ctrl_mouse.matches(0x06, false, false, false));
    assert!(!ctrl_mouse.matches(0x05, true, false, false));

    let middle = hotkey("Shift+Middle").unwrap();
    assert!(middle.matches(0x04, false, false, true));

    let bare_mouse = hotkey("Mouse4").unwrap();
    assert!(bare_mouse.matches(0x05, false, false, false));
    assert!(!bare_mouse.matches(0x05, true, false, false));
}

#[test]
fn rejects_reserved_f12_through_shared_normalizer() {
    assert!(hotkey("F12").is_err());
}

#[test]
fn keys_without_a_virtual_key_are_refused() {
    assert!(hotkey("Ctrl+Clear").is_err());
    assert_eq!(keyboard_key_vk_code("Clear"), None);
    assert_eq!(keyboard_key_vk_code("g"), None);
    assert_eq!(keyboard_key_vk_code("7"), Some(0x37));
    assert_eq!(keyboard_key_vk_code("Quote"), Some(0xDE));
}

#[test]
fn either_configured_hotkey_triggers_a_save() {
    let mut state = state(&["Alt+F10", "Ctrl+Mouse5"], &[], &[]);

    assert_eq!(
        state.on_key_down(VK_F1_CODE + 9, false, true, false),
        Some(HookAction::SaveReplay)
    );
    assert_eq!(
        state.on_key_down(VK_XBUTTON2_CODE, true, false, false),
        Some(HookAction::SaveReplay)
    );
    assert_eq!(state.on_key_down(VK_F1_CODE + 8, false, true, false), None);
}

#[test]
fn save_and_recording_bindings_dispatch_distinct_actions() {
    let mut state = state(&["Alt+F10"], &["Ctrl+Mouse5", "Alt+F9"], &[]);

    assert_eq!(
        state.on_key_down(VK_F1_CODE + 9, false, true, false),
        Some(HookAction::SaveReplay)
    );
    state.on_key_up(VK_F1_CODE + 9);

    assert_eq!(
        state.on_key_down(VK_XBUTTON2_CODE, true, false, false),
        Some(HookAction::ToggleRecording)
    );
    state.on_key_up(VK_XBUTTON2_CODE);

    assert_eq!(
        state.on_key_down(VK_F1_CODE + 8, false, true, false),
        Some(HookAction::ToggleRecording)
    );
}

#[test]
fn bookmark_bindings_dispatch_their_own_action() {
    let mut state = state(&["F6"], &["Alt+F9"], &["F7", "Ctrl+Mouse5"]);

    assert_eq!(
        state.on_key_down(VK_F1_CODE + 6, false, false, false),
        Some(HookAction::Bookmark)
    );
    state.on_key_up(VK_F1_CODE + 6);

    assert_eq!(
        state.on_key_down(VK_XBUTTON2_CODE, true, false, false),
        Some(HookAction::Bookmark)
    );
    state.on_key_up(VK_XBUTTON2_CODE);

    assert_eq!(
        state.on_key_down(VK_F1_CODE + 5, false, false, false),
        Some(HookAction::SaveReplay)
    );
}

#[test]
fn a_held_key_triggers_once() {
    let mut state = state(&["F6"], &[], &[]);
    assert_eq!(
        state.on_key_down(VK_F1_CODE + 5, false, false, false),
        Some(HookAction::SaveReplay)
    );
    assert_eq!(state.on_key_down(VK_F1_CODE + 5, false, false, false), None);
    state.on_key_up(VK_F1_CODE + 5);
    assert_eq!(
        state.on_key_down(VK_F1_CODE + 5, false, false, false),
        Some(HookAction::SaveReplay)
    );
}

#[test]
fn a_bookmark_hotkey_cannot_shadow_another_action() {
    for bookmark in [&["F6"], &["Alt+F9"]] {
        assert!(bindings(&["F6"], &["Alt+F9"], bookmark).is_err());
    }

    assert!(bindings(&["F6"], &["Alt+F9"], &["F7", "F7"]).is_err());

    assert!(bindings(&["F6"], &["Alt+F9"], &["F7", ""]).is_ok());
}

#[test]
fn the_action_of_a_shadowing_hotkey_is_named() {
    assert_eq!(
        bindings(&["F6"], &["F6"], &[]),
        Err("recording hotkey matches another configured hotkey".to_string())
    );
    assert_eq!(
        bindings(&["F6"], &["F7"], &["F7"]),
        Err("bookmark hotkey matches another configured hotkey".to_string())
    );
    assert_eq!(bindings(&["F6", "F6"], &[], &[]).unwrap().len(), 2);
}

#[test]
fn parse_hook_hotkeys_fails_atomically_on_any_invalid_entry() {
    assert!(bindings(&["Alt+F10", "F12"], &[], &[]).is_err());
    assert_eq!(bindings(&["Alt+F10"], &[], &[]).unwrap().len(), 1);
}

#[test]
fn hook_requirement_tracks_mouse_button_hotkeys() {
    assert!(!hotkey("Alt+F10").unwrap().requires_mouse_hook());
    assert!(hotkey("Ctrl+Mouse5").unwrap().requires_mouse_hook());
    assert!(hotkey("Mouse5").unwrap().requires_mouse_hook());
}

#[test]
fn keyboard_hook_filter_includes_supported_modified_keys() {
    assert!(is_supported_keyboard_hook_vk(0x47));
    assert!(is_supported_keyboard_hook_vk(0x25));
    assert!(is_supported_keyboard_hook_vk(0xBF));
    assert!(is_supported_keyboard_hook_vk(VK_F1_CODE));
    assert!(!is_supported_keyboard_hook_vk(0x1B));
}

#[test]
fn every_key_that_a_hotkey_can_have_arrives() {
    for name in ["A", "Z", "0", "9", "Backspace", "Delete", "ArrowDown", "Backquote", "Quote"] {
        let vk = keyboard_key_vk_code(name).unwrap();
        assert!(is_supported_keyboard_hook_vk(vk), "{name}");
    }
}

#[test]
fn updating_hotkeys_without_an_installed_hook_still_validates_and_succeeds() {
    let mut hook = HotkeyHook { state: None };
    let hotkeys = HookHotkeys { save: &["Alt+F10"], recording: &["Ctrl+R"], bookmark: &["F7"] };
    let found = read_all(&hotkeys);
    assert_eq!(
        set_hotkeys(&mut hook, hotkeys, &found, || panic!("no hook is started")),
        Ok(None)
    );
    let broken = HookHotkeys { save: &["not a hotkey"], recording: &[], bookmark: &[] };
    let found = read_all(&broken);
    assert!(set_hotkeys(&mut hook, broken, &found, || panic!("no hook is started")).is_err());
    assert!(hook.state.is_none());
}

#[test]
fn the_mouse_hook_comes_and_goes_with_the_hotkeys_that_need_it() {
    let mut hook = HotkeyHook { state: None };
    let keys = HookHotkeys { save: &["F6"], recording: &[], bookmark: &[] };
    let found = read_all(&keys);
    let installed = install_hotkey_hook(
        &mut hook,
        keys,
        &found,
        || Ok(()),
        || Ok(11),
        || panic!("no mouse hook is needed"),
    );
    assert!(installed.is_ok());
    assert_eq!(hook.state.as_ref().unwrap().keyboard_hook, Some(11));

    let mouse = HookHotkeys { save: &["Mouse4"], recording: &[], bookmark: &[] };
    let found = read_all(&mouse);
    assert_eq!(set_hotkeys(&mut hook, mouse, &found, || Ok(22)), Ok(None));
    assert_eq!(hook.state.as_ref().unwrap().mouse_hook, Some(22));

    let refused = HookHotkeys { save: &["F12"], recording: &[], bookmark: &[] };
    let found = read_all(&refused);
    assert!(set_hotkeys(&mut hook, refused, &found, || Ok(33)).is_err());
    assert_eq!(hook.state.as_ref().unwrap().mouse_hook, Some(22));

    let keys = HookHotkeys { save: &["F6"], recording: &[], bookmark: &[] };
    let found = read_all(&keys);
    assert_eq!(set_hotkeys(&mut hook, keys, &found, || Ok(44)), Ok(Some(22)));
    assert_eq!(hook.state.as_ref().unwrap().mouse_hook, None);
}

#[test]
fn a_mouse_hook_that_does_not_start_leaves_the_hotkeys() {
    let mut hook = HotkeyHook { state: Some(state(&["F6"], &[], &[])) };
    let mouse = HookHotkeys { save: &["Mouse4"], recording: &[], bookmark: &[] };
    let found = read_all(&mouse);
    assert_eq!(
        set_hotkeys(&mut hook, mouse, &found, || Err("denied".to_string())),
        Err("denied".to_string())
    );
    assert_eq!(
        hook.state.as_ref().unwrap().bindings,
        bindings(&["F6"], &[], &[]).unwrap()
    );
}

#[test]
fn keyboard_hook_readiness_reports_success_and_installation_failure() {
    assert_eq!(wait_for_keyboard_hook_ready(HookReady::Answered(Ok(42))), Ok(42));

    let error =
        wait_for_keyboard_hook_ready(HookReady::Answered(Err("hook unavailable".to_string())))
            .unwrap_err();
    assert_eq!(error, "hook unavailable");
}

#[test]
fn keyboard_hook_readiness_reports_disconnect_and_timeout() {
    let disconnected = wait_for_keyboard_hook_ready(HookReady::Disconnected).unwrap_err();
    assert!(disconnected.contains("disconnected"), "{disconnected}");

    let timeout = wait_for_keyboard_hook_ready(HookReady::TimedOut).unwrap_err();
    assert!(timeout.contains("timed out"), "{timeout}");
}

#[test]
fn messages_become_keys() {
    assert_eq!(
        hook_input(HookMessage::KeyDown { vk_code: 0x47, alt_down: true }),
        HookInput::Down { vk: 0x47, alt_flag: true }
    );
    assert_eq!(
        hook_input(HookMessage::KeyDown { vk_code: 0x1B, alt_down: false }),
        HookInput::Ignored
    );
    assert_eq!(
        hook_input(HookMessage::KeyUp { released: 0x1B }),
        HookInput::Up { up_vk: 0x1B }
    );
    assert_eq!(
        hook_input(HookMessage::MiddleDown),
        HookInput::Down { vk: VK_MBUTTON_CODE, alt_flag: false }
    );
    assert_eq!(hook_input(HookMessage::MiddleUp), HookInput::Up { up_vk: VK_MBUTTON_CODE });
    assert_eq!(
        hook_input(HookMessage::ThumbDown { mouse_data: 0x1_0000 }),
        HookInput::Down { vk: VK_XBUTTON1_CODE, alt_flag: false }
    );
    assert_eq!(
        hook_input(HookMessage::ThumbUp { released_data: 0x2_0000 }),
        HookInput::Up { up_vk: VK_XBUTTON2_CODE }
    );
    assert_eq!(
        hook_input(HookMessage::ThumbDown { mouse_data: 0x3_0000 }),
        HookInput::Ignored
    );
    assert_eq!(hook_input(HookMessage::Other), HookInput::Ignored);
    assert_eq!(xbutton_vk_code(0x1_0001), Some(VK_XBUTTON1_CODE));
    assert_eq!(xbutton_vk_code(7), None);
}
