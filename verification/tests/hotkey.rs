use fonos_app::hotkey::{
    active_modifiers, affects_hotkeys, hotkeys_changed, key_name_to_code, HeldKeys, HotkeyConfig, HotkeyManager, TapAction, MOD_ALT, MOD_CMD, MOD_CTRL,
    MOD_SHIFT,
};

#[test]
fn parse_cmd_shift_space() {
    let cfg = HotkeyManager::<fn(&str, bool)>::parse_hotkey("cmd+shift+space", "dictate").unwrap();
    assert_eq!(cfg.modifiers, MOD_CMD | MOD_SHIFT);
    assert_eq!(cfg.keycode, 0x31);
    assert_eq!(cfg.label, "dictate");
}

#[test]
fn parse_is_case_insensitive_and_accepts_aliases() {
    let cfg = HotkeyManager::<()>::parse_hotkey("Command+Option+Control+A", "x").unwrap();
    assert_eq!(cfg.modifiers, MOD_CMD | MOD_ALT | MOD_CTRL);
    assert_eq!(cfg.keycode, 0x00);
    let f5 = HotkeyManager::<()>::parse_hotkey("F5", "x").unwrap();
    assert_eq!(f5.modifiers, 0);
    assert_eq!(f5.keycode, 0x60);
}

#[test]
fn parse_errors_name_the_bad_token() {
    let e = HotkeyManager::<()>::parse_hotkey("hyper+a", "x").unwrap_err();
    assert_eq!(e, "unknown modifier: hyper");
    let e = HotkeyManager::<()>::parse_hotkey("cmd+nope", "x").unwrap_err();
    assert_eq!(e, "unknown key: nope");
    let e = HotkeyManager::<()>::parse_hotkey("", "x").unwrap_err();
    assert_eq!(e, "unknown key: ");
}

#[test]
fn key_names_map_to_virtual_keycodes() {
    assert_eq!(key_name_to_code("return"), Some(0x24));
    assert_eq!(key_name_to_code("esc"), Some(0x35));
    assert_eq!(key_name_to_code("f19"), Some(0x50));
    assert_eq!(key_name_to_code("hyper"), None);
}

#[test]
fn active_modifiers_masks_other_flags() {
    assert_eq!(active_modifiers(MOD_CMD | 0x100 | 0x800000), MOD_CMD);
    assert_eq!(active_modifiers(0), 0);
}

#[test]
fn manager_registers_and_runs_once() {
    let mut m: HotkeyManager<u32> = HotkeyManager::new();
    assert!(m.hotkeys_ref().is_empty());
    m.register(HotkeyConfig { modifiers: MOD_CMD, keycode: 0x31, label: "a".into() });
    assert_eq!(m.hotkeys_ref().len(), 1);
    assert!(m.callback().is_none());
    m.set_callback(7);
    assert_eq!(m.callback(), Some(&7));
    assert!(m.start().is_ok());
    assert_eq!(m.start().unwrap_err(), "HotkeyManager already running");
    m.stop();
    assert!(m.start().is_ok());
    m.replace_hotkeys(vec![]);
    assert!(m.hotkeys_ref().is_empty());
    let d: HotkeyManager<u32> = HotkeyManager::default();
    assert!(d.hotkeys_ref().is_empty());
}

#[test]
fn press_repeat_release_fires_once_each_way() {
    let hotkeys = vec![HotkeyConfig { modifiers: MOD_CMD | MOD_SHIFT, keycode: 0x31, label: "dictate".into() }];
    let mut held = HeldKeys::new();
    let down = held.on_key_event(&hotkeys, 0x31, MOD_CMD | MOD_SHIFT, true);
    assert_eq!(down.action, TapAction::Drop);
    assert_eq!(down.fire, Some(("dictate".to_string(), true)));
    let repeat = held.on_key_event(&hotkeys, 0x31, MOD_CMD | MOD_SHIFT, true);
    assert_eq!(repeat.action, TapAction::Drop);
    assert_eq!(repeat.fire, None);
    let up = held.on_key_event(&hotkeys, 0x31, 0, false);
    assert_eq!(up.action, TapAction::Drop);
    assert_eq!(up.fire, Some(("dictate".to_string(), false)));
    let stray_up = held.on_key_event(&hotkeys, 0x31, 0, false);
    assert_eq!(stray_up.action, TapAction::Keep);
    assert_eq!(stray_up.fire, None);
}

#[test]
fn unmatched_keys_pass_through() {
    let hotkeys = vec![HotkeyConfig { modifiers: MOD_CMD, keycode: 0x31, label: "x".into() }];
    let mut held = HeldKeys::new();
    let plain = held.on_key_event(&hotkeys, 0x31, 0, true);
    assert_eq!(plain.action, TapAction::Keep);
    assert_eq!(plain.fire, None);
    let other = held.on_key_event(&hotkeys, 0x00, MOD_CMD, true);
    assert_eq!(other.action, TapAction::Keep);
}

#[test]
fn hotkey_related_settings_trigger_a_reload() {
    assert!(affects_hotkeys("hotkey_dictation"));
    assert!(affects_hotkeys("notebook_hotkey_3"));
    assert!(affects_hotkeys("text_actions"));
    assert!(affects_hotkeys("workflows"));
    assert!(affects_hotkeys("pill_hotkey_capture"));
    assert!(!affects_hotkeys("ui_language"));
    assert!(!affects_hotkeys("my_hotkey_"));
    assert!(hotkeys_changed(&["ui_language".to_string(), "pill_hotkey".to_string()]));
    assert!(!hotkeys_changed(&["ui_language".to_string()]));
    assert!(!hotkeys_changed(&[]));
}

#[test]
fn stopped_listener_lets_every_key_through() {
    let mut m: HotkeyManager<u32> = HotkeyManager::new();
    m.register(HotkeyConfig { modifiers: MOD_CMD, keycode: 0x31, label: "talk".into() });
    let mut held = HeldKeys::new();
    // Not started yet: the hotkey does not fire.
    let idle = m.handle_key_event(&mut held, 0x31, MOD_CMD, true);
    assert_eq!(idle.action, TapAction::Keep);
    assert_eq!(idle.fire, None);
    assert!(m.start().is_ok());
    let down = m.handle_key_event(&mut held, 0x31, MOD_CMD, true);
    assert_eq!(down.action, TapAction::Drop);
    assert_eq!(down.fire, Some(("talk".to_string(), true)));
    m.stop();
    // Once stopped, neither the release nor a fresh press fires anything.
    let up = m.handle_key_event(&mut held, 0x31, 0, false);
    assert_eq!(up.action, TapAction::Keep);
    assert_eq!(up.fire, None);
    let again = m.handle_key_event(&mut held, 0x31, MOD_CMD, true);
    assert_eq!(again.action, TapAction::Keep);
    assert_eq!(again.fire, None);
    // And the listener can be started again, picking up where it left off.
    assert!(m.start().is_ok());
    let up = m.handle_key_event(&mut held, 0x31, 0, false);
    assert_eq!(up.fire, Some(("talk".to_string(), false)));
}

#[test]
fn press_and_release_while_another_hotkey_is_held() {
    let hotkeys = vec![
        HotkeyConfig { modifiers: MOD_CMD, keycode: 0x31, label: "talk".into() },
        HotkeyConfig { modifiers: MOD_ALT, keycode: 0x02, label: "note".into() },
    ];
    let mut held = HeldKeys::new();
    let note = held.on_key_event(&hotkeys, 0x02, MOD_ALT, true);
    assert_eq!(note.fire, Some(("note".to_string(), true)));
    let down = held.on_key_event(&hotkeys, 0x31, MOD_CMD, true);
    assert_eq!(down.fire, Some(("talk".to_string(), true)));
    let up = held.on_key_event(&hotkeys, 0x31, 0, false);
    assert_eq!(up.fire, Some(("talk".to_string(), false)));
    // The other hotkey is still held: its release still fires.
    let note_up = held.on_key_event(&hotkeys, 0x02, 0, false);
    assert_eq!(note_up.fire, Some(("note".to_string(), false)));
}
