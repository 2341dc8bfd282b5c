use termpop::config::{
    config_path, config_path_under, default_hotkey, default_strip_paste_hotkey, default_theme,
    hotkey_or_default, parse_hotkey, HotkeyModifiers, KeyCode,
};

const SUPER_SHIFT: HotkeyModifiers =
    HotkeyModifiers { super_key: true, shift: true, alt: false, control: false };

#[test]
fn parse_hotkey_cmd_shift_i() {
    let result = parse_hotkey("Cmd+Shift+I");
    assert_eq!(result, Some((SUPER_SHIFT, KeyCode::KeyI)));
}

#[test]
fn parse_hotkey_cmd_shift_e() {
    let result = parse_hotkey("Cmd+Shift+E");
    assert_eq!(result, Some((SUPER_SHIFT, KeyCode::KeyE)));
}

#[test]
fn parse_hotkey_ctrl_alt_t() {
    let result = parse_hotkey("Ctrl+Alt+T");
    assert_eq!(
        result,
        Some((
            HotkeyModifiers { super_key: false, shift: false, alt: true, control: true },
            KeyCode::KeyT
        ))
    );
}

#[test]
fn parse_hotkey_single_key_returns_none() {
    assert_eq!(parse_hotkey("A"), None);
}

#[test]
fn parse_hotkey_invalid_modifier_returns_none() {
    assert_eq!(parse_hotkey("Foo+A"), None);
}

#[test]
fn parse_hotkey_invalid_key_returns_none() {
    assert_eq!(parse_hotkey("Cmd+1"), None);
}

#[test]
fn config_path_ends_with_expected() {
    let path = config_path();
    assert!(std::path::Path::new(&path).ends_with("termpop/config.toml"));
}

#[test]
fn config_path_under_given_directory() {
    assert_eq!(
        config_path_under(Some("/Users/me".to_string())),
        "/Users/me/.config/termpop/config.toml"
    );
    assert_eq!(config_path_under(None), "~/.config/termpop/config.toml");
}

#[test]
fn default_texts() {
    assert_eq!(default_hotkey(), "Cmd+Shift+I");
    assert_eq!(default_theme(), "dark");
    assert_eq!(default_strip_paste_hotkey(), "Cmd+Shift+V");
}

#[test]
fn parse_hotkey_ignores_case_and_spaces() {
    assert_eq!(parse_hotkey(" cmd + SHIFT + i "), Some((SUPER_SHIFT, KeyCode::KeyI)));
    assert_eq!(parse_hotkey("command+shift+z"), Some((SUPER_SHIFT, KeyCode::KeyZ)));
    assert_eq!(
        parse_hotkey("Super+Option+Control+a"),
        Some((
            HotkeyModifiers { super_key: true, shift: false, alt: true, control: true },
            KeyCode::KeyA
        ))
    );
}

#[test]
fn parse_hotkey_rejects_empty_and_long_keys() {
    assert_eq!(parse_hotkey(""), None);
    assert_eq!(parse_hotkey("Cmd+"), None);
    assert_eq!(parse_hotkey("Cmd++A"), None);
    assert_eq!(parse_hotkey("Cmd+AB"), None);
    assert_eq!(parse_hotkey("+A"), None);
}

#[test]
fn parse_hotkey_repeated_modifier_counts_once() {
    assert_eq!(
        parse_hotkey("Shift+shift+X"),
        Some((
            HotkeyModifiers { super_key: false, shift: true, alt: false, control: false },
            KeyCode::KeyX
        ))
    );
}

#[test]
fn parse_hotkey_unicode_letters_that_upper_case_to_ascii() {
    assert_eq!(parse_hotkey("Cmd+\u{131}"), Some((HotkeyModifiers { super_key: true, shift: false, alt: false, control: false }, KeyCode::KeyI)));
    assert_eq!(parse_hotkey("Cmd+\u{17f}"), Some((HotkeyModifiers { super_key: true, shift: false, alt: false, control: false }, KeyCode::KeyS)));
    assert_eq!(parse_hotkey("Cmd+\u{e9}"), None);
    assert_eq!("\u{131}".to_uppercase(), "I");
    assert_eq!("\u{17f}".to_uppercase(), "S");
}

#[test]
fn parse_hotkey_trims_unicode_white_space() {
    assert_eq!(parse_hotkey("\u{3000}Cmd\t+\u{a0}Shift+I\n"), Some((SUPER_SHIFT, KeyCode::KeyI)));
}

#[test]
fn hotkey_falls_back_to_default() {
    assert_eq!(hotkey_or_default("Ctrl+Q").1, false);
    assert_eq!(hotkey_or_default("nonsense"), ((SUPER_SHIFT, KeyCode::KeyI), true));
    assert_eq!(hotkey_or_default("Cmd+Shift+E"), ((SUPER_SHIFT, KeyCode::KeyE), false));
}
