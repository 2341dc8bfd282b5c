use termpop::editor::{
    editor_text, is_dark_theme, key_action, theme_name, toggle_theme, toggled_theme, EditorResult, KeyAction,
    FONT_SIZE_MAX, FONT_SIZE_MIN, FONT_SIZE_STEP, KEYCODE_EQUAL, KEYCODE_ESCAPE, KEYCODE_MINUS,
    KEYCODE_RETURN, KEYCODE_T, KEYCODE_Z, KEYCODE_ZERO,
};

#[test]
fn editor_result_submitted_holds_text() {
    let result = EditorResult::Submitted("hello world".to_string());
    assert_eq!(result, EditorResult::Submitted("hello world".to_string()));
}

#[test]
fn editor_result_cancelled_is_distinct() {
    let result = EditorResult::Cancelled;
    assert_ne!(result, EditorResult::Submitted(String::new()));
}

#[test]
fn font_size_bounds() {
    assert!(FONT_SIZE_MIN as f64 > 0.0);
    assert!(FONT_SIZE_MAX as f64 > FONT_SIZE_MIN as f64);
    assert!(FONT_SIZE_STEP as f64 > 0.0);
}

#[test]
fn font_size_increase_clamped() {
    let size = FONT_SIZE_MAX as f64;
    let new_size = (size + FONT_SIZE_STEP as f64).min(FONT_SIZE_MAX as f64);
    assert_eq!(new_size, FONT_SIZE_MAX as f64);
}

#[test]
fn font_size_decrease_clamped() {
    let size = FONT_SIZE_MIN as f64;
    let new_size = (size - FONT_SIZE_STEP as f64).max(FONT_SIZE_MIN as f64);
    assert_eq!(new_size, FONT_SIZE_MIN as f64);
}

#[test]
fn font_size_limits_values() {
    assert_eq!(FONT_SIZE_MIN, 8);
    assert_eq!(FONT_SIZE_MAX, 72);
    assert_eq!(FONT_SIZE_STEP, 2);
}

#[test]
fn editor_text_defaults() {
    let t = editor_text(None, None);
    assert_eq!(t.initial_text, "");
    assert_eq!(t.title, "TermPop");
    let t = editor_text(Some("existing text".to_string()), Some("Commit Message".to_string()));
    assert_eq!(t.initial_text, "existing text");
    assert_eq!(t.title, "Commit Message");
}

#[test]
fn command_return_submits_and_return_alone_edits() {
    assert_eq!(key_action(KEYCODE_RETURN, true, false, false), KeyAction::Submit);
    assert_eq!(key_action(KEYCODE_RETURN, false, false, false), KeyAction::Edit);
    assert_eq!(key_action(KEYCODE_RETURN, false, true, true), KeyAction::Edit);
}

#[test]
fn escape_cancels_with_any_modifier() {
    assert_eq!(key_action(KEYCODE_ESCAPE, false, false, false), KeyAction::Cancel);
    assert_eq!(key_action(KEYCODE_ESCAPE, true, true, true), KeyAction::Cancel);
}

#[test]
fn undo_and_redo() {
    assert_eq!(key_action(KEYCODE_Z, true, false, false), KeyAction::Undo);
    assert_eq!(key_action(KEYCODE_Z, true, false, true), KeyAction::Redo);
    assert_eq!(key_action(KEYCODE_Z, false, false, false), KeyAction::Edit);
}

#[test]
fn control_keys_change_font_and_theme() {
    assert_eq!(key_action(KEYCODE_EQUAL, false, true, false), KeyAction::FontLarger);
    assert_eq!(key_action(KEYCODE_MINUS, false, true, false), KeyAction::FontSmaller);
    assert_eq!(key_action(KEYCODE_ZERO, false, true, false), KeyAction::FontReset);
    assert_eq!(key_action(KEYCODE_T, false, true, false), KeyAction::ToggleTheme);
    assert_eq!(key_action(KEYCODE_T, false, false, false), KeyAction::Edit);
    assert_eq!(key_action(KEYCODE_EQUAL, true, false, false), KeyAction::Edit);
}

#[test]
fn themes() {
    assert!(is_dark_theme("dark"));
    assert!(is_dark_theme("solarized"));
    assert!(!is_dark_theme("light"));
    assert_eq!(theme_name(true), "dark");
    assert_eq!(theme_name(false), "light");
    assert_eq!(toggled_theme("dark"), "light");
    assert_eq!(toggled_theme("light"), "dark");
    assert_eq!(toggled_theme("other"), "light");
    assert_eq!(toggled_theme(toggled_theme("light")), "light");
}

#[test]
fn control_t_presses_alternate_the_theme() {
    let mut dark = is_dark_theme("light");
    let mut saved = "";
    for press in 1..=5 {
        let (now_dark, name) = toggle_theme(dark);
        dark = now_dark;
        saved = name;
        assert_eq!(dark, press % 2 == 1);
        if press % 2 == 0 {
            assert_eq!(saved, "light");
        }
    }
    assert_eq!(saved, "dark");
}
