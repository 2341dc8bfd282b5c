//! The editor popup: what it is opened with, what it gives back, and how it
//! answers the keys it is sent.

use vstd::prelude::*;

verus! {

/// How an editor session ended.
#[derive(Debug, Clone, PartialEq)]
pub enum EditorResult {
    /// The user submitted this text (Command+Return).
    Submitted(String),
    /// The user cancelled (Escape, or the window was closed).
    Cancelled,
}

impl View for EditorResult {
    /// The submitted text, or `None` for a cancelled session.
    type V = Option<Seq<char>>;

    open spec fn view(&self) -> Option<Seq<char>> {
        match self {
            EditorResult::Submitted(text) => Some(text@),
            EditorResult::Cancelled => None,
        }
    }
}

/// The text settings of an editor session: the text it starts with and its
/// window title.
#[derive(Debug, Clone, PartialEq)]
pub struct EditorText {
    pub initial_text: String,
    pub title: String,
}

/// The window title when none is given.
pub open spec fn default_title() -> Seq<char> {
    "TermPop"@
}

/// The text settings for an optional initial text and an optional title:
/// no initial text means an empty editor, no title means `TermPop`.
pub fn editor_text(initial_text: Option<String>, title: Option<String>) -> (r: EditorText)
    ensures
        r.initial_text@ == match initial_text {
            Some(t) => t@,
            None => Seq::<char>::empty(),
        },
        r.title@ == match title {
            Some(t) => t@,
            None => default_title(),
        },
{
    let initial_text = match initial_text {
        Some(t) => t,
        None => String::new(),
    };
    let title = match title {
        Some(t) => t,
        None => String::from_str("TermPop"),
    };
    EditorText { initial_text, title }
}

/// Key code of the Return key.
pub const KEYCODE_RETURN: u16 = 36;

/// Key code of the Escape key.
pub const KEYCODE_ESCAPE: u16 = 53;

/// Key code of the `=` (and `+`) key.
pub const KEYCODE_EQUAL: u16 = 0x18;

/// Key code of the `-` key.
pub const KEYCODE_MINUS: u16 = 0x1B;

/// Key code of the `0` key.
pub const KEYCODE_ZERO: u16 = 0x1D;

/// Key code of the `T` key.
pub const KEYCODE_T: u16 = 0x11;

/// Key code of the `Z` key.
pub const KEYCODE_Z: u16 = 0x06;

/// Smallest font size, in points, that the editor steps down to.
pub const FONT_SIZE_MIN: u32 = 8;

/// Largest font size, in points, that the editor steps up to.
pub const FONT_SIZE_MAX: u32 = 72;

/// Points by which one key press changes the font size.
pub const FONT_SIZE_STEP: u32 = 2;

/// The font size limits are positive and ordered, and a step changes the size.
pub proof fn lemma_font_size_limits()
    ensures
        FONT_SIZE_MIN > 0,
        FONT_SIZE_MAX > FONT_SIZE_MIN,
        FONT_SIZE_STEP > 0,
{
}

/// What the editor does with a key press.
#[derive(Debug, Clone, Copy, PartialEq, Eq, Structural)]
pub enum KeyAction {
    /// Undo the last edit (Command+Z).
    Undo,
    /// Redo the last undone edit (Command+Shift+Z).
    Redo,
    /// Close the editor and hand back its text (Command+Return).
    Submit,
    /// Close the editor and hand back nothing (Escape).
    Cancel,
    /// Step the font size up (Control+`=`).
    FontLarger,
    /// Step the font size down (Control+`-`).
    FontSmaller,
    /// Go back to the font size the editor opened with (Control+`0`).
    FontReset,
    /// Switch between the dark and the light theme (Control+T).
    ToggleTheme,
    /// Pass the key on to the text view (typing, Return for a new line, ...).
    Edit,
}

/// What the editor does with the key `keycode` pressed with the given
/// modifiers.  The bindings are tried in this order: Command+Z (with Shift:
/// redo), Command+Return, Escape, Control+`=`, Control+`-`, Control+`0`,
/// Control+T; any other key goes to the text.
pub open spec fn key_action_of(keycode: u16, has_cmd: bool, has_ctrl: bool, has_shift: bool) -> KeyAction {
    if has_cmd && keycode == KEYCODE_Z {
        if has_shift { KeyAction::Redo } else { KeyAction::Undo }
    } else if has_cmd && keycode == KEYCODE_RETURN {
        KeyAction::Submit
    } else if keycode == KEYCODE_ESCAPE {
        KeyAction::Cancel
    } else if has_ctrl && keycode == KEYCODE_EQUAL {
        KeyAction::FontLarger
    } else if has_ctrl && keycode == KEYCODE_MINUS {
        KeyAction::FontSmaller
    } else if has_ctrl && keycode == KEYCODE_ZERO {
        KeyAction::FontReset
    } else if has_ctrl && keycode == KEYCODE_T {
        KeyAction::ToggleTheme
    } else {
        KeyAction::Edit
    }
}

/// The key bindings, whatever else is held: Command+Z undoes (redoes with
/// Shift), Command+Return submits, Escape cancels, Control with `=`, `-`,
/// `0` or T changes the font size or the theme, with or without Shift; a key
/// pressed with neither Command nor Control (Return included) edits the text,
/// except Escape.
pub proof fn lemma_key_bindings(keycode: u16, has_cmd: bool, has_ctrl: bool, has_shift: bool)
    ensures
        ({
            let a = key_action_of(keycode, has_cmd, has_ctrl, has_shift);
            &&& has_cmd && keycode == KEYCODE_Z ==> a == (if has_shift {
                KeyAction::Redo
            } else {
                KeyAction::Undo
            })
            &&& a == KeyAction::Submit <==> has_cmd && keycode == KEYCODE_RETURN
            &&& a == KeyAction::Cancel <==> keycode == KEYCODE_ESCAPE
            &&& has_ctrl && keycode == KEYCODE_EQUAL ==> a == KeyAction::FontLarger
            &&& has_ctrl && keycode == KEYCODE_MINUS ==> a == KeyAction::FontSmaller
            &&& has_ctrl && keycode == KEYCODE_ZERO ==> a == KeyAction::FontReset
            &&& has_ctrl && keycode == KEYCODE_T ==> a == KeyAction::ToggleTheme
            &&& !has_cmd && !has_ctrl && keycode != KEYCODE_ESCAPE ==> a == KeyAction::Edit
        }),
{
}

/// What the editor does with a key press.
pub fn key_action(keycode: u16, has_cmd: bool, has_ctrl: bool, has_shift: bool) -> (a: KeyAction)
    ensures
        a == key_action_of(keycode, has_cmd, has_ctrl, has_shift),
        a == KeyAction::Submit <==> has_cmd && keycode == KEYCODE_RETURN,
        a == KeyAction::Cancel <==> keycode == KEYCODE_ESCAPE,
        keycode == KEYCODE_RETURN && !has_cmd ==> a == KeyAction::Edit,
        has_cmd && keycode == KEYCODE_Z ==> a == (if has_shift {
            KeyAction::Redo
        } else {
            KeyAction::Undo
        }),
        has_ctrl && keycode == KEYCODE_EQUAL ==> a == KeyAction::FontLarger,
        has_ctrl && keycode == KEYCODE_MINUS ==> a == KeyAction::FontSmaller,
        has_ctrl && keycode == KEYCODE_ZERO ==> a == KeyAction::FontReset,
        has_ctrl && keycode == KEYCODE_T ==> a == KeyAction::ToggleTheme,
        !has_cmd && !has_ctrl && keycode != KEYCODE_ESCAPE ==> a == KeyAction::Edit,
{
    proof {
        lemma_key_bindings(keycode, has_cmd, has_ctrl, has_shift);
    }
    if has_cmd && keycode == KEYCODE_Z {
        if has_shift {
            KeyAction::Redo
        } else {
            KeyAction::Undo
        }
    } else if has_cmd && keycode == KEYCODE_RETURN {
        KeyAction::Submit
    } else if keycode == KEYCODE_ESCAPE {
        KeyAction::Cancel
    } else if has_ctrl && keycode == KEYCODE_EQUAL {
        KeyAction::FontLarger
    } else if has_ctrl && keycode == KEYCODE_MINUS {
        KeyAction::FontSmaller
    } else if has_ctrl && keycode == KEYCODE_ZERO {
        KeyAction::FontReset
    } else if has_ctrl && keycode == KEYCODE_T {
        KeyAction::ToggleTheme
    } else {
        KeyAction::Edit
    }
}

/// The name of a theme: `dark` or `light`.
pub open spec fn theme_name_of(is_dark: bool) -> Seq<char> {
    if is_dark { "dark"@ } else { "light"@ }
}

/// Whether the theme named `theme` is dark: every name but `light` is.
pub fn is_dark_theme(theme: &str) -> (b: bool)
    ensures
        b == (theme@ != "light"@),
{
    let t = String::from_str(theme);
    let light = String::from_str("light");
    !(t == light)
}

/// The name of the dark or of the light theme.
pub fn theme_name(is_dark: bool) -> (name: &'static str)
    ensures
        name@ == theme_name_of(is_dark),
{
    if is_dark { "dark" } else { "light" }
}

/// The theme that the editor switches to from the theme named `theme`.
pub fn toggled_theme(theme: &str) -> (name: &'static str)
    ensures
        name@ == theme_name_of(theme@ == "light"@),
{
    theme_name(!is_dark_theme(theme))
}

/// One Control+T press in a popup showing the dark theme (`is_dark`) or the
/// light one: the popup then shows the other theme, and that theme's name is
/// saved in the settings.
pub fn toggle_theme(is_dark: bool) -> (r: (bool, &'static str))
    ensures
        r.0 == !is_dark,
        r.1@ == theme_name_of(!is_dark),
{
    let now_dark = !is_dark;
    (now_dark, theme_name(now_dark))
}

/// Whether the popup shows the dark theme after `presses` Control+T presses,
/// starting from the dark theme (`dark0`) or the light one.
pub open spec fn dark_after_presses(dark0: bool, presses: nat) -> bool
    decreases presses,
{
    if presses == 0 {
        dark0
    } else {
        !dark_after_presses(dark0, (presses - 1) as nat)
    }
}

/// After `n` Control+T presses in a popup opened with the theme named
/// `theme`, it shows the dark theme exactly when it started dark and `n` is
/// even, or started light and `n` is odd; the name saved after the last press
/// names that theme, so an even number of presses saves the starting theme
/// (by its name: `light`, or `dark` for every other name).
pub proof fn lemma_toggle_parity(theme: Seq<char>, n: nat)
    requires
        n >= 1,
    ensures
        dark_after_presses(theme != "light"@, n) == ((theme != "light"@) != (n % 2 == 1)),
        n % 2 == 0 ==> theme_name_of(dark_after_presses(theme != "light"@, n)) == theme_name_of(
            theme != "light"@,
        ),
{
    lemma_dark_parity(theme != "light"@, n);
}

/// The theme after `n` presses depends on the parity of `n` alone.
proof fn lemma_dark_parity(dark0: bool, n: nat)
    ensures
        dark_after_presses(dark0, n) == (dark0 != (n % 2 == 1)),
    decreases n,
{
    if n > 0 {
        lemma_dark_parity(dark0, (n - 1) as nat);
    }
}

/// The name of a theme tells that theme apart: reading back the name of the
/// dark (light) theme gives the dark (light) theme.
pub proof fn lemma_theme_name_roundtrip(is_dark: bool)
    ensures
        (theme_name_of(is_dark) != "light"@) == is_dark,
{
    reveal_strlit("dark");
    reveal_strlit("light");
    assert("dark"@[0] != "light"@[0]);
}

/// Switching the theme twice comes back to the theme one started from
/// (by its name: `light` stays `light`, every other name becomes `dark`).
pub proof fn lemma_toggle_twice(theme: Seq<char>)
    ensures
        theme_name_of(theme_name_of(theme == "light"@) == "light"@) == theme_name_of(
            theme != "light"@,
        ),
{
    lemma_theme_name_roundtrip(theme == "light"@);
}

} // verus!
