//! Settings of the tool: the default values of the text settings, where the
//! settings file lies, and how a hotkey such as `Cmd+Shift+I` is read.

use vstd::prelude::*;

use crate::paths::{home_dir, join, join_path, lemma_join_ends_with};
use crate::text::{
    is_white_space, trim_start,    ascii_lower,    lemma_split_append_sep, lemma_split_append_word, chars_of, ends_with, eq_ignore_ascii_case, eq_ignore_ascii_case_chars, split_on, trim,
    trim_chars,
};

verus! {

/// The global hotkey that opens the editor when the settings name none.
pub fn default_hotkey() -> (s: String)
    ensures
        s@ == "Cmd+Shift+I"@,
{
    String::from_str("Cmd+Shift+I")
}

/// The theme used when the settings name none.
pub fn default_theme() -> (s: String)
    ensures
        s@ == "dark"@,
{
    String::from_str("dark")
}

/// The hotkey of the plain-text paste when the settings name none.
pub fn default_strip_paste_hotkey() -> (s: String)
    ensures
        s@ == "Cmd+Shift+V"@,
{
    String::from_str("Cmd+Shift+V")
}

/// Where the settings file lies below the home directory.
pub open spec fn config_relative_path() -> Seq<char> {
    ".config/termpop/config.toml"@
}

/// The settings file below the home directory `home`, or below `~` where
/// there is none: `home/.config/termpop/config.toml`.
pub open spec fn config_path_in(home: Option<Seq<char>>) -> Seq<char> {
    let dir = match home {
        Some(h) => h,
        None => "~"@,
    };
    join(dir, config_relative_path())
}

/// The settings file below the home directory `home`, or below `~` where
/// there is none.
pub fn config_path_under(home: Option<String>) -> (p: String)
    ensures
        p@ == config_path_in(crate::text::opt_view(home)),
        ends_with(p@, config_relative_path()),
        ends_with(p@, "termpop/config.toml"@),
{
    let dir = match &home {
        Some(h) => h.as_str(),
        None => "~",
    };
    let p = join_path(dir, ".config/termpop/config.toml");
    proof {
        lemma_join_ends_with(dir@, config_relative_path());
        reveal_strlit(".config/termpop/config.toml");
        reveal_strlit("termpop/config.toml");
        let suffix = "termpop/config.toml"@;
        let whole = config_relative_path();
        assert(whole.subrange(whole.len() - suffix.len(), whole.len() as int) =~= suffix);
        assert(p@.subrange(p@.len() - suffix.len(), p@.len() as int) =~= whole.subrange(
            whole.len() - suffix.len(),
            whole.len() as int,
        ));
    }
    p
}

/// The settings file: `.config/termpop/config.toml` below the user's home
/// directory, or below `~` where the platform reports none.
pub fn config_path() -> (p: String)
    ensures
        exists|dir: Option<Seq<char>>| p@ == config_path_in(dir),
        ends_with(p@, config_relative_path()),
        ends_with(p@, "termpop/config.toml"@),
{
    let dir = home_dir();
    let ghost found = crate::text::opt_view(dir);
    let p = config_path_under(dir);
    assert(p@ == config_path_in(found));
    p
}

/// A modifier key of a hotkey.
#[derive(Debug, Clone, Copy, PartialEq, Eq, Structural)]
pub enum Modifier {
    /// The Command key.
    Super,
    Shift,
    /// The Option key.
    Alt,
    Control,
}

/// The set of modifier keys held with a hotkey.
#[derive(Debug, Clone, Copy, PartialEq, Eq, Structural)]
pub struct HotkeyModifiers {
    pub super_key: bool,
    pub shift: bool,
    pub alt: bool,
    pub control: bool,
}

/// The letter key of a hotkey.
#[derive(Debug, Clone, Copy, PartialEq, Eq, Structural)]
pub enum KeyCode {
    KeyA, KeyB, KeyC, KeyD, KeyE, KeyF, KeyG, KeyH, KeyI, KeyJ, KeyK, KeyL, KeyM,
    KeyN, KeyO, KeyP, KeyQ, KeyR, KeyS, KeyT, KeyU, KeyV, KeyW, KeyX, KeyY, KeyZ,
}

impl HotkeyModifiers {
    /// No modifier held.
    pub open spec fn spec_none() -> HotkeyModifiers {
        HotkeyModifiers { super_key: false, shift: false, alt: false, control: false }
    }

    /// These modifiers together with `m`.
    pub open spec fn spec_with(self, m: Modifier) -> HotkeyModifiers {
        match m {
            Modifier::Super => HotkeyModifiers { super_key: true, ..self },
            Modifier::Shift => HotkeyModifiers { shift: true, ..self },
            Modifier::Alt => HotkeyModifiers { alt: true, ..self },
            Modifier::Control => HotkeyModifiers { control: true, ..self },
        }
    }

    /// No modifier held.
    pub fn none() -> (r: HotkeyModifiers)
        ensures
            r == HotkeyModifiers::spec_none(),
    {
        HotkeyModifiers { super_key: false, shift: false, alt: false, control: false }
    }

    /// These modifiers together with `m`.
    pub fn with(self, m: Modifier) -> (r: HotkeyModifiers)
        ensures
            r == self.spec_with(m),
    {
        match m {
            Modifier::Super => HotkeyModifiers { super_key: true, ..self },
            Modifier::Shift => HotkeyModifiers { shift: true, ..self },
            Modifier::Alt => HotkeyModifiers { alt: true, ..self },
            Modifier::Control => HotkeyModifiers { control: true, ..self },
        }
    }
}

/// Adding a modifier to a set holds that modifier and keeps every other one
/// as it was.
pub proof fn lemma_with_modifier(m: HotkeyModifiers, md: Modifier)
    ensures
        m.spec_with(md).super_key == (m.super_key || md == Modifier::Super),
        m.spec_with(md).shift == (m.shift || md == Modifier::Shift),
        m.spec_with(md).alt == (m.alt || md == Modifier::Alt),
        m.spec_with(md).control == (m.control || md == Modifier::Control),
{
}

/// The modifier that a word of a hotkey names, in any mix of upper and
/// lower case: `cmd`, `super` or `command`; `shift`; `alt` or `option`;
/// `ctrl` or `control`.
pub open spec fn modifier_named(word: Seq<char>) -> Option<Modifier> {
    if eq_ignore_ascii_case(word, "cmd"@) || eq_ignore_ascii_case(word, "super"@)
        || eq_ignore_ascii_case(word, "command"@) {
        Some(Modifier::Super)
    } else if eq_ignore_ascii_case(word, "shift"@) {
        Some(Modifier::Shift)
    } else if eq_ignore_ascii_case(word, "alt"@) || eq_ignore_ascii_case(word, "option"@) {
        Some(Modifier::Alt)
    } else if eq_ignore_ascii_case(word, "ctrl"@) || eq_ignore_ascii_case(word, "control"@) {
        Some(Modifier::Control)
    } else {
        None
    }
}

/// The capital ASCII letter that `c` becomes in upper case, where that is a
/// single capital ASCII letter: the ASCII letters themselves, the dotless
/// `ı` (which becomes `I`) and the long `ſ` (which becomes `S`).
pub open spec fn upper_letter(c: char) -> Option<char> {
    if 'A' <= c <= 'Z' {
        Some(c)
    } else if 'a' <= c <= 'z' {
        Some(((c as u32) - 32) as char)
    } else if c == '\u{131}' {
        Some('I')
    } else if c == '\u{17f}' {
        Some('S')
    } else {
        None
    }
}

/// The key of a capital ASCII letter.
pub open spec fn letter_key(l: char) -> Option<KeyCode> {
    if l == 'A' { Some(KeyCode::KeyA) }
    else if l == 'B' { Some(KeyCode::KeyB) }
    else if l == 'C' { Some(KeyCode::KeyC) }
    else if l == 'D' { Some(KeyCode::KeyD) }
    else if l == 'E' { Some(KeyCode::KeyE) }
    else if l == 'F' { Some(KeyCode::KeyF) }
    else if l == 'G' { Some(KeyCode::KeyG) }
    else if l == 'H' { Some(KeyCode::KeyH) }
    else if l == 'I' { Some(KeyCode::KeyI) }
    else if l == 'J' { Some(KeyCode::KeyJ) }
    else if l == 'K' { Some(KeyCode::KeyK) }
    else if l == 'L' { Some(KeyCode::KeyL) }
    else if l == 'M' { Some(KeyCode::KeyM) }
    else if l == 'N' { Some(KeyCode::KeyN) }
    else if l == 'O' { Some(KeyCode::KeyO) }
    else if l == 'P' { Some(KeyCode::KeyP) }
    else if l == 'Q' { Some(KeyCode::KeyQ) }
    else if l == 'R' { Some(KeyCode::KeyR) }
    else if l == 'S' { Some(KeyCode::KeyS) }
    else if l == 'T' { Some(KeyCode::KeyT) }
    else if l == 'U' { Some(KeyCode::KeyU) }
    else if l == 'V' { Some(KeyCode::KeyV) }
    else if l == 'W' { Some(KeyCode::KeyW) }
    else if l == 'X' { Some(KeyCode::KeyX) }
    else if l == 'Y' { Some(KeyCode::KeyY) }
    else if l == 'Z' { Some(KeyCode::KeyZ) }
    else { None }
}

/// The key that the last word of a hotkey names: a single letter, in upper
/// or lower case.
pub open spec fn key_named(word: Seq<char>) -> Option<KeyCode> {
    if word.len() == 1 {
        match upper_letter(word[0]) {
            Some(l) => letter_key(l),
            None => None,
        }
    } else {
        None
    }
}

/// The modifiers that all the given words name together, or `None` where
/// one of them (white space around it set aside) names no modifier.
pub open spec fn modifiers_named(words: Seq<Seq<char>>) -> Option<HotkeyModifiers>
    decreases words.len(),
{
    if words.len() == 0 {
        Some(HotkeyModifiers::spec_none())
    } else {
        match modifiers_named(words.drop_last()) {
            None => None,
            Some(m) => match modifier_named(trim(words.last())) {
                None => None,
                Some(md) => Some(m.spec_with(md)),
            },
        }
    }
}

/// What a hotkey text such as `Cmd+Shift+I` denotes: the text is split at
/// each `+` and white space around each word is set aside; there must be at
/// least two words; every word but the last must name a modifier and the last
/// must name a letter key.
pub open spec fn hotkey_of(s: Seq<char>) -> Option<(HotkeyModifiers, KeyCode)> {
    let words = split_on(s, '+');
    if words.len() < 2 {
        None
    } else {
        match (modifiers_named(words.drop_last()), key_named(trim(words.last()))) {
            (Some(m), Some(k)) => Some((m, k)),
            _ => None,
        }
    }
}

/// The modifier that `word` names.
fn modifier_of_word(word: &Vec<char>) -> (r: Option<Modifier>)
    ensures
        r == modifier_named(word@),
{
    if eq_ignore_ascii_case_chars(word, "cmd") || eq_ignore_ascii_case_chars(word, "super")
        || eq_ignore_ascii_case_chars(word, "command") {
        Some(Modifier::Super)
    } else if eq_ignore_ascii_case_chars(word, "shift") {
        Some(Modifier::Shift)
    } else if eq_ignore_ascii_case_chars(word, "alt") || eq_ignore_ascii_case_chars(
        word,
        "option",
    ) {
        Some(Modifier::Alt)
    } else if eq_ignore_ascii_case_chars(word, "ctrl") || eq_ignore_ascii_case_chars(
        word,
        "control",
    ) {
        Some(Modifier::Control)
    } else {
        None
    }
}

/// The key of a capital ASCII letter.
fn key_of_letter(l: char) -> (r: Option<KeyCode>)
    ensures
        r == letter_key(l),
{
    if l == 'A' { Some(KeyCode::KeyA) }
    else if l == 'B' { Some(KeyCode::KeyB) }
    else if l == 'C' { Some(KeyCode::KeyC) }
    else if l == 'D' { Some(KeyCode::KeyD) }
    else if l == 'E' { Some(KeyCode::KeyE) }
    else if l == 'F' { Some(KeyCode::KeyF) }
    else if l == 'G' { Some(KeyCode::KeyG) }
    else if l == 'H' { Some(KeyCode::KeyH) }
    else if l == 'I' { Some(KeyCode::KeyI) }
    else if l == 'J' { Some(KeyCode::KeyJ) }
    else if l == 'K' { Some(KeyCode::KeyK) }
    else if l == 'L' { Some(KeyCode::KeyL) }
    else if l == 'M' { Some(KeyCode::KeyM) }
    else if l == 'N' { Some(KeyCode::KeyN) }
    else if l == 'O' { Some(KeyCode::KeyO) }
    else if l == 'P' { Some(KeyCode::KeyP) }
    else if l == 'Q' { Some(KeyCode::KeyQ) }
    else if l == 'R' { Some(KeyCode::KeyR) }
    else if l == 'S' { Some(KeyCode::KeyS) }
    else if l == 'T' { Some(KeyCode::KeyT) }
    else if l == 'U' { Some(KeyCode::KeyU) }
    else if l == 'V' { Some(KeyCode::KeyV) }
    else if l == 'W' { Some(KeyCode::KeyW) }
    else if l == 'X' { Some(KeyCode::KeyX) }
    else if l == 'Y' { Some(KeyCode::KeyY) }
    else if l == 'Z' { Some(KeyCode::KeyZ) }
    else { None }
}

/// The key that `word` names.
fn key_of_word(word: &Vec<char>) -> (r: Option<KeyCode>)
    ensures
        r == key_named(word@),
{
    if word.len() != 1 {
        return None;
    }
    let c = word[0];
    let upper = if 'A' <= c && c <= 'Z' {
        Some(c)
    } else if 'a' <= c && c <= 'z' {
        let b: u8 = (c as u32 - 32) as u8;
        Some(b as char)
    } else if c == '\u{131}' {
        Some('I')
    } else if c == '\u{17f}' {
        Some('S')
    } else {
        None
    };
    match upper {
        Some(l) => key_of_letter(l),
        None => None,
    }
}

/// Reads a hotkey such as `Cmd+Shift+I`: the words between `+` signs, with
/// white space around them set aside, are modifiers (`cmd`, `super`,
/// `command`, `shift`, `alt`, `option`, `ctrl`, `control`, in any case) and,
/// last, one letter.  Gives `None` for fewer than two words, an unknown
/// modifier or a last word that is not a single letter.
pub fn parse_hotkey(hotkey_str: &str) -> (r: Option<(HotkeyModifiers, KeyCode)>)
    ensures
        r == hotkey_of(hotkey_str@),
{
    let chars = chars_of(hotkey_str);
    let n = chars.len();
    let ghost s = hotkey_str@;
    let mut word: Vec<char> = Vec::new();
    let mut separators: usize = 0;
    let mut mods: Option<HotkeyModifiers> = Some(HotkeyModifiers::none());
    let mut i: usize = 0;
    assert(s.subrange(0, 0) =~= Seq::<char>::empty());
    while i < n
        invariant
            chars@ == s,
            n == s.len(),
            i <= n,
            separators <= i,
            split_on(s.subrange(0, i as int), '+').len() == separators + 1,
            split_on(s.subrange(0, i as int), '+').last() == word@,
            mods == modifiers_named(split_on(s.subrange(0, i as int), '+').drop_last()),
        decreases n - i,
    {
        let c = chars[i];
        let ghost prev = split_on(s.subrange(0, i as int), '+');
        assert(s.subrange(0, i + 1).drop_last() =~= s.subrange(0, i as int));
        if c == '+' {
            let trimmed = trim_chars(&word);
            mods = match mods {
                None => None,
                Some(m) => match modifier_of_word(&trimmed) {
                    None => None,
                    Some(md) => Some(m.with(md)),
                },
            };
            word = Vec::new();
            separators = separators + 1;
            proof {
                let next = split_on(s.subrange(0, i + 1), '+');
                assert(next == prev.push(Seq::<char>::empty()));
                assert(next.drop_last() =~= prev);
            }
        } else {
            word.push(c);
            proof {
                let next = split_on(s.subrange(0, i + 1), '+');
                assert(next == prev.update(prev.len() - 1, prev.last().push(c)));
                assert(next.drop_last() =~= prev.drop_last());
            }
        }
        i = i + 1;
    }
    assert(s.subrange(0, n as int) =~= s);
    if separators < 1 {
        return None;
    }
    let trimmed = trim_chars(&word);
    match (mods, key_of_word(&trimmed)) {
        (Some(m), Some(k)) => Some((m, k)),
        _ => None,
    }
}

/// The words of a hotkey text made of three words joined by `+`.
proof fn lemma_split_three_words(a: Seq<char>, b: Seq<char>, c: Seq<char>)
    requires
        forall|i: int| 0 <= i < a.len() ==> a[i] != '+',
        forall|i: int| 0 <= i < b.len() ==> b[i] != '+',
        forall|i: int| 0 <= i < c.len() ==> c[i] != '+',
    ensures
        split_on(a + seq!['+'] + b + seq!['+'] + c, '+') == seq![a, b, c],
{
    let e = Seq::<char>::empty();
    assert(split_on(e, '+') == seq![e]);
    lemma_split_append_word(e, a, '+');
    assert(e + a =~= a);
    assert(split_on(a, '+') =~= seq![a]);
    lemma_split_append_sep(a, '+');
    assert(a.push('+') =~= a + seq!['+']);
    lemma_split_append_word(a + seq!['+'], b, '+');
    assert(split_on(a + seq!['+'] + b, '+') =~= seq![a, b]);
    lemma_split_append_sep(a + seq!['+'] + b, '+');
    assert((a + seq!['+'] + b).push('+') =~= a + seq!['+'] + b + seq!['+']);
    lemma_split_append_word(a + seq!['+'] + b + seq!['+'], c, '+');
    assert(split_on(a + seq!['+'] + b + seq!['+'] + c, '+') =~= seq![a, b, c]);
}

/// The default hotkey text denotes Command+Shift+I.
pub proof fn lemma_default_hotkey_parses()
    ensures
        hotkey_of("Cmd+Shift+I"@) == Some(
            (
                HotkeyModifiers { super_key: true, shift: true, alt: false, control: false },
                KeyCode::KeyI,
            ),
        ),
{
    reveal_strlit("Cmd+Shift+I");
    reveal_strlit("cmd");
    reveal_strlit("shift");
    let a = seq!['C', 'm', 'd'];
    let b = seq!['S', 'h', 'i', 'f', 't'];
    let c = seq!['I'];
    assert("Cmd+Shift+I"@ =~= a + seq!['+'] + b + seq!['+'] + c);
    lemma_split_three_words(a, b, c);
    let words = seq![a, b, c];
    assert(words.drop_last().drop_last() =~= seq![a]);
    assert(words.drop_last() =~= seq![a, b]);
    assert(seq![a].drop_last() =~= Seq::<Seq<char>>::empty());
    assert(trim(a) == a);
    assert(trim(b) == b);
    assert(trim(c) == c);
    assert(eq_ignore_ascii_case(a, "cmd"@));
    assert(eq_ignore_ascii_case(b, "shift"@));
    reveal_strlit("super");
    reveal_strlit("command");
    reveal_strlit("alt");
    reveal_strlit("option");
    reveal_strlit("ctrl");
    reveal_strlit("control");
    assert(ascii_lower(b[1]) != "super"@[1]);
    assert(!eq_ignore_ascii_case(b, "super"@));
    assert(modifier_named(a) == Some(Modifier::Super));
    assert(modifier_named(b) == Some(Modifier::Shift));
    assert(seq![a].last() == a);
    assert(modifiers_named(seq![a].drop_last()) == Some(HotkeyModifiers::spec_none()));
    assert(modifiers_named(seq![a]) == Some(HotkeyModifiers::spec_none().spec_with(Modifier::Super)));
    assert(key_named(c) == Some(KeyCode::KeyI));
}

/// The hotkey that `hotkey_str` denotes, or the default hotkey
/// (`Cmd+Shift+I`) where it denotes none; the flag tells whether the default
/// was taken.
pub fn hotkey_or_default(hotkey_str: &str) -> (r: ((HotkeyModifiers, KeyCode), bool))
    ensures
        match hotkey_of(hotkey_str@) {
            Some(h) => r == (h, false),
            None => r == (
                (
                    HotkeyModifiers { super_key: true, shift: true, alt: false, control: false },
                    KeyCode::KeyI,
                ),
                true,
            ),
        },
{
    proof {
        lemma_default_hotkey_parses();
    }
    match parse_hotkey(hotkey_str) {
        Some(h) => (h, false),
        None => {
            let fallback = default_hotkey();
            let h = parse_hotkey(fallback.as_str()).unwrap();
            (h, true)
        },
    }
}

/// The letter printed on a key.
pub open spec fn key_letter(k: KeyCode) -> char {
    match k {
        KeyCode::KeyA => 'A',
        KeyCode::KeyB => 'B',
        KeyCode::KeyC => 'C',
        KeyCode::KeyD => 'D',
        KeyCode::KeyE => 'E',
        KeyCode::KeyF => 'F',
        KeyCode::KeyG => 'G',
        KeyCode::KeyH => 'H',
        KeyCode::KeyI => 'I',
        KeyCode::KeyJ => 'J',
        KeyCode::KeyK => 'K',
        KeyCode::KeyL => 'L',
        KeyCode::KeyM => 'M',
        KeyCode::KeyN => 'N',
        KeyCode::KeyO => 'O',
        KeyCode::KeyP => 'P',
        KeyCode::KeyQ => 'Q',
        KeyCode::KeyR => 'R',
        KeyCode::KeyS => 'S',
        KeyCode::KeyT => 'T',
        KeyCode::KeyU => 'U',
        KeyCode::KeyV => 'V',
        KeyCode::KeyW => 'W',
        KeyCode::KeyX => 'X',
        KeyCode::KeyY => 'Y',
        KeyCode::KeyZ => 'Z',
    }
}

/// Every ASCII letter, in either case, names the key that carries that
/// letter, and nothing else names a key when it stands alone but the dotless
/// `ı` (the key I) and the long `ſ` (the key S).
pub proof fn lemma_letters_name_their_keys(c: char)
    ensures
        'A' <= c <= 'Z' ==> (key_named(seq![c]) matches Some(k) && key_letter(k) == c),
        'a' <= c <= 'z' ==> (key_named(seq![c]) matches Some(k) && key_letter(k) as u32 + 32
            == c as u32),
        key_named(seq![c]) is Some ==> ('A' <= c <= 'Z' || 'a' <= c <= 'z' || c == '\u{131}' || c
            == '\u{17f}'),
{
    let w = seq![c];
    assert(w.len() == 1 && w[0] == c);
    if 'a' <= c <= 'z' {
        let u = ((c as u32) - 32) as char;
        assert('A' <= u <= 'Z');
        assert(u as u32 + 32 == c as u32);
    }
}

/// The words that name modifiers, in lower case, name these modifiers, and
/// every spelling of one of them in any mix of ASCII cases names the same
/// modifier.
pub proof fn lemma_modifier_words(w: Seq<char>)
    ensures
        modifier_named("cmd"@) == Some(Modifier::Super),
        modifier_named("super"@) == Some(Modifier::Super),
        modifier_named("command"@) == Some(Modifier::Super),
        modifier_named("shift"@) == Some(Modifier::Shift),
        modifier_named("alt"@) == Some(Modifier::Alt),
        modifier_named("option"@) == Some(Modifier::Alt),
        modifier_named("ctrl"@) == Some(Modifier::Control),
        modifier_named("control"@) == Some(Modifier::Control),
        eq_ignore_ascii_case(w, "cmd"@) ==> modifier_named(w) == Some(Modifier::Super),
        eq_ignore_ascii_case(w, "super"@) ==> modifier_named(w) == Some(Modifier::Super),
        eq_ignore_ascii_case(w, "command"@) ==> modifier_named(w) == Some(Modifier::Super),
        eq_ignore_ascii_case(w, "shift"@) ==> modifier_named(w) == Some(Modifier::Shift),
        eq_ignore_ascii_case(w, "alt"@) ==> modifier_named(w) == Some(Modifier::Alt),
        eq_ignore_ascii_case(w, "option"@) ==> modifier_named(w) == Some(Modifier::Alt),
        eq_ignore_ascii_case(w, "ctrl"@) ==> modifier_named(w) == Some(Modifier::Control),
        eq_ignore_ascii_case(w, "control"@) ==> modifier_named(w) == Some(Modifier::Control),
{
    reveal_strlit("cmd");
    reveal_strlit("super");
    reveal_strlit("command");
    reveal_strlit("shift");
    reveal_strlit("alt");
    reveal_strlit("option");
    reveal_strlit("ctrl");
    reveal_strlit("control");
    lemma_lower_words_match_themselves("cmd"@);
    lemma_lower_words_match_themselves("super"@);
    lemma_lower_words_match_themselves("command"@);
    lemma_lower_words_match_themselves("shift"@);
    lemma_lower_words_match_themselves("alt"@);
    lemma_lower_words_match_themselves("option"@);
    lemma_lower_words_match_themselves("ctrl"@);
    lemma_lower_words_match_themselves("control"@);
    // words of equal length that name different modifiers differ somewhere
    assert(!eq_ignore_ascii_case("shift"@, "super"@)) by {
        assert(ascii_lower("shift"@[1]) != "super"@[1]);
    }
    assert(!eq_ignore_ascii_case("alt"@, "cmd"@)) by {
        assert(ascii_lower("alt"@[0]) != "cmd"@[0]);
    }
    assert(!eq_ignore_ascii_case("control"@, "command"@)) by {
        assert(ascii_lower("control"@[2]) != "command"@[2]);
    }
    if eq_ignore_ascii_case(w, "shift"@) {
        assert(ascii_lower(w[1]) != "super"@[1]);
    }
    if eq_ignore_ascii_case(w, "alt"@) {
        assert(ascii_lower(w[0]) != "cmd"@[0]);
    }
    if eq_ignore_ascii_case(w, "control"@) {
        assert(ascii_lower(w[2]) != "command"@[2]);
    }
}

/// A word written in lower-case ASCII letters matches itself.
proof fn lemma_lower_words_match_themselves(word: Seq<char>)
    requires
        forall|i: int| 0 <= i < word.len() ==> 'a' <= #[trigger] word[i] <= 'z',
    ensures
        eq_ignore_ascii_case(word, word),
{
}

/// A hotkey text of two words, a modifier word and a key word (neither
/// holding `+`), denotes the modifier alone with the key.
pub proof fn lemma_two_word_hotkey(a: Seq<char>, b: Seq<char>)
    requires
        forall|i: int| 0 <= i < a.len() ==> a[i] != '+',
        forall|i: int| 0 <= i < b.len() ==> b[i] != '+',
    ensures
        hotkey_of(a + seq!['+'] + b) == match (modifier_named(trim(a)), key_named(trim(b))) {
            (Some(m), Some(k)) => Some((HotkeyModifiers::spec_none().spec_with(m), k)),
            _ => None,
        },
{
    let e = Seq::<char>::empty();
    lemma_split_append_word(e, a, '+');
    assert(e + a =~= a);
    lemma_split_append_sep(a, '+');
    assert(a.push('+') =~= a + seq!['+']);
    lemma_split_append_word(a + seq!['+'], b, '+');
    let words = split_on(a + seq!['+'] + b, '+');
    assert(words =~= seq![a, b]);
    assert(words.drop_last() =~= seq![a]);
    assert(seq![a].drop_last() =~= Seq::<Seq<char>>::empty());
    assert(seq![a].last() == a);
    assert(modifiers_named(seq![a].drop_last()) == Some(HotkeyModifiers::spec_none()));
    assert(words.last() == b);
    assert(words.len() == 2);
}

/// `Cmd+` followed by any ASCII letter, in either case, denotes the Command
/// key with the key of that letter.
pub proof fn lemma_cmd_letter(c: char)
    requires
        'A' <= c <= 'Z' || 'a' <= c <= 'z',
    ensures
        match hotkey_of("Cmd+"@ + seq![c]) {
            Some((m, k)) => m.super_key && !m.shift && !m.alt && !m.control && ('A' <= c <= 'Z'
                ==> key_letter(k) == c) && ('a' <= c <= 'z' ==> key_letter(k) as u32 + 32
                == c as u32),
            None => false,
        },
{
    reveal_strlit("Cmd+");
    let a = seq!['C', 'm', 'd'];
    assert("Cmd+"@ + seq![c] =~= a + seq!['+'] + seq![c]);
    lemma_two_word_hotkey(a, seq![c]);
    assert(trim(a) == a);
    if !is_white_space(c) {
        assert(trim(seq![c]) == seq![c]) by {
            assert(trim_start(seq![c]) == seq![c]);
        }
    }
    lemma_modifier_words(a);
    reveal_strlit("cmd");
    assert(eq_ignore_ascii_case(a, "cmd"@));
    lemma_letters_name_their_keys(c);
}

} // verus!
