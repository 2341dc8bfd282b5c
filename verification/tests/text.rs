use termpop::paths::join_path;
use termpop::text::{chars_of, contains_str, eq_ignore_ascii_case_chars, is_white_space_char, trim_chars};

#[test]
fn trim_matches_std() {
    for s in ["  a b  ", "\u{2003}x\u{205f}", "", "   ", "abc", "\t\n x \r"] {
        let trimmed: String = trim_chars(&chars_of(s)).into_iter().collect();
        assert_eq!(trimmed, s.trim());
    }
}

#[test]
fn white_space_matches_std() {
    for code in 0u32..0x3100 {
        if let Some(c) = char::from_u32(code) {
            assert_eq!(is_white_space_char(c), c.is_whitespace(), "{:x}", code);
        }
    }
}

#[test]
fn case_insensitive_words() {
    assert!(eq_ignore_ascii_case_chars(&chars_of("CoMmAnD"), "command"));
    assert!(!eq_ignore_ascii_case_chars(&chars_of("comman"), "command"));
    assert!(!eq_ignore_ascii_case_chars(&chars_of("\u{212a}"), "k"));
}

#[test]
fn substring_search() {
    assert!(contains_str("/a/TermPop.app/Contents/MacOS/termpop", ".app/Contents/MacOS/"));
    assert!(!contains_str("/usr/local/bin/termpop", ".app/Contents/MacOS/"));
    assert!(contains_str("abc", ""));
    assert!(!contains_str("", "a"));
}

#[test]
fn joining_paths() {
    assert_eq!(join_path("/a", "b"), "/a/b");
    assert_eq!(join_path("/a/", "b"), "/a/b");
    assert_eq!(join_path("", "b"), "b");
    assert_eq!(
        std::path::Path::new("/a").join("b").to_str().unwrap(),
        join_path("/a", "b")
    );
}
