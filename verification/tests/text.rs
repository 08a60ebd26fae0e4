use doodleiq::text::{
    characters, contains, decimal, is_blank, is_whitespace, parse_u32, same_bytes, same_text,
    split_once, strip_prefix, trim, trim_end,
};

#[test]
fn trimming_agrees_with_the_standard_library() {
    for text in ["", " ", "a", " a b\t\n", "\u{3000}x\u{85}", "\u{200b}x", "\u{a0}\u{2003}"] {
        assert_eq!(trim(text), text.trim());
        assert_eq!(is_blank(text), text.trim().is_empty());
    }
    for code in 0..0x3100u32 {
        if let Some(c) = char::from_u32(code) {
            assert_eq!(is_whitespace(c), c.is_whitespace());
        }
    }
}

#[test]
fn texts_are_compared() {
    assert!(same_text("héllo", "héllo"));
    assert!(!same_text("hello", "hellp"));
    assert!(!same_text("a", "ab"));
    assert!(same_bytes(b"", b""));
    assert_eq!(characters("aé"), vec!['a', 'é']);
}

#[test]
fn prefixes_are_taken_off() {
    assert_eq!(strip_prefix("Bearer x", "Bearer "), Some("x"));
    assert_eq!(strip_prefix("Bearer", "Bearer "), None);
    assert_eq!(strip_prefix("bearer x", "Bearer "), None);
    assert_eq!(strip_prefix("é1", "é"), Some("1"));
}

#[test]
fn texts_are_parted_at_the_first() {
    assert_eq!(split_once("a.b.c", '.'), Some(("a", "b.c")));
    assert_eq!(split_once(".b", '.'), Some(("", "b")));
    assert_eq!(split_once("é.", '.'), Some(("é", "")));
    assert_eq!(split_once("ab", '.'), None);
}

#[test]
fn texts_are_searched() {
    assert!(contains("returned 503", "returned 5"));
    assert!(!contains("returned 403", "returned 5"));
    assert!(contains("x", ""));
    assert!(!contains("", "x"));
    assert!(contains("aab", "ab"));
}

#[test]
fn trailing_characters_are_taken_off() {
    assert_eq!(trim_end("https://x//", '/'), "https://x");
    assert_eq!(trim_end("///", '/'), "");
    assert_eq!(trim_end("a/b", '/'), "a/b");
}

#[test]
fn numbers_are_written() {
    assert_eq!(decimal(0), "0");
    assert_eq!(decimal(1234567890), "1234567890");
    assert_eq!(decimal(u128::MAX), u128::MAX.to_string());
}

#[test]
fn numbers_are_read() {
    for text in ["0", "42", "+7", "4294967295", "4294967296", "", "+", "-1", "1x", "007", "99999999999999999999"] {
        assert_eq!(parse_u32(text), text.parse::<u32>().ok());
    }
}
