//! Texts, numbers and paths.

use ytsync_pi::numbers::{decimal_text, octal_text, parse_i32, parse_u32, push_signed};
use ytsync_pi::paths::join_path;
use ytsync_pi::text::{
    chars_of, contains, ends_with, is_whitespace, join, lines, same_text, split_once, string_of,
    take_chars, to_ascii_lowercase, trim, trim_end, trim_end_matches,
};

#[test]
fn trimming_takes_white_space_of_every_kind() {
    assert_eq!(trim("\u{3000} a b\t\u{85}\n"), "a b");
    assert_eq!(trim(" \n"), "");
    assert_eq!(trim_end(" a "), " a");
    assert_eq!(trim_end_matches("a//b//", '/'), "a//b");
    for c in "\u{9}\u{d}\u{a0}\u{1680}\u{2000}\u{200a}\u{2028}\u{202f}\u{205f}x\u{200b}\u{1c}".chars() {
        assert_eq!(is_whitespace(c), c.is_whitespace());
    }
}

#[test]
fn parts_are_found() {
    let chars = chars_of("aab");
    assert!(contains(&chars, "ab"));
    assert!(contains(&chars, ""));
    assert!(!contains(&chars, "ba"));
    assert!(!contains(&chars, "aaba"));
    assert!(ends_with("aab", "ab"));
    assert!(!ends_with("b", "ab"));
    assert!(same_text("ok", "ok"));
    assert!(!same_text("ok", "OK"));
    assert_eq!(string_of(&chars, 1, 3), "ab");
}

#[test]
fn lower_case_is_ascii_only() {
    assert_eq!(to_ascii_lowercase("AZaz[É"), "azaz[É".chars().collect::<Vec<char>>());
}

#[test]
fn lines_end_with_or_without_a_return() {
    assert_eq!(lines("a\r\n\nb\rc\n"), vec!["a", "", "b\rc"]);
    assert_eq!(lines("a"), vec!["a"]);
    assert_eq!(lines("\n"), vec![""]);
    assert!(lines("").is_empty());
}

#[test]
fn splitting_and_joining() {
    assert_eq!(split_once("a=b=c", '='), Some(("a".to_string(), "b=c".to_string())));
    assert_eq!(split_once("abc", '='), None);
    assert_eq!(take_chars("äöü", 2), "äö");
    assert_eq!(take_chars("a", 5), "a");
    assert_eq!(join(&vec!["a".to_string(), "b".to_string()], "; "), "a; b");
    assert_eq!(join(&vec![], "; "), "");
}

#[test]
fn numbers_read_back() {
    for n in [0u32, 9, 10, 4_294_967_295] {
        assert_eq!(parse_u32(&decimal_text(n as u64)), Some(n));
    }
    assert_eq!(decimal_text(u64::MAX), "18446744073709551615");
    assert_eq!(octal_text(0o640), "640");
    assert_eq!(octal_text(0), "0");
    let mut s = "n=".to_string();
    push_signed(&mut s, i64::MIN);
    assert_eq!(s, "n=-9223372036854775808");
}

#[test]
fn no_numbers_are_not_read() {
    for s in ["", "+", "-", "-1", "1 ", "1_0", "4294967296", "٣"] {
        assert_eq!(parse_u32(s), None);
        assert_eq!(parse_u32(s), s.parse::<u32>().ok());
    }
    for s in ["", "-", "+-1", "2147483648", "-2147483649", "1x"] {
        assert_eq!(parse_i32(s), None);
    }
    assert_eq!(parse_i32("-2147483648"), Some(i32::MIN));
    assert_eq!(parse_i32("+7"), Some(7));
}

#[test]
fn names_join_directories() {
    assert_eq!(join_path("/a", "b"), "/a/b");
    assert_eq!(join_path("/a/", "b"), "/a/b");
    assert_eq!(join_path("", "b"), "b");
}
