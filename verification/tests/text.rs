use brlog::app::EntryForm;
use brlog::text::{chars_of, contains, eq_ignore_ascii_case, parse_u64, split_chars, str_eq, trim};
use brlog::ui::settings::{content_filter, label_matches};

#[test]
fn trim_removes_unicode_white_space() {
    assert_eq!(trim("  OK1ABC \t\n"), "OK1ABC");
    assert_eq!(trim("\u{a0}\u{3000}x y\u{2028}"), "x y");
    assert_eq!(trim("   "), "");
    assert_eq!(trim(""), "");
    assert_eq!(trim("a"), "a");
    assert_eq!(trim("\u{200b}a"), "\u{200b}a");
}

#[test]
fn trim_agrees_with_std() {
    for s in ["", " ", " a ", "\tb\r\n", "\u{85}c\u{85}", "d\u{205f}", "e f", "\u{1680}"] {
        assert_eq!(trim(s), s.trim());
    }
}

#[test]
fn ascii_case_insensitive_compare() {
    assert!(eq_ignore_ascii_case("cw", "CW"));
    assert!(eq_ignore_ascii_case("Cw", "cW"));
    assert!(!eq_ignore_ascii_case("cw", "cwx"));
    assert!(!eq_ignore_ascii_case("é", "É"));
    assert!(eq_ignore_ascii_case("", ""));
}

#[test]
fn contains_substring() {
    assert!(contains("operator", "rat"));
    assert!(contains("abc", ""));
    assert!(contains("", ""));
    assert!(!contains("", "a"));
    assert!(!contains("ab", "abc"));
    assert!(contains("aab", "ab"));
}

#[test]
fn parse_u64_like_std() {
    for s in ["0", "42", "+7", "", "+", "-1", "1a", "18446744073709551615", "18446744073709551616", "007", " 1"] {
        assert_eq!(parse_u64(s), s.parse::<u64>().ok(), "input {s:?}");
    }
}

#[test]
fn split_on_dots() {
    let parts = split_chars(&chars_of("14.200.00"), '.');
    assert_eq!(parts.len(), 3);
    assert_eq!(parts[0], vec!['1', '4']);
    assert_eq!(parts[2], vec!['0', '0']);
    let parts = split_chars(&chars_of(""), '.');
    assert_eq!(parts, vec![Vec::<char>::new()]);
    let parts = split_chars(&chars_of("."), '.');
    assert_eq!(parts.len(), 2);
}

#[test]
fn case_mappings() {
    let mut f = EntryForm::default();
    f.set_callsign("ok1abc/p");
    assert_eq!(f.callsign, "OK1ABC/P");
    f.set_locator("straße");
    assert_eq!(f.locator, "STRASSE");
    assert_eq!(content_filter("  Operátor "), "operátor");
    assert!(label_matches("Operátor", "operá"));
}

#[test]
fn string_equality() {
    assert!(str_eq("sota", "sota"));
    assert!(!str_eq("sota", "SOTA"));
    assert!(!str_eq("sota", "sot"));
}
