use cosmic_connect::config_text::{read_entry, read_flag, read_section};
use cosmic_connect::text::{
    chars_of, decimal_string, has_prefix, parse_i32, parse_i64, same_text, slice_of, split_chars,
    string_of, trim_chars,
};

fn chars(s: &str) -> Vec<char> {
    s.chars().collect()
}

fn text(v: &Vec<char>) -> String {
    v.iter().collect()
}

#[test]
fn strings_and_characters() {
    assert_eq!(chars_of("héllo"), chars("héllo"));
    assert_eq!(string_of(&chars("héllo")), "héllo");
    assert!(chars_of("").is_empty());
    assert!(same_text("a", "a"));
    assert!(!same_text("a", "A"));
    assert!(!same_text("a", "ab"));
    assert!(same_text("", ""));
    assert_eq!(slice_of(&chars("hello"), 1, 3), chars("el"));
    assert!(slice_of(&chars("hello"), 5, 5).is_empty());
}

#[test]
fn decimal_numerals() {
    assert_eq!(decimal_string(0), "0");
    assert_eq!(decimal_string(7), "7");
    assert_eq!(decimal_string(10), "10");
    assert_eq!(decimal_string(-1), "-1");
    assert_eq!(decimal_string(1234567890), "1234567890");
    assert_eq!(decimal_string(i64::MAX), "9223372036854775807");
    assert_eq!(decimal_string(i64::MIN), "-9223372036854775808");
}

#[test]
fn trimming_follows_unicode_white_space() {
    assert_eq!(text(&trim_chars(&chars("  a b \t\r\n"))), "a b");
    assert_eq!(text(&trim_chars(&chars("\u{a0}\u{2003}x\u{3000}\u{85}"))), "x");
    assert_eq!(text(&trim_chars(&chars("\u{200b}x"))), "\u{200b}x");
    assert_eq!(text(&trim_chars(&chars("   "))), "");
    assert_eq!(text(&trim_chars(&chars(""))), "");
    for c in ['\u{9}', '\u{a}', '\u{b}', '\u{c}', '\u{d}', ' ', '\u{85}', '\u{a0}', '\u{1680}', '\u{2000}', '\u{200a}', '\u{2028}', '\u{2029}', '\u{202f}', '\u{205f}', '\u{3000}'] {
        assert!(c.is_whitespace());
        assert!(trim_chars(&vec![c]).is_empty());
    }
    for c in ['\u{8}', '\u{e}', '\u{1f}', '\u{200b}', '\u{180e}', '\u{feff}', 'a'] {
        assert!(!c.is_whitespace());
        assert_eq!(trim_chars(&vec![c]), vec![c]);
    }
}

#[test]
fn splitting_gives_one_piece_more_than_separators() {
    let pieces = |s: &str| -> Vec<String> { split_chars(&chars(s), ';').iter().map(text).collect() };
    assert_eq!(pieces("a;b;c"), vec!["a", "b", "c"]);
    assert_eq!(pieces(";a;"), vec!["", "a", ""]);
    assert_eq!(pieces(""), vec![""]);
    assert_eq!(pieces("abc"), vec!["abc"]);
    assert_eq!(pieces(";;"), vec!["", "", ""]);
}

#[test]
fn prefixes() {
    assert!(has_prefix(&chars("TEL;TYPE"), "TEL"));
    assert!(has_prefix(&chars("TEL"), "TEL"));
    assert!(!has_prefix(&chars("TE"), "TEL"));
    assert!(!has_prefix(&chars("tel"), "TEL"));
    assert!(has_prefix(&chars("x"), ""));
    assert!(has_prefix(&chars(""), ""));
}

#[test]
fn integers_are_read_as_rust_reads_them() {
    for s in ["0", "-0", "+0", "12", "-12", "+12", "0012", "", "+", "-", "1 ", " 1", "1a", "--1", "1-", "٣", "2147483647", "2147483648", "-2147483648", "-2147483649", "9223372036854775807", "9223372036854775808", "-9223372036854775808", "-9223372036854775809", "123456789012345678901234567890"] {
        assert_eq!(parse_i64(&chars(s)), s.parse::<i64>().ok(), "{:?}", s);
        assert_eq!(parse_i32(&chars(s)), s.parse::<i32>().ok(), "{:?}", s);
    }
}

#[test]
fn configuration_lines() {
    let entry = |s: &str| read_entry(&chars(s)).map(|(k, v)| (text(&k), text(&v)));
    assert_eq!(entry("a=b"), Some(("a".to_string(), "b".to_string())));
    assert_eq!(entry(" a = b = c "), Some(("a".to_string(), "b = c".to_string())));
    assert_eq!(entry("="), Some((String::new(), String::new())));
    assert_eq!(entry("a"), None);
    assert_eq!(entry(""), None);
    let section = |s: &str| read_section(&chars(s)).map(|v| text(&v));
    assert_eq!(section("[General]"), Some("General".to_string()));
    assert_eq!(section("[]"), Some(String::new()));
    assert_eq!(section("["), None);
    assert_eq!(section("]"), None);
    assert_eq!(section("[a"), None);
    assert_eq!(section("a]"), None);
    assert!(read_flag(&chars("true"), false));
    assert!(!read_flag(&chars("false"), true));
    assert!(read_flag(&chars("True"), true));
    assert!(!read_flag(&chars("1"), false));
}
