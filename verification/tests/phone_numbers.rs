use cosmic_connect::phone::{normalize_phone_number, phone_numbers_match};

#[test]
fn test_phone_number_normalization() {
    assert_eq!(normalize_phone_number("+1 (555) 123-4567"), "15551234567");
    assert_eq!(normalize_phone_number("555.123.4567"), "5551234567");
}

#[test]
fn test_phone_numbers_match() {
    assert!(phone_numbers_match("5551234567", "5551234567"));
    assert!(phone_numbers_match("5551234567", "15551234567"));
    assert!(phone_numbers_match("+1-555-123-4567", "5551234567"));
}

#[test]
fn normalization_of_text_without_digits_is_empty() {
    assert_eq!(normalize_phone_number(""), "");
    assert_eq!(normalize_phone_number("call me"), "");
    assert_eq!(normalize_phone_number("(+) - ."), "");
}

#[test]
fn normalization_keeps_only_ascii_digits() {
    assert_eq!(normalize_phone_number("a1b2c3"), "123");
    assert_eq!(normalize_phone_number("\u{0661}\u{0662}5"), "5");
}

#[test]
fn match_examples() {
    assert!(phone_numbers_match("+1-555-123-4567", "5551234567"));
    assert!(phone_numbers_match("5551234567", "15551234567"));
    assert!(phone_numbers_match("020 7946 0018", "7946 0018"));
    assert!(!phone_numbers_match("123", "456"));
}

#[test]
fn match_is_reflexive() {
    for number in ["5551234567", "+44 20 7946 0018", "123", "", "no digits"] {
        assert!(phone_numbers_match(number, number));
    }
}

#[test]
fn match_is_symmetric() {
    let numbers = [
        "5551234567",
        "15551234567",
        "+1-555-123-4567",
        "020 7946 0018",
        "7946 0018",
        "123",
        "456",
        "",
        "25551234567",
    ];
    for a in numbers {
        for b in numbers {
            assert_eq!(phone_numbers_match(a, b), phone_numbers_match(b, a));
        }
    }
}

#[test]
fn short_numbers_match_only_themselves() {
    assert!(phone_numbers_match("12345", "12345"));
    assert!(!phone_numbers_match("12345", "012345"));
    assert!(!phone_numbers_match("123456", "9123456"));
}

#[test]
fn numbers_that_share_seven_digits_match_whatever_stands_before() {
    assert!(phone_numbers_match("111 555 0000", "555 0000"));
    assert!(phone_numbers_match("555 0000", "222 555 0000"));
    assert!(phone_numbers_match("111 555 0000", "222 555 0000"));
}

#[test]
fn country_code_needs_ten_digits_behind_it() {
    assert!(phone_numbers_match("15551234567", "5551234567"));
    assert!(!phone_numbers_match("1555", "555"));
    assert!(!phone_numbers_match("155512", "55512"));
}

#[test]
fn last_seven_digits_decide_for_long_numbers() {
    assert!(phone_numbers_match("14441234567", "5551234567"));
    assert!(phone_numbers_match("1234567", "991234567"));
    assert!(!phone_numbers_match("1234567", "991234568"));
    assert!(!phone_numbers_match("234567", "1234567"));
}

#[test]
fn empty_numbers_match_each_other() {
    assert!(phone_numbers_match("", ""));
    assert!(phone_numbers_match("", "abc"));
    assert!(!phone_numbers_match("", "1"));
}
