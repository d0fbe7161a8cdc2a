use music_player::text::{contains_str, parse_i32, push_decimal, push_signed_decimal, str_equal, trim};

#[test]
fn trim_removes_surrounding_whitespace() {
    assert_eq!(trim("  hello world \t\n"), "hello world");
    assert_eq!(trim("\u{3000}全角空格\u{3000}"), "全角空格");
    assert_eq!(trim("   "), "");
    assert_eq!(trim(""), "");
    assert_eq!(trim("inner  space"), "inner  space");
}

#[test]
fn parse_i32_matches_std() {
    let cases = [
        "12", "+7", "-0", "", "-", "+", "12a", "3/12", " 1", "2147483647", "2147483648", "-2147483648",
        "-2147483649", "99999999999999999999", "007", "٣", "-12",
    ];
    for c in cases {
        assert_eq!(parse_i32(c), c.parse::<i32>().ok(), "input {:?}", c);
    }
    assert_eq!(parse_i32("-2147483648"), Some(i32::MIN));
    assert_eq!(parse_i32("2147483648"), None);
}

#[test]
fn decimal_text() {
    let mut s = String::from("n=");
    push_decimal(&mut s, 0);
    assert_eq!(s, "n=0");
    let mut s = String::new();
    push_decimal(&mut s, 18446744073709551615);
    assert_eq!(s, "18446744073709551615");
    let mut s = String::new();
    push_signed_decimal(&mut s, -42);
    assert_eq!(s, "-42");
    let mut s = String::new();
    push_signed_decimal(&mut s, i64::MIN);
    assert_eq!(s, i64::MIN.to_string());
}

#[test]
fn substring_search() {
    assert!(contains_str("音频设备不可用", "设备"));
    assert!(contains_str("abc", ""));
    assert!(contains_str("abc", "abc"));
    assert!(!contains_str("ab", "abc"));
    assert!(!contains_str("abcabd", "abe"));
    assert!(contains_str("abcabd", "abd"));
}

#[test]
fn string_equality() {
    assert!(str_equal("default", "default"));
    assert!(!str_equal("default", "Default"));
    assert!(!str_equal("abc", "ab"));
    assert!(str_equal("", ""));
}
