use systemsettings::text::{contains, parse_u64, replace_all, str_less, trim};

#[test]
fn trimming_removes_unicode_whitespace() {
    assert_eq!(trim("  a b\t\n"), "a b");
    assert_eq!(trim("\u{a0}x\u{3000}"), "x");
    assert_eq!(trim(""), "");
}

#[test]
fn numbers_parse_like_u64_from_str() {
    let digits = |s: &str| s.chars().collect::<Vec<char>>();
    assert_eq!(parse_u64(&digits("0")), Some(0));
    assert_eq!(parse_u64(&digits("+42")), Some(42));
    assert_eq!(parse_u64(&digits("18446744073709551615")), Some(u64::MAX));
    assert_eq!(parse_u64(&digits("18446744073709551616")), None);
    assert_eq!(parse_u64(&digits("")), None);
    assert_eq!(parse_u64(&digits("+")), None);
    assert_eq!(parse_u64(&digits("-1")), None);
    assert_eq!(parse_u64(&digits("12a")), None);
}

#[test]
fn string_order_is_code_point_order() {
    assert!(str_less("Beta", "alpha"));
    assert!(str_less("", "a"));
    assert!(!str_less("a", "a"));
    assert!(str_less("ab", "abc"));
    assert!(!str_less("b", "abc"));
    assert!(str_less("z", "\u{e9}"));
}

#[test]
fn replace_and_contains_follow_std() {
    assert_eq!(replace_all("aaa", "aa", "b"), "aaa".replace("aa", "b"));
    assert_eq!(replace_all("x.y.z", ".", "::"), "x::y::z");
    assert!(contains("Europe/Berlin", "pe/B"));
    assert!(contains("abc", ""));
    assert!(!contains("ab", "abc"));
}

#[test]
fn empty_pattern_replacement_matches_std() {
    assert_eq!(replace_all("ab", "", "-"), "ab".replace("", "-"));
    assert_eq!(replace_all("", "", "-"), "-");
}
