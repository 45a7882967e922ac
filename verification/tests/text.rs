use dlsite_manager::text::{
    chars_of, ends_with_lowercase, parse_u64, push_decimal, push_signed_decimal, str_contains,
    str_eq, str_starts_with, u64_to_decimal,
};

#[test]
fn chars_of_keeps_every_character() {
    assert_eq!(chars_of("aé日"), vec!['a', 'é', '日']);
    assert_eq!(chars_of(""), Vec::<char>::new());
}

#[test]
fn contains_finds_needle_anywhere() {
    assert!(str_contains("hello world", "o w"));
    assert!(str_contains("hello", "hello"));
    assert!(str_contains("hello", ""));
    assert!(str_contains("", ""));
    assert!(str_contains("abc", "c"));
    assert!(!str_contains("hello", "hello!"));
    assert!(!str_contains("", "a"));
    assert!(!str_contains("aab", "abb"));
}

#[test]
fn contains_agrees_with_std_on_non_ascii() {
    let hay = "前置き ログイン 後書き";
    assert!(str_contains(hay, "ログイン"));
    assert!(!str_contains(hay, "ログアウト"));
}

#[test]
fn starts_with_and_equality() {
    assert!(str_starts_with("https://x", "http"));
    assert!(!str_starts_with("//img", "http"));
    assert!(!str_starts_with("htt", "http"));
    assert!(str_eq("abc", "abc"));
    assert!(!str_eq("abc", "abd"));
    assert!(!str_eq("abc", "ab"));
    assert!(str_eq("", ""));
}

#[test]
fn ends_with_folds_ascii_case_only() {
    assert!(ends_with_lowercase("Game.ZIP", ".zip"));
    assert!(ends_with_lowercase("a.zip", ".zip"));
    assert!(!ends_with_lowercase("a.zip.part", ".zip"));
    assert!(!ends_with_lowercase("zip", ".zip"));
    assert!(ends_with_lowercase(".ExE", ".exe"));
}

#[test]
fn decimal_notation_is_shortest() {
    assert_eq!(u64_to_decimal(0), "0");
    assert_eq!(u64_to_decimal(7), "7");
    assert_eq!(u64_to_decimal(10), "10");
    assert_eq!(u64_to_decimal(120), "120");
    assert_eq!(u64_to_decimal(u64::MAX), "18446744073709551615");
    let mut out = String::from("n=");
    push_decimal(&mut out, 405);
    assert_eq!(out, "n=405");
}

#[test]
fn signed_decimal_notation() {
    let mut out = String::new();
    push_signed_decimal(&mut out, -42);
    assert_eq!(out, "-42");
    let mut out = String::new();
    push_signed_decimal(&mut out, 0);
    assert_eq!(out, "0");
    let mut out = String::new();
    push_signed_decimal(&mut out, i64::MIN);
    assert_eq!(out, "-9223372036854775808");
    let mut out = String::new();
    push_signed_decimal(&mut out, i64::MAX);
    assert_eq!(out, "9223372036854775807");
}

#[test]
fn parse_u64_reads_what_std_reads() {
    for text in [
        "0",
        "7",
        "0012",
        "+5",
        "18446744073709551615",
        "18446744073709551616",
        "99999999999999999999999",
        "",
        "+",
        "-1",
        "1 ",
        " 1",
        "1_000",
        "12a",
        "++1",
        "１２",
    ] {
        assert_eq!(parse_u64(text), text.parse::<u64>().ok(), "for {:?}", text);
    }
    assert_eq!(parse_u64("1048576"), Some(1048576));
    assert_eq!(parse_u64("18446744073709551616"), None);
}
