use conic_launcher::decimal::{parse_u64, u64_to_string};
use conic_launcher::text::{contains, ends_with, join, split, split_whitespace, starts_with, trim};

#[test]
fn split_keeps_empty_pieces() {
    assert_eq!(split("a..b", '.'), vec!["a".to_string(), "".to_string(), "b".to_string()]);
    assert_eq!(split("", '.'), vec!["".to_string()]);
    assert_eq!(split("a.", '.'), vec!["a".to_string(), "".to_string()]);
}

#[test]
fn join_puts_separator_between() {
    let parts = vec!["a".to_string(), "b".to_string(), "c".to_string()];
    assert_eq!(join(&parts, ":"), "a:b:c");
    assert_eq!(join(&Vec::new(), ":"), "");
}

#[test]
fn prefix_suffix_infix() {
    assert!(starts_with("https://x", "https://"));
    assert!(!starts_with("http", "https://"));
    assert!(ends_with("out\ntrue\n", "\ntrue\n"));
    assert!(contains("[LWJGL] lwjgl version 3", "lwjgl version"));
    assert!(!contains("abc", "abd"));
    assert!(contains("abc", ""));
}

#[test]
fn trim_and_words() {
    assert_eq!(trim("  a b \n"), "a b");
    assert_eq!(trim("   "), "");
    assert_eq!(split_whitespace("  -Xa   -Xb "), vec!["-Xa".to_string(), "-Xb".to_string()]);
    assert!(split_whitespace("").is_empty());
}

#[test]
fn decimal_round_trip() {
    assert_eq!(parse_u64("1700000000"), Some(1700000000));
    assert_eq!(parse_u64("+7"), Some(7));
    assert_eq!(parse_u64(""), None);
    assert_eq!(parse_u64("+"), None);
    assert_eq!(parse_u64("12a"), None);
    assert_eq!(parse_u64("18446744073709551615"), Some(u64::MAX));
    assert_eq!(parse_u64("18446744073709551616"), None);
    assert_eq!(u64_to_string(0), "0");
    assert_eq!(u64_to_string(854), "854");
    assert_eq!(u64_to_string(u64::MAX), "18446744073709551615");
}
