use renamed::text::{after_last, find, starts_with, to_decimal, trim_end, trim_start};

#[test]
fn prefixes() {
    assert!(starts_with("https://x", "https://"));
    assert!(starts_with("abc", ""));
    assert!(starts_with("", ""));
    assert!(!starts_with("http", "http://"));
    assert!(!starts_with("xhttp://", "http://"));
}

#[test]
fn trimming() {
    assert_eq!(trim_start("//a/b/", '/'), "a/b/");
    assert_eq!(trim_start("a", '/'), "a");
    assert_eq!(trim_start("///", '/'), "");
    assert_eq!(trim_start("", '/'), "");
    assert_eq!(trim_end("/a/b//", '/'), "/a/b");
    assert_eq!(trim_end("a", '/'), "a");
    assert_eq!(trim_end("///", '/'), "");
    assert_eq!(trim_end("", '/'), "");
}

#[test]
fn finding() {
    assert_eq!(find("https://a", "://"), Some(5));
    assert_eq!(find("a://b://c", "://"), Some(1));
    assert_eq!(find("abc", "://"), None);
    assert_eq!(find("ab", "abc"), None);
    assert_eq!(find("abc", ""), Some(0));
    assert_eq!(find("", ""), Some(0));
    assert_eq!(find("äb/c", "/"), Some(2));
    assert_eq!(find("aab", "ab"), Some(1));
}

#[test]
fn last_segments() {
    assert_eq!(after_last("https://example.com/status/abc123", '/'), "abc123");
    assert_eq!(after_last("abc", '/'), "abc");
    assert_eq!(after_last("abc/", '/'), "");
    assert_eq!(after_last("", '/'), "");
    assert_eq!(after_last("/", '/'), "");
}

#[test]
fn decimals() {
    assert_eq!(to_decimal(0), "0");
    assert_eq!(to_decimal(7), "7");
    assert_eq!(to_decimal(10), "10");
    assert_eq!(to_decimal(503), "503");
    assert_eq!(to_decimal(1234567890), "1234567890");
    assert_eq!(to_decimal(u64::MAX), "18446744073709551615");
}
