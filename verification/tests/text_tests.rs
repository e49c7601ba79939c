use nasa_wallpaper::text::{
    chars_of, contains, decimal, ends_with, prefix, signed_decimal, string_of,
};

#[test]
fn chars_and_back() {
    let chars = chars_of("día 1");
    assert_eq!(chars, vec!['d', 'í', 'a', ' ', '1']);
    assert_eq!(string_of(&chars), "día 1");
    assert_eq!(chars_of(""), Vec::<char>::new());
    assert_eq!(string_of(&Vec::new()), "");
}

#[test]
fn prefix_counts_characters() {
    assert_eq!(prefix("abcdef", 3), "abc");
    assert_eq!(prefix("abc", 3), "abc");
    assert_eq!(prefix("ab", 3), "ab");
    assert_eq!(prefix("", 3), "");
    assert_eq!(prefix("abc", 0), "");
    assert_eq!(prefix("ééééé", 2), "éé");
}

#[test]
fn decimal_numerals() {
    assert_eq!(decimal(0), "0");
    assert_eq!(decimal(7), "7");
    assert_eq!(decimal(10), "10");
    assert_eq!(decimal(101), "101");
    assert_eq!(decimal(1_234_567_890), "1234567890");
    assert_eq!(decimal(u64::MAX), "18446744073709551615");
}

#[test]
fn decimal_agrees_with_std() {
    for n in 0..2000u64 {
        assert_eq!(decimal(n), n.to_string());
    }
}

#[test]
fn signed_decimal_numerals() {
    assert_eq!(signed_decimal(0), "0");
    assert_eq!(signed_decimal(42), "42");
    assert_eq!(signed_decimal(-42), "-42");
    assert_eq!(signed_decimal(i64::MAX), "9223372036854775807");
    assert_eq!(signed_decimal(i64::MIN), "-9223372036854775808");
}

#[test]
fn ends_with_suffix() {
    assert!(ends_with("picture.png", ".png"));
    assert!(!ends_with("picture.jpg", ".png"));
    assert!(!ends_with("png", ".png"));
    assert!(ends_with(".png", ".png"));
    assert!(ends_with("anything", ""));
    assert!(!ends_with("picture.png ", ".png"));
}

#[test]
fn contains_needle() {
    assert!(contains("io error: os error 2 (ENOENT)", "os error 2"));
    assert!(contains("os error 2", "os error 2"));
    assert!(!contains("os error 3", "os error 2"));
    assert!(!contains("short", "much longer needle"));
    assert!(contains("abc", ""));
    assert!(contains("", ""));
    assert!(!contains("", "a"));
    assert!(contains("aab", "ab"));
    assert!(contains("xxabxab", "xab"));
}
