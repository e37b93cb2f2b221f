use hecto::text::{decimal, spaces, truncate};

#[test]
fn spaces_gives_that_many_spaces() {
    assert_eq!(spaces(0), "");
    assert_eq!(spaces(3), "   ");
}

#[test]
fn decimal_writes_numbers() {
    assert_eq!(decimal(0), "0");
    assert_eq!(decimal(7), "7");
    assert_eq!(decimal(10), "10");
    assert_eq!(decimal(1234567890), "1234567890");
    assert_eq!(decimal(u128::MAX), "340282366920938463463374607431768211455");
}

#[test]
fn truncate_keeps_short_text() {
    assert_eq!(truncate("abc", 3), "abc");
    assert_eq!(truncate("abc", 10), "abc");
    assert_eq!(truncate("", 0), "");
}

#[test]
fn truncate_cuts_long_text() {
    assert_eq!(truncate("abcdef", 4), "abcd");
    assert_eq!(truncate("abcdef", 0), "");
}

#[test]
fn truncate_counts_bytes_and_keeps_characters_whole() {
    assert_eq!(truncate("a\u{e9}b", 3), "a\u{e9}");
    assert_eq!(truncate("a\u{e9}b", 2), "a");
    assert_eq!(truncate("\u{1F600}", 3), "");
    assert_eq!(truncate("\u{1F600}", 4), "\u{1F600}");
}
