use tat::text::{i64_to_decimal, take_graphemes, u64_to_decimal};

#[test]
fn decimal_numbers() {
    assert_eq!(u64_to_decimal(0), "0");
    assert_eq!(u64_to_decimal(7), "7");
    assert_eq!(u64_to_decimal(1234), "1234");
    assert_eq!(u64_to_decimal(u64::MAX), u64::MAX.to_string());
    assert_eq!(i64_to_decimal(-28), "-28");
    assert_eq!(i64_to_decimal(i64::MIN), i64::MIN.to_string());
    assert_eq!(i64_to_decimal(4326), "4326");
}

#[test]
fn grapheme_clusters_are_kept_whole() {
    // "e" followed by a combining acute accent is one cluster of two characters
    let text = "e\u{301}a\u{310}bc";
    assert_eq!(take_graphemes(text, 2), "e\u{301}a\u{310}");
    assert_eq!(take_graphemes(text, 0), "");
    assert_eq!(take_graphemes(text, 10), text);
    assert_eq!(take_graphemes("a\r\nb", 2), "a\r\n");
}
