use nottes::text::{chars_of, comes_before, contains, decimal_string, stands_in};

#[test]
fn decimal_of_small_numbers() {
    assert_eq!(decimal_string(0), "0");
    assert_eq!(decimal_string(7), "7");
    assert_eq!(decimal_string(10), "10");
    assert_eq!(decimal_string(12345), "12345");
    assert_eq!(decimal_string(1000000), "1000000");
}

#[test]
fn decimal_of_negative_numbers() {
    assert_eq!(decimal_string(-1), "-1");
    assert_eq!(decimal_string(-90), "-90");
}

#[test]
fn decimal_of_the_extremes() {
    assert_eq!(decimal_string(i64::MAX), "9223372036854775807");
    assert_eq!(decimal_string(i64::MIN), "-9223372036854775808");
}

#[test]
fn decimal_agrees_with_the_standard_library() {
    let mut n: i64 = -1500;
    while n <= 1500 {
        assert_eq!(decimal_string(n), n.to_string());
        n += 1;
    }
}

#[test]
fn text_order_goes_by_the_first_difference() {
    assert!(comes_before("2024-01-01 10:00:00", "2024-01-01 10:00:01"));
    assert!(!comes_before("2024-01-01 10:00:01", "2024-01-01 10:00:00"));
    assert!(comes_before("2023-12-31 23:59:59", "2024-01-01 00:00:00"));
    assert!(comes_before("a", "b"));
    assert!(comes_before("B", "a"));
}

#[test]
fn text_order_puts_a_beginning_before_the_whole() {
    assert!(comes_before("", "a"));
    assert!(comes_before("ab", "abc"));
    assert!(!comes_before("abc", "ab"));
}

#[test]
fn text_order_is_strict() {
    assert!(!comes_before("", ""));
    assert!(!comes_before("same", "same"));
}

#[test]
fn text_order_goes_by_code_point() {
    assert!(comes_before("z", "é"));
    assert!(comes_before("é", "\u{1F600}"));
    assert_eq!(comes_before("é", "z"), "é" < "z");
}

#[test]
fn contains_finds_a_text_within_a_text() {
    assert!(contains("shopping list", "ping"));
    assert!(contains("shopping list", "shopping list"));
    assert!(contains("shopping list", "s"));
    assert!(contains("shopping list", "list"));
    assert!(!contains("shopping list", "lists"));
    assert!(!contains("abc", "abcd"));
    assert!(!contains("aab", "aba"));
    assert!(contains("aaab", "aab"));
}

#[test]
fn contains_finds_the_empty_text_everywhere() {
    assert!(contains("abc", ""));
    assert!(contains("", ""));
    assert!(!contains("", "a"));
}

#[test]
fn contains_tells_upper_from_lower_case() {
    assert!(!contains("Shopping", "shop"));
    assert!(contains("Shopping", "Shop"));
}

#[test]
fn contains_goes_by_whole_characters() {
    assert!(contains("naïve café", "ïve c"));
    assert!(!contains("naïve", "i"));
}

#[test]
fn chars_are_handed_out_in_order() {
    assert_eq!(chars_of("héllo"), vec!['h', 'é', 'l', 'l', 'o']);
    assert_eq!(chars_of(""), Vec::<char>::new());
    assert!(stands_in(&chars_of("héllo"), &chars_of("éll")));
    assert!(!stands_in(&chars_of("héllo"), &chars_of("le")));
}
