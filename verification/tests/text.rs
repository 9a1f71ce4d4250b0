use lucard::text::{chars_eq, pad_right_str, repeat_str, spaces_str, truncate};

#[test]
fn truncate_shortens_long_text_with_dots() {
    assert_eq!(truncate("hello world", 8), "hello...");
}

#[test]
fn truncate_keeps_text_that_fits() {
    assert_eq!(truncate("hello", 8), "hello");
    assert_eq!(truncate("hello", 5), "hello");
    assert_eq!(truncate("", 0), "");
}

#[test]
fn truncate_counts_characters_not_bytes() {
    let r = truncate("héllo wörld", 7);
    assert_eq!(r, "héll...");
    assert_eq!(r.chars().count(), 7);
    assert_eq!(truncate("●●●●", 4), "●●●●");
    assert_eq!(truncate("●●●●●", 4), "●...");
}

#[test]
fn truncate_to_exactly_three_is_only_dots() {
    assert_eq!(truncate("abcd", 3), "...");
}

#[test]
fn truncate_twice_equals_once() {
    let once = truncate("a fairly long model name", 10);
    let twice = truncate(&once, 10);
    assert_eq!(once, "a fairl...");
    assert_eq!(once, twice);
}

#[test]
fn helpers_build_expected_strings() {
    assert_eq!(spaces_str(3), "   ");
    assert_eq!(repeat_str("─", 4), "────");
    assert_eq!(repeat_str("ab", 0), "");
    assert_eq!(pad_right_str("ab", 5), "ab   ");
    assert_eq!(pad_right_str("abcdef", 5), "abcdef");
    assert!(chars_eq("magenta", "magenta"));
    assert!(!chars_eq("magenta", "magenta1"));
    assert!(!chars_eq("abc", "abd"));
}
