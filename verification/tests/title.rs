use i3title::title::format_title;

#[test]
fn zero_limit_means_unbounded() {
    assert_eq!(format_title("a very long window title", 0), "a very long window title\n");
}

#[test]
fn long_title_is_truncated_with_ellipsis() {
    // 16 characters under a limit of 10: 7 kept characters plus `...`.
    assert_eq!(format_title("abcdefghijklmnop", 10), "abcdefg...\n");
}

#[test]
fn short_title_is_unchanged() {
    assert_eq!(format_title("short", 10), "short\n");
}

#[test]
fn title_exactly_at_limit_is_unchanged() {
    assert_eq!(format_title("abcdefghij", 10), "abcdefghij\n");
}

#[test]
fn truncation_counts_characters_not_bytes() {
    // Eleven two-byte characters exceed a limit of 10 by character count;
    // seven of them are kept.
    assert_eq!(format_title("ααααααααααα", 10), "ααααααα...\n");
}

#[test]
fn smallest_usable_limit() {
    assert_eq!(format_title("abcde", 4), "a...\n");
}

#[test]
fn empty_title_prints_bare_line() {
    assert_eq!(format_title("", 0), "\n");
    assert_eq!(format_title("", 10), "\n");
}
