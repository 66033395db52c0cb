use papyrus_tui::autocomplete::longest_common_prefix;
use papyrus_tui::scroll::centered_scroll_offset;
use papyrus_tui::version;

#[test]
fn test_version() {
    assert_eq!(version(), "0.1.0");
}

#[test]
fn test_longest_common_prefix() {
    assert_eq!(
        longest_common_prefix(&["apple", "app", "application"]),
        "app"
    );
    assert_eq!(longest_common_prefix(&["apple", "banana"]), "");
    assert_eq!(longest_common_prefix(&["exact"]), "exact");
}

#[test]
fn test_centered_scroll_offset() {
    // Zero or empty cases
    assert_eq!(centered_scroll_offset(0, 0, 10), 0);
    assert_eq!(centered_scroll_offset(5, 5, 10), 0);
    assert_eq!(centered_scroll_offset(5, 20, 0), 0);

    // When items fit inside viewport
    assert_eq!(centered_scroll_offset(2, 8, 10), 0);

    // Viewport 10, total 30
    assert_eq!(centered_scroll_offset(0, 30, 10), 0);
    assert_eq!(centered_scroll_offset(3, 30, 10), 0);
    assert_eq!(centered_scroll_offset(4, 30, 10), 0);
    assert_eq!(centered_scroll_offset(5, 30, 10), 0);

    // Middle: offset starts shifting so selected is at index 5 (half)
    assert_eq!(centered_scroll_offset(6, 30, 10), 1);
    assert_eq!(centered_scroll_offset(10, 30, 10), 5);
    assert_eq!(centered_scroll_offset(15, 30, 10), 10);

    // Bottom edge: max start is 30 - 10 = 20
    assert_eq!(centered_scroll_offset(25, 30, 10), 20);
    assert_eq!(centered_scroll_offset(29, 30, 10), 20);
}
