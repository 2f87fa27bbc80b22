use systemsettings::views::datetime::clock_text;

#[test]
fn clock_formats_both_modes() {
    let twelve = clock_text("Sep", 12, 2026, 13, 56, 8, false);
    assert!(twelve.contains(" at "));
    assert!(twelve.contains("AM") || twelve.contains("PM"));
    let twenty_four = clock_text("Sep", 12, 2026, 13, 56, 8, true);
    assert!(twenty_four.contains(" at "));
    assert!(!twenty_four.contains("AM") && !twenty_four.contains("PM"));
}

#[test]
fn clock_texts_are_exact() {
    assert_eq!(clock_text("Sep", 12, 2026, 13, 56, 8, false), "Sep 12, 2026 at 1:56:08 PM");
    assert_eq!(clock_text("Sep", 12, 2026, 13, 56, 8, true), "Sep 12, 2026 at 13:56:08");
    assert_eq!(clock_text("Jan", 1, 2027, 0, 5, 0, false), "Jan 1, 2027 at 12:05:00 AM");
    assert_eq!(clock_text("Jan", 1, 2027, 0, 5, 0, true), "Jan 1, 2027 at 00:05:00");
    assert_eq!(clock_text("Jun", 30, 2026, 12, 0, 59, false), "Jun 30, 2026 at 12:00:59 PM");
}
