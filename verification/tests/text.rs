use living_canvas::text::{contains_text, decimal, lowercased, same_text, trim_text};

#[test]
fn numbers_are_written_in_decimal() {
    assert_eq!(decimal(0), "0");
    assert_eq!(decimal(7), "7");
    assert_eq!(decimal(10), "10");
    assert_eq!(decimal(18446744073709551615), "18446744073709551615");
}

#[test]
fn trimming_removes_unicode_white_space_at_both_ends_only() {
    assert_eq!(trim_text("  a b \t\n"), "a b");
    assert_eq!(trim_text("\u{3000}x\u{85}"), "x");
    assert_eq!(trim_text(" \u{2003} "), "");
    assert_eq!(trim_text("abc"), "abc");
    for s in ["", "  x  ", "\tmixed \u{a0}text\u{2028}"] {
        assert_eq!(trim_text(s), s.trim());
    }
}

#[test]
fn searching_and_comparing_text() {
    assert!(contains_text("hello", "ell"));
    assert!(contains_text("hello", ""));
    assert!(!contains_text("hel", "hello"));
    assert!(!contains_text("hello", "elo"));
    assert!(same_text("a", "a"));
    assert!(!same_text("a", "ab"));
    assert_eq!(lowercased("ÄbC"), "äbc");
}
