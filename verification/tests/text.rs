use plannotator_tui::text::{
    chars_of, clock, decimal_string, first_line, fit, is_whitespace, string_from_range,
    trim_bounds,
};

#[test]
fn clock_reads_hours_and_minutes() {
    assert_eq!(clock("2026-08-28T12:41:00.000Z").as_deref(), Some("12:41"));
    assert_eq!(clock("2026-08-28T07:05:59Z").as_deref(), Some("07:05"));
}

#[test]
fn clock_refuses_what_is_not_a_timestamp() {
    assert_eq!(clock("yesterday"), None);
    assert_eq!(clock("2026-08-28T12"), None);
    assert_eq!(clock("2026-08-28T1241000"), None);
    assert_eq!(clock(""), None);
}

#[test]
fn clock_refuses_a_cut_through_a_character() {
    // "é" takes bytes 10 and 11, so byte 11 is no character boundary.
    assert_eq!(clock("2026-08-28é2:41:00Z"), None);
}

#[test]
fn clock_wants_an_rfc3339_date_time() {
    assert_eq!(clock("abcdefghijklm:nop"), None);
    assert_eq!(clock("2026-08-28 12:41").as_deref(), Some("12:41"));
    assert_eq!(clock("2026-08-28t23:59:00+02:00").as_deref(), Some("23:59"));
    assert_eq!(clock("2026-08-28X12:41:00Z"), None);
    assert_eq!(clock("2026/08/28T12:41:00Z"), None);
    assert_eq!(clock("2026-08-28T1a:41:00Z"), None);
    assert_eq!(clock("2026-08-28T12:4b:00Z"), None);
    assert_eq!(clock("2026-08-28T12:4"), None);
    assert_eq!(clock("é26-08-28T12:41:00Z"), None);
    assert_eq!(clock("2026-08-28Té:41Z"), None);
}

#[test]
fn fit_keeps_text_that_fits() {
    assert_eq!(fit("hello", 5), "hello");
    assert_eq!(fit("hello", 80), "hello");
    assert_eq!(fit("", 0), "");
}

#[test]
fn fit_cuts_with_an_ellipsis() {
    assert_eq!(fit("hello world", 6), "hello…");
    assert_eq!(fit("hello", 4), "hel…");
    assert_eq!(fit("hello", 1), "…");
    assert_eq!(fit("hello", 0), "…");
}

#[test]
fn fit_counts_columns_not_characters() {
    // Each of these takes two columns: six in all.
    assert_eq!(fit("日本語", 6), "日本語");
    assert_eq!(fit("日本語", 5), "日本…");
    assert_eq!(fit("日本語", 4), "日本…");
    assert_eq!(fit("日本語", 3), "日…");
}

#[test]
fn printable_ascii_is_one_column_a_character() {
    assert_eq!(fit("Assistant", 9), "Assistant");
    assert_eq!(fit("Assistant", 8), "Assista…");
    assert_eq!(fit(" ~", 2), " ~");
}

#[test]
fn first_line_skips_blank_lines_and_trims() {
    assert_eq!(first_line("\n\n  # Title  \nbody"), "# Title");
    assert_eq!(first_line("line\r\nnext"), "line");
    assert_eq!(first_line("  \u{3000}\n\u{a0}x"), "x");
    assert_eq!(first_line(""), "");
    assert_eq!(first_line("\n \n"), "");
    assert_eq!(first_line("only"), "only");
}

#[test]
fn whitespace_is_unicode_white_space() {
    for c in ['\t', '\n', '\u{b}', '\u{c}', '\r', ' ', '\u{85}', '\u{a0}', '\u{1680}', '\u{2000}', '\u{200a}', '\u{2028}', '\u{2029}', '\u{202f}', '\u{205f}', '\u{3000}'] {
        assert!(is_whitespace(c), "{c:?}");
        assert_eq!(is_whitespace(c), c.is_whitespace());
    }
    for c in ['a', '\u{200b}', '\u{feff}', '\u{1}', '_'] {
        assert!(!is_whitespace(c), "{c:?}");
        assert_eq!(is_whitespace(c), c.is_whitespace());
    }
}

#[test]
fn trimming_bounds() {
    let chars = chars_of("  ab c \t");
    let (a, b) = trim_bounds(&chars, 0, chars.len());
    assert_eq!(string_from_range(&chars, a, b), "ab c");
    let (a, b) = trim_bounds(&chars, 0, 2);
    assert_eq!(a, b);
}

#[test]
fn decimal_numbers() {
    assert_eq!(decimal_string(0), "0");
    assert_eq!(decimal_string(7), "7");
    assert_eq!(decimal_string(10), "10");
    assert_eq!(decimal_string(4096), "4096");
    assert_eq!(decimal_string(usize::MAX), usize::MAX.to_string());
}
