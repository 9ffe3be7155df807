use notebooklm_runner::text::{decimal_string, str_equals, str_starts_with, strip_bom};

#[test]
fn small_text_helpers() {
    assert_eq!(decimal_string(0), "0");
    assert_eq!(decimal_string(1907), "1907");
    assert!(str_equals("ab", "ab"));
    assert!(!str_equals("ab", "abc"));
    assert!(str_starts_with("PROMPT=x", "PROMPT="));
    assert!(!str_starts_with("PROM", "PROMPT="));
    assert_eq!(strip_bom("\u{feff}\u{feff}x\u{feff}"), "x\u{feff}");
}
