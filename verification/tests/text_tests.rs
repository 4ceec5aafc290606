use k7s::text::{
    bottom_section, field, field_line, int_string, is_json_blob, join, section, truncate,
};

#[test]
fn int_string_writes_decimal_text() {
    assert_eq!(int_string(0), "0");
    assert_eq!(int_string(42), "42");
    assert_eq!(int_string(-7), "-7");
    assert_eq!(int_string(1234567890), "1234567890");
    assert_eq!(int_string(i64::MIN), "-9223372036854775808");
    assert_eq!(int_string(i64::MAX), "9223372036854775807");
}

#[test]
fn field_line_pads_the_label_column() {
    assert_eq!(field_line("Name", "web"), format!("  {:<28}  {}", "Name", "web"));
    assert_eq!(field_line("Name", "web"), "  Name                          web");
    let long = "a label that is longer than the column";
    assert_eq!(field_line(long, "v"), format!("  {}  v", long));
    assert_eq!(field_line("Zeitüberschreitung", "1"), format!("  {:<28}  {}", "Zeitüberschreitung", "1"));
}

#[test]
fn field_appends_one_line() {
    let mut lines = vec!["x".to_string()];
    field(&mut lines, "", "value");
    assert_eq!(lines, vec!["x".to_string(), format!("  {:<28}  value", "")]);
}

#[test]
fn section_draws_a_rule_of_fixed_width() {
    let mut lines: Vec<String> = Vec::new();
    section(&mut lines, "Spec", true);
    assert_eq!(lines, vec![String::new(), format!("━━━ Spec {}", "━".repeat(50))]);
    let mut light: Vec<String> = Vec::new();
    section(&mut light, "Navigational Tips", false);
    assert_eq!(light[1], format!("─── Navigational Tips {}", "─".repeat(37)));
}

#[test]
fn section_counts_the_title_in_bytes() {
    let mut lines: Vec<String> = Vec::new();
    section(&mut lines, "Événements", true);
    assert_eq!(lines[1], format!("━━━ Événements {}", "━".repeat(42)));
    let mut wide: Vec<String> = Vec::new();
    let title = "x".repeat(60);
    section(&mut wide, &title, false);
    assert_eq!(wide[1], format!("─── {} ", title));
}

#[test]
fn bottom_section_ends_every_view() {
    let mut lines: Vec<String> = Vec::new();
    bottom_section(&mut lines);
    assert_eq!(
        lines,
        vec![
            String::new(),
            String::new(),
            String::new(),
            format!("─── Navigational Tips {}", "─".repeat(37)),
            "  Esc / q — close   ↑ ↓ PgDn PgUp Home End — navigate".to_string(),
        ]
    );
}

#[test]
fn join_puts_the_separator_between_items() {
    assert_eq!(join(&vec![], ", "), "");
    assert_eq!(join(&vec!["a".to_string()], ", "), "a");
    assert_eq!(join(&vec!["a".to_string(), "b".to_string(), "c".to_string()], ", "), "a, b, c");
}

#[test]
fn json_blobs_are_recognised_after_trimming() {
    assert!(is_json_blob("{}"));
    assert!(is_json_blob("  [1, 2] \n"));
    assert!(is_json_blob("\u{3000}{\"a\": 1}\t"));
    assert!(!is_json_blob("{"));
    assert!(!is_json_blob("abc"));
    assert!(!is_json_blob(""));
    assert!(!is_json_blob("   "));
    assert!(!is_json_blob("{ ]"));
    assert!(!is_json_blob("x{}"));
}

#[test]
fn truncate_cuts_at_120_bytes_on_a_character_boundary() {
    let short = "a".repeat(119);
    assert_eq!(truncate(&short), short);
    let exact = "a".repeat(120);
    assert_eq!(truncate(&exact), format!("{}…", exact));
    let long = "b".repeat(200);
    assert_eq!(truncate(&long), format!("{}…", "b".repeat(120)));
    let accents = "é".repeat(60);
    assert_eq!(truncate(&accents), format!("{}…", accents));
    let off = format!("a{}", "é".repeat(60));
    assert_eq!(truncate(&off), off);
}
