use mcproc::ps::{format_ports, truncate};

#[test]
fn truncate_handles_multibyte_characters() {
    let truncated = truncate("日本語のとても長いコマンドライン文字列テスト", 10);

    assert_eq!(truncated.chars().count(), 10);
    assert!(truncated.ends_with("..."));
}

#[test]
fn truncate_keeps_short_text_and_fills_tiny_widths_with_dots() {
    assert_eq!(truncate("short", 10), "short");
    assert_eq!(truncate("exactly10!", 10), "exactly10!");
    assert_eq!(truncate("abcdefghijk", 10), "abcdefg...");
    assert_eq!(truncate("abcdef", 3), "...");
    assert_eq!(truncate("abcdef", 2), "..");
    assert_eq!(truncate("abcdef", 0), "");
}

#[test]
fn ports_column() {
    assert_eq!(format_ports(&[]), "-");
    assert_eq!(format_ports(&[3000]), "3000");
    assert_eq!(format_ports(&[3000, 8080, 5]), "3000, 8080, 5");
}
