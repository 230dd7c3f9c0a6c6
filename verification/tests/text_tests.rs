use mcproc::ansi::{contains_ansi_escape, strip_ansi_escapes_str};
use mcproc::clock::{
    date_time_text, format_datetime_utc_with_tz, format_timestamp_local, rfc3339_text, seconds_since,
    Timestamp,
};
use mcproc::mcp::types::McpMethod;
use mcproc::log_view::{parse_range, tail_start};
use mcproc::parse::{contains, parse_i32, parse_u32, split_fields, split_lines, trim};

#[test]
fn ansi_sequences_are_removed() {
    assert_eq!(strip_ansi_escapes_str("\x1b[31mred\x1b[0m plain"), "red plain");
    assert_eq!(strip_ansi_escapes_str("no escapes"), "no escapes");
    assert!(contains_ansi_escape("a\x1b[1mb"));
    assert!(!contains_ansi_escape("a\x1bb"));
}

#[test]
fn instants_render_in_utc() {
    assert_eq!(rfc3339_text(&Timestamp { seconds: 0, nanos: 0 }), "1970-01-01T00:00:00+00:00");
    assert_eq!(
        rfc3339_text(&Timestamp { seconds: 1_700_000_000, nanos: 0 }),
        "2023-11-14T22:13:20+00:00"
    );
    assert_eq!(date_time_text(&Timestamp { seconds: 61, nanos: 5 }), "1970-01-01 00:01:01");
}

#[test]
fn text_reading_helpers() {
    assert_eq!(trim("  a b \n"), "a b");
    assert_eq!(trim("   "), "");
    assert_eq!(parse_i32("-0"), Some(0));
    assert_eq!(parse_i32("+"), None);
    assert_eq!(parse_i32("1a"), None);
    assert_eq!(split_fields("  a  bb\tc "), vec!["a".to_string(), "bb".to_string(), "c".to_string()]);
    assert!(split_fields(" \t ").is_empty());
    assert_eq!(
        split_lines("one\r\ntwo\n\nthree"),
        vec!["one".to_string(), "two".to_string(), "".to_string(), "three".to_string()]
    );
    assert_eq!(split_lines("x\n"), vec!["x".to_string()]);
    assert!(contains("abcdef", "cde"));
    assert!(contains("abc", ""));
    assert!(!contains("ab", "abc"));
}

#[test]
fn u32_reading_matches_std() {
    for s in ["0", "+7", "4294967295", "4294967296", "", "+", "-1", "1 ", "12a"] {
        assert_eq!(parse_u32(s), s.parse::<u32>().map_err(|e| e.to_string()), "{s:?}");
    }
}

#[test]
fn ranges_and_tails() {
    assert_eq!(parse_range("10:20"), Ok((Some(10), Some(20))));
    assert_eq!(parse_range(":20"), Ok((None, Some(20))));
    assert_eq!(parse_range("5:"), Ok((Some(5), None)));
    assert_eq!(parse_range(":"), Ok((None, None)));
    assert_eq!(parse_range("5"), Err("Invalid range format. Use 'from:to'".to_string()));
    assert_eq!(parse_range("1:2:3"), Err("Invalid range format. Use 'from:to'".to_string()));
    assert_eq!(parse_range("x:2"), Err("invalid digit found in string".to_string()));
    assert_eq!(tail_start(10, 3), 7);
    assert_eq!(tail_start(2, 5), 0);
}

#[test]
fn utc_text_with_milliseconds() {
    assert_eq!(
        format_datetime_utc_with_tz(&Timestamp { seconds: 1, nanos: 375_000_000 }).as_deref(),
        Some("1970-01-01T00:00:01.375+00:00")
    );
    assert_eq!(format_timestamp_local(None), "");
    assert_eq!(format_timestamp_local(Some(&Timestamp { seconds: 0, nanos: 0 })).len(), 19);
}

#[test]
fn local_text_and_elapsed_seconds() {
    let epoch = format_timestamp_local(Some(&Timestamp { seconds: 0, nanos: 0 }));
    assert!(epoch.starts_with("1970-01-01 ") || epoch.starts_with("1969-12-31 "));
    assert_eq!(format_timestamp_local(Some(&Timestamp { seconds: i64::MAX, nanos: 0 })), "");
    assert!(seconds_since(&Timestamp { seconds: 0, nanos: 0 }) > 1_600_000_000);
    assert_eq!(seconds_since(&Timestamp { seconds: i64::MAX, nanos: 0 }), 0);
}

#[test]
fn method_names_parse() {
    assert!(matches!("tools/list".parse::<McpMethod>(), Ok(McpMethod::ToolsList)));
    assert!(matches!("initialize".parse::<McpMethod>(), Ok(McpMethod::Initialize)));
    assert!(matches!("x/y".parse::<McpMethod>(), Ok(McpMethod::Custom(ref m)) if m == "x/y"));
}
