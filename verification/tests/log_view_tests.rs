use mcproc::log_view::{
    color_of_name, follow_banner, format_log_entry, join_names, log_target, on_stream_event,
    pad_name, stream_request, ColorOptions, LogTarget, StreamAction, StreamEvent,
};
use mcproc::rpc::LogEntry;
use mcproc::style::Color;

fn entry(name: Option<&str>, level: i32, content: &str) -> LogEntry {
    LogEntry {
        line_number: 1,
        content: content.to_string(),
        timestamp: None,
        level,
        process_name: name.map(|s| s.to_string()),
    }
}

fn opts(raw: bool, no: bool, smart: bool) -> ColorOptions {
    ColorOptions { raw_color: raw, no_color: no, smart_color: smart }
}

fn text(spans: &[mcproc::style::Span]) -> String {
    spans.iter().map(|s| s.text.as_str()).collect()
}

#[test]
fn targets_and_requests() {
    assert!(matches!(log_target(vec![], "p".to_string()), LogTarget::All { .. }));
    let t = log_target(vec!["a".to_string(), "b".to_string()], "p".to_string());
    let req = stream_request(&t, 50, true);
    assert_eq!(req.process_names, vec!["a".to_string(), "b".to_string()]);
    assert_eq!(req.tail, Some(50));
    assert_eq!(req.include_events, Some(false));
    assert_eq!(
        text(&follow_banner(&t)),
        "→ Following logs for processes: a, b in project: p"
    );
    let all = log_target(vec![], "p".to_string());
    assert!(stream_request(&all, 1, false).process_names.is_empty());
    assert_eq!(text(&follow_banner(&all)), "→ Following logs for all processes in project: p");
    assert_eq!(join_names(&vec![]), "");
}

#[test]
fn stream_events_decide_the_reader() {
    assert!(matches!(on_stream_event(StreamEvent::Entry(entry(None, 1, "x")), false), StreamAction::Forward(_)));
    assert!(matches!(on_stream_event(StreamEvent::Event, true), StreamAction::Continue));
    assert!(matches!(on_stream_event(StreamEvent::Ended, false), StreamAction::Stop(None)));
    assert!(matches!(on_stream_event(StreamEvent::Quiet, false), StreamAction::Continue));
    assert!(matches!(on_stream_event(StreamEvent::Quiet, true), StreamAction::Stop(None)));
    match on_stream_event(StreamEvent::Failed("boom".to_string()), false) {
        StreamAction::Stop(Some(l)) => assert_eq!(text(&l), "✗ Error receiving logs: boom"),
        _ => panic!("expected stop with a line"),
    }
}

#[test]
fn process_names_are_padded_and_coloured() {
    assert_eq!(pad_name("web"), "web            ");
    assert_eq!(pad_name("a-very-long-process-name"), "a-very-long-process-name");
    // 'a' is 97: 97 % 5 == 2.
    assert_eq!(color_of_name("a"), Color::Cyan);
    // "" sums to 0.
    assert_eq!(color_of_name(""), Color::Green);
}

#[test]
fn entries_are_shown_by_color_mode() {
    let e = entry(None, 2, "\x1b[31mred\x1b[0m");
    assert_eq!(text(&format_log_entry(&e, &opts(true, false, false))), "\x1b[31mred\x1b[0m");
    assert_eq!(text(&format_log_entry(&e, &opts(false, true, false))), " E red");
    let plain = format_log_entry(&e, &opts(false, false, false));
    assert_eq!(plain[2].text, "E");
    assert!(plain[2].style.bold);
    let smart = format_log_entry(&e, &opts(false, false, true));
    assert!(!smart[2].style.bold);

    let n = entry(Some("web"), 1, "hi");
    assert_eq!(
        text(&format_log_entry(&n, &opts(false, true, false))),
        " web             | I hi"
    );
    let colored = format_log_entry(&n, &opts(false, false, false));
    assert_eq!(colored[2].text, "web            ");
    assert!(colored[2].style.bold);
}
