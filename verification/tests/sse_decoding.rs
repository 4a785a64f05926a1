use openai_resources::sse::{field_value, SseDecoder};

#[test]
fn field_value_drops_one_space() {
    assert_eq!(field_value("data: {\"a\":1}", "data"), Some("{\"a\":1}"));
    assert_eq!(field_value("data:  two", "data"), Some(" two"));
    assert_eq!(field_value("data:", "data"), Some(""));
    assert_eq!(field_value("event:thread.run.created", "event"), Some("thread.run.created"));
    assert_eq!(field_value("database: x", "data"), None);
    assert_eq!(field_value("data", "data"), None);
    assert_eq!(field_value("id: 7", "data"), None);
}

#[test]
fn decoder_joins_data_lines_and_dispatches_on_blank_line() {
    let mut d = SseDecoder::new();
    assert!(d.push_line("event: thread.created").is_none());
    assert!(d.push_line("data: {\"a\":").is_none());
    assert!(d.push_line(": a comment").is_none());
    assert!(d.push_line("data: 1}").is_none());
    assert!(d.push_line("id: 9").is_none());
    let frame = d.push_line("").expect("a frame");
    assert_eq!(frame.event.as_deref(), Some("thread.created"));
    assert_eq!(frame.data, "{\"a\":\n1}");
    assert!(d.push_line("").is_none());
    assert!(d.push_line("data: [DONE]").is_none());
    let frame = d.finish().expect("the pending frame");
    assert_eq!(frame.event, None);
    assert_eq!(frame.data, "[DONE]");
    assert!(d.finish().is_none());
}

#[test]
fn decoder_event_without_data_has_empty_data() {
    let mut d = SseDecoder::new();
    d.push_line("event: ping");
    let frame = d.push_line("").expect("a frame");
    assert_eq!(frame.event.as_deref(), Some("ping"));
    assert_eq!(frame.data, "");
}
