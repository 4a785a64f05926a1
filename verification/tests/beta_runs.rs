use openai_resources::beta::{
    body_with_stream_flag, poll_interval, required_string_field, resolved_run_id, BetaAssistantStreamEventType,
    BetaAssistantStreamState, BetaAssistantToolChoice, BetaAssistantToolChoiceFunction, BetaAssistants, BetaFrame,
    BetaQueryParams, BetaRunPollOptions, BetaStreamPayloadKind, BetaThreadRunStatus, BetaThreadRuns, BetaThreads,
    JsonShape,
};
use openai_resources::error::ErrorKind;
use openai_resources::request::{HttpMethod, RequestBody};
use openai_resources::sse::SseFrame;

fn runs() -> BetaThreadRuns {
    BetaThreadRuns::new()
}

#[test]
fn poll_stops_on_terminal_status() {
    let opts = BetaRunPollOptions { poll_interval: None, max_wait: 10_000 };
    let r = runs().poll(&Some(BetaThreadRunStatus::Completed), None, &opts, 0).unwrap();
    assert_eq!(r, None);
    let r = runs().poll(&Some(BetaThreadRunStatus::RequiresAction), Some("x"), &opts, 99_999).unwrap();
    assert_eq!(r, None);
}

#[test]
fn poll_waits_by_header_or_default() {
    let opts = BetaRunPollOptions { poll_interval: None, max_wait: 10_000 };
    assert_eq!(runs().poll(&Some(BetaThreadRunStatus::Queued), Some("250"), &opts, 0).unwrap(), Some(250));
    assert_eq!(runs().poll(&None, None, &opts, 0).unwrap(), Some(1000));
    let fixed = BetaRunPollOptions { poll_interval: Some(42), max_wait: 10_000 };
    assert_eq!(runs().poll(&Some(BetaThreadRunStatus::InProgress), Some("250"), &fixed, 0).unwrap(), Some(42));
}

#[test]
fn poll_times_out_past_max_wait() {
    let opts = BetaRunPollOptions { poll_interval: Some(500), max_wait: 1000 };
    let err = runs().poll(&Some(BetaThreadRunStatus::InProgress), None, &opts, 600).unwrap_err();
    assert_eq!(err.kind, ErrorKind::Timeout);
    assert_eq!(err.message, "beta Assistants run polling exceeded max_wait");
    assert_eq!(runs().poll(&Some(BetaThreadRunStatus::InProgress), None, &opts, 500).unwrap(), Some(500));
}

#[test]
fn bad_poll_header_is_a_parse_error() {
    let opts = BetaRunPollOptions::default();
    assert_eq!(opts.max_wait, 600_000);
    let err = poll_interval(Some("soon"), &opts).unwrap_err();
    assert_eq!(err.kind, ErrorKind::Parse);
    assert_eq!(err.message, "invalid openai-poll-after-ms header `soon`: invalid digit found in string");
    let err = poll_interval(Some(""), &opts).unwrap_err();
    assert_eq!(err.message, "invalid openai-poll-after-ms header ``: cannot parse integer from empty string");
}

#[test]
fn required_fields_and_run_ids() {
    assert_eq!(required_string_field("id", Some("run_1")).unwrap(), "run_1");
    let err = required_string_field("thread_id", Some("  ")).unwrap_err();
    assert_eq!(err.kind, ErrorKind::Parse);
    assert_eq!(err.message, "beta Assistants response did not include a non-empty `thread_id`");
    assert!(required_string_field("id", None).is_err());
    assert_eq!(resolved_run_id(" ", "run_a"), "run_a");
    assert_eq!(resolved_run_id("run_b", "run_a"), "run_b");
    assert_eq!(BetaThreads::new().create_and_run_poll("run_1", Some("th_1")).unwrap(), ("th_1".to_string(), "run_1".to_string()));
}

#[test]
fn stream_state_reads_done_and_events() {
    let mut s = BetaAssistantStreamState::new();
    let f = s.ingest(&SseFrame::new(Some("thread.message.delta".to_string()), "{}".to_string()));
    match f {
        BetaFrame::Event { event, kind } => {
            assert_eq!(event, Some(BetaAssistantStreamEventType::ThreadMessageDelta));
            assert!(matches!(kind, BetaStreamPayloadKind::MessageDelta));
        }
        BetaFrame::Done => panic!("not done"),
    }
    assert!(s.finish().is_err());
    assert!(matches!(s.ingest(&SseFrame::new(None, " [DONE]\n".to_string())), BetaFrame::Done));
    assert!(s.finish().is_ok());
    assert_eq!(s.events, 1);
}

#[test]
fn stream_without_done_fails() {
    let s = BetaAssistantStreamState::new();
    let err = s.finish().unwrap_err();
    assert_eq!(err.kind, ErrorKind::Transport);
    assert_eq!(err.message, "beta Assistants stream ended before [DONE]");
}

#[test]
fn stream_flag_requires_an_object() {
    let v = body_with_stream_flag(serde_json::from_str("{\"assistant_id\":\"a\"}").unwrap()).unwrap();
    assert_eq!(v["stream"], serde_json::Value::Bool(true));
    let err = body_with_stream_flag(serde_json::Value::Bool(true)).unwrap_err();
    assert_eq!(err.kind, ErrorKind::Validation);
    assert_eq!(err.message, "beta Assistants stream body must serialize to a JSON object");
}

#[test]
fn streamed_run_request() {
    let q = BetaQueryParams::new().push("x", "1".to_string());
    let req = runs().create_stream_with_query("th 1", serde_json::from_str("{}").unwrap(), q).unwrap();
    assert_eq!(req.method, HttpMethod::Post);
    assert_eq!(req.path, "/threads/th%201/runs?x=1");
    assert_eq!(
        req.headers,
        vec![
            ("accept".to_string(), "text/event-stream".to_string()),
            ("openai-beta".to_string(), "assistants=v2".to_string()),
            ("x-stainless-stream-helper".to_string(), "threads.runs.create_and_stream".to_string()),
            ("x-stainless-custom-event-handler".to_string(), "false".to_string()),
        ]
    );
    assert!(matches!(req.body, RequestBody::JsonValue(_)));
    assert!(runs().create_stream(" ", serde_json::from_str("{}").unwrap()).is_err());
}

#[test]
fn assistants_list_and_retrieve() {
    let req = BetaAssistants::new().list(BetaQueryParams::new()).unwrap();
    assert_eq!(req.path, "/assistants");
    assert_eq!(req.method, HttpMethod::Get);
    let err = BetaAssistants::new().retrieve("").unwrap_err();
    assert_eq!(err.message, "assistant_id cannot be blank");
}

#[test]
fn tool_choice_decoding() {
    assert_eq!(BetaAssistantToolChoice::decode(JsonShape::Text("auto".to_string())), Ok(BetaAssistantToolChoice::Auto));
    assert_eq!(BetaAssistantToolChoice::decode(JsonShape::Text("none".to_string())), Ok(BetaAssistantToolChoice::NoTools));
    let f = BetaAssistantToolChoiceFunction { name: "lookup".to_string(), extra: Default::default() };
    let shape = JsonShape::Object { type_field: Some("function".to_string()), payload: Some(Ok(f.clone())) };
    assert_eq!(BetaAssistantToolChoice::decode(shape), Ok(BetaAssistantToolChoice::Function(f)));
    assert!(BetaAssistantToolChoice::decode(JsonShape::Text("sometimes".to_string())).is_err());
    assert_eq!(BetaAssistantToolChoice::FileSearch.wire_type(), "file_search");
}

#[test]
fn beta_stream_counts_events_and_done_anywhere() {

    let mut state = BetaAssistantStreamState::new();
    let frames = vec![
        SseFrame::new(Some("thread.created".to_string()), "{}".to_string()),
        SseFrame::new(None, "  [DONE]\n".to_string()),
        SseFrame::new(Some("thread.run.created".to_string()), "{}".to_string()),
    ];
    for f in &frames {
        state.ingest(f);
    }
    assert_eq!(state.events, 2);
    assert!(state.seen_done);
    assert!(state.finish().is_ok());
}
