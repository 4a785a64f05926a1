use openai_resources::completions::{validate_for_create, validate_for_stream, Completion, CompletionAccumulator, CompletionChoice, Completions};
use openai_resources::error::ErrorKind;
use openai_resources::sse::SseFrame;

fn piece(id: &str, index: usize, text: &str, finish: Option<&str>) -> Completion {
    Completion {
        id: id.to_string(),
        object: "text_completion".to_string(),
        created: 3,
        model: None,
        choices: vec![CompletionChoice {
            finish_reason: finish.map(String::from),
            index,
            logprobs: None,
            text: text.to_string(),
            extra: Default::default(),
        }],
        usage: None,
        system_fingerprint: None,
        extra: Default::default(),
    }
}

#[test]
fn create_refuses_streaming_flags() {
    assert!(validate_for_create(None, Some(2)).is_ok());
    let err = validate_for_create(Some(true), None).unwrap_err();
    assert_eq!(err.kind, ErrorKind::Validation);
    assert_eq!(err.message, "legacy completions create() is non-streaming; call stream() instead of setting `stream=true`");
    let err = validate_for_create(Some(true), Some(1)).unwrap_err();
    assert_eq!(
        err.message,
        "legacy completions does not allow `best_of` with `stream=true`; use non-streamed create or remove `best_of`"
    );
    let err = validate_for_stream(Some(1)).unwrap_err();
    assert_eq!(err.message, "legacy completions streaming does not allow `best_of` with `stream=true`");
    assert!(Completions::new().stream(None, serde_json::from_str("{}").unwrap()).is_ok());
}

#[test]
fn text_fragments_concatenate() {
    let mut acc = CompletionAccumulator::new();
    acc.apply_completion(&piece("cmpl_1", 0, "Hello", None));
    acc.apply_completion(&piece("cmpl_2", 0, ", world", Some("stop")));
    let done = acc.finish().unwrap();
    assert_eq!(done.id, "cmpl_1");
    assert_eq!(done.choices[0].text, "Hello, world");
    assert_eq!(done.choices[0].finish_reason.as_deref(), Some("stop"));
}

#[test]
fn finish_needs_done_or_terminal_and_a_payload() {
    let acc = CompletionAccumulator::new();
    let err = acc.finish().unwrap_err();
    assert_eq!(err.kind, ErrorKind::Parse);
    assert_eq!(err.message, "legacy completions stream ended without a [DONE] marker or terminal completion");
    let mut acc = CompletionAccumulator::new();
    assert!(acc.ingest_frame(&SseFrame::new(None, "[DONE]".to_string()), Err(String::new())).unwrap().is_none());
    let err = acc.finish().unwrap_err();
    assert_eq!(err.message, "legacy completions stream ended without any parsed completion payload");
}

#[test]
fn done_marker_without_terminal_choice_is_enough() {
    let mut acc = CompletionAccumulator::new();
    acc.ingest_frame(&SseFrame::new(None, "{..}".to_string()), Ok(piece("c", 1, "x", None))).unwrap();
    acc.ingest_frame(&SseFrame::new(None, "[DONE]".to_string()), Err(String::new())).unwrap();
    let done = acc.finish().unwrap();
    assert_eq!(done.object, "text_completion");
    assert_eq!(done.choices.len(), 2);
    assert_eq!(done.choices[0].text, "");
    assert_eq!(done.choices[1].text, "x");
}

#[test]
fn undecodable_frame_is_reported() {
    let mut acc = CompletionAccumulator::new();
    let err = acc.ingest_frame(&SseFrame::new(None, "{".to_string()), Err("bad".to_string())).unwrap_err();
    assert_eq!(err.message, "failed to parse streamed legacy completion: bad");
}
