use openai_resources::audio::{
    add_jsonish_extra, parse_text_body, classify_transcription_frame, event_name_from_payload, trim_point_zero, stream_parse_error, transcription_body, transcription_event_kind,
    translation_body, AudioBody, AudioInput, AudioResponseFormat, TranscriptionAccumulator, TranscriptionChunkingStrategy,
    TranscriptionEventKind, TranscriptionFrame, TranscriptionInclude, TranscriptionParams, TranscriptionVadConfig,
    Transcriptions, TranslationParams,
};
use openai_resources::error::ErrorKind;
use openai_resources::request::{MultipartPart, RequestBody};
use openai_resources::sse::SseFrame;

fn texts(parts: &[MultipartPart]) -> Vec<(String, String)> {
    parts
        .iter()
        .filter_map(|p| match p {
            MultipartPart::Text { name, value } => Some((name.clone(), value.clone())),
            MultipartPart::File { .. } => None,
        })
        .collect()
}

fn input() -> AudioInput {
    AudioInput::new("a.wav".to_string(), "audio/wav".to_string(), vec![1, 2, 3])
}

#[test]
fn vad_config_as_json() {
    let mut c = TranscriptionVadConfig::server_vad();
    assert_eq!(c.to_json(), "{\"type\":\"server_vad\"}");
    c.silence_duration_ms = Some(500);
    c.threshold = Some("0.5".to_string());
    assert_eq!(c.to_json(), "{\"type\":\"server_vad\",\"silence_duration_ms\":500,\"threshold\":\"0.5\"}");
}

#[test]
fn transcription_form_in_order() {
    let params = TranscriptionParams {
        file: input(),
        model: "whisper-1".to_string(),
        chunking_strategy: Some(TranscriptionChunkingStrategy::Auto),
        includes: vec![TranscriptionInclude::Logprobs],
        known_speaker_names: vec!["ann".to_string()],
        language: Some("en".to_string()),
        temperature: Some("0.2".to_string()),
        extra: vec![("x".to_string(), "1".to_string())],
        ..Default::default()
    };
    let parts = params.into_multipart(true);
    assert!(matches!(&parts[0], MultipartPart::File { name, bytes, .. } if name == "file" && bytes == &vec![1, 2, 3]));
    let t = texts(&parts);
    let want: Vec<(String, String)> = [
        ("model", "whisper-1"),
        ("chunking_strategy", "auto"),
        ("include", "logprobs"),
        ("known_speaker_names", "ann"),
        ("language", "en"),
        ("response_format", "json"),
        ("stream", "true"),
        ("temperature", "0.2"),
        ("x", "1"),
    ]
    .iter()
    .map(|(a, b)| (a.to_string(), b.to_string()))
    .collect();
    assert_eq!(t, want);
}

#[test]
fn create_refuses_stream_flag() {
    let params = TranscriptionParams { file: input(), model: "m".to_string(), stream: Some(true), ..Default::default() };
    let err = Transcriptions::new().create(params).unwrap_err();
    assert_eq!(err.kind, ErrorKind::Validation);
    assert_eq!(err.message, "audio.transcriptions.create() is non-streaming; call stream() instead of setting `stream=true`");
    let ok = Transcriptions::new().create(TranscriptionParams { file: input(), model: "m".to_string(), ..Default::default() }).unwrap();
    assert_eq!(ok.path, "/audio/transcriptions");
    assert_eq!(ok.headers, vec![("accept".to_string(), "*/*".to_string())]);
    assert!(matches!(ok.body, RequestBody::Multipart(_)));
}

#[test]
fn translation_form_and_formats() {
    let params = TranslationParams { file: input(), model: "m".to_string(), response_format: Some(AudioResponseFormat::Srt), ..Default::default() };
    let t = texts(&params.into_multipart());
    assert_eq!(t, vec![("model".to_string(), "m".to_string()), ("response_format".to_string(), "srt".to_string())]);
    let err = translation_body(AudioResponseFormat::DiarizedJson).unwrap_err();
    assert_eq!(err.message, "audio.translations does not support `diarized_json` response format");
    assert_eq!(translation_body(AudioResponseFormat::Vtt).unwrap(), AudioBody::Text("translation vtt"));
    assert_eq!(transcription_body(AudioResponseFormat::Text), AudioBody::Text("transcription text"));
    assert_eq!(transcription_body(AudioResponseFormat::VerboseJson), AudioBody::Json(AudioResponseFormat::VerboseJson));
}

#[test]
fn transcription_stream_frames() {
    assert_eq!(classify_transcription_frame(&SseFrame::new(None, "[DONE]".to_string())), TranscriptionFrame::Done);
    assert_eq!(classify_transcription_frame(&SseFrame::new(None, " [DONE]".to_string())), TranscriptionFrame::Untyped);
    assert_eq!(
        classify_transcription_frame(&SseFrame::new(Some("transcript.text.delta".to_string()), "{}".to_string())),
        TranscriptionFrame::Named("transcript.text.delta".to_string())
    );
    assert_eq!(transcription_event_kind("transcript.text.done").unwrap(), TranscriptionEventKind::TextDone);
    let err = transcription_event_kind("transcript.other").unwrap_err();
    assert_eq!(err.message, "unsupported transcription stream event `transcript.other`");
    let err = event_name_from_payload(None).unwrap_err();
    assert_eq!(err.message, "transcription stream event was missing both `event:` and payload `type`");
    assert_eq!(stream_parse_error("x", "eof").message, "failed to parse streamed `x` payload: eof");
}

#[test]
fn transcription_accumulator_final_text() {
    let mut acc: TranscriptionAccumulator<u8, u8, u8> = TranscriptionAccumulator::new();
    acc.push_delta(1);
    acc.mark_done();
    assert!(acc.final_text().is_err());
    let err = match acc.finish() {
        Ok(_) => panic!("finish succeeded without a done event"),
        Err(e) => e,
    };
    assert_eq!(err.message, "transcription stream ended without a terminal transcript.text.done event");
    let mut acc: TranscriptionAccumulator<u8, u8, u8> = TranscriptionAccumulator::new();
    acc.push_segment(7, 2);
    acc.push_done("hi".to_string(), None, 3);
    acc.mark_done();
    let acc = match acc.finish() {
        Ok(a) => a,
        Err(e) => panic!("{}", e.message),
    };
    assert_eq!(acc.final_text().unwrap(), "hi");
    assert_eq!(acc.final_usage().unwrap_err().message, "transcription stream ended without terminal usage metadata");
    assert_eq!(acc.segments(), &[7]);
    assert_eq!(acc.events, vec![2, 3]);
}

#[test]
fn jsonish_extra_fields_render_as_text() {
    let mut fields: Vec<(String, String)> = Vec::new();
    add_jsonish_extra(&mut fields, "skip".to_string(), &serde_json::Value::Null);
    add_jsonish_extra(&mut fields, "name".to_string(), &serde_json::Value::String("x y".to_string()));
    add_jsonish_extra(&mut fields, "flag".to_string(), &serde_json::Value::Bool(true));
    add_jsonish_extra(&mut fields, "list".to_string(), &serde_json::from_str::<serde_json::Value>("[1, \"a\"]").unwrap());
    assert_eq!(
        fields,
        vec![
            ("name".to_string(), "x y".to_string()),
            ("flag".to_string(), "true".to_string()),
            ("list".to_string(), "[1,\"a\"]".to_string()),
        ]
    );
}

#[test]
fn whole_numbers_lose_point_zero() {
    assert_eq!(trim_point_zero("1.0".to_string()), "1");
    assert_eq!(trim_point_zero("0.5".to_string()), "0.5");
    assert_eq!(trim_point_zero("10".to_string()), "10");
    assert_eq!(trim_point_zero(".0".to_string()), "");
    assert_eq!(trim_point_zero("2.00".to_string()), "2.00");
}

#[test]
fn transcription_keeps_last_done_and_segments_in_order() {
    let mut acc: TranscriptionAccumulator<u8, u8, u8> = TranscriptionAccumulator::new();
    acc.push_delta(1);
    acc.push_segment(10, 2);
    acc.push_done("first".to_string(), Some(5), 3);
    acc.push_segment(11, 4);
    acc.push_done("second".to_string(), None, 5);
    assert!(!acc.saw_done);
    acc.mark_done();
    let mut acc = match acc.finish() {
        Ok(a) => a,
        Err(e) => panic!("{}", e.message),
    };
    assert_eq!(acc.final_text().unwrap(), "second");
    assert!(acc.final_usage().is_err());
    assert_eq!(acc.segments(), &[10, 11]);
    let mut events = Vec::new();
    while let Some(e) = acc.next_event() {
        events.push(e);
    }
    assert_eq!(events, vec![1, 2, 3, 4, 5]);
}

#[test]
fn text_bodies_must_be_utf8() {
    assert_eq!(parse_text_body("1\n00:00 --> 00:01\nhé".as_bytes().to_vec(), "transcription srt").unwrap(), "1\n00:00 --> 00:01\nhé");
    let err = parse_text_body(vec![0xff, 0x41], "transcription text").unwrap_err();
    assert_eq!(err.kind, ErrorKind::Parse);
    assert!(err.message.starts_with("failed to decode transcription text response as UTF-8: "));
    assert!(err.message.len() > "failed to decode transcription text response as UTF-8: ".len());
}
