use openai_resources::chat::chat_request_body;
use openai_resources::completions::completion_request_body;
use openai_resources::embeddings::embedding_request_body;
use openai_resources::images::image_request_body;
use openai_resources::json::{default_object_text, json_quote, set_object_flag};

fn parse(text: &str) -> serde_json::Value {
    serde_json::from_str(text).unwrap()
}

#[test]
fn quoting_escapes_json_text() {
    assert_eq!(json_quote("plain"), "\"plain\"");
    assert_eq!(json_quote("a\"b\\c\n"), "\"a\\\"b\\\\c\\n\"");
}

#[test]
fn stream_flag_is_set_on_objects_only() {
    let mut v = serde_json::Value::Object(Default::default());
    assert!(set_object_flag(&mut v, "stream", true));
    assert_eq!(v["stream"], serde_json::Value::Bool(true));
    let mut arr = serde_json::Value::Array(vec![]);
    assert!(!set_object_flag(&mut arr, "stream", true));
    assert_eq!(arr, serde_json::Value::Array(vec![]));
}

#[test]
fn default_text_does_not_override() {
    let mut v = parse(r#"{"encoding_format": "float"}"#);
    assert!(default_object_text(&mut v, "encoding_format", "base64"));
    assert_eq!(v["encoding_format"], "float");
    let mut w = parse(r#"{"model": "m"}"#);
    assert!(default_object_text(&mut w, "encoding_format", "base64"));
    assert_eq!(w["encoding_format"], "base64");
}

#[test]
fn request_bodies_carry_the_stream_flag() {
    let params = parse(r#"{"model": "m", "stream": false}"#);
    let body = chat_request_body(params.clone(), true);
    assert_eq!(body["stream"], serde_json::Value::Bool(true));
    assert_eq!(body["model"], "m");
    assert_eq!(completion_request_body(params.clone(), true)["stream"], serde_json::Value::Bool(true));
    assert_eq!(image_request_body(params, false)["stream"], serde_json::Value::Bool(false));
    let text = serde_json::Value::String("x".to_string());
    assert_eq!(chat_request_body(text.clone(), true), text);
}

#[test]
fn embedding_body_asks_for_base64_by_default() {
    assert_eq!(embedding_request_body(parse(r#"{"model": "m"}"#))["encoding_format"], "base64");
    assert_eq!(
        embedding_request_body(parse(r#"{"model": "m", "encoding_format": "float"}"#))["encoding_format"],
        "float"
    );
}
