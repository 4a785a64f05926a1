use openai_resources::embeddings::{decode_base64_embedding, embedding_action, EmbeddingAction, EmbeddingEncodingFormat, Embeddings};
use openai_resources::error::ErrorKind;
use openai_resources::images::{
    image_event_kind, image_event_name, is_png_content_type, ImageEditParams, ImageGenerateSize, ImageInput, ImageStreamAccumulator,
    ImageStreamEventKind, ImageStreamKind, ImageVariationParams, Images,
};
use openai_resources::request::{MultipartPart, RequestBody};

#[test]
fn base64_vectors_decode_to_bytes() {
    assert_eq!(decode_base64_embedding("AACAPw==").unwrap(), vec![0, 0, 128, 63]);
    let err = decode_base64_embedding("AAA=").unwrap_err();
    assert_eq!(err.kind, ErrorKind::Parse);
    assert_eq!(err.message, "base64 embedding payload had 2 bytes, which is not a multiple of four");
    let err = decode_base64_embedding("@@").unwrap_err();
    assert!(err.message.starts_with("failed to decode base64 embedding payload: "));
}

#[test]
fn vectors_kept_or_decoded() {
    assert_eq!(embedding_action(Some(EmbeddingEncodingFormat::Base64), true), EmbeddingAction::KeepBase64);
    assert_eq!(embedding_action(None, true), EmbeddingAction::DecodeBase64);
    assert_eq!(embedding_action(Some(EmbeddingEncodingFormat::Float), false), EmbeddingAction::KeepFloats);
}

#[test]
fn embedding_body_defaults_to_base64() {
    let req = Embeddings::new().create(serde_json::from_str("{\"model\":\"m\",\"input\":\"x\"}").unwrap());
    assert_eq!(req.path, "/embeddings");
    match req.body {
        RequestBody::JsonValue(v) => assert_eq!(v["encoding_format"], "base64"),
        _ => panic!("json body expected"),
    }
}

fn img(ct: &str) -> ImageInput {
    ImageInput::new("i.png".to_string(), ct.to_string(), vec![9])
}

#[test]
fn variation_needs_png() {
    assert!(is_png_content_type("image/PNG"));
    assert!(!is_png_content_type("image/jpeg"));
    let err = Images::new().create_variation(ImageVariationParams { image: img("image/jpeg"), ..Default::default() }).unwrap_err();
    assert_eq!(err.message, "images.create_variation requires a PNG image input");
    let req = Images::new().create_variation(ImageVariationParams { image: img("image/png"), n: Some(2), ..Default::default() }).unwrap();
    assert_eq!(req.path, "/images/variations");
}

#[test]
fn edit_needs_a_source_and_lists_fields() {
    let err = Images::new().edit(ImageEditParams { prompt: "p".to_string(), ..Default::default() }).unwrap_err();
    assert_eq!(err.message, "images.edit requires at least one source image");
    let params = ImageEditParams { images: vec![img("image/png")], prompt: "p".to_string(), output_compression: Some(80), ..Default::default() };
    let req = Images::new().edit_stream(params).unwrap();
    match req.body {
        RequestBody::Multipart(parts) => {
            assert!(matches!(&parts[0], MultipartPart::File { name, .. } if name == "image"));
            let texts: Vec<(String, String)> = parts
                .iter()
                .filter_map(|p| match p {
                    MultipartPart::Text { name, value } => Some((name.clone(), value.clone())),
                    _ => None,
                })
                .collect();
            assert_eq!(
                texts,
                vec![
                    ("prompt".to_string(), "p".to_string()),
                    ("output_compression".to_string(), "80".to_string()),
                    ("stream".to_string(), "true".to_string()),
                ]
            );
        }
        _ => panic!("multipart expected"),
    }
    let err = Images::new()
        .edit(ImageEditParams { image: vec![img("image/png")], stream: Some(true), ..Default::default() })
        .unwrap_err();
    assert_eq!(err.message, "images.edit() is non-streaming; call edit_stream() instead of setting `stream=true`");
}

#[test]
fn image_sizes_from_wire() {
    assert_eq!(ImageGenerateSize::from_wire("1024x1024"), Some(ImageGenerateSize::Size1024x1024));
    assert_eq!(ImageGenerateSize::from_wire("333x333"), Some(ImageGenerateSize::Custom("333x333".to_string())));
    assert_eq!(ImageGenerateSize::from_wire(""), None);
}

#[test]
fn image_stream_events() {
    assert_eq!(image_event_kind(ImageStreamKind::Edit, "image_edit.completed").unwrap(), ImageStreamEventKind::Completed);
    let err = image_event_kind(ImageStreamKind::Generation, "image_edit.completed").unwrap_err();
    assert_eq!(err.message, "unsupported image generation stream event `image_edit.completed`");
    assert_eq!(image_event_name(&None, Some("t".to_string())).unwrap(), "t");
    assert!(image_event_name(&None, None).is_err());
    let acc: ImageStreamAccumulator<u8, u8> = ImageStreamAccumulator::new(ImageStreamKind::Edit);
    assert_eq!(acc.finish().unwrap_err().message, "image edit stream ended without a terminal completed event");
    let mut acc: ImageStreamAccumulator<u8, u8> = ImageStreamAccumulator::new(ImageStreamKind::Generation);
    acc.push_partial(1);
    acc.push_completed(5, 2);
    assert_eq!(acc.finish().unwrap(), (vec![1, 2], Some(5)));
}
