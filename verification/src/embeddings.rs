//! Embeddings: the create request and the reading of embedding vectors.
use vstd::prelude::*;
use serde_json::Value;
use std::collections::BTreeMap;
use crate::error::{ErrorKind, OpenAIError};
use crate::json::{default_object_text, with_default_text};
use crate::literal::Literal;
use crate::request::{plain, ApiRequest, BodyView, HttpMethod, RequestBody};
use crate::text::{decimal, push_str, u64_to_string};

verus! {

/// Supported embedding encoding formats.
#[derive(Clone, Copy, Debug, PartialEq, Eq)]
pub enum EmbeddingEncodingFormat {
    Float,
    Base64,
}

impl Literal for EmbeddingEncodingFormat {
    open spec fn literal(&self) -> Seq<char> {
        match self {
            EmbeddingEncodingFormat::Float => "float"@,
            EmbeddingEncodingFormat::Base64 => "base64"@,
        }
    }

    fn to_text(&self) -> (r: String) {
        self.as_str().to_string()
    }
}

impl EmbeddingEncodingFormat {
    pub fn as_str(&self) -> (r: &'static str)
        ensures
            r@ == self.literal(),
    {
        match self {
            EmbeddingEncodingFormat::Float => "float",
            EmbeddingEncodingFormat::Base64 => "base64",
        }
    }
}

/// Embedding creation parameters.
#[derive(Clone, Debug, Default)]
pub struct EmbeddingCreateParams {
    pub model: String,
    pub input: Value,
    pub dimensions: Option<u32>,
    pub encoding_format: Option<EmbeddingEncodingFormat>,
    pub user: Option<String>,
    pub extra: BTreeMap<String, Value>,
}

/// Usage totals of an embeddings call.
#[derive(Clone, Debug, Default)]
pub struct EmbeddingUsage {
    pub prompt_tokens: u32,
    pub total_tokens: u32,
    pub extra: BTreeMap<String, Value>,
}

/// The request body: the serialized parameters, asking for base64 vectors
/// unless an encoding was chosen.
pub fn embedding_request_body(params: Value) -> (r: Value)
    ensures
        with_default_text(params, r, "encoding_format"@, "base64"@),
{
    let mut value = params;
    let _ = default_object_text(&mut value, "encoding_format", "base64");
    value
}

/// Embeddings API family.
#[derive(Clone, Copy, Debug)]
pub struct Embeddings {}

impl Embeddings {
    pub fn new() -> Embeddings {
        Embeddings {}
    }

    /// Creates embeddings from the serialized parameters.
    pub fn create(&self, params: Value) -> (r: ApiRequest)
        ensures
            r@.body is JsonValue && r@ == plain(HttpMethod::Post, "/embeddings"@, r@.body),
            with_default_text(params, r@.body->JsonValue_0, "encoding_format"@, "base64"@),
    {
        let body = embedding_request_body(params);
        ApiRequest::new(HttpMethod::Post, "/embeddings".to_string(), RequestBody::JsonValue(body))
    }
}

/// What to do with one returned vector.
#[derive(Clone, Copy, Debug, PartialEq, Eq)]
pub enum EmbeddingAction {
    /// Hand the base64 text back as it came.
    KeepBase64,
    /// Hand the floats back as they came.
    KeepFloats,
    /// Decode the base64 text into floats.
    DecodeBase64,
}

/// Base64 vectors are kept only when base64 was asked for; floats are always kept.
pub fn embedding_action(requested: Option<EmbeddingEncodingFormat>, returned_base64: bool) -> (a: EmbeddingAction)
    ensures
        !returned_base64 ==> a == EmbeddingAction::KeepFloats,
        returned_base64 && requested == Some(EmbeddingEncodingFormat::Base64) ==> a == EmbeddingAction::KeepBase64,
        returned_base64 && requested != Some(EmbeddingEncodingFormat::Base64) ==> a == EmbeddingAction::DecodeBase64,
{
    let prefer_base64 = match requested {
        Some(EmbeddingEncodingFormat::Base64) => true,
        _ => false,
    };
    if !returned_base64 {
        EmbeddingAction::KeepFloats
    } else if prefer_base64 {
        EmbeddingAction::KeepBase64
    } else {
        EmbeddingAction::DecodeBase64
    }
}

/// The bytes the standard base64 alphabet (with padding) decodes a text to,
/// when it is valid base64.
pub uninterp spec fn base64_standard(text: Seq<char>) -> Option<Seq<u8>>;

/// The error text of refusing a text as base64.
pub uninterp spec fn base64_refusal(text: Seq<char>) -> Seq<char>;

/// `base64::engine::general_purpose::STANDARD.decode`: the decoded bytes, or
/// the decoder's error message.
#[verifier::external_body]
fn base64_decode(text: &str) -> (r: Result<Vec<u8>, String>)
    ensures
        r is Ok <==> base64_standard(text@) is Some,
        r matches Ok(bytes) ==> bytes@ == base64_standard(text@)->Some_0,
        r matches Err(detail) ==> detail@ == base64_refusal(text@),
{
    match base64::Engine::decode(&base64::engine::general_purpose::STANDARD, text) {
        Ok(bytes) => Ok(bytes),
        Err(error) => Err(error.to_string()),
    }
}

/// Checks decoded vector bytes: four bytes per little-endian `f32`.
pub fn check_vector_bytes(bytes: Vec<u8>) -> (r: Result<Vec<u8>, OpenAIError>)
    ensures
        r is Ok <==> bytes@.len() % 4 == 0,
        r matches Ok(b) ==> b@ == bytes@,
        r matches Err(e) ==> e.kind == ErrorKind::Parse && e.message@ == "base64 embedding payload had "@
            + decimal(bytes@.len()) + " bytes, which is not a multiple of four"@,
{
    if bytes.len() % 4 != 0 {
        let mut message = "base64 embedding payload had ".to_string();
        push_str(&mut message, u64_to_string(bytes.len() as u64).as_str());
        push_str(&mut message, " bytes, which is not a multiple of four");
        return Err(OpenAIError::new(ErrorKind::Parse, message));
    }
    Ok(bytes)
}

/// Decodes a base64 vector into its bytes, four per `f32` in little-endian order.
pub fn decode_base64_embedding(encoded: &str) -> (r: Result<Vec<u8>, OpenAIError>)
    ensures
        r is Ok <==> (base64_standard(encoded@) is Some && base64_standard(encoded@)->Some_0.len() % 4 == 0),
        r matches Ok(b) ==> b@ == base64_standard(encoded@)->Some_0,
        base64_standard(encoded@) is None ==> (r matches Err(e) && e.kind == ErrorKind::Parse && e.message@
            == "failed to decode base64 embedding payload: "@ + base64_refusal(encoded@)),
        (base64_standard(encoded@) matches Some(b) && b.len() % 4 != 0) ==> (r matches Err(e) && e.kind
            == ErrorKind::Parse && e.message@ == "base64 embedding payload had "@ + decimal(
            base64_standard(encoded@)->Some_0.len(),
        ) + " bytes, which is not a multiple of four"@),
{
    match base64_decode(encoded) {
        Ok(bytes) => check_vector_bytes(bytes),
        Err(detail) => Err(
            OpenAIError::with_detail(
                ErrorKind::Parse,
                "failed to decode base64 embedding payload: ",
                detail.as_str(),
            ),
        ),
    }
}

} // verus!
