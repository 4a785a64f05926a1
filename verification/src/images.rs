//! Images: generation, edits and variations, and the reading of image streams.
use vstd::prelude::*;
use serde_json::Value;
use std::collections::BTreeMap;
use crate::error::{ErrorKind, OpenAIError};
use crate::json::{set_object_flag, with_flag};
use crate::literal::{opt_literal, Literal, OpenLiteral};
use crate::query::{opt_u32_decimal, opt_view};
use crate::request::{parts_view, plain, text_part, ApiRequest, BodyView, HttpMethod, MultipartPart, PartView, RequestBody, RequestView};
use crate::sse::SseFrame;
use crate::text::{decimal, push_str, str_eq, u32_to_string, u64_to_string};

verus! {
#[derive(Clone, Copy, Debug, Default, PartialEq, Eq)]
pub enum ImageBackground {
    Transparent,
    Opaque,
    #[default]
    Auto,
}

impl Literal for ImageBackground {
    open spec fn literal(&self) -> Seq<char> {
        match self {
            ImageBackground::Transparent => "transparent"@,
            ImageBackground::Opaque => "opaque"@,
            ImageBackground::Auto => "auto"@,
        }
    }

    fn to_text(&self) -> (r: String) {
        self.as_str().to_string()
    }
}

impl ImageBackground {
    /// The text the API uses for this value.
    pub fn as_str(&self) -> (r: &'static str)
        ensures
            r@ == self.literal(),
    {
        match self {
            ImageBackground::Transparent => "transparent",
            ImageBackground::Opaque => "opaque",
            ImageBackground::Auto => "auto",
        }
    }
}

#[derive(Clone, Copy, Debug, PartialEq, Eq)]
pub enum ImageResponseBackground {
    Transparent,
    Opaque,
}

impl Literal for ImageResponseBackground {
    open spec fn literal(&self) -> Seq<char> {
        match self {
            ImageResponseBackground::Transparent => "transparent"@,
            ImageResponseBackground::Opaque => "opaque"@,
        }
    }

    fn to_text(&self) -> (r: String) {
        self.as_str().to_string()
    }
}

impl ImageResponseBackground {
    /// The text the API uses for this value.
    pub fn as_str(&self) -> (r: &'static str)
        ensures
            r@ == self.literal(),
    {
        match self {
            ImageResponseBackground::Transparent => "transparent",
            ImageResponseBackground::Opaque => "opaque",
        }
    }
}

#[derive(Clone, Copy, Debug, Default, PartialEq, Eq)]
pub enum ImageOutputFormat {
    #[default]
    Png,
    Jpeg,
    Webp,
}

impl Literal for ImageOutputFormat {
    open spec fn literal(&self) -> Seq<char> {
        match self {
            ImageOutputFormat::Png => "png"@,
            ImageOutputFormat::Jpeg => "jpeg"@,
            ImageOutputFormat::Webp => "webp"@,
        }
    }

    fn to_text(&self) -> (r: String) {
        self.as_str().to_string()
    }
}

impl ImageOutputFormat {
    /// The text the API uses for this value.
    pub fn as_str(&self) -> (r: &'static str)
        ensures
            r@ == self.literal(),
    {
        match self {
            ImageOutputFormat::Png => "png",
            ImageOutputFormat::Jpeg => "jpeg",
            ImageOutputFormat::Webp => "webp",
        }
    }
}

#[derive(Clone, Copy, Debug, PartialEq, Eq)]
pub enum ImageModeration {
    Low,
    Auto,
}

impl Literal for ImageModeration {
    open spec fn literal(&self) -> Seq<char> {
        match self {
            ImageModeration::Low => "low"@,
            ImageModeration::Auto => "auto"@,
        }
    }

    fn to_text(&self) -> (r: String) {
        self.as_str().to_string()
    }
}

impl ImageModeration {
    /// The text the API uses for this value.
    pub fn as_str(&self) -> (r: &'static str)
        ensures
            r@ == self.literal(),
    {
        match self {
            ImageModeration::Low => "low",
            ImageModeration::Auto => "auto",
        }
    }
}

#[derive(Clone, Copy, Debug, PartialEq, Eq)]
pub enum ImageInputFidelity {
    High,
    Low,
}

impl Literal for ImageInputFidelity {
    open spec fn literal(&self) -> Seq<char> {
        match self {
            ImageInputFidelity::High => "high"@,
            ImageInputFidelity::Low => "low"@,
        }
    }

    fn to_text(&self) -> (r: String) {
        self.as_str().to_string()
    }
}

impl ImageInputFidelity {
    /// The text the API uses for this value.
    pub fn as_str(&self) -> (r: &'static str)
        ensures
            r@ == self.literal(),
    {
        match self {
            ImageInputFidelity::High => "high",
            ImageInputFidelity::Low => "low",
        }
    }
}

#[derive(Clone, Copy, Debug, PartialEq, Eq)]
pub enum ImageGenerateQuality {
    Standard,
    Hd,
    Low,
    Medium,
    High,
    Auto,
}

impl Literal for ImageGenerateQuality {
    open spec fn literal(&self) -> Seq<char> {
        match self {
            ImageGenerateQuality::Standard => "standard"@,
            ImageGenerateQuality::Hd => "hd"@,
            ImageGenerateQuality::Low => "low"@,
            ImageGenerateQuality::Medium => "medium"@,
            ImageGenerateQuality::High => "high"@,
            ImageGenerateQuality::Auto => "auto"@,
        }
    }

    fn to_text(&self) -> (r: String) {
        self.as_str().to_string()
    }
}

impl ImageGenerateQuality {
    /// The text the API uses for this value.
    pub fn as_str(&self) -> (r: &'static str)
        ensures
            r@ == self.literal(),
    {
        match self {
            ImageGenerateQuality::Standard => "standard",
            ImageGenerateQuality::Hd => "hd",
            ImageGenerateQuality::Low => "low",
            ImageGenerateQuality::Medium => "medium",
            ImageGenerateQuality::High => "high",
            ImageGenerateQuality::Auto => "auto",
        }
    }
}

#[derive(Clone, Copy, Debug, PartialEq, Eq)]
pub enum ImageEditQuality {
    Standard,
    Low,
    Medium,
    High,
    Auto,
}

impl Literal for ImageEditQuality {
    open spec fn literal(&self) -> Seq<char> {
        match self {
            ImageEditQuality::Standard => "standard"@,
            ImageEditQuality::Low => "low"@,
            ImageEditQuality::Medium => "medium"@,
            ImageEditQuality::High => "high"@,
            ImageEditQuality::Auto => "auto"@,
        }
    }

    fn to_text(&self) -> (r: String) {
        self.as_str().to_string()
    }
}

impl ImageEditQuality {
    /// The text the API uses for this value.
    pub fn as_str(&self) -> (r: &'static str)
        ensures
            r@ == self.literal(),
    {
        match self {
            ImageEditQuality::Standard => "standard",
            ImageEditQuality::Low => "low",
            ImageEditQuality::Medium => "medium",
            ImageEditQuality::High => "high",
            ImageEditQuality::Auto => "auto",
        }
    }
}

#[derive(Clone, Copy, Debug, PartialEq, Eq)]
pub enum ImageResponseQuality {
    Low,
    Medium,
    High,
}

impl Literal for ImageResponseQuality {
    open spec fn literal(&self) -> Seq<char> {
        match self {
            ImageResponseQuality::Low => "low"@,
            ImageResponseQuality::Medium => "medium"@,
            ImageResponseQuality::High => "high"@,
        }
    }

    fn to_text(&self) -> (r: String) {
        self.as_str().to_string()
    }
}

impl ImageResponseQuality {
    /// The text the API uses for this value.
    pub fn as_str(&self) -> (r: &'static str)
        ensures
            r@ == self.literal(),
    {
        match self {
            ImageResponseQuality::Low => "low",
            ImageResponseQuality::Medium => "medium",
            ImageResponseQuality::High => "high",
        }
    }
}

#[derive(Clone, Copy, Debug, Default, PartialEq, Eq)]
pub enum ImageStreamQuality {
    Low,
    Medium,
    High,
    #[default]
    Auto,
}

impl Literal for ImageStreamQuality {
    open spec fn literal(&self) -> Seq<char> {
        match self {
            ImageStreamQuality::Low => "low"@,
            ImageStreamQuality::Medium => "medium"@,
            ImageStreamQuality::High => "high"@,
            ImageStreamQuality::Auto => "auto"@,
        }
    }

    fn to_text(&self) -> (r: String) {
        self.as_str().to_string()
    }
}

impl ImageStreamQuality {
    /// The text the API uses for this value.
    pub fn as_str(&self) -> (r: &'static str)
        ensures
            r@ == self.literal(),
    {
        match self {
            ImageStreamQuality::Low => "low",
            ImageStreamQuality::Medium => "medium",
            ImageStreamQuality::High => "high",
            ImageStreamQuality::Auto => "auto",
        }
    }
}

#[derive(Clone, Copy, Debug, PartialEq, Eq)]
pub enum ImageResponseFormat {
    Url,
    B64Json,
}

impl Literal for ImageResponseFormat {
    open spec fn literal(&self) -> Seq<char> {
        match self {
            ImageResponseFormat::Url => "url"@,
            ImageResponseFormat::B64Json => "b64_json"@,
        }
    }

    fn to_text(&self) -> (r: String) {
        self.as_str().to_string()
    }
}

impl ImageResponseFormat {
    /// The text the API uses for this value.
    pub fn as_str(&self) -> (r: &'static str)
        ensures
            r@ == self.literal(),
    {
        match self {
            ImageResponseFormat::Url => "url",
            ImageResponseFormat::B64Json => "b64_json",
        }
    }
}

#[derive(Clone, Copy, Debug, PartialEq, Eq)]
pub enum ImageStyle {
    Vivid,
    Natural,
}

impl Literal for ImageStyle {
    open spec fn literal(&self) -> Seq<char> {
        match self {
            ImageStyle::Vivid => "vivid"@,
            ImageStyle::Natural => "natural"@,
        }
    }

    fn to_text(&self) -> (r: String) {
        self.as_str().to_string()
    }
}

impl ImageStyle {
    /// The text the API uses for this value.
    pub fn as_str(&self) -> (r: &'static str)
        ensures
            r@ == self.literal(),
    {
        match self {
            ImageStyle::Vivid => "vivid",
            ImageStyle::Natural => "natural",
        }
    }
}

#[derive(Clone, Copy, Debug, PartialEq, Eq)]
pub enum ImageVariationSize {
    Size256x256,
    Size512x512,
    Size1024x1024,
}

impl Literal for ImageVariationSize {
    open spec fn literal(&self) -> Seq<char> {
        match self {
            ImageVariationSize::Size256x256 => "256x256"@,
            ImageVariationSize::Size512x512 => "512x512"@,
            ImageVariationSize::Size1024x1024 => "1024x1024"@,
        }
    }

    fn to_text(&self) -> (r: String) {
        self.as_str().to_string()
    }
}

impl ImageVariationSize {
    /// The text the API uses for this value.
    pub fn as_str(&self) -> (r: &'static str)
        ensures
            r@ == self.literal(),
    {
        match self {
            ImageVariationSize::Size256x256 => "256x256",
            ImageVariationSize::Size512x512 => "512x512",
            ImageVariationSize::Size1024x1024 => "1024x1024",
        }
    }
}

#[derive(Clone, Copy, Debug, PartialEq, Eq)]
pub enum ImageResponseSize {
    Size1024x1024,
    Size1024x1536,
    Size1536x1024,
}

impl Literal for ImageResponseSize {
    open spec fn literal(&self) -> Seq<char> {
        match self {
            ImageResponseSize::Size1024x1024 => "1024x1024"@,
            ImageResponseSize::Size1024x1536 => "1024x1536"@,
            ImageResponseSize::Size1536x1024 => "1536x1024"@,
        }
    }

    fn to_text(&self) -> (r: String) {
        self.as_str().to_string()
    }
}

impl ImageResponseSize {
    /// The text the API uses for this value.
    pub fn as_str(&self) -> (r: &'static str)
        ensures
            r@ == self.literal(),
    {
        match self {
            ImageResponseSize::Size1024x1024 => "1024x1024",
            ImageResponseSize::Size1024x1536 => "1024x1536",
            ImageResponseSize::Size1536x1024 => "1536x1024",
        }
    }
}

#[derive(Clone, Copy, Debug, Default, PartialEq, Eq)]
pub enum ImageStreamSize {
    Size1024x1024,
    Size1024x1536,
    Size1536x1024,
    #[default]
    Auto,
}

impl Literal for ImageStreamSize {
    open spec fn literal(&self) -> Seq<char> {
        match self {
            ImageStreamSize::Size1024x1024 => "1024x1024"@,
            ImageStreamSize::Size1024x1536 => "1024x1536"@,
            ImageStreamSize::Size1536x1024 => "1536x1024"@,
            ImageStreamSize::Auto => "auto"@,
        }
    }

    fn to_text(&self) -> (r: String) {
        self.as_str().to_string()
    }
}

impl ImageStreamSize {
    /// The text the API uses for this value.
    pub fn as_str(&self) -> (r: &'static str)
        ensures
            r@ == self.literal(),
    {
        match self {
            ImageStreamSize::Size1024x1024 => "1024x1024",
            ImageStreamSize::Size1024x1536 => "1024x1536",
            ImageStreamSize::Size1536x1024 => "1536x1024",
            ImageStreamSize::Auto => "auto",
        }
    }
}

/// Typed images response.
#[derive(Clone, Debug, Default, PartialEq)]
pub struct ImagesResponse {
    pub created: i64,
    pub background: Option<ImageResponseBackground>,
    pub data: Vec<ImageData>,
    pub output_format: Option<ImageOutputFormat>,
    pub quality: Option<ImageResponseQuality>,
    pub size: Option<ImageResponseSize>,
    pub usage: Option<ImageUsage>,
    pub extra: BTreeMap<String, Value>,
}

/// One generated image entry.
#[derive(Clone, Debug, Default, PartialEq)]
pub struct ImageData {
    pub b64_json: Option<String>,
    pub revised_prompt: Option<String>,
    pub url: Option<String>,
    pub extra: BTreeMap<String, Value>,
}

/// Token-usage details returned by GPT image models.
#[derive(Clone, Debug, Default, PartialEq)]
pub struct ImageUsage {
    pub input_tokens: u32,
    pub input_tokens_details: ImageInputTokenDetails,
    pub output_tokens: u32,
    pub output_tokens_details: Option<ImageOutputTokenDetails>,
    pub total_tokens: u32,
    pub extra: BTreeMap<String, Value>,
}

/// Input token split by modality.
#[derive(Clone, Debug, Default, PartialEq)]
pub struct ImageInputTokenDetails {
    pub image_tokens: u32,
    pub text_tokens: u32,
    pub extra: BTreeMap<String, Value>,
}

/// Output token split by modality.
#[derive(Clone, Debug, Default, PartialEq)]
pub struct ImageOutputTokenDetails {
    pub image_tokens: u32,
    pub text_tokens: u32,
    pub extra: BTreeMap<String, Value>,
}

/// Streamed image-generation partial event.
#[derive(Clone, Debug, Default, PartialEq)]
pub struct ImageGenerationPartialImageEvent {
    pub b64_json: String,
    pub background: ImageBackground,
    pub created_at: i64,
    pub output_format: ImageOutputFormat,
    pub partial_image_index: usize,
    pub quality: ImageStreamQuality,
    pub size: ImageStreamSize,
    pub extra: BTreeMap<String, Value>,
}

/// Streamed image-generation completed event.
#[derive(Clone, Debug, Default, PartialEq)]
pub struct ImageGenerationCompletedEvent {
    pub b64_json: String,
    pub background: ImageBackground,
    pub created_at: i64,
    pub output_format: ImageOutputFormat,
    pub quality: ImageStreamQuality,
    pub size: ImageStreamSize,
    pub usage: ImageUsage,
    pub extra: BTreeMap<String, Value>,
}

/// Typed image-generation stream event.
#[derive(Clone, Debug, PartialEq)]
pub enum ImageGenerationStreamEvent {
    PartialImage(ImageGenerationPartialImageEvent),
    Completed(ImageGenerationCompletedEvent),
}

/// Streamed image-edit partial event.
#[derive(Clone, Debug, Default, PartialEq)]
pub struct ImageEditPartialImageEvent {
    pub b64_json: String,
    pub background: ImageBackground,
    pub created_at: i64,
    pub output_format: ImageOutputFormat,
    pub partial_image_index: usize,
    pub quality: ImageStreamQuality,
    pub size: ImageStreamSize,
    pub extra: BTreeMap<String, Value>,
}

/// Streamed image-edit completed event.
#[derive(Clone, Debug, Default, PartialEq)]
pub struct ImageEditCompletedEvent {
    pub b64_json: String,
    pub background: ImageBackground,
    pub created_at: i64,
    pub output_format: ImageOutputFormat,
    pub quality: ImageStreamQuality,
    pub size: ImageStreamSize,
    pub usage: ImageUsage,
    pub extra: BTreeMap<String, Value>,
}

/// Typed image-edit stream event.
#[derive(Clone, Debug, PartialEq)]
pub enum ImageEditStreamEvent {
    PartialImage(ImageEditPartialImageEvent),
    Completed(ImageEditCompletedEvent),
}

/// Requested size of a generated image.
#[derive(Clone, Debug, PartialEq, Eq)]
pub enum ImageGenerateSize {
    Auto,
    Size256x256,
    Size512x512,
    Size1024x1024,
    Size1536x1024,
    Size1024x1536,
    Size1792x1024,
    Size1024x1792,
    /// A size given as `WIDTHxHEIGHT` text.
    Custom(String),
}

impl Literal for ImageGenerateSize {
    open spec fn literal(&self) -> Seq<char> {
        match self {
            ImageGenerateSize::Auto => "auto"@,
            ImageGenerateSize::Size256x256 => "256x256"@,
            ImageGenerateSize::Size512x512 => "512x512"@,
            ImageGenerateSize::Size1024x1024 => "1024x1024"@,
            ImageGenerateSize::Size1536x1024 => "1536x1024"@,
            ImageGenerateSize::Size1024x1536 => "1024x1536"@,
            ImageGenerateSize::Size1792x1024 => "1792x1024"@,
            ImageGenerateSize::Size1024x1792 => "1024x1792"@,
            ImageGenerateSize::Custom(text) => text@,
        }
    }

    fn to_text(&self) -> (r: String) {
        self.as_str().to_string()
    }
}

impl OpenLiteral for ImageGenerateSize {
    open spec fn known(text: Seq<char>) -> Option<ImageGenerateSize> {
        if text == "auto"@ {
            Some(ImageGenerateSize::Auto)
        } else if text == "256x256"@ {
            Some(ImageGenerateSize::Size256x256)
        } else if text == "512x512"@ {
            Some(ImageGenerateSize::Size512x512)
        } else if text == "1024x1024"@ {
            Some(ImageGenerateSize::Size1024x1024)
        } else if text == "1536x1024"@ {
            Some(ImageGenerateSize::Size1536x1024)
        } else if text == "1024x1536"@ {
            Some(ImageGenerateSize::Size1024x1536)
        } else if text == "1792x1024"@ {
            Some(ImageGenerateSize::Size1792x1024)
        } else if text == "1024x1792"@ {
            Some(ImageGenerateSize::Size1024x1792)
        } else {
            None
        }
    }

    open spec fn is_unknown(&self) -> bool {
        self is Custom
    }

    proof fn lemma_known_literal(value: Self) {
        reveal_strlit("auto");
        reveal_strlit("256x256");
        reveal_strlit("512x512");
        reveal_strlit("1024x1024");
        reveal_strlit("1536x1024");
        reveal_strlit("1024x1536");
        reveal_strlit("1792x1024");
        reveal_strlit("1024x1792");
        assert("auto"@.len() == 4);
        assert("256x256"@.len() == 7);
        assert("512x512"@.len() == 7);
        assert("1024x1024"@.len() == 9);
        assert("1536x1024"@.len() == 9);
        assert("1024x1536"@.len() == 9);
        assert("1792x1024"@.len() == 9);
        assert("1024x1792"@.len() == 9);
        assert("256x256"@[0] == '2');
        assert("512x512"@[0] == '5');
        assert("1024x1024"@[1] == '0');
        assert("1536x1024"@[1] == '5');
        assert("1024x1024"@[6] == '0');
        assert("1024x1536"@[6] == '5');
        assert("1792x1024"@[1] == '7');
        assert("1024x1792"@[6] == '7');
        assert("1024x1536"@[1] == '0');
        assert("1024x1792"@[1] == '0');
    }

    proof fn lemma_known_text(text: Seq<char>) {
    }
}

impl ImageGenerateSize {
    /// The text the API uses for this value.
    pub fn as_str(&self) -> (r: &str)
        ensures
            r@ == self.literal(),
    {
        match self {
            ImageGenerateSize::Auto => "auto",
            ImageGenerateSize::Size256x256 => "256x256",
            ImageGenerateSize::Size512x512 => "512x512",
            ImageGenerateSize::Size1024x1024 => "1024x1024",
            ImageGenerateSize::Size1536x1024 => "1536x1024",
            ImageGenerateSize::Size1024x1536 => "1024x1536",
            ImageGenerateSize::Size1792x1024 => "1792x1024",
            ImageGenerateSize::Size1024x1792 => "1024x1792",
            ImageGenerateSize::Custom(text) => text.as_str(),
        }
    }

    /// The value a text names; a text no variant uses is kept as `Custom`.
    pub fn from_text(value: &str) -> (r: ImageGenerateSize)
        ensures
            r.literal() == value@,
            r.is_unknown() == (ImageGenerateSize::known(value@) is None),
            ImageGenerateSize::known(value@) matches Some(k) ==> r == k,
    {
        if str_eq(value, "auto") {
            ImageGenerateSize::Auto
        } else if str_eq(value, "256x256") {
            ImageGenerateSize::Size256x256
        } else if str_eq(value, "512x512") {
            ImageGenerateSize::Size512x512
        } else if str_eq(value, "1024x1024") {
            ImageGenerateSize::Size1024x1024
        } else if str_eq(value, "1536x1024") {
            ImageGenerateSize::Size1536x1024
        } else if str_eq(value, "1024x1536") {
            ImageGenerateSize::Size1024x1536
        } else if str_eq(value, "1792x1024") {
            ImageGenerateSize::Size1792x1024
        } else if str_eq(value, "1024x1792") {
            ImageGenerateSize::Size1024x1792
        } else {
            ImageGenerateSize::Custom(value.to_string())
        }
    }
}

impl ImageGenerateSize {
    /// A size given as text.
    pub fn custom(value: String) -> (r: ImageGenerateSize)
        ensures
            r == ImageGenerateSize::Custom(value),
    {
        ImageGenerateSize::Custom(value)
    }

    /// The size a wire value names; an empty value names none.
    pub fn from_wire(value: &str) -> (r: Option<ImageGenerateSize>)
        ensures
            r is None <==> value@.len() == 0,
            r matches Some(s) ==> s.literal() == value@ && s.is_unknown() == (ImageGenerateSize::known(value@) is None),
    {
        if value.unicode_len() == 0 {
            None
        } else {
            Some(ImageGenerateSize::from_text(value))
        }
    }
}

/// Requested size of an edited image.
#[derive(Clone, Debug, PartialEq, Eq)]
pub enum ImageEditSize {
    Auto,
    Size256x256,
    Size512x512,
    Size1024x1024,
    Size1536x1024,
    Size1024x1536,
    /// A size given as `WIDTHxHEIGHT` text.
    Custom(String),
}

impl Literal for ImageEditSize {
    open spec fn literal(&self) -> Seq<char> {
        match self {
            ImageEditSize::Auto => "auto"@,
            ImageEditSize::Size256x256 => "256x256"@,
            ImageEditSize::Size512x512 => "512x512"@,
            ImageEditSize::Size1024x1024 => "1024x1024"@,
            ImageEditSize::Size1536x1024 => "1536x1024"@,
            ImageEditSize::Size1024x1536 => "1024x1536"@,
            ImageEditSize::Custom(text) => text@,
        }
    }

    fn to_text(&self) -> (r: String) {
        self.as_str().to_string()
    }
}

impl OpenLiteral for ImageEditSize {
    open spec fn known(text: Seq<char>) -> Option<ImageEditSize> {
        if text == "auto"@ {
            Some(ImageEditSize::Auto)
        } else if text == "256x256"@ {
            Some(ImageEditSize::Size256x256)
        } else if text == "512x512"@ {
            Some(ImageEditSize::Size512x512)
        } else if text == "1024x1024"@ {
            Some(ImageEditSize::Size1024x1024)
        } else if text == "1536x1024"@ {
            Some(ImageEditSize::Size1536x1024)
        } else if text == "1024x1536"@ {
            Some(ImageEditSize::Size1024x1536)
        } else {
            None
        }
    }

    open spec fn is_unknown(&self) -> bool {
        self is Custom
    }

    proof fn lemma_known_literal(value: Self) {
        reveal_strlit("auto");
        reveal_strlit("256x256");
        reveal_strlit("512x512");
        reveal_strlit("1024x1024");
        reveal_strlit("1536x1024");
        reveal_strlit("1024x1536");
        assert("auto"@.len() == 4);
        assert("256x256"@.len() == 7);
        assert("512x512"@.len() == 7);
        assert("1024x1024"@.len() == 9);
        assert("1536x1024"@.len() == 9);
        assert("1024x1536"@.len() == 9);
        assert("256x256"@[0] == '2');
        assert("512x512"@[0] == '5');
        assert("1024x1024"@[1] == '0');
        assert("1536x1024"@[1] == '5');
        assert("1024x1024"@[6] == '0');
        assert("1024x1536"@[6] == '5');
        assert("1024x1536"@[1] == '0');
    }

    proof fn lemma_known_text(text: Seq<char>) {
    }
}

impl ImageEditSize {
    /// The text the API uses for this value.
    pub fn as_str(&self) -> (r: &str)
        ensures
            r@ == self.literal(),
    {
        match self {
            ImageEditSize::Auto => "auto",
            ImageEditSize::Size256x256 => "256x256",
            ImageEditSize::Size512x512 => "512x512",
            ImageEditSize::Size1024x1024 => "1024x1024",
            ImageEditSize::Size1536x1024 => "1536x1024",
            ImageEditSize::Size1024x1536 => "1024x1536",
            ImageEditSize::Custom(text) => text.as_str(),
        }
    }

    /// The value a text names; a text no variant uses is kept as `Custom`.
    pub fn from_text(value: &str) -> (r: ImageEditSize)
        ensures
            r.literal() == value@,
            r.is_unknown() == (ImageEditSize::known(value@) is None),
            ImageEditSize::known(value@) matches Some(k) ==> r == k,
    {
        if str_eq(value, "auto") {
            ImageEditSize::Auto
        } else if str_eq(value, "256x256") {
            ImageEditSize::Size256x256
        } else if str_eq(value, "512x512") {
            ImageEditSize::Size512x512
        } else if str_eq(value, "1024x1024") {
            ImageEditSize::Size1024x1024
        } else if str_eq(value, "1536x1024") {
            ImageEditSize::Size1536x1024
        } else if str_eq(value, "1024x1536") {
            ImageEditSize::Size1024x1536
        } else {
            ImageEditSize::Custom(value.to_string())
        }
    }
}

impl ImageEditSize {
    /// A size given as text.
    pub fn custom(value: String) -> (r: ImageEditSize)
        ensures
            r == ImageEditSize::Custom(value),
    {
        ImageEditSize::Custom(value)
    }

    /// The size a wire value names; an empty value names none.
    pub fn from_wire(value: &str) -> (r: Option<ImageEditSize>)
        ensures
            r is None <==> value@.len() == 0,
            r matches Some(s) ==> s.literal() == value@ && s.is_unknown() == (ImageEditSize::known(value@) is None),
    {
        if value.unicode_len() == 0 {
            None
        } else {
            Some(ImageEditSize::from_text(value))
        }
    }
}

/// Uploadable image or mask.
#[derive(Clone, Debug, Default, PartialEq, Eq)]
pub struct ImageInput {
    pub filename: String,
    pub content_type: String,
    pub bytes: Vec<u8>,
}

impl ImageInput {
    pub fn new(filename: String, content_type: String, bytes: Vec<u8>) -> (i: ImageInput)
        ensures
            i.filename == filename,
            i.content_type == content_type,
            i.bytes == bytes,
    {
        ImageInput { filename, content_type, bytes }
    }

    /// The multipart file part carrying this image under `name`.
    pub fn into_file_part(self, name: &str) -> (p: MultipartPart)
        ensures
            p@ == file_view(name@, self),
    {
        MultipartPart::File {
            name: name.to_string(),
            filename: self.filename,
            content_type: self.content_type,
            bytes: self.bytes,
        }
    }
}

/// The form part of an image under `name`.
pub open spec fn file_view(name: Seq<char>, i: ImageInput) -> PartView {
    PartView::File { name, filename: i.filename@, content_type: i.content_type@, bytes: i.bytes@ }
}

/// Image generation parameters.
#[derive(Clone, Debug, Default)]
pub struct ImageGenerateParams {
    pub prompt: String,
    pub background: Option<ImageBackground>,
    pub model: Option<String>,
    pub moderation: Option<ImageModeration>,
    pub n: Option<u32>,
    pub output_compression: Option<u8>,
    pub output_format: Option<ImageOutputFormat>,
    pub partial_images: Option<u32>,
    pub quality: Option<ImageGenerateQuality>,
    pub response_format: Option<ImageResponseFormat>,
    pub size: Option<ImageGenerateSize>,
    pub stream: Option<bool>,
    pub style: Option<ImageStyle>,
    pub user: Option<String>,
    pub extra: BTreeMap<String, Value>,
}

impl ImageGenerateParams {
    /// A non-streamed generation refuses `stream=true`.
    pub fn validate_for_generate(&self) -> (r: Result<(), OpenAIError>)
        ensures
            r is Ok <==> self.stream != Some(true),
            r matches Err(e) ==> e.kind == ErrorKind::Validation && e.message@
                == "images.generate() is non-streaming; call generate_stream() instead of setting `stream=true`"@,
    {
        if self.stream == Some(true) {
            return Err(
                OpenAIError::new(
                    ErrorKind::Validation,
                    "images.generate() is non-streaming; call generate_stream() instead of setting `stream=true`".to_string(),
                ),
            );
        }
        Ok(())
    }
}

/// The body of a generation request: the serialized parameters with
/// `"stream"` set when they form an object.
pub fn image_request_body(params: Value, stream: bool) -> (r: Value)
    ensures
        with_flag(params, r, "stream"@, stream),
{
    let mut value = params;
    let _ = set_object_flag(&mut value, "stream", stream);
    value
}

/// Image edit parameters; `extra` holds further form fields already rendered
/// as text, in key order.
#[derive(Clone, Debug, Default, PartialEq, Eq)]
pub struct ImageEditParams {
    pub image: Vec<ImageInput>,
    pub images: Vec<ImageInput>,
    pub prompt: String,
    pub background: Option<ImageBackground>,
    pub input_fidelity: Option<ImageInputFidelity>,
    pub mask: Option<ImageInput>,
    pub model: Option<String>,
    pub n: Option<u32>,
    pub output_compression: Option<u8>,
    pub output_format: Option<ImageOutputFormat>,
    pub partial_images: Option<u32>,
    pub quality: Option<ImageEditQuality>,
    pub response_format: Option<ImageResponseFormat>,
    pub size: Option<ImageEditSize>,
    pub stream: Option<bool>,
    pub user: Option<String>,
    pub extra: Vec<(String, String)>,
}

/// A text field when a value is present.
pub open spec fn opt_field(name: Seq<char>, value: Option<Seq<char>>) -> Seq<PartView> {
    match value {
        Some(v) => seq![PartView::Text { name, value: v }],
        None => seq![],
    }
}

/// The extra fields, each under its own name.
pub open spec fn extra_fields(extra: Seq<(String, String)>) -> Seq<PartView> {
    extra.map_values(|kv: (String, String)| PartView::Text { name: kv.0@, value: kv.1@ })
}

/// Every image as an `image` file part.
pub open spec fn image_files(images: Seq<ImageInput>) -> Seq<PartView> {
    images.map_values(|i: ImageInput| file_view("image"@, i))
}

pub open spec fn opt_u8_decimal(v: Option<u8>) -> Option<Seq<char>> {
    match v {
        Some(n) => Some(decimal(n as nat)),
        None => None,
    }
}

/// The form of an edit request, in field order.
pub open spec fn edit_form(p: ImageEditParams, stream: bool) -> Seq<PartView> {
    image_files(p.image@ + p.images@) + seq![PartView::Text { name: "prompt"@, value: p.prompt@ }] + match p.mask {
        Some(m) => seq![file_view("mask"@, m)],
        None => seq![],
    } + opt_field("background"@, opt_literal(p.background)) + opt_field(
        "input_fidelity"@,
        opt_literal(p.input_fidelity),
    ) + opt_field("model"@, opt_view(p.model)) + opt_field("n"@, opt_u32_decimal(p.n)) + opt_field(
        "output_compression"@,
        opt_u8_decimal(p.output_compression),
    ) + opt_field("output_format"@, opt_literal(p.output_format)) + opt_field(
        "partial_images"@,
        opt_u32_decimal(p.partial_images),
    ) + opt_field("quality"@, opt_literal(p.quality)) + opt_field(
        "response_format"@,
        opt_literal(p.response_format),
    ) + opt_field("size"@, opt_literal(p.size)) + seq![
        PartView::Text {
            name: "stream"@,
            value: if stream {
                "true"@
            } else {
                "false"@
            },
        },
    ] + opt_field("user"@, opt_view(p.user)) + extra_fields(p.extra@)
}

fn push_opt_field(parts: &mut Vec<MultipartPart>, name: &str, value: Option<String>)
    ensures
        parts_view(final(parts)@) == parts_view(old(parts)@) + opt_field(name@, opt_view(value)),
{
    match value {
        Some(v) => {
            parts.push(text_part(name, v));
            assert(parts_view(parts@) =~= parts_view(old(parts)@) + opt_field(name@, opt_view(Some(v))));
        },
        None => {
            assert(parts_view(parts@) =~= parts_view(old(parts)@) + opt_field(name@, None));
        },
    }
}

fn push_opt_literal_field<E: Literal>(parts: &mut Vec<MultipartPart>, name: &str, value: &Option<E>)
    ensures
        parts_view(final(parts)@) == parts_view(old(parts)@) + opt_field(name@, opt_literal(*value)),
{
    let text = match value {
        Some(v) => Some(v.to_text()),
        None => None,
    };
    push_opt_field(parts, name, text);
}

fn push_opt_u32_field(parts: &mut Vec<MultipartPart>, name: &str, value: Option<u32>)
    ensures
        parts_view(final(parts)@) == parts_view(old(parts)@) + opt_field(name@, opt_u32_decimal(value)),
{
    let text = match value {
        Some(n) => Some(u32_to_string(n)),
        None => None,
    };
    push_opt_field(parts, name, text);
}

fn push_extra_fields(parts: &mut Vec<MultipartPart>, extra: Vec<(String, String)>)
    ensures
        parts_view(final(parts)@) == parts_view(old(parts)@) + extra_fields(extra@),
{
    let ghost start = parts_view(parts@);
    let mut i: usize = 0;
    while i < extra.len()
        invariant
            i <= extra@.len(),
            parts_view(parts@) == start + extra_fields(extra@.subrange(0, i as int)),
        decreases extra@.len() - i,
    {
        let ghost before = parts@;
        parts.push(text_part(extra[i].0.as_str(), extra[i].1.clone()));
        assert(extra_fields(extra@.subrange(0, i + 1)) =~= extra_fields(extra@.subrange(0, i as int)).push(
            PartView::Text { name: extra@[i as int].0@, value: extra@[i as int].1@ },
        ));
        assert(parts_view(parts@) =~= parts_view(before).push(
            PartView::Text { name: extra@[i as int].0@, value: extra@[i as int].1@ },
        ));
        i = i + 1;
    }
    assert(extra@.subrange(0, extra@.len() as int) =~= extra@);
}

fn push_image_files(parts: &mut Vec<MultipartPart>, images: Vec<ImageInput>)
    ensures
        parts_view(final(parts)@) == parts_view(old(parts)@) + image_files(images@),
{
    let ghost start = parts_view(parts@);
    let ghost all = images@;
    let total = images.len();
    assert(all.len() == total);
    let mut rest = images;
    let mut i: usize = 0;
    while rest.len() > 0
        invariant
            all.len() <= usize::MAX,
            i + rest@.len() == all.len(),
            rest@ == all.subrange(i as int, all.len() as int),
            parts_view(parts@) == start + image_files(all.subrange(0, i as int)),
        decreases rest@.len(),
    {
        let ghost before = parts@;
        let image = rest.remove(0);
        assert(image == all[i as int]);
        parts.push(image.into_file_part("image"));
        assert(image_files(all.subrange(0, i + 1)) =~= image_files(all.subrange(0, i as int)).push(
            file_view("image"@, all[i as int]),
        ));
        assert(parts_view(parts@) =~= parts_view(before).push(file_view("image"@, all[i as int])));
        i = i + 1;
    }
    assert(all.subrange(0, all.len() as int) =~= all);
}

impl ImageEditParams {
    /// A non-streamed edit refuses `stream=true`.
    pub fn validate_for_edit(&self) -> (r: Result<(), OpenAIError>)
        ensures
            r is Ok <==> self.stream != Some(true),
            r matches Err(e) ==> e.kind == ErrorKind::Validation && e.message@
                == "images.edit() is non-streaming; call edit_stream() instead of setting `stream=true`"@,
    {
        if self.stream == Some(true) {
            return Err(
                OpenAIError::new(
                    ErrorKind::Validation,
                    "images.edit() is non-streaming; call edit_stream() instead of setting `stream=true`".to_string(),
                ),
            );
        }
        Ok(())
    }

    /// The multipart form: the `image` and `images` sources together, at least one.
    pub fn into_multipart(self, stream: bool) -> (r: Result<Vec<MultipartPart>, OpenAIError>)
        ensures
            r is Ok <==> self.image@.len() + self.images@.len() > 0,
            r matches Ok(parts) ==> parts_view(parts@) == edit_form(self, stream),
            r matches Err(e) ==> e.kind == ErrorKind::Validation && e.message@
                == "images.edit requires at least one source image"@,
    {
        let ghost p = self;
        let mut sources = self.image;
        let mut more = self.images;
        sources.append(&mut more);
        if sources.len() == 0 {
            return Err(
                OpenAIError::new(
                    ErrorKind::Validation,
                    "images.edit requires at least one source image".to_string(),
                ),
            );
        }
        let mut parts: Vec<MultipartPart> = Vec::new();
        assert(parts_view(parts@) =~= Seq::<PartView>::empty());
        push_image_files(&mut parts, sources);
        assert(image_files(p.image@ + p.images@) =~= Seq::<PartView>::empty() + image_files(p.image@ + p.images@));
        parts.push(text_part("prompt", self.prompt));
        let ghost after_prompt = parts_view(parts@);
        match self.mask {
            Some(m) => {
                parts.push(m.into_file_part("mask"));
            },
            None => {},
        }
        push_opt_literal_field(&mut parts, "background", &self.background);
        push_opt_literal_field(&mut parts, "input_fidelity", &self.input_fidelity);
        push_opt_field(&mut parts, "model", self.model);
        push_opt_u32_field(&mut parts, "n", self.n);
        let compression = match self.output_compression {
            Some(n) => Some(u64_to_string(n as u64)),
            None => None,
        };
        push_opt_field(&mut parts, "output_compression", compression);
        push_opt_literal_field(&mut parts, "output_format", &self.output_format);
        push_opt_u32_field(&mut parts, "partial_images", self.partial_images);
        push_opt_literal_field(&mut parts, "quality", &self.quality);
        push_opt_literal_field(&mut parts, "response_format", &self.response_format);
        push_opt_literal_field(&mut parts, "size", &self.size);
        let stream_text = if stream {
            "true".to_string()
        } else {
            "false".to_string()
        };
        push_opt_field(&mut parts, "stream", Some(stream_text));
        push_opt_field(&mut parts, "user", self.user);
        push_extra_fields(&mut parts, self.extra);
        assert(parts_view(parts@) =~= edit_form(p, stream));
        Ok(parts)
    }
}

/// Image variation parameters; `extra` as for edits.
#[derive(Clone, Debug, Default, PartialEq, Eq)]
pub struct ImageVariationParams {
    pub image: ImageInput,
    pub model: Option<String>,
    pub n: Option<u32>,
    pub response_format: Option<ImageResponseFormat>,
    pub size: Option<ImageVariationSize>,
    pub user: Option<String>,
    pub extra: Vec<(String, String)>,
}

/// Whether `c` is the ASCII letter `lower` in either case.
pub open spec fn letter_ci(c: char, lower: char, upper: char) -> bool {
    c == lower || c == upper
}

/// Whether `png`, in any ASCII case, occurs in a text.
pub open spec fn mentions_png(s: Seq<char>) -> bool {
    exists|i: int|
        0 <= i && i + 3 <= s.len() && letter_ci(#[trigger] s[i], 'p', 'P') && letter_ci(s[i + 1], 'n', 'N')
            && letter_ci(s[i + 2], 'g', 'G')
}

/// Whether a content type names PNG, in any case.
pub fn is_png_content_type(content_type: &str) -> (b: bool)
    ensures
        b == mentions_png(content_type@),
{
    let n = content_type.unicode_len();
    if n < 3 {
        return false;
    }
    let mut i: usize = 0;
    while i < n - 2
        invariant
            n == content_type@.len(),
            3 <= n,
            i + 2 <= n,
            forall|j: int|
                0 <= j < i ==> !(letter_ci(#[trigger] content_type@[j], 'p', 'P') && letter_ci(
                    content_type@[j + 1],
                    'n',
                    'N',
                ) && letter_ci(content_type@[j + 2], 'g', 'G')),
        decreases n - i,
    {
        let a = content_type.get_char(i);
        let b = content_type.get_char(i + 1);
        let c = content_type.get_char(i + 2);
        if (a == 'p' || a == 'P') && (b == 'n' || b == 'N') && (c == 'g' || c == 'G') {
            return true;
        }
        i = i + 1;
    }
    false
}

/// The form of a variation request, in field order.
pub open spec fn variation_form(p: ImageVariationParams) -> Seq<PartView> {
    seq![file_view("image"@, p.image)] + opt_field("model"@, opt_view(p.model)) + opt_field(
        "n"@,
        opt_u32_decimal(p.n),
    ) + opt_field("response_format"@, opt_literal(p.response_format)) + opt_field(
        "size"@,
        opt_literal(p.size),
    ) + opt_field("user"@, opt_view(p.user)) + extra_fields(p.extra@)
}

impl ImageVariationParams {
    /// The multipart form; the source must be a PNG image.
    pub fn into_multipart(self) -> (r: Result<Vec<MultipartPart>, OpenAIError>)
        ensures
            r is Ok <==> mentions_png(self.image.content_type@),
            r matches Ok(parts) ==> parts_view(parts@) == variation_form(self),
            r matches Err(e) ==> e.kind == ErrorKind::Validation && e.message@
                == "images.create_variation requires a PNG image input"@,
    {
        let ghost p = self;
        if !is_png_content_type(self.image.content_type.as_str()) {
            return Err(
                OpenAIError::new(
                    ErrorKind::Validation,
                    "images.create_variation requires a PNG image input".to_string(),
                ),
            );
        }
        let mut parts: Vec<MultipartPart> = Vec::new();
        parts.push(self.image.into_file_part("image"));
        push_opt_field(&mut parts, "model", self.model);
        push_opt_u32_field(&mut parts, "n", self.n);
        push_opt_literal_field(&mut parts, "response_format", &self.response_format);
        push_opt_literal_field(&mut parts, "size", &self.size);
        push_opt_field(&mut parts, "user", self.user);
        push_extra_fields(&mut parts, self.extra);
        assert(parts_view(parts@) =~= variation_form(p));
        Ok(parts)
    }
}

/// A multipart request with one `accept` header.
pub open spec fn multipart_request(path: Seq<char>, form: Seq<PartView>, accept: Seq<char>) -> RequestView {
    RequestView {
        method: HttpMethod::Post,
        path,
        headers: seq![("accept"@, accept)],
        body: BodyView::Multipart(form),
    }
}

fn multipart_post(path: &str, parts: Vec<MultipartPart>, accept: &str) -> (r: ApiRequest)
    ensures
        r@ == multipart_request(path@, parts_view(parts@), accept@),
{
    let r = ApiRequest::new(HttpMethod::Post, path.to_string(), RequestBody::Multipart(parts)).with_header(
        "accept",
        accept,
    );
    assert(r@.headers =~= seq![("accept"@, accept@)]);
    r
}

/// Images API family.
#[derive(Clone, Copy, Debug)]
pub struct Images {}

impl Images {
    pub fn new() -> Images {
        Images {}
    }

    /// A non-streamed generation. `stream` is the parameters' field of that
    /// name; `params` the parameters serialized.
    pub fn generate(&self, stream: Option<bool>, params: Value) -> (r: Result<ApiRequest, OpenAIError>)
        ensures
            r is Ok <==> stream != Some(true),
            r matches Ok(req) ==> req@.body is JsonValue && req@ == plain(
                HttpMethod::Post,
                "/images/generations"@,
                req@.body,
            ) && with_flag(params, req@.body->JsonValue_0, "stream"@, false),
            r matches Err(e) ==> e.kind == ErrorKind::Validation && e.message@
                == "images.generate() is non-streaming; call generate_stream() instead of setting `stream=true`"@,
    {
        if stream == Some(true) {
            return Err(
                OpenAIError::new(
                    ErrorKind::Validation,
                    "images.generate() is non-streaming; call generate_stream() instead of setting `stream=true`".to_string(),
                ),
            );
        }
        let body = image_request_body(params, false);
        Ok(ApiRequest::new(HttpMethod::Post, "/images/generations".to_string(), RequestBody::JsonValue(body)))
    }

    /// A streamed generation.
    pub fn generate_stream(&self, params: Value) -> (r: ApiRequest)
        ensures
            r@.body is JsonValue && r@ == plain(HttpMethod::Post, "/images/generations"@, r@.body),
            with_flag(params, r@.body->JsonValue_0, "stream"@, true),
    {
        let body = image_request_body(params, true);
        ApiRequest::new(HttpMethod::Post, "/images/generations".to_string(), RequestBody::JsonValue(body))
    }

    /// An edit, as a multipart form.
    pub fn edit(&self, params: ImageEditParams) -> (r: Result<ApiRequest, OpenAIError>)
        ensures
            r is Ok <==> (params.stream != Some(true) && params.image@.len() + params.images@.len() > 0),
            r matches Ok(req) ==> req@ == multipart_request("/images/edits"@, edit_form(params, false), "application/json"@),
            params.stream == Some(true) ==> (r matches Err(e) && e.kind == ErrorKind::Validation && e.message@
                == "images.edit() is non-streaming; call edit_stream() instead of setting `stream=true`"@),
            params.stream != Some(true) && params.image@.len() + params.images@.len() == 0 ==> (r matches Err(e)
                && e.kind == ErrorKind::Validation && e.message@ == "images.edit requires at least one source image"@),
    {
        params.validate_for_edit()?;
        let parts = params.into_multipart(false)?;
        Ok(multipart_post("/images/edits", parts, "application/json"))
    }

    /// A streamed edit.
    pub fn edit_stream(&self, params: ImageEditParams) -> (r: Result<ApiRequest, OpenAIError>)
        ensures
            r is Ok <==> params.image@.len() + params.images@.len() > 0,
            r matches Ok(req) ==> req@ == multipart_request("/images/edits"@, edit_form(params, true), "text/event-stream"@),
            r matches Err(e) ==> e.kind == ErrorKind::Validation && e.message@
                == "images.edit requires at least one source image"@,
    {
        let parts = params.into_multipart(true)?;
        Ok(multipart_post("/images/edits", parts, "text/event-stream"))
    }

    /// A variation of one PNG image.
    pub fn create_variation(&self, params: ImageVariationParams) -> (r: Result<ApiRequest, OpenAIError>)
        ensures
            r is Ok <==> mentions_png(params.image.content_type@),
            r matches Ok(req) ==> req@ == multipart_request("/images/variations"@, variation_form(params), "application/json"@),
            r matches Err(e) ==> e.kind == ErrorKind::Validation && e.message@
                == "images.create_variation requires a PNG image input"@,
    {
        let parts = params.into_multipart()?;
        Ok(multipart_post("/images/variations", parts, "application/json"))
    }
}

/// Which image stream is read.
#[derive(Clone, Copy, Debug, PartialEq, Eq)]
pub enum ImageStreamKind {
    Generation,
    Edit,
}

/// The two events of an image stream.
#[derive(Clone, Copy, Debug, PartialEq, Eq)]
pub enum ImageStreamEventKind {
    PartialImage,
    Completed,
}

pub open spec fn stream_label(kind: ImageStreamKind) -> Seq<char> {
    match kind {
        ImageStreamKind::Generation => "image generation"@,
        ImageStreamKind::Edit => "image edit"@,
    }
}

pub open spec fn event_prefix(kind: ImageStreamKind) -> Seq<char> {
    match kind {
        ImageStreamKind::Generation => "image_generation."@,
        ImageStreamKind::Edit => "image_edit."@,
    }
}

/// The kind of an event of a stream, from its name.
pub fn image_event_kind(kind: ImageStreamKind, name: &str) -> (r: Result<ImageStreamEventKind, OpenAIError>)
    ensures
        name@ == event_prefix(kind) + "partial_image"@ ==> r == Ok::<ImageStreamEventKind, OpenAIError>(
            ImageStreamEventKind::PartialImage,
        ),
        name@ == event_prefix(kind) + "completed"@ ==> r == Ok::<ImageStreamEventKind, OpenAIError>(
            ImageStreamEventKind::Completed,
        ),
        name@ != event_prefix(kind) + "partial_image"@ && name@ != event_prefix(kind) + "completed"@ ==> (r matches Err(
            e,
        ) && e.kind == ErrorKind::Parse && e.message@ == "unsupported "@ + stream_label(kind) + " stream event `"@
            + name@ + "`"@),
{
    let (partial, completed, label) = match kind {
        ImageStreamKind::Generation => ("image_generation.partial_image", "image_generation.completed", "image generation"),
        ImageStreamKind::Edit => ("image_edit.partial_image", "image_edit.completed", "image edit"),
    };
    proof {
        reveal_strlit("image_generation.partial_image");
        reveal_strlit("image_generation.completed");
        reveal_strlit("image_edit.partial_image");
        reveal_strlit("image_edit.completed");
        reveal_strlit("image_generation.");
        reveal_strlit("image_edit.");
        reveal_strlit("partial_image");
        reveal_strlit("completed");
        assert("image_generation.partial_image"@ =~= "image_generation."@ + "partial_image"@);
        assert("image_generation.completed"@ =~= "image_generation."@ + "completed"@);
        assert("image_edit.partial_image"@ =~= "image_edit."@ + "partial_image"@);
        assert("image_edit.completed"@ =~= "image_edit."@ + "completed"@);
    }
    if str_eq(name, partial) {
        Ok(ImageStreamEventKind::PartialImage)
    } else if str_eq(name, completed) {
        Ok(ImageStreamEventKind::Completed)
    } else {
        let mut message = "unsupported ".to_string();
        push_str(&mut message, label);
        push_str(&mut message, " stream event `");
        push_str(&mut message, name);
        push_str(&mut message, "`");
        Err(OpenAIError::new(ErrorKind::Parse, message))
    }
}

/// The event name of a frame without an `event:` line: its payload's `type`, which must be there.
pub fn image_event_name(event: &Option<String>, payload_type: Option<String>) -> (r: Result<String, OpenAIError>)
    ensures
        event is Some ==> r == Ok::<String, OpenAIError>(event->Some_0),
        event is None ==> (r is Ok <==> payload_type is Some),
        event is None && payload_type is Some ==> r == Ok::<String, OpenAIError>(payload_type->Some_0),
        r matches Err(e) ==> e.kind == ErrorKind::Parse && e.message@
            == "image stream event was missing both `event:` and payload `type`"@,
{
    match event {
        Some(e) => Ok(e.clone()),
        None => match payload_type {
            Some(t) => Ok(t),
            None => Err(
                OpenAIError::new(
                    ErrorKind::Parse,
                    "image stream event was missing both `event:` and payload `type`".to_string(),
                ),
            ),
        },
    }
}

/// The state of reading an image stream: the events in order and the
/// completed event once it came. `E` is an event, `C` a completed event.
pub struct ImageStreamAccumulator<E, C> {
    pub kind: ImageStreamKind,
    pub events: Vec<E>,
    pub final_completed: Option<C>,
}

impl<E, C> ImageStreamAccumulator<E, C> {
    pub fn new(kind: ImageStreamKind) -> (a: Self)
        ensures
            a.kind == kind && a.events@.len() == 0 && a.final_completed is None,
    {
        ImageStreamAccumulator { kind, events: Vec::new(), final_completed: None }
    }

    /// Whether a frame is the `[DONE]` marker, which image streams skip.
    pub fn is_done_frame(frame: &SseFrame) -> (b: bool)
        ensures
            b == (frame.data@ == "[DONE]"@),
    {
        str_eq(frame.data.as_str(), "[DONE]")
    }

    /// A partial image arrived.
    pub fn push_partial(&mut self, event: E)
        ensures
            final(self).events@ == old(self).events@.push(event),
            final(self).final_completed == old(self).final_completed,
            final(self).kind == old(self).kind,
    {
        self.events.push(event);
    }

    /// The completed event arrived: it is the final one and joins the events.
    pub fn push_completed(&mut self, completed: C, event: E)
        ensures
            final(self).events@ == old(self).events@.push(event),
            final(self).final_completed == Some(completed),
            final(self).kind == old(self).kind,
    {
        self.final_completed = Some(completed);
        self.events.push(event);
    }

    /// The events and the completed event; refused when none completed.
    pub fn finish(self) -> (r: Result<(Vec<E>, Option<C>), OpenAIError>)
        ensures
            r is Ok <==> self.final_completed is Some,
            r matches Ok(p) ==> p.0 == self.events && p.1 == self.final_completed,
            r matches Err(e) ==> e.kind == ErrorKind::Parse && e.message@ == stream_label(self.kind)
                + " stream ended without a terminal completed event"@,
    {
        if self.final_completed.is_none() {
            let mut message = match self.kind {
                ImageStreamKind::Generation => "image generation".to_string(),
                ImageStreamKind::Edit => "image edit".to_string(),
            };
            push_str(&mut message, " stream ended without a terminal completed event");
            return Err(OpenAIError::new(ErrorKind::Parse, message));
        }
        Ok((self.events, self.final_completed))
    }
}

} // verus!
