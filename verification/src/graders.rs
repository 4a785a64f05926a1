//! Grader definitions shared by evals and fine-tuning: message roles,
//! comparison operations, similarity metrics and message content.
use vstd::prelude::*;
use crate::literal::{Literal, OpenLiteral};
use crate::text::str_eq;

verus! {

/// Role accepted by model-based grader input messages.
#[derive(Clone, Debug, PartialEq, Eq)]
pub enum GraderMessageRole {
    User,
    Assistant,
    System,
    Developer,
    /// A value this library does not know, kept as received.
    Unknown(String),
}

impl Literal for GraderMessageRole {
    open spec fn literal(&self) -> Seq<char> {
        match self {
            GraderMessageRole::User => "user"@,
            GraderMessageRole::Assistant => "assistant"@,
            GraderMessageRole::System => "system"@,
            GraderMessageRole::Developer => "developer"@,
            GraderMessageRole::Unknown(text) => text@,
        }
    }

    fn to_text(&self) -> (r: String) {
        self.as_str().to_string()
    }
}

impl OpenLiteral for GraderMessageRole {
    open spec fn known(text: Seq<char>) -> Option<GraderMessageRole> {
        if text == "user"@ {
            Some(GraderMessageRole::User)
        } else if text == "assistant"@ {
            Some(GraderMessageRole::Assistant)
        } else if text == "system"@ {
            Some(GraderMessageRole::System)
        } else if text == "developer"@ {
            Some(GraderMessageRole::Developer)
        } else {
            None
        }
    }

    open spec fn is_unknown(&self) -> bool {
        self is Unknown
    }

    proof fn lemma_known_literal(value: Self) {
        reveal_strlit("user");
        reveal_strlit("assistant");
        reveal_strlit("system");
        reveal_strlit("developer");
        assert("user"@.len() == 4);
        assert("assistant"@.len() == 9);
        assert("system"@.len() == 6);
        assert("developer"@.len() == 9);
        assert("assistant"@[0] == 'a');
        assert("developer"@[0] == 'd');
    }

    proof fn lemma_known_text(text: Seq<char>) {
    }
}

impl GraderMessageRole {
    /// The text the API uses for this value.
    pub fn as_str(&self) -> (r: &str)
        ensures
            r@ == self.literal(),
    {
        match self {
            GraderMessageRole::User => "user",
            GraderMessageRole::Assistant => "assistant",
            GraderMessageRole::System => "system",
            GraderMessageRole::Developer => "developer",
            GraderMessageRole::Unknown(text) => text.as_str(),
        }
    }

    /// The value a text names; a text no variant uses is kept as `Unknown`.
    pub fn from_text(value: &str) -> (r: GraderMessageRole)
        ensures
            r.literal() == value@,
            r.is_unknown() == (GraderMessageRole::known(value@) is None),
            GraderMessageRole::known(value@) matches Some(k) ==> r == k,
    {
        if str_eq(value, "user") {
            GraderMessageRole::User
        } else if str_eq(value, "assistant") {
            GraderMessageRole::Assistant
        } else if str_eq(value, "system") {
            GraderMessageRole::System
        } else if str_eq(value, "developer") {
            GraderMessageRole::Developer
        } else {
            GraderMessageRole::Unknown(value.to_string())
        }
    }
}

impl Default for GraderMessageRole {
    fn default() -> (r: GraderMessageRole)
        ensures
            r.literal() == Seq::<char>::empty(),
            r is Unknown,
    {
        GraderMessageRole::Unknown(String::new())
    }
}

/// Optional discriminator for model-based grader input messages.
#[derive(Clone, Debug, PartialEq, Eq)]
pub enum GraderMessageType {
    Message,
    /// A value this library does not know, kept as received.
    Unknown(String),
}

impl Literal for GraderMessageType {
    open spec fn literal(&self) -> Seq<char> {
        match self {
            GraderMessageType::Message => "message"@,
            GraderMessageType::Unknown(text) => text@,
        }
    }

    fn to_text(&self) -> (r: String) {
        self.as_str().to_string()
    }
}

impl OpenLiteral for GraderMessageType {
    open spec fn known(text: Seq<char>) -> Option<GraderMessageType> {
        if text == "message"@ {
            Some(GraderMessageType::Message)
        } else {
            None
        }
    }

    open spec fn is_unknown(&self) -> bool {
        self is Unknown
    }

    proof fn lemma_known_literal(value: Self) {
        reveal_strlit("message");
        assert("message"@.len() == 7);
    }

    proof fn lemma_known_text(text: Seq<char>) {
    }
}

impl GraderMessageType {
    /// The text the API uses for this value.
    pub fn as_str(&self) -> (r: &str)
        ensures
            r@ == self.literal(),
    {
        match self {
            GraderMessageType::Message => "message",
            GraderMessageType::Unknown(text) => text.as_str(),
        }
    }

    /// The value a text names; a text no variant uses is kept as `Unknown`.
    pub fn from_text(value: &str) -> (r: GraderMessageType)
        ensures
            r.literal() == value@,
            r.is_unknown() == (GraderMessageType::known(value@) is None),
            GraderMessageType::known(value@) matches Some(k) ==> r == k,
    {
        if str_eq(value, "message") {
            GraderMessageType::Message
        } else {
            GraderMessageType::Unknown(value.to_string())
        }
    }
}

impl Default for GraderMessageType {
    fn default() -> (r: GraderMessageType)
        ensures
            r.literal() == Seq::<char>::empty(),
            r is Unknown,
    {
        GraderMessageType::Unknown(String::new())
    }
}

/// String comparison operations accepted by string-check graders.
#[derive(Clone, Debug, PartialEq, Eq)]
pub enum GraderStringCheckOperation {
    Eq,
    Ne,
    Like,
    Ilike,
    /// A value this library does not know, kept as received.
    Unknown(String),
}

impl Literal for GraderStringCheckOperation {
    open spec fn literal(&self) -> Seq<char> {
        match self {
            GraderStringCheckOperation::Eq => "eq"@,
            GraderStringCheckOperation::Ne => "ne"@,
            GraderStringCheckOperation::Like => "like"@,
            GraderStringCheckOperation::Ilike => "ilike"@,
            GraderStringCheckOperation::Unknown(text) => text@,
        }
    }

    fn to_text(&self) -> (r: String) {
        self.as_str().to_string()
    }
}

impl OpenLiteral for GraderStringCheckOperation {
    open spec fn known(text: Seq<char>) -> Option<GraderStringCheckOperation> {
        if text == "eq"@ {
            Some(GraderStringCheckOperation::Eq)
        } else if text == "ne"@ {
            Some(GraderStringCheckOperation::Ne)
        } else if text == "like"@ {
            Some(GraderStringCheckOperation::Like)
        } else if text == "ilike"@ {
            Some(GraderStringCheckOperation::Ilike)
        } else {
            None
        }
    }

    open spec fn is_unknown(&self) -> bool {
        self is Unknown
    }

    proof fn lemma_known_literal(value: Self) {
        reveal_strlit("eq");
        reveal_strlit("ne");
        reveal_strlit("like");
        reveal_strlit("ilike");
        assert("eq"@.len() == 2);
        assert("ne"@.len() == 2);
        assert("like"@.len() == 4);
        assert("ilike"@.len() == 5);
        assert("eq"@[0] == 'e');
        assert("ne"@[0] == 'n');
    }

    proof fn lemma_known_text(text: Seq<char>) {
    }
}

impl GraderStringCheckOperation {
    /// The text the API uses for this value.
    pub fn as_str(&self) -> (r: &str)
        ensures
            r@ == self.literal(),
    {
        match self {
            GraderStringCheckOperation::Eq => "eq",
            GraderStringCheckOperation::Ne => "ne",
            GraderStringCheckOperation::Like => "like",
            GraderStringCheckOperation::Ilike => "ilike",
            GraderStringCheckOperation::Unknown(text) => text.as_str(),
        }
    }

    /// The value a text names; a text no variant uses is kept as `Unknown`.
    pub fn from_text(value: &str) -> (r: GraderStringCheckOperation)
        ensures
            r.literal() == value@,
            r.is_unknown() == (GraderStringCheckOperation::known(value@) is None),
            GraderStringCheckOperation::known(value@) matches Some(k) ==> r == k,
    {
        if str_eq(value, "eq") {
            GraderStringCheckOperation::Eq
        } else if str_eq(value, "ne") {
            GraderStringCheckOperation::Ne
        } else if str_eq(value, "like") {
            GraderStringCheckOperation::Like
        } else if str_eq(value, "ilike") {
            GraderStringCheckOperation::Ilike
        } else {
            GraderStringCheckOperation::Unknown(value.to_string())
        }
    }
}

impl Default for GraderStringCheckOperation {
    fn default() -> (r: GraderStringCheckOperation)
        ensures
            r.literal() == Seq::<char>::empty(),
            r is Unknown,
    {
        GraderStringCheckOperation::Unknown(String::new())
    }
}

/// Text-similarity metrics accepted by text-similarity graders.
#[derive(Clone, Debug, PartialEq, Eq)]
pub enum GraderTextSimilarityMetric {
    Cosine,
    FuzzyMatch,
    Bleu,
    Gleu,
    Meteor,
    Rouge1,
    Rouge2,
    Rouge3,
    Rouge4,
    Rouge5,
    RougeL,
    /// A value this library does not know, kept as received.
    Unknown(String),
}

impl Literal for GraderTextSimilarityMetric {
    open spec fn literal(&self) -> Seq<char> {
        match self {
            GraderTextSimilarityMetric::Cosine => "cosine"@,
            GraderTextSimilarityMetric::FuzzyMatch => "fuzzy_match"@,
            GraderTextSimilarityMetric::Bleu => "bleu"@,
            GraderTextSimilarityMetric::Gleu => "gleu"@,
            GraderTextSimilarityMetric::Meteor => "meteor"@,
            GraderTextSimilarityMetric::Rouge1 => "rouge_1"@,
            GraderTextSimilarityMetric::Rouge2 => "rouge_2"@,
            GraderTextSimilarityMetric::Rouge3 => "rouge_3"@,
            GraderTextSimilarityMetric::Rouge4 => "rouge_4"@,
            GraderTextSimilarityMetric::Rouge5 => "rouge_5"@,
            GraderTextSimilarityMetric::RougeL => "rouge_l"@,
            GraderTextSimilarityMetric::Unknown(text) => text@,
        }
    }

    fn to_text(&self) -> (r: String) {
        self.as_str().to_string()
    }
}

impl OpenLiteral for GraderTextSimilarityMetric {
    open spec fn known(text: Seq<char>) -> Option<GraderTextSimilarityMetric> {
        if text == "cosine"@ {
            Some(GraderTextSimilarityMetric::Cosine)
        } else if text == "fuzzy_match"@ {
            Some(GraderTextSimilarityMetric::FuzzyMatch)
        } else if text == "bleu"@ {
            Some(GraderTextSimilarityMetric::Bleu)
        } else if text == "gleu"@ {
            Some(GraderTextSimilarityMetric::Gleu)
        } else if text == "meteor"@ {
            Some(GraderTextSimilarityMetric::Meteor)
        } else if text == "rouge_1"@ {
            Some(GraderTextSimilarityMetric::Rouge1)
        } else if text == "rouge_2"@ {
            Some(GraderTextSimilarityMetric::Rouge2)
        } else if text == "rouge_3"@ {
            Some(GraderTextSimilarityMetric::Rouge3)
        } else if text == "rouge_4"@ {
            Some(GraderTextSimilarityMetric::Rouge4)
        } else if text == "rouge_5"@ {
            Some(GraderTextSimilarityMetric::Rouge5)
        } else if text == "rouge_l"@ {
            Some(GraderTextSimilarityMetric::RougeL)
        } else {
            None
        }
    }

    open spec fn is_unknown(&self) -> bool {
        self is Unknown
    }

    proof fn lemma_known_literal(value: Self) {
        reveal_strlit("cosine");
        reveal_strlit("fuzzy_match");
        reveal_strlit("bleu");
        reveal_strlit("gleu");
        reveal_strlit("meteor");
        reveal_strlit("rouge_1");
        reveal_strlit("rouge_2");
        reveal_strlit("rouge_3");
        reveal_strlit("rouge_4");
        reveal_strlit("rouge_5");
        reveal_strlit("rouge_l");
        assert("cosine"@.len() == 6);
        assert("fuzzy_match"@.len() == 11);
        assert("bleu"@.len() == 4);
        assert("gleu"@.len() == 4);
        assert("meteor"@.len() == 6);
        assert("rouge_1"@.len() == 7);
        assert("rouge_2"@.len() == 7);
        assert("rouge_3"@.len() == 7);
        assert("rouge_4"@.len() == 7);
        assert("rouge_5"@.len() == 7);
        assert("rouge_l"@.len() == 7);
        assert("cosine"@[0] == 'c');
        assert("meteor"@[0] == 'm');
        assert("bleu"@[0] == 'b');
        assert("gleu"@[0] == 'g');
        assert("rouge_1"@[6] == '1');
        assert("rouge_2"@[6] == '2');
        assert("rouge_3"@[6] == '3');
        assert("rouge_4"@[6] == '4');
        assert("rouge_5"@[6] == '5');
        assert("rouge_l"@[6] == 'l');
    }

    proof fn lemma_known_text(text: Seq<char>) {
    }
}

impl GraderTextSimilarityMetric {
    /// The text the API uses for this value.
    pub fn as_str(&self) -> (r: &str)
        ensures
            r@ == self.literal(),
    {
        match self {
            GraderTextSimilarityMetric::Cosine => "cosine",
            GraderTextSimilarityMetric::FuzzyMatch => "fuzzy_match",
            GraderTextSimilarityMetric::Bleu => "bleu",
            GraderTextSimilarityMetric::Gleu => "gleu",
            GraderTextSimilarityMetric::Meteor => "meteor",
            GraderTextSimilarityMetric::Rouge1 => "rouge_1",
            GraderTextSimilarityMetric::Rouge2 => "rouge_2",
            GraderTextSimilarityMetric::Rouge3 => "rouge_3",
            GraderTextSimilarityMetric::Rouge4 => "rouge_4",
            GraderTextSimilarityMetric::Rouge5 => "rouge_5",
            GraderTextSimilarityMetric::RougeL => "rouge_l",
            GraderTextSimilarityMetric::Unknown(text) => text.as_str(),
        }
    }

    /// The value a text names; a text no variant uses is kept as `Unknown`.
    pub fn from_text(value: &str) -> (r: GraderTextSimilarityMetric)
        ensures
            r.literal() == value@,
            r.is_unknown() == (GraderTextSimilarityMetric::known(value@) is None),
            GraderTextSimilarityMetric::known(value@) matches Some(k) ==> r == k,
    {
        if str_eq(value, "cosine") {
            GraderTextSimilarityMetric::Cosine
        } else if str_eq(value, "fuzzy_match") {
            GraderTextSimilarityMetric::FuzzyMatch
        } else if str_eq(value, "bleu") {
            GraderTextSimilarityMetric::Bleu
        } else if str_eq(value, "gleu") {
            GraderTextSimilarityMetric::Gleu
        } else if str_eq(value, "meteor") {
            GraderTextSimilarityMetric::Meteor
        } else if str_eq(value, "rouge_1") {
            GraderTextSimilarityMetric::Rouge1
        } else if str_eq(value, "rouge_2") {
            GraderTextSimilarityMetric::Rouge2
        } else if str_eq(value, "rouge_3") {
            GraderTextSimilarityMetric::Rouge3
        } else if str_eq(value, "rouge_4") {
            GraderTextSimilarityMetric::Rouge4
        } else if str_eq(value, "rouge_5") {
            GraderTextSimilarityMetric::Rouge5
        } else if str_eq(value, "rouge_l") {
            GraderTextSimilarityMetric::RougeL
        } else {
            GraderTextSimilarityMetric::Unknown(value.to_string())
        }
    }
}

impl Default for GraderTextSimilarityMetric {
    fn default() -> (r: GraderTextSimilarityMetric)
        ensures
            r.literal() == Seq::<char>::empty(),
            r is Unknown,
    {
        GraderTextSimilarityMetric::Unknown(String::new())
    }
}

/// Grader image detail control.
#[derive(Clone, Copy, Debug, PartialEq, Eq)]
pub enum GraderInputImageDetail {
    Auto,
    Low,
    High,
}

impl Literal for GraderInputImageDetail {
    open spec fn literal(&self) -> Seq<char> {
        match self {
            GraderInputImageDetail::Auto => "auto"@,
            GraderInputImageDetail::Low => "low"@,
            GraderInputImageDetail::High => "high"@,
        }
    }

    fn to_text(&self) -> (r: String) {
        self.as_str().to_string()
    }
}

impl GraderInputImageDetail {
    /// The text the API uses for this value.
    pub fn as_str(&self) -> (r: &'static str)
        ensures
            r@ == self.literal(),
    {
        match self {
            GraderInputImageDetail::Auto => "auto",
            GraderInputImageDetail::Low => "low",
            GraderInputImageDetail::High => "high",
        }
    }
}

/// Grader input audio format.
#[derive(Clone, Copy, Debug, PartialEq, Eq)]
pub enum GraderInputAudioFormat {
    Mp3,
    Wav,
}

impl Literal for GraderInputAudioFormat {
    open spec fn literal(&self) -> Seq<char> {
        match self {
            GraderInputAudioFormat::Mp3 => "mp3"@,
            GraderInputAudioFormat::Wav => "wav"@,
        }
    }

    fn to_text(&self) -> (r: String) {
        self.as_str().to_string()
    }
}

impl GraderInputAudioFormat {
    /// The text the API uses for this value.
    pub fn as_str(&self) -> (r: &'static str)
        ensures
            r@ == self.literal(),
    {
        match self {
            GraderInputAudioFormat::Mp3 => "mp3",
            GraderInputAudioFormat::Wav => "wav",
        }
    }
}

/// Message content accepted by eval and fine-tuning model graders.
#[derive(Clone, Debug, PartialEq)]
pub enum GraderMessageContent {
    Text(String),
    Part(GraderMessageContentPart),
    Parts(Vec<GraderMessageContentPart>),
}

/// Single grader content item.
#[derive(Clone, Debug, PartialEq)]
pub enum GraderMessageContentPart {
    Text(String),
    Structured(GraderStructuredContentPart),
}

/// Structured grader content items.
#[derive(Clone, Debug, PartialEq)]
pub enum GraderStructuredContentPart {
    InputText {
        text: String,
    },
    OutputText {
        text: String,
    },
    InputImage {
        image_url: String,
        detail: Option<GraderInputImageDetail>,
    },
    InputAudio {
        input_audio: GraderInputAudio,
    },
}

/// Grader base64 audio input.
#[derive(Clone, Debug, Eq, PartialEq)]
pub struct GraderInputAudio {
    pub data: String,
    pub format: GraderInputAudioFormat,
}

impl GraderMessageRole {
    /// Whether this value is written as `text`.
    pub fn eq_text(&self, text: &str) -> (b: bool)
        ensures
            b == (self.literal() == text@),
    {
        str_eq(self.as_str(), text)
    }
}

impl GraderMessageType {
    /// Whether this value is written as `text`.
    pub fn eq_text(&self, text: &str) -> (b: bool)
        ensures
            b == (self.literal() == text@),
    {
        str_eq(self.as_str(), text)
    }
}

impl GraderStringCheckOperation {
    /// Whether this value is written as `text`.
    pub fn eq_text(&self, text: &str) -> (b: bool)
        ensures
            b == (self.literal() == text@),
    {
        str_eq(self.as_str(), text)
    }
}

impl GraderTextSimilarityMetric {
    /// Whether this value is written as `text`.
    pub fn eq_text(&self, text: &str) -> (b: bool)
        ensures
            b == (self.literal() == text@),
    {
        str_eq(self.as_str(), text)
    }
}

impl GraderStructuredContentPart {
    pub fn input_text(text: String) -> (r: GraderStructuredContentPart)
        ensures
            r == (GraderStructuredContentPart::InputText { text }),
    {
        GraderStructuredContentPart::InputText { text }
    }

    pub fn output_text(text: String) -> (r: GraderStructuredContentPart)
        ensures
            r == (GraderStructuredContentPart::OutputText { text }),
    {
        GraderStructuredContentPart::OutputText { text }
    }

    pub fn input_image(image_url: String, detail: Option<GraderInputImageDetail>) -> (r: GraderStructuredContentPart)
        ensures
            r == (GraderStructuredContentPart::InputImage { image_url, detail }),
    {
        GraderStructuredContentPart::InputImage { image_url, detail }
    }

    pub fn input_audio(input_audio: GraderInputAudio) -> (r: GraderStructuredContentPart)
        ensures
            r == (GraderStructuredContentPart::InputAudio { input_audio }),
    {
        GraderStructuredContentPart::InputAudio { input_audio }
    }
}

} // verus!
