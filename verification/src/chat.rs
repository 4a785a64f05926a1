//! Chat Completions: request planning for the stored and streamed surfaces,
//! the checks behind structured parsing, and the accumulation of streamed
//! chunks into a final completion.
use vstd::prelude::*;
use serde_json::Value;
use std::collections::BTreeMap;
use crate::common::{ListOrder, PromptCacheRetention, ReasoningEffort, SearchContextSize, ServiceTier, Verbosity};
use crate::error::{blank_message, ErrorKind, OpenAIError};
use crate::ids::validate_trimmed_path_id;
use crate::json::{set_object_flag, with_flag};
use crate::literal::{opt_literal, Literal, OpenLiteral};
use crate::query::{append_percent_query, opt_pair, opt_u32_decimal, opt_view, pairs_view, percent_query, texts_view, with_query, QueryPairs};
use crate::request::{plain, ApiRequest, BodyView, HttpMethod, RequestBody};
use crate::sse::SseFrame;
use crate::text::{is_blank, is_blank_spec, push_str, str_eq, trim, trim_spec};

verus! {


/// Chat message content-part discriminator.
#[derive(Clone, Debug, PartialEq, Eq)]
pub enum ChatCompletionContentPartType {
    Text,
    ImageUrl,
    InputAudio,
    File,
    Refusal,
    /// A value this library does not know, kept as received.
    Unknown(String),
}

impl Literal for ChatCompletionContentPartType {
    open spec fn literal(&self) -> Seq<char> {
        match self {
            ChatCompletionContentPartType::Text => "text"@,
            ChatCompletionContentPartType::ImageUrl => "image_url"@,
            ChatCompletionContentPartType::InputAudio => "input_audio"@,
            ChatCompletionContentPartType::File => "file"@,
            ChatCompletionContentPartType::Refusal => "refusal"@,
            ChatCompletionContentPartType::Unknown(text) => text@,
        }
    }

    fn to_text(&self) -> (r: String) {
        self.as_str().to_string()
    }
}

impl OpenLiteral for ChatCompletionContentPartType {
    open spec fn known(text: Seq<char>) -> Option<ChatCompletionContentPartType> {
        if text == "text"@ {
            Some(ChatCompletionContentPartType::Text)
        } else if text == "image_url"@ {
            Some(ChatCompletionContentPartType::ImageUrl)
        } else if text == "input_audio"@ {
            Some(ChatCompletionContentPartType::InputAudio)
        } else if text == "file"@ {
            Some(ChatCompletionContentPartType::File)
        } else if text == "refusal"@ {
            Some(ChatCompletionContentPartType::Refusal)
        } else {
            None
        }
    }

    open spec fn is_unknown(&self) -> bool {
        self is Unknown
    }

    proof fn lemma_known_literal(value: Self) {
        reveal_strlit("text");
        reveal_strlit("image_url");
        reveal_strlit("input_audio");
        reveal_strlit("file");
        reveal_strlit("refusal");
        assert("text"@.len() == 4);
        assert("image_url"@.len() == 9);
        assert("input_audio"@.len() == 11);
        assert("file"@.len() == 4);
        assert("refusal"@.len() == 7);
        assert("text"@[0] == 't');
        assert("file"@[0] == 'f');
    }

    proof fn lemma_known_text(text: Seq<char>) {
    }
}

impl ChatCompletionContentPartType {
    /// The text the API uses for this value.
    pub fn as_str(&self) -> (r: &str)
        ensures
            r@ == self.literal(),
    {
        match self {
            ChatCompletionContentPartType::Text => "text",
            ChatCompletionContentPartType::ImageUrl => "image_url",
            ChatCompletionContentPartType::InputAudio => "input_audio",
            ChatCompletionContentPartType::File => "file",
            ChatCompletionContentPartType::Refusal => "refusal",
            ChatCompletionContentPartType::Unknown(text) => text.as_str(),
        }
    }

    /// The value a text names; a text no variant uses is kept as `Unknown`.
    pub fn from_text(value: &str) -> (r: ChatCompletionContentPartType)
        ensures
            r.literal() == value@,
            r.is_unknown() == (ChatCompletionContentPartType::known(value@) is None),
            ChatCompletionContentPartType::known(value@) matches Some(k) ==> r == k,
    {
        if str_eq(value, "text") {
            ChatCompletionContentPartType::Text
        } else if str_eq(value, "image_url") {
            ChatCompletionContentPartType::ImageUrl
        } else if str_eq(value, "input_audio") {
            ChatCompletionContentPartType::InputAudio
        } else if str_eq(value, "file") {
            ChatCompletionContentPartType::File
        } else if str_eq(value, "refusal") {
            ChatCompletionContentPartType::Refusal
        } else {
            ChatCompletionContentPartType::Unknown(value.to_string())
        }
    }
}

impl Default for ChatCompletionContentPartType {
    fn default() -> (r: ChatCompletionContentPartType)
        ensures
            r.literal() == Seq::<char>::empty(),
            r is Unknown,
    {
        ChatCompletionContentPartType::Unknown(String::new())
    }
}

/// Predicted-content discriminator used by chat completions.
#[derive(Clone, Debug, PartialEq, Eq)]
pub enum ChatCompletionPredictionContentType {
    Content,
    /// A value this library does not know, kept as received.
    Unknown(String),
}

impl Literal for ChatCompletionPredictionContentType {
    open spec fn literal(&self) -> Seq<char> {
        match self {
            ChatCompletionPredictionContentType::Content => "content"@,
            ChatCompletionPredictionContentType::Unknown(text) => text@,
        }
    }

    fn to_text(&self) -> (r: String) {
        self.as_str().to_string()
    }
}

impl OpenLiteral for ChatCompletionPredictionContentType {
    open spec fn known(text: Seq<char>) -> Option<ChatCompletionPredictionContentType> {
        if text == "content"@ {
            Some(ChatCompletionPredictionContentType::Content)
        } else {
            None
        }
    }

    open spec fn is_unknown(&self) -> bool {
        self is Unknown
    }

    proof fn lemma_known_literal(value: Self) {
        reveal_strlit("content");
        assert("content"@.len() == 7);
    }

    proof fn lemma_known_text(text: Seq<char>) {
    }
}

impl ChatCompletionPredictionContentType {
    /// The text the API uses for this value.
    pub fn as_str(&self) -> (r: &str)
        ensures
            r@ == self.literal(),
    {
        match self {
            ChatCompletionPredictionContentType::Content => "content",
            ChatCompletionPredictionContentType::Unknown(text) => text.as_str(),
        }
    }

    /// The value a text names; a text no variant uses is kept as `Unknown`.
    pub fn from_text(value: &str) -> (r: ChatCompletionPredictionContentType)
        ensures
            r.literal() == value@,
            r.is_unknown() == (ChatCompletionPredictionContentType::known(value@) is None),
            ChatCompletionPredictionContentType::known(value@) matches Some(k) ==> r == k,
    {
        if str_eq(value, "content") {
            ChatCompletionPredictionContentType::Content
        } else {
            ChatCompletionPredictionContentType::Unknown(value.to_string())
        }
    }
}

impl Default for ChatCompletionPredictionContentType {
    fn default() -> (r: ChatCompletionPredictionContentType)
        ensures
            r.literal() == Seq::<char>::empty(),
            r is Unknown,
    {
        ChatCompletionPredictionContentType::Unknown(String::new())
    }
}

/// Chat tool discriminator.
#[derive(Clone, Debug, PartialEq, Eq)]
pub enum ChatCompletionToolType {
    Function,
    Custom,
    /// A value this library does not know, kept as received.
    Unknown(String),
}

impl Literal for ChatCompletionToolType {
    open spec fn literal(&self) -> Seq<char> {
        match self {
            ChatCompletionToolType::Function => "function"@,
            ChatCompletionToolType::Custom => "custom"@,
            ChatCompletionToolType::Unknown(text) => text@,
        }
    }

    fn to_text(&self) -> (r: String) {
        self.as_str().to_string()
    }
}

impl OpenLiteral for ChatCompletionToolType {
    open spec fn known(text: Seq<char>) -> Option<ChatCompletionToolType> {
        if text == "function"@ {
            Some(ChatCompletionToolType::Function)
        } else if text == "custom"@ {
            Some(ChatCompletionToolType::Custom)
        } else {
            None
        }
    }

    open spec fn is_unknown(&self) -> bool {
        self is Unknown
    }

    proof fn lemma_known_literal(value: Self) {
        reveal_strlit("function");
        reveal_strlit("custom");
        assert("function"@.len() == 8);
        assert("custom"@.len() == 6);
    }

    proof fn lemma_known_text(text: Seq<char>) {
    }
}

impl ChatCompletionToolType {
    /// The text the API uses for this value.
    pub fn as_str(&self) -> (r: &str)
        ensures
            r@ == self.literal(),
    {
        match self {
            ChatCompletionToolType::Function => "function",
            ChatCompletionToolType::Custom => "custom",
            ChatCompletionToolType::Unknown(text) => text.as_str(),
        }
    }

    /// The value a text names; a text no variant uses is kept as `Unknown`.
    pub fn from_text(value: &str) -> (r: ChatCompletionToolType)
        ensures
            r.literal() == value@,
            r.is_unknown() == (ChatCompletionToolType::known(value@) is None),
            ChatCompletionToolType::known(value@) matches Some(k) ==> r == k,
    {
        if str_eq(value, "function") {
            ChatCompletionToolType::Function
        } else if str_eq(value, "custom") {
            ChatCompletionToolType::Custom
        } else {
            ChatCompletionToolType::Unknown(value.to_string())
        }
    }
}

impl Default for ChatCompletionToolType {
    fn default() -> (r: ChatCompletionToolType)
        ensures
            r.literal() == Seq::<char>::empty(),
            r is Unknown,
    {
        ChatCompletionToolType::Unknown(String::new())
    }
}

/// Chat allowed-tool choice discriminator.
#[derive(Clone, Debug, PartialEq, Eq)]
pub enum ChatCompletionAllowedToolChoiceType {
    AllowedTools,
    /// A value this library does not know, kept as received.
    Unknown(String),
}

impl Literal for ChatCompletionAllowedToolChoiceType {
    open spec fn literal(&self) -> Seq<char> {
        match self {
            ChatCompletionAllowedToolChoiceType::AllowedTools => "allowed_tools"@,
            ChatCompletionAllowedToolChoiceType::Unknown(text) => text@,
        }
    }

    fn to_text(&self) -> (r: String) {
        self.as_str().to_string()
    }
}

impl OpenLiteral for ChatCompletionAllowedToolChoiceType {
    open spec fn known(text: Seq<char>) -> Option<ChatCompletionAllowedToolChoiceType> {
        if text == "allowed_tools"@ {
            Some(ChatCompletionAllowedToolChoiceType::AllowedTools)
        } else {
            None
        }
    }

    open spec fn is_unknown(&self) -> bool {
        self is Unknown
    }

    proof fn lemma_known_literal(value: Self) {
        reveal_strlit("allowed_tools");
        assert("allowed_tools"@.len() == 13);
    }

    proof fn lemma_known_text(text: Seq<char>) {
    }
}

impl ChatCompletionAllowedToolChoiceType {
    /// The text the API uses for this value.
    pub fn as_str(&self) -> (r: &str)
        ensures
            r@ == self.literal(),
    {
        match self {
            ChatCompletionAllowedToolChoiceType::AllowedTools => "allowed_tools",
            ChatCompletionAllowedToolChoiceType::Unknown(text) => text.as_str(),
        }
    }

    /// The value a text names; a text no variant uses is kept as `Unknown`.
    pub fn from_text(value: &str) -> (r: ChatCompletionAllowedToolChoiceType)
        ensures
            r.literal() == value@,
            r.is_unknown() == (ChatCompletionAllowedToolChoiceType::known(value@) is None),
            ChatCompletionAllowedToolChoiceType::known(value@) matches Some(k) ==> r == k,
    {
        if str_eq(value, "allowed_tools") {
            ChatCompletionAllowedToolChoiceType::AllowedTools
        } else {
            ChatCompletionAllowedToolChoiceType::Unknown(value.to_string())
        }
    }
}

impl Default for ChatCompletionAllowedToolChoiceType {
    fn default() -> (r: ChatCompletionAllowedToolChoiceType)
        ensures
            r.literal() == Seq::<char>::empty(),
            r is Unknown,
    {
        ChatCompletionAllowedToolChoiceType::Unknown(String::new())
    }
}

/// Mode used by a constrained chat tool choice.
#[derive(Clone, Debug, PartialEq, Eq)]
pub enum ChatCompletionAllowedToolsMode {
    Auto,
    Required,
    /// A value this library does not know, kept as received.
    Unknown(String),
}

impl Literal for ChatCompletionAllowedToolsMode {
    open spec fn literal(&self) -> Seq<char> {
        match self {
            ChatCompletionAllowedToolsMode::Auto => "auto"@,
            ChatCompletionAllowedToolsMode::Required => "required"@,
            ChatCompletionAllowedToolsMode::Unknown(text) => text@,
        }
    }

    fn to_text(&self) -> (r: String) {
        self.as_str().to_string()
    }
}

impl OpenLiteral for ChatCompletionAllowedToolsMode {
    open spec fn known(text: Seq<char>) -> Option<ChatCompletionAllowedToolsMode> {
        if text == "auto"@ {
            Some(ChatCompletionAllowedToolsMode::Auto)
        } else if text == "required"@ {
            Some(ChatCompletionAllowedToolsMode::Required)
        } else {
            None
        }
    }

    open spec fn is_unknown(&self) -> bool {
        self is Unknown
    }

    proof fn lemma_known_literal(value: Self) {
        reveal_strlit("auto");
        reveal_strlit("required");
        assert("auto"@.len() == 4);
        assert("required"@.len() == 8);
    }

    proof fn lemma_known_text(text: Seq<char>) {
    }
}

impl ChatCompletionAllowedToolsMode {
    /// The text the API uses for this value.
    pub fn as_str(&self) -> (r: &str)
        ensures
            r@ == self.literal(),
    {
        match self {
            ChatCompletionAllowedToolsMode::Auto => "auto",
            ChatCompletionAllowedToolsMode::Required => "required",
            ChatCompletionAllowedToolsMode::Unknown(text) => text.as_str(),
        }
    }

    /// The value a text names; a text no variant uses is kept as `Unknown`.
    pub fn from_text(value: &str) -> (r: ChatCompletionAllowedToolsMode)
        ensures
            r.literal() == value@,
            r.is_unknown() == (ChatCompletionAllowedToolsMode::known(value@) is None),
            ChatCompletionAllowedToolsMode::known(value@) matches Some(k) ==> r == k,
    {
        if str_eq(value, "auto") {
            ChatCompletionAllowedToolsMode::Auto
        } else if str_eq(value, "required") {
            ChatCompletionAllowedToolsMode::Required
        } else {
            ChatCompletionAllowedToolsMode::Unknown(value.to_string())
        }
    }
}

impl Default for ChatCompletionAllowedToolsMode {
    fn default() -> (r: ChatCompletionAllowedToolsMode)
        ensures
            r.literal() == Seq::<char>::empty(),
            r is Unknown,
    {
        ChatCompletionAllowedToolsMode::Unknown(String::new())
    }
}

/// Chat web-search user-location discriminator.
#[derive(Clone, Debug, PartialEq, Eq)]
pub enum ChatWebSearchUserLocationType {
    Approximate,
    /// A value this library does not know, kept as received.
    Unknown(String),
}

impl Literal for ChatWebSearchUserLocationType {
    open spec fn literal(&self) -> Seq<char> {
        match self {
            ChatWebSearchUserLocationType::Approximate => "approximate"@,
            ChatWebSearchUserLocationType::Unknown(text) => text@,
        }
    }

    fn to_text(&self) -> (r: String) {
        self.as_str().to_string()
    }
}

impl OpenLiteral for ChatWebSearchUserLocationType {
    open spec fn known(text: Seq<char>) -> Option<ChatWebSearchUserLocationType> {
        if text == "approximate"@ {
            Some(ChatWebSearchUserLocationType::Approximate)
        } else {
            None
        }
    }

    open spec fn is_unknown(&self) -> bool {
        self is Unknown
    }

    proof fn lemma_known_literal(value: Self) {
        reveal_strlit("approximate");
        assert("approximate"@.len() == 11);
    }

    proof fn lemma_known_text(text: Seq<char>) {
    }
}

impl ChatWebSearchUserLocationType {
    /// The text the API uses for this value.
    pub fn as_str(&self) -> (r: &str)
        ensures
            r@ == self.literal(),
    {
        match self {
            ChatWebSearchUserLocationType::Approximate => "approximate",
            ChatWebSearchUserLocationType::Unknown(text) => text.as_str(),
        }
    }

    /// The value a text names; a text no variant uses is kept as `Unknown`.
    pub fn from_text(value: &str) -> (r: ChatWebSearchUserLocationType)
        ensures
            r.literal() == value@,
            r.is_unknown() == (ChatWebSearchUserLocationType::known(value@) is None),
            ChatWebSearchUserLocationType::known(value@) matches Some(k) ==> r == k,
    {
        if str_eq(value, "approximate") {
            ChatWebSearchUserLocationType::Approximate
        } else {
            ChatWebSearchUserLocationType::Unknown(value.to_string())
        }
    }
}

impl Default for ChatWebSearchUserLocationType {
    fn default() -> (r: ChatWebSearchUserLocationType)
        ensures
            r.literal() == Seq::<char>::empty(),
            r is Unknown,
    {
        ChatWebSearchUserLocationType::Unknown(String::new())
    }
}

/// Chat custom-tool format discriminator.
#[derive(Clone, Debug, PartialEq, Eq)]
pub enum ChatCompletionCustomToolFormatType {
    Grammar,
    /// A value this library does not know, kept as received.
    Unknown(String),
}

impl Literal for ChatCompletionCustomToolFormatType {
    open spec fn literal(&self) -> Seq<char> {
        match self {
            ChatCompletionCustomToolFormatType::Grammar => "grammar"@,
            ChatCompletionCustomToolFormatType::Unknown(text) => text@,
        }
    }

    fn to_text(&self) -> (r: String) {
        self.as_str().to_string()
    }
}

impl OpenLiteral for ChatCompletionCustomToolFormatType {
    open spec fn known(text: Seq<char>) -> Option<ChatCompletionCustomToolFormatType> {
        if text == "grammar"@ {
            Some(ChatCompletionCustomToolFormatType::Grammar)
        } else {
            None
        }
    }

    open spec fn is_unknown(&self) -> bool {
        self is Unknown
    }

    proof fn lemma_known_literal(value: Self) {
        reveal_strlit("grammar");
        assert("grammar"@.len() == 7);
    }

    proof fn lemma_known_text(text: Seq<char>) {
    }
}

impl ChatCompletionCustomToolFormatType {
    /// The text the API uses for this value.
    pub fn as_str(&self) -> (r: &str)
        ensures
            r@ == self.literal(),
    {
        match self {
            ChatCompletionCustomToolFormatType::Grammar => "grammar",
            ChatCompletionCustomToolFormatType::Unknown(text) => text.as_str(),
        }
    }

    /// The value a text names; a text no variant uses is kept as `Unknown`.
    pub fn from_text(value: &str) -> (r: ChatCompletionCustomToolFormatType)
        ensures
            r.literal() == value@,
            r.is_unknown() == (ChatCompletionCustomToolFormatType::known(value@) is None),
            ChatCompletionCustomToolFormatType::known(value@) matches Some(k) ==> r == k,
    {
        if str_eq(value, "grammar") {
            ChatCompletionCustomToolFormatType::Grammar
        } else {
            ChatCompletionCustomToolFormatType::Unknown(value.to_string())
        }
    }
}

impl Default for ChatCompletionCustomToolFormatType {
    fn default() -> (r: ChatCompletionCustomToolFormatType)
        ensures
            r.literal() == Seq::<char>::empty(),
            r is Unknown,
    {
        ChatCompletionCustomToolFormatType::Unknown(String::new())
    }
}

/// Grammar syntax accepted by chat custom tools.
#[derive(Clone, Debug, PartialEq, Eq)]
pub enum ChatCompletionCustomToolGrammarSyntax {
    Lark,
    Regex,
    /// A value this library does not know, kept as received.
    Unknown(String),
}

impl Literal for ChatCompletionCustomToolGrammarSyntax {
    open spec fn literal(&self) -> Seq<char> {
        match self {
            ChatCompletionCustomToolGrammarSyntax::Lark => "lark"@,
            ChatCompletionCustomToolGrammarSyntax::Regex => "regex"@,
            ChatCompletionCustomToolGrammarSyntax::Unknown(text) => text@,
        }
    }

    fn to_text(&self) -> (r: String) {
        self.as_str().to_string()
    }
}

impl OpenLiteral for ChatCompletionCustomToolGrammarSyntax {
    open spec fn known(text: Seq<char>) -> Option<ChatCompletionCustomToolGrammarSyntax> {
        if text == "lark"@ {
            Some(ChatCompletionCustomToolGrammarSyntax::Lark)
        } else if text == "regex"@ {
            Some(ChatCompletionCustomToolGrammarSyntax::Regex)
        } else {
            None
        }
    }

    open spec fn is_unknown(&self) -> bool {
        self is Unknown
    }

    proof fn lemma_known_literal(value: Self) {
        reveal_strlit("lark");
        reveal_strlit("regex");
        assert("lark"@.len() == 4);
        assert("regex"@.len() == 5);
    }

    proof fn lemma_known_text(text: Seq<char>) {
    }
}

impl ChatCompletionCustomToolGrammarSyntax {
    /// The text the API uses for this value.
    pub fn as_str(&self) -> (r: &str)
        ensures
            r@ == self.literal(),
    {
        match self {
            ChatCompletionCustomToolGrammarSyntax::Lark => "lark",
            ChatCompletionCustomToolGrammarSyntax::Regex => "regex",
            ChatCompletionCustomToolGrammarSyntax::Unknown(text) => text.as_str(),
        }
    }

    /// The value a text names; a text no variant uses is kept as `Unknown`.
    pub fn from_text(value: &str) -> (r: ChatCompletionCustomToolGrammarSyntax)
        ensures
            r.literal() == value@,
            r.is_unknown() == (ChatCompletionCustomToolGrammarSyntax::known(value@) is None),
            ChatCompletionCustomToolGrammarSyntax::known(value@) matches Some(k) ==> r == k,
    {
        if str_eq(value, "lark") {
            ChatCompletionCustomToolGrammarSyntax::Lark
        } else if str_eq(value, "regex") {
            ChatCompletionCustomToolGrammarSyntax::Regex
        } else {
            ChatCompletionCustomToolGrammarSyntax::Unknown(value.to_string())
        }
    }
}

impl Default for ChatCompletionCustomToolGrammarSyntax {
    fn default() -> (r: ChatCompletionCustomToolGrammarSyntax)
        ensures
            r.literal() == Seq::<char>::empty(),
            r is Unknown,
    {
        ChatCompletionCustomToolGrammarSyntax::Unknown(String::new())
    }
}

/// Chat message role literal used in chat completion responses and stream deltas.
#[derive(Clone, Debug, PartialEq, Eq)]
pub enum ChatCompletionRole {
    Developer,
    System,
    User,
    Assistant,
    Tool,
    Function,
    /// A value this library does not know, kept as received.
    Unknown(String),
}

impl Literal for ChatCompletionRole {
    open spec fn literal(&self) -> Seq<char> {
        match self {
            ChatCompletionRole::Developer => "developer"@,
            ChatCompletionRole::System => "system"@,
            ChatCompletionRole::User => "user"@,
            ChatCompletionRole::Assistant => "assistant"@,
            ChatCompletionRole::Tool => "tool"@,
            ChatCompletionRole::Function => "function"@,
            ChatCompletionRole::Unknown(text) => text@,
        }
    }

    fn to_text(&self) -> (r: String) {
        self.as_str().to_string()
    }
}

impl OpenLiteral for ChatCompletionRole {
    open spec fn known(text: Seq<char>) -> Option<ChatCompletionRole> {
        if text == "developer"@ {
            Some(ChatCompletionRole::Developer)
        } else if text == "system"@ {
            Some(ChatCompletionRole::System)
        } else if text == "user"@ {
            Some(ChatCompletionRole::User)
        } else if text == "assistant"@ {
            Some(ChatCompletionRole::Assistant)
        } else if text == "tool"@ {
            Some(ChatCompletionRole::Tool)
        } else if text == "function"@ {
            Some(ChatCompletionRole::Function)
        } else {
            None
        }
    }

    open spec fn is_unknown(&self) -> bool {
        self is Unknown
    }

    proof fn lemma_known_literal(value: Self) {
        reveal_strlit("developer");
        reveal_strlit("system");
        reveal_strlit("user");
        reveal_strlit("assistant");
        reveal_strlit("tool");
        reveal_strlit("function");
        assert("developer"@.len() == 9);
        assert("system"@.len() == 6);
        assert("user"@.len() == 4);
        assert("assistant"@.len() == 9);
        assert("tool"@.len() == 4);
        assert("function"@.len() == 8);
        assert("developer"@[0] == 'd');
        assert("assistant"@[0] == 'a');
        assert("user"@[0] == 'u');
        assert("tool"@[0] == 't');
    }

    proof fn lemma_known_text(text: Seq<char>) {
    }
}

impl ChatCompletionRole {
    /// The text the API uses for this value.
    pub fn as_str(&self) -> (r: &str)
        ensures
            r@ == self.literal(),
    {
        match self {
            ChatCompletionRole::Developer => "developer",
            ChatCompletionRole::System => "system",
            ChatCompletionRole::User => "user",
            ChatCompletionRole::Assistant => "assistant",
            ChatCompletionRole::Tool => "tool",
            ChatCompletionRole::Function => "function",
            ChatCompletionRole::Unknown(text) => text.as_str(),
        }
    }

    /// The value a text names; a text no variant uses is kept as `Unknown`.
    pub fn from_text(value: &str) -> (r: ChatCompletionRole)
        ensures
            r.literal() == value@,
            r.is_unknown() == (ChatCompletionRole::known(value@) is None),
            ChatCompletionRole::known(value@) matches Some(k) ==> r == k,
    {
        if str_eq(value, "developer") {
            ChatCompletionRole::Developer
        } else if str_eq(value, "system") {
            ChatCompletionRole::System
        } else if str_eq(value, "user") {
            ChatCompletionRole::User
        } else if str_eq(value, "assistant") {
            ChatCompletionRole::Assistant
        } else if str_eq(value, "tool") {
            ChatCompletionRole::Tool
        } else if str_eq(value, "function") {
            ChatCompletionRole::Function
        } else {
            ChatCompletionRole::Unknown(value.to_string())
        }
    }
}

impl Default for ChatCompletionRole {
    fn default() -> (r: ChatCompletionRole)
        ensures
            r.literal() == Seq::<char>::empty(),
            r is Unknown,
    {
        ChatCompletionRole::Unknown(String::new())
    }
}

/// Reason a chat completion choice stopped generating.
#[derive(Clone, Debug, PartialEq, Eq)]
pub enum ChatCompletionFinishReason {
    Stop,
    Length,
    ToolCalls,
    ContentFilter,
    FunctionCall,
    /// A value this library does not know, kept as received.
    Unknown(String),
}

impl Literal for ChatCompletionFinishReason {
    open spec fn literal(&self) -> Seq<char> {
        match self {
            ChatCompletionFinishReason::Stop => "stop"@,
            ChatCompletionFinishReason::Length => "length"@,
            ChatCompletionFinishReason::ToolCalls => "tool_calls"@,
            ChatCompletionFinishReason::ContentFilter => "content_filter"@,
            ChatCompletionFinishReason::FunctionCall => "function_call"@,
            ChatCompletionFinishReason::Unknown(text) => text@,
        }
    }

    fn to_text(&self) -> (r: String) {
        self.as_str().to_string()
    }
}

impl OpenLiteral for ChatCompletionFinishReason {
    open spec fn known(text: Seq<char>) -> Option<ChatCompletionFinishReason> {
        if text == "stop"@ {
            Some(ChatCompletionFinishReason::Stop)
        } else if text == "length"@ {
            Some(ChatCompletionFinishReason::Length)
        } else if text == "tool_calls"@ {
            Some(ChatCompletionFinishReason::ToolCalls)
        } else if text == "content_filter"@ {
            Some(ChatCompletionFinishReason::ContentFilter)
        } else if text == "function_call"@ {
            Some(ChatCompletionFinishReason::FunctionCall)
        } else {
            None
        }
    }

    open spec fn is_unknown(&self) -> bool {
        self is Unknown
    }

    proof fn lemma_known_literal(value: Self) {
        reveal_strlit("stop");
        reveal_strlit("length");
        reveal_strlit("tool_calls");
        reveal_strlit("content_filter");
        reveal_strlit("function_call");
        assert("stop"@.len() == 4);
        assert("length"@.len() == 6);
        assert("tool_calls"@.len() == 10);
        assert("content_filter"@.len() == 14);
        assert("function_call"@.len() == 13);
    }

    proof fn lemma_known_text(text: Seq<char>) {
    }
}

impl ChatCompletionFinishReason {
    /// The text the API uses for this value.
    pub fn as_str(&self) -> (r: &str)
        ensures
            r@ == self.literal(),
    {
        match self {
            ChatCompletionFinishReason::Stop => "stop",
            ChatCompletionFinishReason::Length => "length",
            ChatCompletionFinishReason::ToolCalls => "tool_calls",
            ChatCompletionFinishReason::ContentFilter => "content_filter",
            ChatCompletionFinishReason::FunctionCall => "function_call",
            ChatCompletionFinishReason::Unknown(text) => text.as_str(),
        }
    }

    /// The value a text names; a text no variant uses is kept as `Unknown`.
    pub fn from_text(value: &str) -> (r: ChatCompletionFinishReason)
        ensures
            r.literal() == value@,
            r.is_unknown() == (ChatCompletionFinishReason::known(value@) is None),
            ChatCompletionFinishReason::known(value@) matches Some(k) ==> r == k,
    {
        if str_eq(value, "stop") {
            ChatCompletionFinishReason::Stop
        } else if str_eq(value, "length") {
            ChatCompletionFinishReason::Length
        } else if str_eq(value, "tool_calls") {
            ChatCompletionFinishReason::ToolCalls
        } else if str_eq(value, "content_filter") {
            ChatCompletionFinishReason::ContentFilter
        } else if str_eq(value, "function_call") {
            ChatCompletionFinishReason::FunctionCall
        } else {
            ChatCompletionFinishReason::Unknown(value.to_string())
        }
    }
}

impl Default for ChatCompletionFinishReason {
    fn default() -> (r: ChatCompletionFinishReason)
        ensures
            r.literal() == Seq::<char>::empty(),
            r is Unknown,
    {
        ChatCompletionFinishReason::Unknown(String::new())
    }
}

/// Chat-completions output modalities.
#[derive(Clone, Copy, Debug, PartialEq, Eq)]
pub enum ChatCompletionModality {
    Text,
    Audio,
}

impl Literal for ChatCompletionModality {
    open spec fn literal(&self) -> Seq<char> {
        match self {
            ChatCompletionModality::Text => "text"@,
            ChatCompletionModality::Audio => "audio"@,
        }
    }

    fn to_text(&self) -> (r: String) {
        self.as_str().to_string()
    }
}

impl ChatCompletionModality {
    /// The text the API uses for this value.
    pub fn as_str(&self) -> (r: &'static str)
        ensures
            r@ == self.literal(),
    {
        match self {
            ChatCompletionModality::Text => "text",
            ChatCompletionModality::Audio => "audio",
        }
    }
}

/// Output audio format for chat completions.
#[derive(Clone, Copy, Debug, PartialEq, Eq)]
pub enum ChatCompletionAudioFormat {
    Wav,
    Aac,
    Mp3,
    Flac,
    Opus,
    Pcm16,
}

impl Literal for ChatCompletionAudioFormat {
    open spec fn literal(&self) -> Seq<char> {
        match self {
            ChatCompletionAudioFormat::Wav => "wav"@,
            ChatCompletionAudioFormat::Aac => "aac"@,
            ChatCompletionAudioFormat::Mp3 => "mp3"@,
            ChatCompletionAudioFormat::Flac => "flac"@,
            ChatCompletionAudioFormat::Opus => "opus"@,
            ChatCompletionAudioFormat::Pcm16 => "pcm16"@,
        }
    }

    fn to_text(&self) -> (r: String) {
        self.as_str().to_string()
    }
}

impl ChatCompletionAudioFormat {
    /// The text the API uses for this value.
    pub fn as_str(&self) -> (r: &'static str)
        ensures
            r@ == self.literal(),
    {
        match self {
            ChatCompletionAudioFormat::Wav => "wav",
            ChatCompletionAudioFormat::Aac => "aac",
            ChatCompletionAudioFormat::Mp3 => "mp3",
            ChatCompletionAudioFormat::Flac => "flac",
            ChatCompletionAudioFormat::Opus => "opus",
            ChatCompletionAudioFormat::Pcm16 => "pcm16",
        }
    }
}

/// Developer-role chat message parameter.
#[derive(Clone, Debug, PartialEq)]
pub struct ChatCompletionDeveloperMessageParam {
    pub content: ChatCompletionTextMessageContent,
    pub role: ChatCompletionRole,
    pub name: Option<String>,
    pub extra: BTreeMap<String, Value>,
}

/// System-role chat message parameter.
#[derive(Clone, Debug, PartialEq)]
pub struct ChatCompletionSystemMessageParam {
    pub content: ChatCompletionTextMessageContent,
    pub role: ChatCompletionRole,
    pub name: Option<String>,
    pub extra: BTreeMap<String, Value>,
}

/// Assistant-role chat message parameter.
#[derive(Clone, Debug, PartialEq)]
pub struct ChatCompletionAssistantMessageParam {
    pub role: ChatCompletionRole,
    pub audio: Option<ChatCompletionAssistantAudioParam>,
    pub content: Option<ChatCompletionAssistantMessageContent>,
    pub function_call: Option<ChatCompletionAssistantFunctionCallParam>,
    pub name: Option<String>,
    pub refusal: Option<String>,
    pub tool_calls: Option<Vec<ChatCompletionMessageToolCallParam>>,
    pub extra: BTreeMap<String, Value>,
}

/// Tool-role chat message parameter.
#[derive(Clone, Debug, PartialEq)]
pub struct ChatCompletionToolMessageParam {
    pub content: ChatCompletionTextMessageContent,
    pub role: ChatCompletionRole,
    pub tool_call_id: String,
    pub extra: BTreeMap<String, Value>,
}

/// Legacy function-role chat message parameter.
#[derive(Clone, Debug, PartialEq)]
pub struct ChatCompletionFunctionMessageParam {
    pub content: Option<String>,
    pub name: String,
    pub role: ChatCompletionRole,
    pub extra: BTreeMap<String, Value>,
}

/// Text-only message content used by developer, system, and tool messages.
#[derive(Clone, Debug, PartialEq)]
pub enum ChatCompletionTextMessageContent {
    Text(String),
    Parts(Vec<ChatCompletionContentPartText>),
}

/// Assistant message content accepted by chat completions.
#[derive(Clone, Debug, PartialEq)]
pub enum ChatCompletionAssistantMessageContent {
    Text(String),
    Parts(Vec<ChatCompletionAssistantContentPartParam>),
}

/// Assistant content part accepted by chat completions.
#[derive(Clone, Debug, PartialEq)]
pub enum ChatCompletionAssistantContentPartParam {
    Text(ChatCompletionContentPartText),
    Refusal(ChatCompletionContentPartRefusal),
}

/// File content part accepted in user chat messages.
#[derive(Clone, Debug, PartialEq)]
pub struct ChatCompletionContentPartFile {
    pub file: ChatCompletionContentPartFileValue,
    pub content_type: ChatCompletionContentPartType,
    pub extra: BTreeMap<String, Value>,
}

/// File value nested in a chat file content part.
#[derive(Clone, Debug, Default, PartialEq)]
pub struct ChatCompletionContentPartFileValue {
    pub file_data: Option<String>,
    pub file_id: Option<String>,
    pub filename: Option<String>,
    pub extra: BTreeMap<String, Value>,
}

/// Refusal content part accepted in assistant chat messages.
#[derive(Clone, Debug, PartialEq)]
pub struct ChatCompletionContentPartRefusal {
    pub refusal: String,
    pub content_type: ChatCompletionContentPartType,
    pub extra: BTreeMap<String, Value>,
}

/// Previous assistant audio response reference.
#[derive(Clone, Debug, Default, PartialEq)]
pub struct ChatCompletionAssistantAudioParam {
    pub id: String,
    pub extra: BTreeMap<String, Value>,
}

/// Deprecated assistant function-call payload.
#[derive(Clone, Debug, Default, PartialEq)]
pub struct ChatCompletionAssistantFunctionCallParam {
    pub arguments: String,
    pub name: String,
    pub extra: BTreeMap<String, Value>,
}

/// Tool-call parameter nested in assistant messages.
#[derive(Clone, Debug, PartialEq)]
pub enum ChatCompletionMessageToolCallParam {
    Function(ChatCompletionMessageFunctionToolCallParam),
    Custom(ChatCompletionMessageCustomToolCallParam),
}

/// Function tool-call parameter nested in assistant messages.
#[derive(Clone, Debug, PartialEq)]
pub struct ChatCompletionMessageFunctionToolCallParam {
    pub id: String,
    pub function: ChatCompletionMessageFunctionToolCallFunctionParam,
    pub tool_type: ChatCompletionToolType,
    pub extra: BTreeMap<String, Value>,
}

/// Function payload nested in an assistant tool-call parameter.
#[derive(Clone, Debug, Default, PartialEq)]
pub struct ChatCompletionMessageFunctionToolCallFunctionParam {
    pub arguments: String,
    pub name: String,
    pub extra: BTreeMap<String, Value>,
}

/// Custom tool-call parameter nested in assistant messages.
#[derive(Clone, Debug, PartialEq)]
pub struct ChatCompletionMessageCustomToolCallParam {
    pub id: String,
    pub custom: ChatCompletionMessageCustomToolCallCustomParam,
    pub tool_type: ChatCompletionToolType,
    pub extra: BTreeMap<String, Value>,
}

/// Custom payload nested in an assistant tool-call parameter.
#[derive(Clone, Debug, Default, PartialEq)]
pub struct ChatCompletionMessageCustomToolCallCustomParam {
    pub input: String,
    pub name: String,
    pub extra: BTreeMap<String, Value>,
}

/// Parameters for audio output from chat completions.
#[derive(Clone, Debug, Default, PartialEq)]
pub struct ChatCompletionAudioParams {
    pub format: ChatCompletionAudioFormat,
    pub voice: ChatCompletionVoice,
    pub extra: BTreeMap<String, Value>,
}

/// Built-in voice name or custom voice object.
#[derive(Clone, Debug, PartialEq)]
pub enum ChatCompletionVoice {
    Name(String),
    Custom(ChatCompletionVoiceId),
}

/// Custom voice reference for chat completion audio.
#[derive(Clone, Debug, Default, PartialEq)]
pub struct ChatCompletionVoiceId {
    pub id: String,
    pub extra: BTreeMap<String, Value>,
}

/// Streaming options for chat completions.
#[derive(Clone, Debug, Default, PartialEq)]
pub struct ChatCompletionStreamOptions {
    pub include_obfuscation: Option<bool>,
    pub include_usage: Option<bool>,
    pub extra: BTreeMap<String, Value>,
}

/// Stop sequence configuration for chat completions.
#[derive(Clone, Debug, PartialEq)]
pub enum ChatStop {
    String(String),
    Strings(Vec<String>),
}

/// Static predicted output content for faster matching completions.
#[derive(Clone, Debug, PartialEq)]
pub struct ChatCompletionPredictionContent {
    pub content: ChatCompletionPredictionContentValue,
    pub content_type: ChatCompletionPredictionContentType,
    pub extra: BTreeMap<String, Value>,
}

/// Prediction content value accepted by chat completions.
#[derive(Clone, Debug, PartialEq)]
pub enum ChatCompletionPredictionContentValue {
    Text(String),
    TextParts(Vec<ChatCompletionContentPartText>),
}

/// Text content part accepted in chat prediction content.
#[derive(Clone, Debug, PartialEq)]
pub struct ChatCompletionContentPartText {
    pub content_type: ChatCompletionContentPartType,
    pub text: String,
    pub extra: BTreeMap<String, Value>,
}

/// Response format configuration for chat completions.
#[derive(Clone, Debug, PartialEq)]
pub enum ChatCompletionResponseFormat {
    Text,
    JsonObject,
    JsonSchema(ChatCompletionResponseFormatJsonSchema),
}

/// JSON-schema response format payload for chat completions.
#[derive(Clone, Debug, Default, PartialEq)]
pub struct ChatCompletionResponseFormatJsonSchema {
    pub name: String,
    pub schema: Value,
    pub description: Option<String>,
    pub strict: Option<bool>,
    pub extra: BTreeMap<String, Value>,
}

/// Web search options for chat completions.
#[derive(Clone, Debug, Default, PartialEq)]
pub struct ChatWebSearchOptions {
    pub search_context_size: Option<SearchContextSize>,
    pub user_location: Option<ChatWebSearchUserLocation>,
    pub extra: BTreeMap<String, Value>,
}

/// Approximate user location wrapper for chat web search.
#[derive(Clone, Debug, PartialEq)]
pub struct ChatWebSearchUserLocation {
    pub approximate: ChatWebSearchUserLocationApproximate,
    pub location_type: ChatWebSearchUserLocationType,
    pub extra: BTreeMap<String, Value>,
}

/// Approximate location values for chat web search.
#[derive(Clone, Debug, Default, PartialEq)]
pub struct ChatWebSearchUserLocationApproximate {
    pub city: Option<String>,
    pub country: Option<String>,
    pub region: Option<String>,
    pub timezone: Option<String>,
    pub extra: BTreeMap<String, Value>,
}

/// Deprecated function-call selector for legacy chat function definitions.
#[derive(Clone, Debug, PartialEq)]
pub enum ChatCompletionFunctionCall {
    NoChoice,
    Auto,
    Named(ChatCompletionFunctionCallOption),
}

/// Named legacy function-call selector.
#[derive(Clone, Debug, Default, PartialEq)]
pub struct ChatCompletionFunctionCallOption {
    pub name: String,
    pub extra: BTreeMap<String, Value>,
}

/// Deprecated legacy function definition for chat completions.
#[derive(Clone, Debug, Default, PartialEq)]
pub struct ChatCompletionFunction {
    pub name: String,
    pub description: Option<String>,
    pub parameters: Option<Value>,
    pub extra: BTreeMap<String, Value>,
}

/// Tool-choice selector for chat completions.
#[derive(Clone, Debug, PartialEq)]
pub enum ChatCompletionToolChoice {
    NoChoice,
    Auto,
    Required,
    Function(ChatCompletionNamedToolChoiceFunction),
    Custom(ChatCompletionNamedToolChoiceCustom),
    AllowedTools(ChatCompletionAllowedToolChoice),
}

/// Function name used by a named chat tool choice.
#[derive(Clone, Debug, Default, PartialEq)]
pub struct ChatCompletionNamedToolChoiceFunction {
    pub name: String,
    pub extra: BTreeMap<String, Value>,
}

/// Custom tool name used by a named chat tool choice.
#[derive(Clone, Debug, Default, PartialEq)]
pub struct ChatCompletionNamedToolChoiceCustom {
    pub name: String,
    pub extra: BTreeMap<String, Value>,
}

/// Allowed-tool choice wrapper for chat completions.
#[derive(Clone, Debug, Default, PartialEq)]
pub struct ChatCompletionAllowedToolChoice {
    pub allowed_tools: ChatCompletionAllowedTools,
    pub choice_type: ChatCompletionAllowedToolChoiceType,
    pub extra: BTreeMap<String, Value>,
}

/// Set of tools allowed by a constrained chat tool choice.
#[derive(Clone, Debug, Default, PartialEq)]
pub struct ChatCompletionAllowedTools {
    pub mode: ChatCompletionAllowedToolsMode,
    pub tools: Vec<BTreeMap<String, Value>>,
    pub extra: BTreeMap<String, Value>,
}

/// Tool definition accepted by chat completions.
#[derive(Clone, Debug, PartialEq)]
pub enum ChatCompletionTool {
    Function(ChatCompletionFunctionTool),
    Custom(ChatCompletionCustomTool),
}

/// Function tool definition for chat completions.
#[derive(Clone, Debug, PartialEq)]
pub struct ChatCompletionFunctionTool {
    pub function: ChatCompletionFunctionDefinition,
    pub tool_type: ChatCompletionToolType,
    pub extra: BTreeMap<String, Value>,
}

/// Function definition nested in a chat tool.
#[derive(Clone, Debug, Default, PartialEq)]
pub struct ChatCompletionFunctionDefinition {
    pub name: String,
    pub description: Option<String>,
    pub parameters: Option<Value>,
    pub strict: Option<bool>,
    pub extra: BTreeMap<String, Value>,
}

/// Custom tool definition for chat completions.
#[derive(Clone, Debug, PartialEq)]
pub struct ChatCompletionCustomTool {
    pub custom: ChatCompletionCustomToolConfig,
    pub tool_type: ChatCompletionToolType,
    pub extra: BTreeMap<String, Value>,
}

/// Custom tool properties for chat completions.
#[derive(Clone, Debug, Default, PartialEq)]
pub struct ChatCompletionCustomToolConfig {
    pub name: String,
    pub description: Option<String>,
    pub format: Option<ChatCompletionCustomToolFormat>,
    pub extra: BTreeMap<String, Value>,
}

/// Input format for chat custom tools.
#[derive(Clone, Debug, PartialEq)]
pub enum ChatCompletionCustomToolFormat {
    Text,
    Grammar(ChatCompletionCustomToolGrammarFormat),
}

/// Grammar input format for chat custom tools.
#[derive(Clone, Debug, PartialEq)]
pub struct ChatCompletionCustomToolGrammarFormat {
    pub grammar: ChatCompletionCustomToolGrammar,
    pub format_type: ChatCompletionCustomToolFormatType,
    pub extra: BTreeMap<String, Value>,
}

/// Grammar definition for chat custom tools.
#[derive(Clone, Debug, Default, PartialEq)]
pub struct ChatCompletionCustomToolGrammar {
    pub definition: String,
    pub syntax: ChatCompletionCustomToolGrammarSyntax,
    pub extra: BTreeMap<String, Value>,
}

/// Metadata-only stored chat-completion update body.
#[derive(Clone, Debug, Default)]
pub struct StoredChatCompletionUpdateParams {
    pub metadata: Option<BTreeMap<String, String>>,
    pub extra: BTreeMap<String, Value>,
}

/// Query parameters for stored chat-completion message listing.
#[derive(Clone, Debug, Default, Eq, PartialEq)]
pub struct StoredChatCompletionMessagesListParams {
    pub after: Option<String>,
    pub limit: Option<u32>,
    pub order: Option<ListOrder>,
}

/// Typed chat completion object.
#[derive(Clone, Debug, PartialEq)]
pub struct ChatCompletion {
    pub id: String,
    pub object: String,
    pub created: i64,
    pub model: Option<String>,
    pub choices: Vec<ChatCompletionChoice>,
    pub service_tier: Option<ServiceTier>,
    pub system_fingerprint: Option<String>,
    pub usage: Option<ChatCompletionUsage>,
    pub extra: BTreeMap<String, Value>,
}

/// Typed choice on a chat completion.
#[derive(Clone, Debug, PartialEq)]
pub struct ChatCompletionChoice {
    pub index: usize,
    pub finish_reason: Option<ChatCompletionFinishReason>,
    pub message: ChatCompletionMessage,
    pub logprobs: Option<Value>,
    pub extra: BTreeMap<String, Value>,
}

/// Typed assistant/user/system message for chat completions.
#[derive(Clone, Debug, Default, PartialEq)]
pub struct ChatCompletionMessage {
    pub role: Option<ChatCompletionRole>,
    pub content: Option<String>,
    pub refusal: Option<String>,
    pub annotations: Vec<ChatCompletionAnnotation>,
    pub audio: Option<ChatCompletionAudio>,
    pub function_call: Option<LegacyFunctionCall>,
    pub tool_calls: Vec<ChatCompletionMessageToolCall>,
    pub extra: BTreeMap<String, Value>,
}

/// URL citation annotation attached to a chat-completion message.
#[derive(Clone, Debug, Default, PartialEq)]
pub struct ChatCompletionAnnotation {
    pub annotation_type: Option<String>,
    pub url_citation: Option<ChatCompletionUrlCitation>,
    pub extra: BTreeMap<String, Value>,
}

/// URL-citation details for a chat-completion annotation.
#[derive(Clone, Debug, Default, PartialEq)]
pub struct ChatCompletionUrlCitation {
    pub end_index: i64,
    pub start_index: i64,
    pub title: String,
    pub url: String,
    pub extra: BTreeMap<String, Value>,
}

/// Audio response metadata for chat completions.
#[derive(Clone, Debug, Default, PartialEq)]
pub struct ChatCompletionAudio {
    pub id: String,
    pub data: String,
    pub expires_at: i64,
    pub transcript: String,
    pub extra: BTreeMap<String, Value>,
}

/// Legacy `function_call` object retained for compatibility.
#[derive(Clone, Debug, Default, PartialEq)]
pub struct LegacyFunctionCall {
    pub name: Option<String>,
    pub arguments: Option<String>,
    pub extra: BTreeMap<String, Value>,
}

/// Indexed tool-call record on a compatibility message.
#[derive(Clone, Debug, Default, PartialEq)]
pub struct ChatCompletionMessageToolCall {
    pub id: Option<String>,
    pub index: Option<usize>,
    pub tool_type: Option<ChatCompletionToolType>,
    pub function: ToolCallFunction,
    pub custom: Option<ChatCompletionMessageCustomToolCallCustom>,
    pub extra: BTreeMap<String, Value>,
}

/// Function payload inside a tool-call record.
#[derive(Clone, Debug, Default, PartialEq)]
pub struct ToolCallFunction {
    pub name: Option<String>,
    pub arguments: Option<String>,
    pub extra: BTreeMap<String, Value>,
}

/// Custom tool payload inside a tool-call record.
#[derive(Clone, Debug, Default, PartialEq)]
pub struct ChatCompletionMessageCustomToolCallCustom {
    pub name: Option<String>,
    pub input: Option<String>,
    pub extra: BTreeMap<String, Value>,
}

/// Parsed tool-call record on a compatibility message.
#[derive(Clone, Debug, PartialEq)]
pub struct ParsedChatCompletionMessageToolCall {
    pub id: Option<String>,
    pub index: Option<usize>,
    pub tool_type: Option<ChatCompletionToolType>,
    pub function: ParsedToolCallFunction,
    pub custom: Option<ChatCompletionMessageCustomToolCallCustom>,
    pub extra: BTreeMap<String, Value>,
}

/// Function payload with parsed strict arguments.
#[derive(Clone, Debug, PartialEq)]
pub struct ParsedToolCallFunction {
    pub name: Option<String>,
    pub arguments: Option<String>,
    pub parsed_arguments: Option<Value>,
    pub extra: BTreeMap<String, Value>,
}

/// Usage statistics for chat completions and chat streaming usage chunks.
#[derive(Clone, Debug, Default, PartialEq)]
pub struct ChatCompletionUsage {
    pub completion_tokens: u64,
    pub prompt_tokens: u64,
    pub total_tokens: u64,
    pub completion_tokens_details: Option<ChatCompletionTokensDetails>,
    pub prompt_tokens_details: Option<ChatPromptTokensDetails>,
    pub extra: BTreeMap<String, Value>,
}

/// Completion-token breakdown for chat usage.
#[derive(Clone, Debug, Default, PartialEq)]
pub struct ChatCompletionTokensDetails {
    pub accepted_prediction_tokens: Option<u64>,
    pub audio_tokens: Option<u64>,
    pub reasoning_tokens: Option<u64>,
    pub rejected_prediction_tokens: Option<u64>,
    pub extra: BTreeMap<String, Value>,
}

/// Prompt-token breakdown for chat usage.
#[derive(Clone, Debug, Default, PartialEq)]
pub struct ChatPromptTokensDetails {
    pub audio_tokens: Option<u64>,
    pub cached_tokens: Option<u64>,
    pub extra: BTreeMap<String, Value>,
}

/// Typed stored chat-completion message.
#[derive(Clone, Debug, Default, PartialEq)]
pub struct StoredChatCompletionMessage {
    pub id: Option<String>,
    pub object: Option<String>,
    pub role: Option<ChatCompletionRole>,
    pub content: Option<String>,
    pub tool_calls: Vec<ChatCompletionMessageToolCall>,
    pub function_call: Option<LegacyFunctionCall>,
    pub extra: BTreeMap<String, Value>,
}

/// Typed stored-completion deletion marker.
#[derive(Clone, Debug, PartialEq)]
pub struct DeletedChatCompletion {
    pub id: String,
    pub object: String,
    pub deleted: bool,
    pub extra: BTreeMap<String, Value>,
}

/// Typed streamed chat-completion chunk.
#[derive(Clone, Debug, PartialEq)]
pub struct ChatCompletionChunk {
    pub id: String,
    pub object: String,
    pub created: i64,
    pub model: Option<String>,
    pub choices: Vec<ChatCompletionChunkChoice>,
    pub service_tier: Option<ServiceTier>,
    pub system_fingerprint: Option<String>,
    pub usage: Option<ChatCompletionUsage>,
    pub extra: BTreeMap<String, Value>,
}

/// Choice inside a streamed chat-completion chunk.
#[derive(Clone, Debug, PartialEq)]
pub struct ChatCompletionChunkChoice {
    pub index: usize,
    pub delta: ChatCompletionChunkDelta,
    pub finish_reason: Option<ChatCompletionFinishReason>,
    pub logprobs: Option<Value>,
    pub extra: BTreeMap<String, Value>,
}

/// Delta payload inside a streamed chat-completion chunk.
#[derive(Clone, Debug, Default, PartialEq)]
pub struct ChatCompletionChunkDelta {
    pub role: Option<ChatCompletionRole>,
    pub content: Option<String>,
    pub refusal: Option<String>,
    pub function_call: Option<LegacyFunctionCall>,
    pub tool_calls: Vec<ChatCompletionMessageToolCall>,
    pub extra: BTreeMap<String, Value>,
}

impl ChatCompletionDeveloperMessageParam {
    pub fn new(content: ChatCompletionTextMessageContent) -> (r: ChatCompletionDeveloperMessageParam)
        ensures
            r.content == content,
            r.role == ChatCompletionRole::Developer,
            r.name is None,
            r.extra@ == Map::<String, Value>::empty(),
    {
        ChatCompletionDeveloperMessageParam {
            content: content,
            role: ChatCompletionRole::Developer,
            name: None,
            extra: BTreeMap::new(),
        }
    }
}

impl ChatCompletionSystemMessageParam {
    pub fn new(content: ChatCompletionTextMessageContent) -> (r: ChatCompletionSystemMessageParam)
        ensures
            r.content == content,
            r.role == ChatCompletionRole::System,
            r.name is None,
            r.extra@ == Map::<String, Value>::empty(),
    {
        ChatCompletionSystemMessageParam {
            content: content,
            role: ChatCompletionRole::System,
            name: None,
            extra: BTreeMap::new(),
        }
    }
}

impl ChatCompletionAssistantMessageParam {
    pub fn new(content: Option<ChatCompletionAssistantMessageContent>) -> (r: ChatCompletionAssistantMessageParam)
        ensures
            r.role == ChatCompletionRole::Assistant,
            r.audio is None,
            r.content == content,
            r.function_call is None,
            r.name is None,
            r.refusal is None,
            r.tool_calls is None,
            r.extra@ == Map::<String, Value>::empty(),
    {
        ChatCompletionAssistantMessageParam {
            role: ChatCompletionRole::Assistant,
            audio: None,
            content: content,
            function_call: None,
            name: None,
            refusal: None,
            tool_calls: None,
            extra: BTreeMap::new(),
        }
    }
}

impl ChatCompletionToolMessageParam {
    pub fn new(tool_call_id: String, content: ChatCompletionTextMessageContent) -> (r: ChatCompletionToolMessageParam)
        ensures
            r.content == content,
            r.role == ChatCompletionRole::Tool,
            r.tool_call_id == tool_call_id,
            r.extra@ == Map::<String, Value>::empty(),
    {
        ChatCompletionToolMessageParam {
            content: content,
            role: ChatCompletionRole::Tool,
            tool_call_id: tool_call_id,
            extra: BTreeMap::new(),
        }
    }
}

impl ChatCompletionFunctionMessageParam {
    pub fn new(name: String, content: Option<String>) -> (r: ChatCompletionFunctionMessageParam)
        ensures
            r.content == content,
            r.name == name,
            r.role == ChatCompletionRole::Function,
            r.extra@ == Map::<String, Value>::empty(),
    {
        ChatCompletionFunctionMessageParam {
            content: content,
            name: name,
            role: ChatCompletionRole::Function,
            extra: BTreeMap::new(),
        }
    }
}

impl ChatCompletionContentPartFile {
    pub fn new(file: ChatCompletionContentPartFileValue) -> (r: ChatCompletionContentPartFile)
        ensures
            r.file == file,
            r.content_type == ChatCompletionContentPartType::File,
            r.extra@ == Map::<String, Value>::empty(),
    {
        ChatCompletionContentPartFile {
            file: file,
            content_type: ChatCompletionContentPartType::File,
            extra: BTreeMap::new(),
        }
    }
}

impl ChatCompletionContentPartRefusal {
    pub fn new(refusal: String) -> (r: ChatCompletionContentPartRefusal)
        ensures
            r.refusal == refusal,
            r.content_type == ChatCompletionContentPartType::Refusal,
            r.extra@ == Map::<String, Value>::empty(),
    {
        ChatCompletionContentPartRefusal {
            refusal: refusal,
            content_type: ChatCompletionContentPartType::Refusal,
            extra: BTreeMap::new(),
        }
    }
}

impl ChatCompletionMessageFunctionToolCallParam {
    pub fn new(id: String, function: ChatCompletionMessageFunctionToolCallFunctionParam) -> (r: ChatCompletionMessageFunctionToolCallParam)
        ensures
            r.id == id,
            r.function == function,
            r.tool_type == ChatCompletionToolType::Function,
            r.extra@ == Map::<String, Value>::empty(),
    {
        ChatCompletionMessageFunctionToolCallParam {
            id: id,
            function: function,
            tool_type: ChatCompletionToolType::Function,
            extra: BTreeMap::new(),
        }
    }
}

impl ChatCompletionMessageCustomToolCallParam {
    pub fn new(id: String, custom: ChatCompletionMessageCustomToolCallCustomParam) -> (r: ChatCompletionMessageCustomToolCallParam)
        ensures
            r.id == id,
            r.custom == custom,
            r.tool_type == ChatCompletionToolType::Custom,
            r.extra@ == Map::<String, Value>::empty(),
    {
        ChatCompletionMessageCustomToolCallParam {
            id: id,
            custom: custom,
            tool_type: ChatCompletionToolType::Custom,
            extra: BTreeMap::new(),
        }
    }
}

impl ChatCompletionPredictionContent {
    pub fn text(content: String) -> (r: ChatCompletionPredictionContent)
        ensures
            r.content == ChatCompletionPredictionContentValue::Text(content),
            r.content_type == ChatCompletionPredictionContentType::Content,
            r.extra@ == Map::<String, Value>::empty(),
    {
        ChatCompletionPredictionContent {
            content: ChatCompletionPredictionContentValue::Text(content),
            content_type: ChatCompletionPredictionContentType::Content,
            extra: BTreeMap::new(),
        }
    }

    pub fn parts(content: Vec<ChatCompletionContentPartText>) -> (r: ChatCompletionPredictionContent)
        ensures
            r.content == ChatCompletionPredictionContentValue::TextParts(content),
            r.content_type == ChatCompletionPredictionContentType::Content,
            r.extra@ == Map::<String, Value>::empty(),
    {
        ChatCompletionPredictionContent {
            content: ChatCompletionPredictionContentValue::TextParts(content),
            content_type: ChatCompletionPredictionContentType::Content,
            extra: BTreeMap::new(),
        }
    }
}

impl ChatCompletionContentPartText {
    pub fn new(text: String) -> (r: ChatCompletionContentPartText)
        ensures
            r.content_type == ChatCompletionContentPartType::Text,
            r.text == text,
            r.extra@ == Map::<String, Value>::empty(),
    {
        ChatCompletionContentPartText {
            content_type: ChatCompletionContentPartType::Text,
            text: text,
            extra: BTreeMap::new(),
        }
    }
}

impl ChatWebSearchUserLocation {
    pub fn approximate(approximate: ChatWebSearchUserLocationApproximate) -> (r: ChatWebSearchUserLocation)
        ensures
            r.approximate == approximate,
            r.location_type == ChatWebSearchUserLocationType::Approximate,
            r.extra@ == Map::<String, Value>::empty(),
    {
        ChatWebSearchUserLocation {
            approximate: approximate,
            location_type: ChatWebSearchUserLocationType::Approximate,
            extra: BTreeMap::new(),
        }
    }
}

impl ChatCompletionAllowedToolChoice {
    pub fn new(allowed_tools: ChatCompletionAllowedTools) -> (r: ChatCompletionAllowedToolChoice)
        ensures
            r.allowed_tools == allowed_tools,
            r.choice_type == ChatCompletionAllowedToolChoiceType::AllowedTools,
            r.extra@ == Map::<String, Value>::empty(),
    {
        ChatCompletionAllowedToolChoice {
            allowed_tools: allowed_tools,
            choice_type: ChatCompletionAllowedToolChoiceType::AllowedTools,
            extra: BTreeMap::new(),
        }
    }
}

impl ChatCompletionFunctionTool {
    pub fn new(function: ChatCompletionFunctionDefinition) -> (r: ChatCompletionFunctionTool)
        ensures
            r.function == function,
            r.tool_type == ChatCompletionToolType::Function,
            r.extra@ == Map::<String, Value>::empty(),
    {
        ChatCompletionFunctionTool {
            function: function,
            tool_type: ChatCompletionToolType::Function,
            extra: BTreeMap::new(),
        }
    }
}

impl ChatCompletionCustomTool {
    pub fn new(custom: ChatCompletionCustomToolConfig) -> (r: ChatCompletionCustomTool)
        ensures
            r.custom == custom,
            r.tool_type == ChatCompletionToolType::Custom,
            r.extra@ == Map::<String, Value>::empty(),
    {
        ChatCompletionCustomTool {
            custom: custom,
            tool_type: ChatCompletionToolType::Custom,
            extra: BTreeMap::new(),
        }
    }
}

impl ChatCompletionCustomToolGrammarFormat {
    pub fn new(grammar: ChatCompletionCustomToolGrammar) -> (r: ChatCompletionCustomToolGrammarFormat)
        ensures
            r.grammar == grammar,
            r.format_type == ChatCompletionCustomToolFormatType::Grammar,
            r.extra@ == Map::<String, Value>::empty(),
    {
        ChatCompletionCustomToolGrammarFormat {
            grammar: grammar,
            format_type: ChatCompletionCustomToolFormatType::Grammar,
            extra: BTreeMap::new(),
        }
    }
}

/// Query parameters for stored chat-completion listing. `metadata` holds
/// `(key, value)` filters in ascending key order, each key once.
#[derive(Clone, Debug, Default)]
pub struct StoredChatCompletionsListParams {
    pub after: Option<String>,
    pub limit: Option<u32>,
    pub order: Option<ListOrder>,
    pub model: Option<String>,
    pub metadata: Vec<(String, String)>,
}

/// The `metadata[key]=value` filters of a listing.
pub open spec fn metadata_filters(entries: Seq<(Seq<char>, Seq<char>)>) -> Seq<(Seq<char>, Seq<char>)> {
    entries.map_values(|kv: (Seq<char>, Seq<char>)| ("metadata["@ + kv.0 + "]"@, kv.1))
}

impl StoredChatCompletionsListParams {
    /// The query pairs: `after`, `limit`, the metadata filters, `model`, `order`.
    pub fn to_query_pairs(&self) -> (r: Vec<(String, String)>)
        ensures
            pairs_view(r@) == opt_pair("after"@, opt_view(self.after)) + opt_pair(
                "limit"@,
                opt_u32_decimal(self.limit),
            ) + metadata_filters(pairs_view(self.metadata@)) + opt_pair("model"@, opt_view(self.model))
                + opt_pair("order"@, opt_literal(self.order)),
    {
        let mut q = QueryPairs::new();
        q.push_opt("after", self.after.clone());
        q.push_opt_u32("limit", self.limit);
        let ghost before = q@;
        let mut i: usize = 0;
        while i < self.metadata.len()
            invariant
                i <= self.metadata@.len(),
                q@ == before + metadata_filters(pairs_view(self.metadata@.subrange(0, i as int))),
            decreases self.metadata@.len() - i,
        {
            let mut key = "metadata[".to_string();
            push_str(&mut key, self.metadata[i].0.as_str());
            push_str(&mut key, "]");
            q.push(key.as_str(), self.metadata[i].1.clone());
            assert(pairs_view(self.metadata@.subrange(0, i + 1)) =~= pairs_view(
                self.metadata@.subrange(0, i as int),
            ).push((self.metadata@[i as int].0@, self.metadata@[i as int].1@)));
            assert(metadata_filters(pairs_view(self.metadata@.subrange(0, i + 1))) =~= metadata_filters(
                pairs_view(self.metadata@.subrange(0, i as int)),
            ).push(("metadata["@ + self.metadata@[i as int].0@ + "]"@, self.metadata@[i as int].1@)));
            i = i + 1;
        }
        assert(self.metadata@.subrange(0, self.metadata@.len() as int) =~= self.metadata@);
        q.push_opt("model", self.model.clone());
        q.push_opt_literal("order", &self.order);
        q.into_vec()
    }
}

impl StoredChatCompletionMessagesListParams {
    /// The query pairs: `after`, `limit`, `order`.
    pub fn to_query_pairs(&self) -> (r: Vec<(String, String)>)
        ensures
            pairs_view(r@) == opt_pair("after"@, opt_view(self.after)) + opt_pair(
                "limit"@,
                opt_u32_decimal(self.limit),
            ) + opt_pair("order"@, opt_literal(self.order)),
    {
        let mut q = QueryPairs::new();
        q.push_opt("after", self.after.clone());
        q.push_opt_u32("limit", self.limit);
        q.push_opt_literal("order", &self.order);
        q.into_vec()
    }
}

/// Stored chat-completions list envelope.
#[derive(Clone, Debug)]
pub struct StoredChatCompletionsPage {
    pub object: String,
    pub data: Vec<ChatCompletion>,
    pub first_id: Option<String>,
    pub last_id: Option<String>,
    pub has_more: bool,
    pub extra: BTreeMap<String, Value>,
}

impl StoredChatCompletionsPage {
    /// More pages follow when the server says so and names the last id.
    pub fn has_next_page(&self) -> (b: bool)
        ensures
            b == (self.has_more && self.last_id is Some),
    {
        self.has_more && self.last_id.is_some()
    }

    pub fn next_after(&self) -> (r: Option<&str>)
        ensures
            r is Some <==> (self.has_more && self.last_id is Some),
            r matches Some(id) ==> id@ == self.last_id->Some_0@,
    {
        match &self.last_id {
            Some(id) => if self.has_more {
                Some(id.as_str())
            } else {
                None
            },
            None => None,
        }
    }
}

/// Stored chat-completion message list envelope.
#[derive(Clone, Debug)]
pub struct StoredChatCompletionMessagesPage {
    pub object: String,
    pub data: Vec<StoredChatCompletionMessage>,
    pub first_id: Option<String>,
    pub last_id: Option<String>,
    pub has_more: bool,
    pub extra: BTreeMap<String, Value>,
}

impl StoredChatCompletionMessagesPage {
    /// More pages follow when the server says so and names the last id.
    pub fn has_next_page(&self) -> (b: bool)
        ensures
            b == (self.has_more && self.last_id is Some),
    {
        self.has_more && self.last_id.is_some()
    }

    pub fn next_after(&self) -> (r: Option<&str>)
        ensures
            r is Some <==> (self.has_more && self.last_id is Some),
            r matches Some(id) ==> id@ == self.last_id->Some_0@,
    {
        match &self.last_id {
            Some(id) => if self.has_more {
                Some(id.as_str())
            } else {
                None
            },
            None => None,
        }
    }
}

/// The body of a create request: the serialized parameters with `"stream"`
/// set to `stream` when they form a JSON object.
pub fn chat_request_body(params: Value, stream: bool) -> (r: Value)
    ensures
        with_flag(params, r, "stream"@, stream),
{
    let mut value = params;
    let _ = set_object_flag(&mut value, "stream", stream);
    value
}

/// Chat namespace.
#[derive(Clone, Copy, Debug)]
pub struct Chat {}

impl Chat {
    pub fn new() -> Chat {
        Chat {}
    }

    /// The Chat Completions surface.
    pub fn completions(&self) -> ChatCompletions {
        ChatCompletions::new()
    }
}

/// Stored and streamed Chat Completions.
#[derive(Clone, Copy, Debug)]
pub struct ChatCompletions {}

/// The path of one stored completion: the trimmed id after `/chat/completions/`.
pub open spec fn completion_path(id: Seq<char>) -> Seq<char> {
    "/chat/completions/"@ + trim_spec(id)
}

impl ChatCompletions {
    pub fn new() -> ChatCompletions {
        ChatCompletions {}
    }

    /// The stored-message listing helper.
    pub fn messages(&self) -> StoredChatCompletionMessages {
        StoredChatCompletionMessages::new()
    }

    /// Creates a non-streamed chat completion from the serialized parameters.
    pub fn create(&self, params: Value) -> (r: ApiRequest)
        ensures
            r@.body is JsonValue && r@ == plain(HttpMethod::Post, "/chat/completions"@, r@.body),
            with_flag(params, r@.body->JsonValue_0, "stream"@, false),
    {
        let body = chat_request_body(params, false);
        ApiRequest::new(HttpMethod::Post, "/chat/completions".to_string(), RequestBody::JsonValue(body))
    }

    /// Creates a streamed chat completion from the serialized parameters.
    pub fn stream(&self, params: Value) -> (r: ApiRequest)
        ensures
            r@.body is JsonValue && r@ == plain(HttpMethod::Post, "/chat/completions"@, r@.body),
            with_flag(params, r@.body->JsonValue_0, "stream"@, true),
    {
        let body = chat_request_body(params, true);
        ApiRequest::new(HttpMethod::Post, "/chat/completions".to_string(), RequestBody::JsonValue(body))
    }

    /// Retrieves a stored chat completion by id.
    pub fn retrieve(&self, completion_id: &str) -> (r: Result<ApiRequest, OpenAIError>)
        ensures
            r is Ok <==> trim_spec(completion_id@).len() > 0,
            r matches Ok(req) ==> req@ == plain(HttpMethod::Get, completion_path(completion_id@), BodyView::Empty),
            r matches Err(e) ==> e.kind == ErrorKind::Validation && e.message@ == blank_message("completion_id"@),
    {
        let id = validate_trimmed_path_id("completion_id", completion_id)?;
        let mut path = "/chat/completions/".to_string();
        push_str(&mut path, id);
        Ok(ApiRequest::new(HttpMethod::Get, path, RequestBody::Empty))
    }

    /// Updates stored chat-completion metadata; `body` is the serialized update.
    pub fn update(&self, completion_id: &str, body: String) -> (r: Result<ApiRequest, OpenAIError>)
        ensures
            r is Ok <==> trim_spec(completion_id@).len() > 0,
            r matches Ok(req) ==> req@ == plain(HttpMethod::Post, completion_path(completion_id@), BodyView::Json(body@)),
            r matches Err(e) ==> e.kind == ErrorKind::Validation && e.message@ == blank_message("completion_id"@),
    {
        let id = validate_trimmed_path_id("completion_id", completion_id)?;
        let mut path = "/chat/completions/".to_string();
        push_str(&mut path, id);
        Ok(ApiRequest::new(HttpMethod::Post, path, RequestBody::Json(body)))
    }

    /// Lists stored chat completions.
    pub fn list(&self, params: StoredChatCompletionsListParams) -> (r: ApiRequest)
        ensures
            ({
                let pairs = opt_pair("after"@, opt_view(params.after)) + opt_pair(
                    "limit"@,
                    opt_u32_decimal(params.limit),
                ) + metadata_filters(pairs_view(params.metadata@)) + opt_pair("model"@, opt_view(params.model))
                    + opt_pair("order"@, opt_literal(params.order));
                r@ == plain(
                    HttpMethod::Get,
                    with_query("/chat/completions"@, percent_query(pairs), pairs.len() > 0),
                    BodyView::Empty,
                )
            }),
    {
        let pairs = params.to_query_pairs();
        let path = append_percent_query("/chat/completions", &pairs);
        ApiRequest::new(HttpMethod::Get, path, RequestBody::Empty)
    }

    /// Deletes a stored chat completion.
    pub fn delete(&self, completion_id: &str) -> (r: Result<ApiRequest, OpenAIError>)
        ensures
            r is Ok <==> trim_spec(completion_id@).len() > 0,
            r matches Ok(req) ==> req@ == plain(HttpMethod::Delete, completion_path(completion_id@), BodyView::Empty),
            r matches Err(e) ==> e.kind == ErrorKind::Validation && e.message@ == blank_message("completion_id"@),
    {
        let id = validate_trimmed_path_id("completion_id", completion_id)?;
        let mut path = "/chat/completions/".to_string();
        push_str(&mut path, id);
        Ok(ApiRequest::new(HttpMethod::Delete, path, RequestBody::Empty))
    }
}

/// Stored-message helper under chat completions.
#[derive(Clone, Copy, Debug)]
pub struct StoredChatCompletionMessages {}

impl StoredChatCompletionMessages {
    pub fn new() -> StoredChatCompletionMessages {
        StoredChatCompletionMessages {}
    }

    /// Lists stored messages of one chat completion.
    pub fn list(&self, completion_id: &str, params: StoredChatCompletionMessagesListParams) -> (r: Result<
        ApiRequest,
        OpenAIError,
    >)
        ensures
            r is Ok <==> trim_spec(completion_id@).len() > 0,
            r matches Ok(req) ==> ({
                let pairs = opt_pair("after"@, opt_view(params.after)) + opt_pair(
                    "limit"@,
                    opt_u32_decimal(params.limit),
                ) + opt_pair("order"@, opt_literal(params.order));
                req@ == plain(
                    HttpMethod::Get,
                    with_query(completion_path(completion_id@) + "/messages"@, percent_query(pairs), pairs.len() > 0),
                    BodyView::Empty,
                )
            }),
            r matches Err(e) ==> e.kind == ErrorKind::Validation && e.message@ == blank_message("completion_id"@),
    {
        let id = validate_trimmed_path_id("completion_id", completion_id)?;
        let mut path = "/chat/completions/".to_string();
        push_str(&mut path, id);
        push_str(&mut path, "/messages");
        let pairs = params.to_query_pairs();
        Ok(ApiRequest::new(HttpMethod::Get, append_percent_query(path.as_str(), &pairs), RequestBody::Empty))
    }
}

/// Whether structured parsing reads message content: only for the JSON
/// object and JSON schema response formats.
pub open spec fn parses_content_spec(format: Option<ChatCompletionResponseFormat>) -> bool {
    (format matches Some(f) && (f is JsonObject || f is JsonSchema))
}

pub fn parses_content(format: &Option<ChatCompletionResponseFormat>) -> (b: bool)
    ensures
        b == parses_content_spec(*format),
{
    match format {
        Some(ChatCompletionResponseFormat::JsonObject) => true,
        Some(ChatCompletionResponseFormat::JsonSchema(_)) => true,
        _ => false,
    }
}

/// A choice can be parsed unless it stopped at the length limit or was filtered.
pub fn check_parseable_choice(finish_reason: &Option<ChatCompletionFinishReason>) -> (r: Result<(), OpenAIError>)
    ensures
        r is Ok <==> !(finish_reason matches Some(f) && (f is Length || f is ContentFilter)),
        r matches Err(e) ==> e.kind == ErrorKind::Parse && e.message@ == (if finish_reason->Some_0 is Length {
            "chat completion ended because it reached the length limit"@
        } else {
            "chat completion ended because content was filtered"@
        }),
{
    match finish_reason {
        Some(ChatCompletionFinishReason::Length) => Err(
            OpenAIError::new(
                ErrorKind::Parse,
                "chat completion ended because it reached the length limit".to_string(),
            ),
        ),
        Some(ChatCompletionFinishReason::ContentFilter) => Err(
            OpenAIError::new(
                ErrorKind::Parse,
                "chat completion ended because content was filtered".to_string(),
            ),
        ),
        _ => Ok(()),
    }
}

/// Whether a message's content is handed to the structured-output parser:
/// parsing is on, there is no refusal, and the content is not blank.
pub open spec fn content_to_parse_spec(parse_content: bool, message: ChatCompletionMessage) -> bool {
    parse_content && message.refusal is None && (message.content matches Some(c) && !is_blank_spec(c@))
}

pub fn content_to_parse(parse_content: bool, message: &ChatCompletionMessage) -> (b: bool)
    ensures
        b == content_to_parse_spec(parse_content, *message),
{
    if !parse_content || message.refusal.is_some() {
        return false;
    }
    match &message.content {
        Some(c) => !is_blank(c.as_str()),
        None => false,
    }
}

/// A function tool declared with `strict: true`.
pub open spec fn is_strict_function(tool: ChatCompletionTool) -> bool {
    (tool matches ChatCompletionTool::Function(t) && t.function.strict == Some(true))
}

/// The names of the strict function tools, in declaration order.
pub open spec fn strict_names(tools: Seq<ChatCompletionTool>) -> Seq<Seq<char>>
    decreases tools.len(),
{
    if tools.len() == 0 {
        seq![]
    } else {
        let rest = strict_names(tools.drop_last());
        if is_strict_function(tools.last()) {
            rest.push(tools.last()->Function_0.function.name@)
        } else {
            rest
        }
    }
}

/// The names of the strict function tools, in declaration order.
pub fn strict_chat_function_tool_names(tools: &Vec<ChatCompletionTool>) -> (r: Vec<String>)
    ensures
        texts_view(r@) == strict_names(tools@),
{
    let mut names: Vec<String> = Vec::new();
    let mut j: usize = 0;
    while j < tools.len()
        invariant
            j <= tools@.len(),
            texts_view(names@) == strict_names(tools@.subrange(0, j as int)),
        decreases tools@.len() - j,
    {
        assert(tools@.subrange(0, j + 1).drop_last() =~= tools@.subrange(0, j as int));
        match &tools[j] {
            ChatCompletionTool::Function(t) => {
                if t.function.strict == Some(true) {
                    names.push(t.function.name.clone());
                    assert(texts_view(names@) =~= strict_names(tools@.subrange(0, j as int)).push(t.function.name@));
                }
            },
            _ => {},
        }
        j = j + 1;
    }
    assert(tools@.subrange(0, tools@.len() as int) =~= tools@);
    names
}

/// Whether a tool call's arguments go to the strict-argument parser: it names
/// a strict function tool and carries arguments.
pub fn parses_tool_arguments(call: &ChatCompletionMessageToolCall, strict_names: &Vec<String>) -> (b: bool)
    ensures
        b == (call.function.name is Some && call.function.arguments is Some && texts_view(
            strict_names@,
        ).contains(call.function.name->Some_0@)),
{
    let name = match &call.function.name {
        Some(n) => n,
        None => return false,
    };
    if call.function.arguments.is_none() {
        return false;
    }
    let mut i: usize = 0;
    while i < strict_names.len()
        invariant
            i <= strict_names@.len(),
            call.function.name is Some,
            call.function.arguments is Some,
            name@ == call.function.name->Some_0@,
            forall|k: int| 0 <= k < i ==> strict_names@[k]@ != name@,
        decreases strict_names@.len() - i,
    {
        if str_eq(strict_names[i].as_str(), name.as_str()) {
            assert(texts_view(strict_names@)[i as int] == name@);
            return true;
        }
        i = i + 1;
    }
    assert forall|k: int| 0 <= k < texts_view(strict_names@).len() implies texts_view(
        strict_names@,
    )[k] != name@ by {
        assert(texts_view(strict_names@)[k] == strict_names@[k]@);
    }
    false
}

impl Default for ChatCompletionAudioFormat {
    fn default() -> (r: ChatCompletionAudioFormat)
        ensures
            r == ChatCompletionAudioFormat::Wav,
    {
        ChatCompletionAudioFormat::Wav
    }
}

impl Default for ChatCompletionVoice {
    fn default() -> (r: ChatCompletionVoice)
        ensures
            r matches ChatCompletionVoice::Name(n) && n@.len() == 0,
    {
        ChatCompletionVoice::Name(String::new())
    }
}

/// Chat completion returned by structured parsing.
#[derive(Clone, Debug)]
pub struct ParsedChatCompletion<T> {
    pub id: String,
    pub object: String,
    pub created: i64,
    pub model: Option<String>,
    pub choices: Vec<ParsedChatCompletionChoice<T>>,
    pub service_tier: Option<ServiceTier>,
    pub system_fingerprint: Option<String>,
    pub usage: Option<ChatCompletionUsage>,
    pub extra: BTreeMap<String, Value>,
}

/// Parsed choice on a chat completion.
#[derive(Clone, Debug)]
pub struct ParsedChatCompletionChoice<T> {
    pub index: usize,
    pub finish_reason: Option<ChatCompletionFinishReason>,
    pub message: ParsedChatCompletionMessage<T>,
    pub logprobs: Option<Value>,
    pub extra: BTreeMap<String, Value>,
}

/// Parsed assistant message for chat completions.
#[derive(Clone, Debug)]
pub struct ParsedChatCompletionMessage<T> {
    pub role: Option<ChatCompletionRole>,
    pub content: Option<String>,
    pub refusal: Option<String>,
    pub parsed: Option<T>,
    pub annotations: Vec<ChatCompletionAnnotation>,
    pub audio: Option<ChatCompletionAudio>,
    pub function_call: Option<LegacyFunctionCall>,
    pub tool_calls: Vec<ParsedChatCompletionMessageToolCall>,
    pub extra: BTreeMap<String, Value>,
}

impl<T> ParsedChatCompletion<T> {
    /// The parsed value of the first choice, when there is one.
    pub fn first_parsed(&self) -> (r: Option<&T>)
        ensures
            self.choices@.len() == 0 ==> r is None,
            self.choices@.len() > 0 ==> (r is Some <==> self.choices@[0].message.parsed is Some),
            r matches Some(p) ==> *p == self.choices@[0].message.parsed->Some_0,
    {
        if self.choices.len() == 0 {
            None
        } else {
            self.choices[0].message.parsed()
        }
    }
}

impl<T> ParsedChatCompletionMessage<T> {
    pub fn parsed(&self) -> (r: Option<&T>)
        ensures
            r is Some <==> self.parsed is Some,
            r matches Some(p) ==> *p == self.parsed->Some_0,
    {
        match &self.parsed {
            Some(p) => Some(p),
            None => None,
        }
    }
}


// ---------------------------------------------------------------------------
// Accumulating a streamed completion
// ---------------------------------------------------------------------------

/// Text built from streamed fragments: a fragment extends the text so far,
/// and the first fragment starts it.
pub open spec fn appended(text: Option<Seq<char>>, fragment: Option<Seq<char>>) -> Option<Seq<char>> {
    match fragment {
        Some(f) => match text {
            Some(t) => Some(t + f),
            None => Some(f),
        },
        None => text,
    }
}

/// `s` extended with `filler` up to length `n`; unchanged when already that long.
pub open spec fn padded<T>(s: Seq<T>, n: int, filler: T) -> Seq<T> {
    if s.len() >= n {
        s
    } else {
        s + Seq::new((n - s.len()) as nat, |i: int| filler)
    }
}

/// What accumulation tracks of one tool call.
pub struct ToolCallView {
    pub id: Option<Seq<char>>,
    pub index: Option<usize>,
    pub tool_type: Option<ChatCompletionToolType>,
    pub name: Option<Seq<char>>,
    pub arguments: Option<Seq<char>>,
    /// What deltas never carry: the custom payload and the extra fields of the
    /// call and of its function.
    pub untouched: (Option<ChatCompletionMessageCustomToolCallCustom>, Map<String, Value>, Map<String, Value>),
}

pub open spec fn tool_call_view(t: ChatCompletionMessageToolCall) -> ToolCallView {
    ToolCallView {
        id: opt_view(t.id),
        index: t.index,
        tool_type: t.tool_type,
        name: opt_view(t.function.name),
        arguments: opt_view(t.function.arguments),
        untouched: (t.custom, t.extra@, t.function.extra@),
    }
}

pub open spec fn tool_calls_view(ts: Seq<ChatCompletionMessageToolCall>) -> Seq<ToolCallView> {
    ts.map_values(|t: ChatCompletionMessageToolCall| tool_call_view(t))
}

pub open spec fn empty_tool_call() -> ToolCallView {
    ToolCallView {
        id: None,
        index: None,
        tool_type: None,
        name: None,
        arguments: None,
        untouched: (None, Map::empty(), Map::empty()),
    }
}

/// The slot a tool-call delta lands in: its `index`, or a new slot after the last.
pub open spec fn tool_slot(tools: Seq<ToolCallView>, d: ChatCompletionMessageToolCall) -> int {
    match d.index {
        Some(i) => i as int,
        None => tools.len() as int,
    }
}

/// One tool-call delta applied: the slot is created if missing, takes the
/// delta's id, type and name when given, and its arguments grow by the fragment.
pub open spec fn step_tool(tools: Seq<ToolCallView>, d: ChatCompletionMessageToolCall) -> Seq<ToolCallView> {
    let i = tool_slot(tools, d);
    let grown = padded(tools, i + 1, empty_tool_call());
    let t = grown[i];
    grown.update(
        i,
        ToolCallView {
            id: if d.id is Some {
                opt_view(d.id)
            } else {
                t.id
            },
            index: Some(i as usize),
            tool_type: if d.tool_type is Some {
                d.tool_type
            } else {
                t.tool_type
            },
            name: if d.function.name is Some {
                opt_view(d.function.name)
            } else {
                t.name
            },
            arguments: appended(t.arguments, opt_view(d.function.arguments)),
            untouched: t.untouched,
        },
    )
}

pub open spec fn step_tools(tools: Seq<ToolCallView>, ds: Seq<ChatCompletionMessageToolCall>) -> Seq<ToolCallView>
    decreases ds.len(),
{
    if ds.len() == 0 {
        tools
    } else {
        step_tool(step_tools(tools, ds.drop_last()), ds.last())
    }
}

/// What accumulation tracks of one choice.
pub struct ChoiceView {
    pub role: Option<ChatCompletionRole>,
    pub content: Option<Seq<char>>,
    pub refusal: Option<Seq<char>>,
    /// The legacy function call: its name, its arguments and its extra fields.
    pub function_call: Option<(Option<Seq<char>>, Option<Seq<char>>, Map<String, Value>)>,
    pub tool_calls: Seq<ToolCallView>,
    pub finish_reason: Option<ChatCompletionFinishReason>,
    /// What deltas never carry: the annotations, audio and extra fields of the message.
    pub untouched: (Seq<ChatCompletionAnnotation>, Option<ChatCompletionAudio>, Map<String, Value>),
}

pub open spec fn empty_choice() -> ChoiceView {
    ChoiceView {
        role: None,
        content: None,
        refusal: None,
        function_call: None,
        tool_calls: seq![],
        finish_reason: None,
        untouched: (seq![], None, Map::empty()),
    }
}

/// One choice delta applied to a choice.
pub open spec fn step_choice(c: ChoiceView, d: ChatCompletionChunkChoice) -> ChoiceView {
    ChoiceView {
        role: if d.delta.role is Some {
            d.delta.role
        } else {
            c.role
        },
        content: appended(c.content, opt_view(d.delta.content)),
        refusal: appended(c.refusal, opt_view(d.delta.refusal)),
        function_call: match d.delta.function_call {
            Some(f) => {
                let (name, arguments, extra) = match c.function_call {
                    Some(p) => p,
                    None => (None, None, Map::empty()),
                };
                Some(
                    (
                        if f.name is Some {
                            opt_view(f.name)
                        } else {
                            name
                        },
                        appended(arguments, opt_view(f.arguments)),
                        extra,
                    ),
                )
            },
            None => c.function_call,
        },
        tool_calls: step_tools(c.tool_calls, d.delta.tool_calls@),
        finish_reason: if d.finish_reason is Some {
            d.finish_reason
        } else {
            c.finish_reason
        },
        untouched: c.untouched,
    }
}

/// The choice deltas of one chunk applied in order; a delta for a choice not
/// seen yet creates it, and any missing ones before it.
pub open spec fn step_choices(cs: Seq<ChoiceView>, ds: Seq<ChatCompletionChunkChoice>) -> Seq<ChoiceView>
    decreases ds.len(),
{
    if ds.len() == 0 {
        cs
    } else {
        let prev = step_choices(cs, ds.drop_last());
        let d = ds.last();
        let grown = padded(prev, d.index + 1, empty_choice());
        grown.update(d.index as int, step_choice(grown[d.index as int], d))
    }
}

/// A choice being accumulated.
#[derive(Clone, Debug)]
pub struct AccumulatedChoice {
    pub message: ChatCompletionMessage,
    pub finish_reason: Option<ChatCompletionFinishReason>,
}

impl View for AccumulatedChoice {
    type V = ChoiceView;

    open spec fn view(&self) -> ChoiceView {
        ChoiceView {
            role: self.message.role,
            content: opt_view(self.message.content),
            refusal: opt_view(self.message.refusal),
            function_call: match self.message.function_call {
                Some(f) => Some((opt_view(f.name), opt_view(f.arguments), f.extra@)),
                None => None,
            },
            tool_calls: tool_calls_view(self.message.tool_calls@),
            finish_reason: self.finish_reason,
            untouched: (self.message.annotations@, self.message.audio, self.message.extra@),
        }
    }
}

pub open spec fn choices_view(cs: Seq<AccumulatedChoice>) -> Seq<ChoiceView> {
    cs.map_values(|c: AccumulatedChoice| c@)
}

/// Whether some choice of the chunk carries a finish reason.
pub open spec fn has_finish_reason(chunk: ChatCompletionChunk) -> bool {
    exists|i: int| 0 <= i < chunk.choices@.len() && (#[trigger] chunk.choices@[i]).finish_reason is Some
}

/// Usage figures carried over unchanged.
pub open spec fn same_usage(a: ChatCompletionUsage, b: ChatCompletionUsage) -> bool {
    &&& a.completion_tokens == b.completion_tokens
    &&& a.prompt_tokens == b.prompt_tokens
    &&& a.total_tokens == b.total_tokens
    &&& match (a.completion_tokens_details, b.completion_tokens_details) {
        (Some(x), Some(y)) => x.accepted_prediction_tokens == y.accepted_prediction_tokens
            && x.audio_tokens == y.audio_tokens && x.reasoning_tokens == y.reasoning_tokens
            && x.rejected_prediction_tokens == y.rejected_prediction_tokens && x.extra@ == y.extra@,
        (None, None) => true,
        _ => false,
    }
    &&& match (a.prompt_tokens_details, b.prompt_tokens_details) {
        (Some(x), Some(y)) => x.audio_tokens == y.audio_tokens && x.cached_tokens == y.cached_tokens
            && x.extra@ == y.extra@,
        (None, None) => true,
        _ => false,
    }
    &&& a.extra@ == b.extra@
}

fn copy_usage(u: &ChatCompletionUsage) -> (c: ChatCompletionUsage)
    ensures
        same_usage(c, *u),
{
    ChatCompletionUsage {
        completion_tokens: u.completion_tokens,
        prompt_tokens: u.prompt_tokens,
        total_tokens: u.total_tokens,
        completion_tokens_details: match &u.completion_tokens_details {
            Some(d) => Some(
                ChatCompletionTokensDetails {
                    accepted_prediction_tokens: d.accepted_prediction_tokens,
                    audio_tokens: d.audio_tokens,
                    reasoning_tokens: d.reasoning_tokens,
                    rejected_prediction_tokens: d.rejected_prediction_tokens,
                    extra: d.extra.clone(),
                },
            ),
            None => None,
        },
        prompt_tokens_details: match &u.prompt_tokens_details {
            Some(d) => Some(
                ChatPromptTokensDetails {
                    audio_tokens: d.audio_tokens,
                    cached_tokens: d.cached_tokens,
                    extra: d.extra.clone(),
                },
            ),
            None => None,
        },
        extra: u.extra.clone(),
    }
}

fn copy_text(t: &Option<String>) -> (c: Option<String>)
    ensures
        c == *t,
{
    match t {
        Some(s) => Some(s.clone()),
        None => None,
    }
}

impl ChatCompletionRole {
    /// A copy equal to this role.
    pub fn copied(&self) -> (r: ChatCompletionRole)
        ensures
            r == *self,
    {
        match self {
            ChatCompletionRole::Developer => ChatCompletionRole::Developer,
            ChatCompletionRole::System => ChatCompletionRole::System,
            ChatCompletionRole::User => ChatCompletionRole::User,
            ChatCompletionRole::Assistant => ChatCompletionRole::Assistant,
            ChatCompletionRole::Tool => ChatCompletionRole::Tool,
            ChatCompletionRole::Function => ChatCompletionRole::Function,
            ChatCompletionRole::Unknown(s) => ChatCompletionRole::Unknown(s.clone()),
        }
    }
}

impl ChatCompletionFinishReason {
    /// A copy equal to this reason.
    pub fn copied(&self) -> (r: ChatCompletionFinishReason)
        ensures
            r == *self,
    {
        match self {
            ChatCompletionFinishReason::Stop => ChatCompletionFinishReason::Stop,
            ChatCompletionFinishReason::Length => ChatCompletionFinishReason::Length,
            ChatCompletionFinishReason::ToolCalls => ChatCompletionFinishReason::ToolCalls,
            ChatCompletionFinishReason::ContentFilter => ChatCompletionFinishReason::ContentFilter,
            ChatCompletionFinishReason::FunctionCall => ChatCompletionFinishReason::FunctionCall,
            ChatCompletionFinishReason::Unknown(s) => ChatCompletionFinishReason::Unknown(s.clone()),
        }
    }
}

impl ChatCompletionToolType {
    /// A copy equal to this type.
    pub fn copied(&self) -> (r: ChatCompletionToolType)
        ensures
            r == *self,
    {
        match self {
            ChatCompletionToolType::Function => ChatCompletionToolType::Function,
            ChatCompletionToolType::Custom => ChatCompletionToolType::Custom,
            ChatCompletionToolType::Unknown(s) => ChatCompletionToolType::Unknown(s.clone()),
        }
    }
}

/// Extends `text` by `fragment`, starting it when there was none.
fn append_fragment(text: &mut Option<String>, fragment: &Option<String>)
    ensures
        opt_view(*final(text)) == appended(opt_view(*old(text)), opt_view(*fragment)),
{
    match fragment {
        Some(f) => {
            let current = text.take();
            match current {
                Some(mut t) => {
                    push_str(&mut t, f.as_str());
                    *text = Some(t);
                },
                None => {
                    *text = Some(f.clone());
                },
            }
        },
        None => {},
    }
}

fn blank_tool_call() -> (t: ChatCompletionMessageToolCall)
    ensures
        tool_call_view(t) == empty_tool_call(),
{
    ChatCompletionMessageToolCall {
        id: None,
        index: None,
        tool_type: None,
        function: ToolCallFunction { name: None, arguments: None, extra: BTreeMap::new() },
        custom: None,
        extra: BTreeMap::new(),
    }
}

fn empty_message() -> (m: ChatCompletionMessage)
    ensures
        m.role is None,
        m.content is None,
        m.refusal is None,
        m.function_call is None,
        m.tool_calls@.len() == 0,
        m.annotations@.len() == 0,
        m.audio is None,
        m.extra@ == Map::<String, Value>::empty(),
{
    ChatCompletionMessage {
        role: None,
        content: None,
        refusal: None,
        annotations: Vec::new(),
        audio: None,
        function_call: None,
        tool_calls: Vec::new(),
        extra: BTreeMap::new(),
    }
}

impl AccumulatedChoice {
    pub fn new() -> (c: AccumulatedChoice)
        ensures
            c@ == empty_choice(),
    {
        let c = AccumulatedChoice { message: empty_message(), finish_reason: None };
        assert(c@.tool_calls =~= Seq::<ToolCallView>::empty());
        assert(c@.untouched.0 =~= Seq::<ChatCompletionAnnotation>::empty());
        c
    }
}

/// Applies one tool-call delta to the tool calls of a message.
fn apply_tool_delta(tools: &mut Vec<ChatCompletionMessageToolCall>, d: &ChatCompletionMessageToolCall)
    ensures
        tool_calls_view(final(tools)@) == step_tool(tool_calls_view(old(tools)@), *d),
{
    let ghost start = tool_calls_view(tools@);
    let idx = match d.index {
        Some(i) => i,
        None => tools.len(),
    };
    assert(idx == tool_slot(start, *d));
    while tools.len() <= idx
        invariant
            tools@.len() >= start.len(),
            tools@.len() <= idx + 1 || tools@.len() == start.len(),
            tool_calls_view(tools@) == padded(start, tools@.len() as int, empty_tool_call()),
        decreases idx + 1 - tools@.len(),
    {
        let ghost before = tools@;
        tools.push(blank_tool_call());
        assert(tool_calls_view(tools@) =~= tool_calls_view(before).push(empty_tool_call()));
        assert(padded(start, tools@.len() as int, empty_tool_call()) =~= padded(
            start,
            before.len() as int,
            empty_tool_call(),
        ).push(empty_tool_call()));
    }
    assert(tool_calls_view(tools@) =~= padded(start, idx + 1, empty_tool_call()));
    let ghost grown = tool_calls_view(tools@);
    let slot = &mut tools[idx];
    slot.index = Some(idx);
    match &d.id {
        Some(id) => {
            slot.id = Some(id.clone());
        },
        None => {},
    }
    match &d.tool_type {
        Some(t) => {
            slot.tool_type = Some(t.copied());
        },
        None => {},
    }
    match &d.function.name {
        Some(n) => {
            slot.function.name = Some(n.clone());
        },
        None => {},
    }
    append_fragment(&mut slot.function.arguments, &d.function.arguments);
    assert(tool_calls_view(tools@) =~= step_tool(start, *d));
}

impl AccumulatedChoice {
    /// Applies one choice delta of a chunk.
    pub fn apply_delta(&mut self, d: &ChatCompletionChunkChoice)
        ensures
            final(self)@ == step_choice(old(self)@, *d),
    {
        match &d.delta.role {
            Some(r) => {
                self.message.role = Some(r.copied());
            },
            None => {},
        }
        append_fragment(&mut self.message.content, &d.delta.content);
        append_fragment(&mut self.message.refusal, &d.delta.refusal);
        match &d.delta.function_call {
            Some(f) => {
                let mut call = match self.message.function_call.take() {
                    Some(c) => c,
                    None => LegacyFunctionCall { name: None, arguments: None, extra: BTreeMap::new() },
                };
                match &f.name {
                    Some(n) => {
                        call.name = Some(n.clone());
                    },
                    None => {},
                }
                append_fragment(&mut call.arguments, &f.arguments);
                self.message.function_call = Some(call);
            },
            None => {},
        }
        let ghost tools_start = tool_calls_view(self.message.tool_calls@);
        let ghost before = *self;
        let mut j: usize = 0;
        while j < d.delta.tool_calls.len()
            invariant
                j <= d.delta.tool_calls@.len(),
                self.message.role == before.message.role,
                self.message.content == before.message.content,
                self.message.refusal == before.message.refusal,
                self.message.function_call == before.message.function_call,
                self.message.annotations == before.message.annotations,
                self.message.audio == before.message.audio,
                self.message.extra == before.message.extra,
                self.finish_reason == before.finish_reason,
                tool_calls_view(self.message.tool_calls@) == step_tools(
                    tools_start,
                    d.delta.tool_calls@.subrange(0, j as int),
                ),
            decreases d.delta.tool_calls@.len() - j,
        {
            assert(d.delta.tool_calls@.subrange(0, j + 1).drop_last() =~= d.delta.tool_calls@.subrange(0, j as int));
            apply_tool_delta(&mut self.message.tool_calls, &d.delta.tool_calls[j]);
            j = j + 1;
        }
        assert(d.delta.tool_calls@.subrange(0, d.delta.tool_calls@.len() as int) =~= d.delta.tool_calls@);
        match &d.finish_reason {
            Some(f) => {
                self.finish_reason = Some(f.copied());
            },
            None => {},
        }
    }
}

/// Makes sure slot `idx` exists, adding empty choices before it as needed.
fn ensure_choice(choices: &mut Vec<AccumulatedChoice>, idx: usize)
    ensures
        choices_view(final(choices)@) == padded(choices_view(old(choices)@), idx + 1, empty_choice()),
        final(choices)@.len() > idx,
{
    let ghost start = choices_view(choices@);
    while choices.len() <= idx
        invariant
            choices@.len() >= start.len(),
            choices@.len() <= idx + 1 || choices@.len() == start.len(),
            choices_view(choices@) == padded(start, choices@.len() as int, empty_choice()),
        decreases idx + 1 - choices@.len(),
    {
        let ghost before = choices@;
        choices.push(AccumulatedChoice::new());
        assert(choices_view(choices@) =~= choices_view(before).push(empty_choice()));
        assert(padded(start, choices@.len() as int, empty_choice()) =~= padded(
            start,
            before.len() as int,
            empty_choice(),
        ).push(empty_choice()));
    }
    assert(choices_view(choices@) =~= padded(start, idx + 1, empty_choice()));
}

/// The state of accumulating a streamed chat completion: the first id,
/// creation time, model, service tier and fingerprint seen, the latest usage,
/// the choices built so far, and whether `[DONE]` and a finish reason came.
pub struct ChatCompletionAccumulator {
    pub id: Option<String>,
    pub created: Option<i64>,
    pub model: Option<String>,
    pub service_tier: Option<ServiceTier>,
    pub system_fingerprint: Option<String>,
    pub usage: Option<ChatCompletionUsage>,
    pub choices: Vec<AccumulatedChoice>,
    pub seen_done: bool,
    pub seen_terminal_chunk: bool,
}

/// `after` is `before` with one chunk applied: first-seen fields keep their
/// first value, usage follows the latest chunk that has one, and the choice
/// deltas are applied in order.
pub open spec fn chunk_applied(
    before: ChatCompletionAccumulator,
    after: ChatCompletionAccumulator,
    chunk: ChatCompletionChunk,
) -> bool {
    &&& after.id == (if before.id is Some {
        before.id
    } else {
        Some(chunk.id)
    })
    &&& after.created == (if before.created is Some {
        before.created
    } else {
        Some(chunk.created)
    })
    &&& after.model == (if before.model is Some {
        before.model
    } else {
        chunk.model
    })
    &&& after.service_tier == (if before.service_tier is Some {
        before.service_tier
    } else {
        chunk.service_tier
    })
    &&& after.system_fingerprint == (if before.system_fingerprint is Some {
        before.system_fingerprint
    } else {
        chunk.system_fingerprint
    })
    &&& (chunk.usage is Some ==> after.usage is Some && same_usage(after.usage->Some_0, chunk.usage->Some_0))
    &&& (chunk.usage is None ==> after.usage == before.usage)
    &&& choices_view(after.choices@) == step_choices(choices_view(before.choices@), chunk.choices@)
    &&& after.seen_done == before.seen_done
    &&& after.seen_terminal_chunk == (before.seen_terminal_chunk || has_finish_reason(chunk))
}

impl ChatCompletionAccumulator {
    pub fn new() -> (a: ChatCompletionAccumulator)
        ensures
            a.id is None && a.created is None && a.model is None && a.service_tier is None,
            a.system_fingerprint is None && a.usage is None,
            a.choices@.len() == 0,
            !a.seen_done && !a.seen_terminal_chunk,
    {
        ChatCompletionAccumulator {
            id: None,
            created: None,
            model: None,
            service_tier: None,
            system_fingerprint: None,
            usage: None,
            choices: Vec::new(),
            seen_done: false,
            seen_terminal_chunk: false,
        }
    }

    /// Folds one parsed chunk into the accumulated completion.
    pub fn apply_chunk(&mut self, chunk: &ChatCompletionChunk)
        ensures
            chunk_applied(*old(self), *final(self), *chunk),
    {
        if self.id.is_none() {
            self.id = Some(chunk.id.clone());
        }
        if self.created.is_none() {
            self.created = Some(chunk.created);
        }
        if self.model.is_none() {
            self.model = copy_text(&chunk.model);
        }
        if self.service_tier.is_none() {
            self.service_tier = chunk.service_tier;
        }
        if self.system_fingerprint.is_none() {
            self.system_fingerprint = copy_text(&chunk.system_fingerprint);
        }
        match &chunk.usage {
            Some(u) => {
                self.usage = Some(copy_usage(u));
            },
            None => {},
        }
        let ghost start = choices_view(self.choices@);
        let ghost fixed = *self;
        let mut i: usize = 0;
        while i < chunk.choices.len()
            invariant
                i <= chunk.choices@.len(),
                self.id == fixed.id && self.created == fixed.created && self.model == fixed.model,
                self.service_tier == fixed.service_tier && self.system_fingerprint == fixed.system_fingerprint,
                self.usage == fixed.usage && self.seen_done == fixed.seen_done,
                choices_view(self.choices@) == step_choices(start, chunk.choices@.subrange(0, i as int)),
                self.seen_terminal_chunk == (fixed.seen_terminal_chunk || exists|k: int|
                    0 <= k < i && (#[trigger] chunk.choices@[k]).finish_reason is Some),
            decreases chunk.choices@.len() - i,
        {
            let ghost prefix = chunk.choices@.subrange(0, i as int);
            assert(chunk.choices@.subrange(0, i + 1).drop_last() =~= prefix);
            let choice = &chunk.choices[i];
            let idx = choice.index;
            ensure_choice(&mut self.choices, idx);
            let ghost grown = choices_view(self.choices@);
            let entry = &mut self.choices[idx];
            entry.apply_delta(choice);
            assert(choices_view(self.choices@) =~= grown.update(idx as int, step_choice(grown[idx as int], *choice)));
            if choice.finish_reason.is_some() {
                self.seen_terminal_chunk = true;
            }
            i = i + 1;
        }
        assert(chunk.choices@.subrange(0, chunk.choices@.len() as int) =~= chunk.choices@);
    }

    /// Reads one SSE frame. `[DONE]` (surrounded by any whitespace) marks the
    /// end; any other frame is a chunk, `parsed` being what decoding its data
    /// gave: the chunk, or the decoder's error text.
    pub fn ingest_frame(&mut self, frame: &SseFrame, parsed: Result<ChatCompletionChunk, String>) -> (r: Result<
        Option<ChatCompletionChunk>,
        OpenAIError,
    >)
        ensures
            trim_spec(frame.data@) == "[DONE]"@ ==> (r matches Ok(None) && *final(self)
                == (ChatCompletionAccumulator { seen_done: true, ..*old(self) })),
            trim_spec(frame.data@) != "[DONE]"@ ==> match parsed {
                Err(detail) => r matches Err(e) && e.kind == ErrorKind::Parse && e.message@
                    == "failed to parse streamed chat completion chunk: "@ + detail@ && *final(self) == *old(self),
                Ok(chunk) => r == Ok::<Option<ChatCompletionChunk>, OpenAIError>(Some(chunk)) && chunk_applied(
                    *old(self),
                    *final(self),
                    chunk,
                ),
            },
    {
        if str_eq(trim(frame.data.as_str()), "[DONE]") {
            self.seen_done = true;
            return Ok(None);
        }
        match parsed {
            Err(detail) => Err(
                OpenAIError::with_detail(
                    ErrorKind::Parse,
                    "failed to parse streamed chat completion chunk: ",
                    detail.as_str(),
                ),
            ),
            Ok(chunk) => {
                self.apply_chunk(&chunk);
                Ok(Some(chunk))
            },
        }
    }

    /// The final completion, once some chunk carried a finish reason.
    pub fn finish(self) -> (r: Result<ChatCompletion, OpenAIError>)
        ensures
            r is Ok <==> self.seen_terminal_chunk,
            r matches Err(e) ==> e.kind == ErrorKind::Parse && e.message@
                == "chat completion stream ended without a terminal chunk carrying finish_reason"@,
            r matches Ok(c) ==> {
                &&& c.id@ == (match self.id {
                    Some(s) => s@,
                    None => Seq::<char>::empty(),
                })
                &&& c.object@ == "chat.completion"@
                &&& c.created == (match self.created {
                    Some(t) => t,
                    None => 0,
                })
                &&& c.model == self.model
                &&& c.service_tier == self.service_tier
                &&& c.system_fingerprint == self.system_fingerprint
                &&& c.usage == self.usage
                &&& c.extra@ == Map::<String, Value>::empty()
                &&& c.choices@.len() == self.choices@.len()
                &&& forall|i: int|
                    0 <= i < c.choices@.len() ==> (#[trigger] c.choices@[i]).index == i
                        && c.choices@[i].message == self.choices@[i].message
                        && c.choices@[i].finish_reason == self.choices@[i].finish_reason
                        && c.choices@[i].logprobs is None
                        && c.choices@[i].extra@ == Map::<String, Value>::empty()
            },
    {
        if !self.seen_terminal_chunk {
            return Err(
                OpenAIError::new(
                    ErrorKind::Parse,
                    "chat completion stream ended without a terminal chunk carrying finish_reason".to_string(),
                ),
            );
        }
        let ghost accumulated = self.choices@;
        assert(accumulated.len() == self.choices.len());
        let mut rest = self.choices;
        let mut choices: Vec<ChatCompletionChoice> = Vec::new();
        let mut i: usize = 0;
        while rest.len() > 0
            invariant
                accumulated.len() <= usize::MAX,
                i + rest@.len() == accumulated.len(),
                rest@ == accumulated.subrange(i as int, accumulated.len() as int),
                choices@.len() == i,
                forall|k: int|
                    0 <= k < i ==> (#[trigger] choices@[k]).index == k && choices@[k].message == accumulated[k].message
                        && choices@[k].finish_reason == accumulated[k].finish_reason && choices@[k].logprobs is None
                        && choices@[k].extra@ == Map::<String, Value>::empty(),
            decreases rest@.len(),
        {
            let c = rest.remove(0);
            choices.push(
                ChatCompletionChoice {
                    index: i,
                    finish_reason: c.finish_reason,
                    message: c.message,
                    logprobs: None,
                    extra: BTreeMap::new(),
                },
            );
            i = i + 1;
        }
        let id = match self.id {
            Some(s) => s,
            None => String::new(),
        };
        let created = match self.created {
            Some(t) => t,
            None => 0,
        };
        Ok(
            ChatCompletion {
                id,
                object: "chat.completion".to_string(),
                created,
                model: self.model,
                choices,
                service_tier: self.service_tier,
                system_fingerprint: self.system_fingerprint,
                usage: self.usage,
                extra: BTreeMap::new(),
            },
        )
    }
}

/// The content of choice `k`, or none when there is no such choice.
pub open spec fn slot_content(cs: Seq<ChoiceView>, k: int) -> Option<Seq<char>> {
    if 0 <= k < cs.len() {
        cs[k].content
    } else {
        None
    }
}

/// `start` extended by every content fragment the deltas address to choice `k`, in order.
pub open spec fn content_for(ds: Seq<ChatCompletionChunkChoice>, k: int, start: Option<Seq<char>>) -> Option<
    Seq<char>,
>
    decreases ds.len(),
{
    if ds.len() == 0 {
        start
    } else {
        let prev = content_for(ds.drop_last(), k, start);
        if ds.last().index == k {
            appended(prev, opt_view(ds.last().delta.content))
        } else {
            prev
        }
    }
}

/// The choices accumulated from a whole stream of chunks, starting from none.
pub open spec fn stream_choices(chunks: Seq<ChatCompletionChunk>) -> Seq<ChoiceView>
    decreases chunks.len(),
{
    if chunks.len() == 0 {
        seq![]
    } else {
        step_choices(stream_choices(chunks.drop_last()), chunks.last().choices@)
    }
}

/// Every content fragment of a stream addressed to choice `k`, joined in order.
pub open spec fn stream_content(chunks: Seq<ChatCompletionChunk>, k: int) -> Option<Seq<char>>
    decreases chunks.len(),
{
    if chunks.len() == 0 {
        None
    } else {
        content_for(chunks.last().choices@, k, stream_content(chunks.drop_last(), k))
    }
}

proof fn lemma_step_choices_content(cs: Seq<ChoiceView>, ds: Seq<ChatCompletionChunkChoice>, k: int)
    ensures
        slot_content(step_choices(cs, ds), k) == content_for(ds, k, slot_content(cs, k)),
    decreases ds.len(),
{
    if ds.len() > 0 {
        lemma_step_choices_content(cs, ds.drop_last(), k);
        let prev = step_choices(cs, ds.drop_last());
        let d = ds.last();
        let grown = padded(prev, d.index + 1, empty_choice());
        assert(slot_content(grown, k) == slot_content(prev, k));
    }
}

/// Streamed content is the concatenation of its fragments: after any stream
/// of chunks, the content of choice `k` is every content fragment addressed to
/// `k`, joined in the order they arrived (none when no fragment came).
pub proof fn law_streamed_content_concatenates(chunks: Seq<ChatCompletionChunk>, k: int)
    ensures
        slot_content(stream_choices(chunks), k) == stream_content(chunks, k),
    decreases chunks.len(),
{
    if chunks.len() > 0 {
        law_streamed_content_concatenates(chunks.drop_last(), k);
        lemma_step_choices_content(stream_choices(chunks.drop_last()), chunks.last().choices@, k);
    }
}

/// `start` followed by every refusal fragment the deltas address to choice
/// `k`, in order; `None` while no fragment has come.
pub open spec fn refusal_joined(ds: Seq<ChatCompletionChunkChoice>, k: int, start: Option<Seq<char>>) -> Option<
    Seq<char>,
>
    decreases ds.len(),
{
    if ds.len() == 0 {
        start
    } else {
        let prev = refusal_joined(ds.drop_last(), k, start);
        let d = ds.last();
        if d.index == k && d.delta.refusal is Some {
            let fragment = d.delta.refusal->Some_0@;
            match prev {
                Some(text) => Some(text + fragment),
                None => Some(fragment),
            }
        } else {
            prev
        }
    }
}

/// Every refusal fragment of a stream addressed to choice `k`, joined in arrival order.
pub open spec fn stream_refusal(chunks: Seq<ChatCompletionChunk>, k: int) -> Option<Seq<char>>
    decreases chunks.len(),
{
    if chunks.len() == 0 {
        None
    } else {
        refusal_joined(chunks.last().choices@, k, stream_refusal(chunks.drop_last(), k))
    }
}

pub open spec fn slot_refusal(cs: Seq<ChoiceView>, k: int) -> Option<Seq<char>> {
    if 0 <= k < cs.len() {
        cs[k].refusal
    } else {
        None
    }
}

proof fn lemma_step_choices_refusal(cs: Seq<ChoiceView>, ds: Seq<ChatCompletionChunkChoice>, k: int)
    ensures
        slot_refusal(step_choices(cs, ds), k) == refusal_joined(ds, k, slot_refusal(cs, k)),
    decreases ds.len(),
{
    if ds.len() > 0 {
        lemma_step_choices_refusal(cs, ds.drop_last(), k);
        let prev = step_choices(cs, ds.drop_last());
        let d = ds.last();
        let grown = padded(prev, d.index + 1, empty_choice());
        assert(slot_refusal(grown, k) == slot_refusal(prev, k));
    }
}

proof fn lemma_stream_refusal(chunks: Seq<ChatCompletionChunk>, k: int)
    ensures
        slot_refusal(stream_choices(chunks), k) == stream_refusal(chunks, k),
    decreases chunks.len(),
{
    if chunks.len() > 0 {
        lemma_stream_refusal(chunks.drop_last(), k);
        lemma_step_choices_refusal(stream_choices(chunks.drop_last()), chunks.last().choices@, k);
    }
}

/// Streamed refusals are the concatenation of their fragments: after a
/// stream of chunks read from a fresh accumulator, the refusal of choice `k`
/// is every refusal fragment addressed to `k`, joined in the order they
/// arrived, and there is none when no fragment came.
pub proof fn law_streamed_refusal_concatenates(
    states: Seq<ChatCompletionAccumulator>,
    chunks: Seq<ChatCompletionChunk>,
    k: int,
)
    requires
        is_chunk_run(states, chunks),
        is_fresh(states[0]),
    ensures
        0 <= k < states.last().choices@.len() ==> opt_view(states.last().choices@[k].message.refusal)
            == stream_refusal(chunks, k),
        !(0 <= k < states.last().choices@.len()) ==> stream_refusal(chunks, k) is None,
{
    law_chat_stream_run(states, chunks);
    lemma_stream_refusal(chunks, k);
    if 0 <= k < states.last().choices@.len() {
        assert(choices_view(states.last().choices@)[k] == states.last().choices@[k]@);
    }
}

/// Applying chunks one by one with [`ChatCompletionAccumulator::apply_chunk`]
/// builds exactly the choices of the stream so far.
pub proof fn law_apply_chunk_follows_stream(
    before: ChatCompletionAccumulator,
    after: ChatCompletionAccumulator,
    chunks: Seq<ChatCompletionChunk>,
    chunk: ChatCompletionChunk,
)
    requires
        choices_view(before.choices@) == stream_choices(chunks),
        chunk_applied(before, after, chunk),
    ensures
        choices_view(after.choices@) == stream_choices(chunks.push(chunk)),
{
    assert(chunks.push(chunk).drop_last() =~= chunks);
}

/// `states` is a run of the accumulator over `chunks`: each state is the one
/// before it with the next chunk applied.
pub open spec fn is_chunk_run(states: Seq<ChatCompletionAccumulator>, chunks: Seq<ChatCompletionChunk>) -> bool {
    &&& states.len() == chunks.len() + 1
    &&& forall|k: int| 0 <= k < chunks.len() ==> chunk_applied(#[trigger] states[k], states[k + 1], chunks[k])
}

/// A fresh accumulator, as [`ChatCompletionAccumulator::new`] makes it.
pub open spec fn is_fresh(a: ChatCompletionAccumulator) -> bool {
    &&& a.id is None && a.created is None && a.model is None && a.service_tier is None
    &&& a.system_fingerprint is None && a.usage is None && a.choices@.len() == 0
    &&& !a.seen_done && !a.seen_terminal_chunk
}

/// Accumulating a stream from a fresh state: the choices are those of the
/// whole stream, the id is the first chunk's, and the stream counts as
/// terminated exactly when some chunk carried a finish reason — which is
/// when [`ChatCompletionAccumulator::finish`] succeeds.
#[verifier::spinoff_prover]
#[verifier::rlimit(60)]
pub proof fn law_chat_stream_run(states: Seq<ChatCompletionAccumulator>, chunks: Seq<ChatCompletionChunk>)
    requires
        is_chunk_run(states, chunks),
        is_fresh(states[0]),
    ensures
        choices_view(states.last().choices@) == stream_choices(chunks),
        states.last().seen_terminal_chunk == exists|k: int| 0 <= k < chunks.len() && has_finish_reason(#[trigger] chunks[k]),
        chunks.len() > 0 ==> states.last().id == Some(chunks[0].id),
        !states.last().seen_done,
    decreases chunks.len(),
{
    if chunks.len() == 0 {
        assert(choices_view(states[0].choices@) =~= Seq::<ChoiceView>::empty());
    } else {
        let n = chunks.len() - 1;
        let prefix_states = states.drop_last();
        let prefix = chunks.drop_last();
        assert forall|k: int| 0 <= k < prefix.len() implies chunk_applied(
            #[trigger] prefix_states[k],
            prefix_states[k + 1],
            prefix[k],
        ) by {
            assert(chunk_applied(states[k], states[k + 1], chunks[k]));
        }
        law_chat_stream_run(prefix_states, prefix);
        assert(chunk_applied(states[n], states[n + 1], chunks[n]));
        assert(prefix_states.last() == states[n]);
        assert(states.last() == states[n + 1]);
        if states.last().seen_terminal_chunk {
            if !states[n].seen_terminal_chunk {
                assert(has_finish_reason(chunks[n]));
            } else {
                let k = choose|k: int| 0 <= k < prefix.len() && has_finish_reason(#[trigger] prefix[k]);
                assert(chunks[k] == prefix[k]);
            }
        } else {
            assert forall|k: int| 0 <= k < chunks.len() implies !has_finish_reason(#[trigger] chunks[k]) by {
                if k < n {
                    assert(chunks[k] == prefix[k]);
                }
            }
        }
        if n > 0 {
            assert(chunks[0] == prefix[0]);
        }
    }
}

} // verus!
