//! Deprecated beta surfaces: Assistants (assistants, threads, messages, runs,
//! run steps), Realtime session tokens and ChatKit.
use vstd::prelude::*;
use serde_json::Value;
use std::collections::BTreeMap;
use crate::common::{ListOrder, ReasoningEffort};
use crate::error::{blank_message, ErrorKind, OpenAIError};
use crate::ids::{encoded_id, path_id};
use crate::json::{json_object, set_object_flag, with_flag};
use crate::sse::SseFrame;
use crate::literal::{opt_literal, Literal, OpenLiteral};
use crate::query::{
    form_query, inclusion_key, inclusion_key_text, opt_literals, opt_pair, opt_repeated,
    opt_u32_decimal, opt_view, pairs_view, path_with_query, with_query, QueryPairs,
};
use crate::request::{assistants_beta, beta_json, chatkit_beta, ApiRequest, BodyView, HttpMethod, RequestBody, RequestView};
use crate::text::{is_blank, is_blank_spec, parse_u64, parse_u64_spec, push_str, str_eq, trim, trim_spec, ParseIntErrorKind};

verus! {


/// Role accepted when creating deprecated beta thread messages.
#[derive(Clone, Debug, PartialEq, Eq)]
pub enum BetaThreadMessageRole {
    User,
    Assistant,
    /// A value this library does not know, kept as received.
    Unknown(String),
}

impl Literal for BetaThreadMessageRole {
    open spec fn literal(&self) -> Seq<char> {
        match self {
            BetaThreadMessageRole::User => "user"@,
            BetaThreadMessageRole::Assistant => "assistant"@,
            BetaThreadMessageRole::Unknown(text) => text@,
        }
    }

    fn to_text(&self) -> (r: String) {
        self.as_str().to_string()
    }
}

impl OpenLiteral for BetaThreadMessageRole {
    open spec fn known(text: Seq<char>) -> Option<BetaThreadMessageRole> {
        if text == "user"@ {
            Some(BetaThreadMessageRole::User)
        } else if text == "assistant"@ {
            Some(BetaThreadMessageRole::Assistant)
        } else {
            None
        }
    }

    open spec fn is_unknown(&self) -> bool {
        self is Unknown
    }

    proof fn lemma_known_literal(value: Self) {
        reveal_strlit("user");
        reveal_strlit("assistant");
        assert("user"@.len() == 4);
        assert("assistant"@.len() == 9);
    }

    proof fn lemma_known_text(text: Seq<char>) {
    }
}

impl BetaThreadMessageRole {
    /// The text the API uses for this value.
    pub fn as_str(&self) -> (r: &str)
        ensures
            r@ == self.literal(),
    {
        match self {
            BetaThreadMessageRole::User => "user",
            BetaThreadMessageRole::Assistant => "assistant",
            BetaThreadMessageRole::Unknown(text) => text.as_str(),
        }
    }

    /// The value a text names; a text no variant uses is kept as `Unknown`.
    pub fn from_text(value: &str) -> (r: BetaThreadMessageRole)
        ensures
            r.literal() == value@,
            r.is_unknown() == (BetaThreadMessageRole::known(value@) is None),
            BetaThreadMessageRole::known(value@) matches Some(k) ==> r == k,
    {
        if str_eq(value, "user") {
            BetaThreadMessageRole::User
        } else if str_eq(value, "assistant") {
            BetaThreadMessageRole::Assistant
        } else {
            BetaThreadMessageRole::Unknown(value.to_string())
        }
    }
}

impl Default for BetaThreadMessageRole {
    fn default() -> (r: BetaThreadMessageRole)
        ensures
            r.literal() == Seq::<char>::empty(),
            r is Unknown,
    {
        BetaThreadMessageRole::Unknown(String::new())
    }
}

/// Truncation strategy type for deprecated beta thread runs.
#[derive(Clone, Debug, PartialEq, Eq)]
pub enum BetaTruncationStrategyType {
    Auto,
    LastMessages,
    /// A value this library does not know, kept as received.
    Unknown(String),
}

impl Literal for BetaTruncationStrategyType {
    open spec fn literal(&self) -> Seq<char> {
        match self {
            BetaTruncationStrategyType::Auto => "auto"@,
            BetaTruncationStrategyType::LastMessages => "last_messages"@,
            BetaTruncationStrategyType::Unknown(text) => text@,
        }
    }

    fn to_text(&self) -> (r: String) {
        self.as_str().to_string()
    }
}

impl OpenLiteral for BetaTruncationStrategyType {
    open spec fn known(text: Seq<char>) -> Option<BetaTruncationStrategyType> {
        if text == "auto"@ {
            Some(BetaTruncationStrategyType::Auto)
        } else if text == "last_messages"@ {
            Some(BetaTruncationStrategyType::LastMessages)
        } else {
            None
        }
    }

    open spec fn is_unknown(&self) -> bool {
        self is Unknown
    }

    proof fn lemma_known_literal(value: Self) {
        reveal_strlit("auto");
        reveal_strlit("last_messages");
        assert("auto"@.len() == 4);
        assert("last_messages"@.len() == 13);
    }

    proof fn lemma_known_text(text: Seq<char>) {
    }
}

impl BetaTruncationStrategyType {
    /// The text the API uses for this value.
    pub fn as_str(&self) -> (r: &str)
        ensures
            r@ == self.literal(),
    {
        match self {
            BetaTruncationStrategyType::Auto => "auto",
            BetaTruncationStrategyType::LastMessages => "last_messages",
            BetaTruncationStrategyType::Unknown(text) => text.as_str(),
        }
    }

    /// The value a text names; a text no variant uses is kept as `Unknown`.
    pub fn from_text(value: &str) -> (r: BetaTruncationStrategyType)
        ensures
            r.literal() == value@,
            r.is_unknown() == (BetaTruncationStrategyType::known(value@) is None),
            BetaTruncationStrategyType::known(value@) matches Some(k) ==> r == k,
    {
        if str_eq(value, "auto") {
            BetaTruncationStrategyType::Auto
        } else if str_eq(value, "last_messages") {
            BetaTruncationStrategyType::LastMessages
        } else {
            BetaTruncationStrategyType::Unknown(value.to_string())
        }
    }
}

impl Default for BetaTruncationStrategyType {
    fn default() -> (r: BetaTruncationStrategyType)
        ensures
            r.literal() == Seq::<char>::empty(),
            r is Unknown,
    {
        BetaTruncationStrategyType::Unknown(String::new())
    }
}

/// Ranker identifiers accepted by deprecated beta assistant file-search tools.
#[derive(Clone, Debug, PartialEq, Eq)]
pub enum BetaAssistantFileSearchRanker {
    Auto,
    Default2024_08_21,
    /// A value this library does not know, kept as received.
    Unknown(String),
}

impl Literal for BetaAssistantFileSearchRanker {
    open spec fn literal(&self) -> Seq<char> {
        match self {
            BetaAssistantFileSearchRanker::Auto => "auto"@,
            BetaAssistantFileSearchRanker::Default2024_08_21 => "default_2024_08_21"@,
            BetaAssistantFileSearchRanker::Unknown(text) => text@,
        }
    }

    fn to_text(&self) -> (r: String) {
        self.as_str().to_string()
    }
}

impl OpenLiteral for BetaAssistantFileSearchRanker {
    open spec fn known(text: Seq<char>) -> Option<BetaAssistantFileSearchRanker> {
        if text == "auto"@ {
            Some(BetaAssistantFileSearchRanker::Auto)
        } else if text == "default_2024_08_21"@ {
            Some(BetaAssistantFileSearchRanker::Default2024_08_21)
        } else {
            None
        }
    }

    open spec fn is_unknown(&self) -> bool {
        self is Unknown
    }

    proof fn lemma_known_literal(value: Self) {
        reveal_strlit("auto");
        reveal_strlit("default_2024_08_21");
        assert("auto"@.len() == 4);
        assert("default_2024_08_21"@.len() == 18);
    }

    proof fn lemma_known_text(text: Seq<char>) {
    }
}

impl BetaAssistantFileSearchRanker {
    /// The text the API uses for this value.
    pub fn as_str(&self) -> (r: &str)
        ensures
            r@ == self.literal(),
    {
        match self {
            BetaAssistantFileSearchRanker::Auto => "auto",
            BetaAssistantFileSearchRanker::Default2024_08_21 => "default_2024_08_21",
            BetaAssistantFileSearchRanker::Unknown(text) => text.as_str(),
        }
    }

    /// The value a text names; a text no variant uses is kept as `Unknown`.
    pub fn from_text(value: &str) -> (r: BetaAssistantFileSearchRanker)
        ensures
            r.literal() == value@,
            r.is_unknown() == (BetaAssistantFileSearchRanker::known(value@) is None),
            BetaAssistantFileSearchRanker::known(value@) matches Some(k) ==> r == k,
    {
        if str_eq(value, "auto") {
            BetaAssistantFileSearchRanker::Auto
        } else if str_eq(value, "default_2024_08_21") {
            BetaAssistantFileSearchRanker::Default2024_08_21
        } else {
            BetaAssistantFileSearchRanker::Unknown(value.to_string())
        }
    }
}

impl Default for BetaAssistantFileSearchRanker {
    fn default() -> (r: BetaAssistantFileSearchRanker)
        ensures
            r.literal() == Seq::<char>::empty(),
            r is Unknown,
    {
        BetaAssistantFileSearchRanker::Unknown(String::new())
    }
}

/// Additional beta Assistants run-step fields that can be included in responses.
#[derive(Clone, Debug, PartialEq, Eq)]
pub enum BetaThreadRunStepInclude {
    StepDetailsToolCallsFileSearchResultsContent,
    /// A value this library does not know, kept as received.
    Unknown(String),
}

impl Literal for BetaThreadRunStepInclude {
    open spec fn literal(&self) -> Seq<char> {
        match self {
            BetaThreadRunStepInclude::StepDetailsToolCallsFileSearchResultsContent => "step_details.tool_calls[*].file_search.results[*].content"@,
            BetaThreadRunStepInclude::Unknown(text) => text@,
        }
    }

    fn to_text(&self) -> (r: String) {
        self.as_str().to_string()
    }
}

impl OpenLiteral for BetaThreadRunStepInclude {
    open spec fn known(text: Seq<char>) -> Option<BetaThreadRunStepInclude> {
        if text == "step_details.tool_calls[*].file_search.results[*].content"@ {
            Some(BetaThreadRunStepInclude::StepDetailsToolCallsFileSearchResultsContent)
        } else {
            None
        }
    }

    open spec fn is_unknown(&self) -> bool {
        self is Unknown
    }

    proof fn lemma_known_literal(value: Self) {
        reveal_strlit("step_details.tool_calls[*].file_search.results[*].content");
        assert("step_details.tool_calls[*].file_search.results[*].content"@.len() == 57);
    }

    proof fn lemma_known_text(text: Seq<char>) {
    }
}

impl BetaThreadRunStepInclude {
    /// The text the API uses for this value.
    pub fn as_str(&self) -> (r: &str)
        ensures
            r@ == self.literal(),
    {
        match self {
            BetaThreadRunStepInclude::StepDetailsToolCallsFileSearchResultsContent => "step_details.tool_calls[*].file_search.results[*].content",
            BetaThreadRunStepInclude::Unknown(text) => text.as_str(),
        }
    }

    /// The value a text names; a text no variant uses is kept as `Unknown`.
    pub fn from_text(value: &str) -> (r: BetaThreadRunStepInclude)
        ensures
            r.literal() == value@,
            r.is_unknown() == (BetaThreadRunStepInclude::known(value@) is None),
            BetaThreadRunStepInclude::known(value@) matches Some(k) ==> r == k,
    {
        if str_eq(value, "step_details.tool_calls[*].file_search.results[*].content") {
            BetaThreadRunStepInclude::StepDetailsToolCallsFileSearchResultsContent
        } else {
            BetaThreadRunStepInclude::Unknown(value.to_string())
        }
    }
}

impl Default for BetaThreadRunStepInclude {
    fn default() -> (r: BetaThreadRunStepInclude)
        ensures
            r.literal() == Seq::<char>::empty(),
            r is Unknown,
    {
        BetaThreadRunStepInclude::Unknown(String::new())
    }
}

/// Event names emitted by deprecated beta Assistants streams.
#[derive(Clone, Debug, PartialEq, Eq)]
pub enum BetaAssistantStreamEventType {
    ThreadCreated,
    ThreadRunCreated,
    ThreadRunQueued,
    ThreadRunInProgress,
    ThreadRunRequiresAction,
    ThreadRunCompleted,
    ThreadRunIncomplete,
    ThreadRunFailed,
    ThreadRunCancelling,
    ThreadRunCancelled,
    ThreadRunExpired,
    ThreadRunStepCreated,
    ThreadRunStepInProgress,
    ThreadRunStepDelta,
    ThreadRunStepCompleted,
    ThreadRunStepFailed,
    ThreadRunStepCancelled,
    ThreadRunStepExpired,
    ThreadMessageCreated,
    ThreadMessageInProgress,
    ThreadMessageDelta,
    ThreadMessageCompleted,
    ThreadMessageIncomplete,
    Error,
    /// A value this library does not know, kept as received.
    Unknown(String),
}

impl Literal for BetaAssistantStreamEventType {
    open spec fn literal(&self) -> Seq<char> {
        match self {
            BetaAssistantStreamEventType::ThreadCreated => "thread.created"@,
            BetaAssistantStreamEventType::ThreadRunCreated => "thread.run.created"@,
            BetaAssistantStreamEventType::ThreadRunQueued => "thread.run.queued"@,
            BetaAssistantStreamEventType::ThreadRunInProgress => "thread.run.in_progress"@,
            BetaAssistantStreamEventType::ThreadRunRequiresAction => "thread.run.requires_action"@,
            BetaAssistantStreamEventType::ThreadRunCompleted => "thread.run.completed"@,
            BetaAssistantStreamEventType::ThreadRunIncomplete => "thread.run.incomplete"@,
            BetaAssistantStreamEventType::ThreadRunFailed => "thread.run.failed"@,
            BetaAssistantStreamEventType::ThreadRunCancelling => "thread.run.cancelling"@,
            BetaAssistantStreamEventType::ThreadRunCancelled => "thread.run.cancelled"@,
            BetaAssistantStreamEventType::ThreadRunExpired => "thread.run.expired"@,
            BetaAssistantStreamEventType::ThreadRunStepCreated => "thread.run.step.created"@,
            BetaAssistantStreamEventType::ThreadRunStepInProgress => "thread.run.step.in_progress"@,
            BetaAssistantStreamEventType::ThreadRunStepDelta => "thread.run.step.delta"@,
            BetaAssistantStreamEventType::ThreadRunStepCompleted => "thread.run.step.completed"@,
            BetaAssistantStreamEventType::ThreadRunStepFailed => "thread.run.step.failed"@,
            BetaAssistantStreamEventType::ThreadRunStepCancelled => "thread.run.step.cancelled"@,
            BetaAssistantStreamEventType::ThreadRunStepExpired => "thread.run.step.expired"@,
            BetaAssistantStreamEventType::ThreadMessageCreated => "thread.message.created"@,
            BetaAssistantStreamEventType::ThreadMessageInProgress => "thread.message.in_progress"@,
            BetaAssistantStreamEventType::ThreadMessageDelta => "thread.message.delta"@,
            BetaAssistantStreamEventType::ThreadMessageCompleted => "thread.message.completed"@,
            BetaAssistantStreamEventType::ThreadMessageIncomplete => "thread.message.incomplete"@,
            BetaAssistantStreamEventType::Error => "error"@,
            BetaAssistantStreamEventType::Unknown(text) => text@,
        }
    }

    fn to_text(&self) -> (r: String) {
        self.as_str().to_string()
    }
}

impl OpenLiteral for BetaAssistantStreamEventType {
    open spec fn known(text: Seq<char>) -> Option<BetaAssistantStreamEventType> {
        if text == "thread.created"@ {
            Some(BetaAssistantStreamEventType::ThreadCreated)
        } else if text == "thread.run.created"@ {
            Some(BetaAssistantStreamEventType::ThreadRunCreated)
        } else if text == "thread.run.queued"@ {
            Some(BetaAssistantStreamEventType::ThreadRunQueued)
        } else if text == "thread.run.in_progress"@ {
            Some(BetaAssistantStreamEventType::ThreadRunInProgress)
        } else if text == "thread.run.requires_action"@ {
            Some(BetaAssistantStreamEventType::ThreadRunRequiresAction)
        } else if text == "thread.run.completed"@ {
            Some(BetaAssistantStreamEventType::ThreadRunCompleted)
        } else if text == "thread.run.incomplete"@ {
            Some(BetaAssistantStreamEventType::ThreadRunIncomplete)
        } else if text == "thread.run.failed"@ {
            Some(BetaAssistantStreamEventType::ThreadRunFailed)
        } else if text == "thread.run.cancelling"@ {
            Some(BetaAssistantStreamEventType::ThreadRunCancelling)
        } else if text == "thread.run.cancelled"@ {
            Some(BetaAssistantStreamEventType::ThreadRunCancelled)
        } else if text == "thread.run.expired"@ {
            Some(BetaAssistantStreamEventType::ThreadRunExpired)
        } else if text == "thread.run.step.created"@ {
            Some(BetaAssistantStreamEventType::ThreadRunStepCreated)
        } else if text == "thread.run.step.in_progress"@ {
            Some(BetaAssistantStreamEventType::ThreadRunStepInProgress)
        } else if text == "thread.run.step.delta"@ {
            Some(BetaAssistantStreamEventType::ThreadRunStepDelta)
        } else if text == "thread.run.step.completed"@ {
            Some(BetaAssistantStreamEventType::ThreadRunStepCompleted)
        } else if text == "thread.run.step.failed"@ {
            Some(BetaAssistantStreamEventType::ThreadRunStepFailed)
        } else if text == "thread.run.step.cancelled"@ {
            Some(BetaAssistantStreamEventType::ThreadRunStepCancelled)
        } else if text == "thread.run.step.expired"@ {
            Some(BetaAssistantStreamEventType::ThreadRunStepExpired)
        } else if text == "thread.message.created"@ {
            Some(BetaAssistantStreamEventType::ThreadMessageCreated)
        } else if text == "thread.message.in_progress"@ {
            Some(BetaAssistantStreamEventType::ThreadMessageInProgress)
        } else if text == "thread.message.delta"@ {
            Some(BetaAssistantStreamEventType::ThreadMessageDelta)
        } else if text == "thread.message.completed"@ {
            Some(BetaAssistantStreamEventType::ThreadMessageCompleted)
        } else if text == "thread.message.incomplete"@ {
            Some(BetaAssistantStreamEventType::ThreadMessageIncomplete)
        } else if text == "error"@ {
            Some(BetaAssistantStreamEventType::Error)
        } else {
            None
        }
    }

    open spec fn is_unknown(&self) -> bool {
        self is Unknown
    }

    proof fn lemma_known_literal(value: Self) {
        reveal_strlit("thread.created");
        reveal_strlit("thread.run.created");
        reveal_strlit("thread.run.queued");
        reveal_strlit("thread.run.in_progress");
        reveal_strlit("thread.run.requires_action");
        reveal_strlit("thread.run.completed");
        reveal_strlit("thread.run.incomplete");
        reveal_strlit("thread.run.failed");
        reveal_strlit("thread.run.cancelling");
        reveal_strlit("thread.run.cancelled");
        reveal_strlit("thread.run.expired");
        reveal_strlit("thread.run.step.created");
        reveal_strlit("thread.run.step.in_progress");
        reveal_strlit("thread.run.step.delta");
        reveal_strlit("thread.run.step.completed");
        reveal_strlit("thread.run.step.failed");
        reveal_strlit("thread.run.step.cancelled");
        reveal_strlit("thread.run.step.expired");
        reveal_strlit("thread.message.created");
        reveal_strlit("thread.message.in_progress");
        reveal_strlit("thread.message.delta");
        reveal_strlit("thread.message.completed");
        reveal_strlit("thread.message.incomplete");
        reveal_strlit("error");
        assert("thread.created"@.len() == 14);
        assert("thread.run.created"@.len() == 18);
        assert("thread.run.queued"@.len() == 17);
        assert("thread.run.in_progress"@.len() == 22);
        assert("thread.run.requires_action"@.len() == 26);
        assert("thread.run.completed"@.len() == 20);
        assert("thread.run.incomplete"@.len() == 21);
        assert("thread.run.failed"@.len() == 17);
        assert("thread.run.cancelling"@.len() == 21);
        assert("thread.run.cancelled"@.len() == 20);
        assert("thread.run.expired"@.len() == 18);
        assert("thread.run.step.created"@.len() == 23);
        assert("thread.run.step.in_progress"@.len() == 27);
        assert("thread.run.step.delta"@.len() == 21);
        assert("thread.run.step.completed"@.len() == 25);
        assert("thread.run.step.failed"@.len() == 22);
        assert("thread.run.step.cancelled"@.len() == 25);
        assert("thread.run.step.expired"@.len() == 23);
        assert("thread.message.created"@.len() == 22);
        assert("thread.message.in_progress"@.len() == 26);
        assert("thread.message.delta"@.len() == 20);
        assert("thread.message.completed"@.len() == 24);
        assert("thread.message.incomplete"@.len() == 25);
        assert("error"@.len() == 5);
        assert("thread.run.created"@[11] == 'c');
        assert("thread.run.expired"@[11] == 'e');
        assert("thread.run.queued"@[11] == 'q');
        assert("thread.run.failed"@[11] == 'f');
        assert("thread.run.in_progress"@[11] == 'i');
        assert("thread.run.step.failed"@[11] == 's');
        assert("thread.run.in_progress"@[7] == 'r');
        assert("thread.message.created"@[7] == 'm');
        assert("thread.run.requires_action"@[7] == 'r');
        assert("thread.message.in_progress"@[7] == 'm');
        assert("thread.run.completed"@[12] == 'o');
        assert("thread.run.cancelled"@[12] == 'a');
        assert("thread.run.completed"@[7] == 'r');
        assert("thread.message.delta"@[7] == 'm');
        assert("thread.run.incomplete"@[11] == 'i');
        assert("thread.run.cancelling"@[11] == 'c');
        assert("thread.run.step.delta"@[11] == 's');
        assert("thread.run.cancelled"@[7] == 'r');
        assert("thread.run.step.created"@[16] == 'c');
        assert("thread.run.step.expired"@[16] == 'e');
        assert("thread.run.step.completed"@[17] == 'o');
        assert("thread.run.step.cancelled"@[17] == 'a');
        assert("thread.run.step.completed"@[7] == 'r');
        assert("thread.message.incomplete"@[7] == 'm');
        assert("thread.run.step.failed"@[7] == 'r');
        assert("thread.run.step.cancelled"@[7] == 'r');
    }

    proof fn lemma_known_text(text: Seq<char>) {
    }
}

impl BetaAssistantStreamEventType {
    /// The text the API uses for this value.
    pub fn as_str(&self) -> (r: &str)
        ensures
            r@ == self.literal(),
    {
        match self {
            BetaAssistantStreamEventType::ThreadCreated => "thread.created",
            BetaAssistantStreamEventType::ThreadRunCreated => "thread.run.created",
            BetaAssistantStreamEventType::ThreadRunQueued => "thread.run.queued",
            BetaAssistantStreamEventType::ThreadRunInProgress => "thread.run.in_progress",
            BetaAssistantStreamEventType::ThreadRunRequiresAction => "thread.run.requires_action",
            BetaAssistantStreamEventType::ThreadRunCompleted => "thread.run.completed",
            BetaAssistantStreamEventType::ThreadRunIncomplete => "thread.run.incomplete",
            BetaAssistantStreamEventType::ThreadRunFailed => "thread.run.failed",
            BetaAssistantStreamEventType::ThreadRunCancelling => "thread.run.cancelling",
            BetaAssistantStreamEventType::ThreadRunCancelled => "thread.run.cancelled",
            BetaAssistantStreamEventType::ThreadRunExpired => "thread.run.expired",
            BetaAssistantStreamEventType::ThreadRunStepCreated => "thread.run.step.created",
            BetaAssistantStreamEventType::ThreadRunStepInProgress => "thread.run.step.in_progress",
            BetaAssistantStreamEventType::ThreadRunStepDelta => "thread.run.step.delta",
            BetaAssistantStreamEventType::ThreadRunStepCompleted => "thread.run.step.completed",
            BetaAssistantStreamEventType::ThreadRunStepFailed => "thread.run.step.failed",
            BetaAssistantStreamEventType::ThreadRunStepCancelled => "thread.run.step.cancelled",
            BetaAssistantStreamEventType::ThreadRunStepExpired => "thread.run.step.expired",
            BetaAssistantStreamEventType::ThreadMessageCreated => "thread.message.created",
            BetaAssistantStreamEventType::ThreadMessageInProgress => "thread.message.in_progress",
            BetaAssistantStreamEventType::ThreadMessageDelta => "thread.message.delta",
            BetaAssistantStreamEventType::ThreadMessageCompleted => "thread.message.completed",
            BetaAssistantStreamEventType::ThreadMessageIncomplete => "thread.message.incomplete",
            BetaAssistantStreamEventType::Error => "error",
            BetaAssistantStreamEventType::Unknown(text) => text.as_str(),
        }
    }

    /// The value a text names; a text no variant uses is kept as `Unknown`.
    pub fn from_text(value: &str) -> (r: BetaAssistantStreamEventType)
        ensures
            r.literal() == value@,
            r.is_unknown() == (BetaAssistantStreamEventType::known(value@) is None),
            BetaAssistantStreamEventType::known(value@) matches Some(k) ==> r == k,
    {
        if str_eq(value, "thread.created") {
            BetaAssistantStreamEventType::ThreadCreated
        } else if str_eq(value, "thread.run.created") {
            BetaAssistantStreamEventType::ThreadRunCreated
        } else if str_eq(value, "thread.run.queued") {
            BetaAssistantStreamEventType::ThreadRunQueued
        } else if str_eq(value, "thread.run.in_progress") {
            BetaAssistantStreamEventType::ThreadRunInProgress
        } else if str_eq(value, "thread.run.requires_action") {
            BetaAssistantStreamEventType::ThreadRunRequiresAction
        } else if str_eq(value, "thread.run.completed") {
            BetaAssistantStreamEventType::ThreadRunCompleted
        } else if str_eq(value, "thread.run.incomplete") {
            BetaAssistantStreamEventType::ThreadRunIncomplete
        } else if str_eq(value, "thread.run.failed") {
            BetaAssistantStreamEventType::ThreadRunFailed
        } else if str_eq(value, "thread.run.cancelling") {
            BetaAssistantStreamEventType::ThreadRunCancelling
        } else if str_eq(value, "thread.run.cancelled") {
            BetaAssistantStreamEventType::ThreadRunCancelled
        } else if str_eq(value, "thread.run.expired") {
            BetaAssistantStreamEventType::ThreadRunExpired
        } else if str_eq(value, "thread.run.step.created") {
            BetaAssistantStreamEventType::ThreadRunStepCreated
        } else if str_eq(value, "thread.run.step.in_progress") {
            BetaAssistantStreamEventType::ThreadRunStepInProgress
        } else if str_eq(value, "thread.run.step.delta") {
            BetaAssistantStreamEventType::ThreadRunStepDelta
        } else if str_eq(value, "thread.run.step.completed") {
            BetaAssistantStreamEventType::ThreadRunStepCompleted
        } else if str_eq(value, "thread.run.step.failed") {
            BetaAssistantStreamEventType::ThreadRunStepFailed
        } else if str_eq(value, "thread.run.step.cancelled") {
            BetaAssistantStreamEventType::ThreadRunStepCancelled
        } else if str_eq(value, "thread.run.step.expired") {
            BetaAssistantStreamEventType::ThreadRunStepExpired
        } else if str_eq(value, "thread.message.created") {
            BetaAssistantStreamEventType::ThreadMessageCreated
        } else if str_eq(value, "thread.message.in_progress") {
            BetaAssistantStreamEventType::ThreadMessageInProgress
        } else if str_eq(value, "thread.message.delta") {
            BetaAssistantStreamEventType::ThreadMessageDelta
        } else if str_eq(value, "thread.message.completed") {
            BetaAssistantStreamEventType::ThreadMessageCompleted
        } else if str_eq(value, "thread.message.incomplete") {
            BetaAssistantStreamEventType::ThreadMessageIncomplete
        } else if str_eq(value, "error") {
            BetaAssistantStreamEventType::Error
        } else {
            BetaAssistantStreamEventType::Unknown(value.to_string())
        }
    }
}

impl Default for BetaAssistantStreamEventType {
    fn default() -> (r: BetaAssistantStreamEventType)
        ensures
            r.literal() == Seq::<char>::empty(),
            r is Unknown,
    {
        BetaAssistantStreamEventType::Unknown(String::new())
    }
}

/// Deprecated beta thread message lifecycle status.
#[derive(Clone, Debug, PartialEq, Eq)]
pub enum BetaThreadMessageStatus {
    InProgress,
    Incomplete,
    Completed,
    /// A value this library does not know, kept as received.
    Unknown(String),
}

impl Literal for BetaThreadMessageStatus {
    open spec fn literal(&self) -> Seq<char> {
        match self {
            BetaThreadMessageStatus::InProgress => "in_progress"@,
            BetaThreadMessageStatus::Incomplete => "incomplete"@,
            BetaThreadMessageStatus::Completed => "completed"@,
            BetaThreadMessageStatus::Unknown(text) => text@,
        }
    }

    fn to_text(&self) -> (r: String) {
        self.as_str().to_string()
    }
}

impl OpenLiteral for BetaThreadMessageStatus {
    open spec fn known(text: Seq<char>) -> Option<BetaThreadMessageStatus> {
        if text == "in_progress"@ {
            Some(BetaThreadMessageStatus::InProgress)
        } else if text == "incomplete"@ {
            Some(BetaThreadMessageStatus::Incomplete)
        } else if text == "completed"@ {
            Some(BetaThreadMessageStatus::Completed)
        } else {
            None
        }
    }

    open spec fn is_unknown(&self) -> bool {
        self is Unknown
    }

    proof fn lemma_known_literal(value: Self) {
        reveal_strlit("in_progress");
        reveal_strlit("incomplete");
        reveal_strlit("completed");
        assert("in_progress"@.len() == 11);
        assert("incomplete"@.len() == 10);
        assert("completed"@.len() == 9);
    }

    proof fn lemma_known_text(text: Seq<char>) {
    }
}

impl BetaThreadMessageStatus {
    /// The text the API uses for this value.
    pub fn as_str(&self) -> (r: &str)
        ensures
            r@ == self.literal(),
    {
        match self {
            BetaThreadMessageStatus::InProgress => "in_progress",
            BetaThreadMessageStatus::Incomplete => "incomplete",
            BetaThreadMessageStatus::Completed => "completed",
            BetaThreadMessageStatus::Unknown(text) => text.as_str(),
        }
    }

    /// The value a text names; a text no variant uses is kept as `Unknown`.
    pub fn from_text(value: &str) -> (r: BetaThreadMessageStatus)
        ensures
            r.literal() == value@,
            r.is_unknown() == (BetaThreadMessageStatus::known(value@) is None),
            BetaThreadMessageStatus::known(value@) matches Some(k) ==> r == k,
    {
        if str_eq(value, "in_progress") {
            BetaThreadMessageStatus::InProgress
        } else if str_eq(value, "incomplete") {
            BetaThreadMessageStatus::Incomplete
        } else if str_eq(value, "completed") {
            BetaThreadMessageStatus::Completed
        } else {
            BetaThreadMessageStatus::Unknown(value.to_string())
        }
    }
}

impl Default for BetaThreadMessageStatus {
    fn default() -> (r: BetaThreadMessageStatus)
        ensures
            r.literal() == Seq::<char>::empty(),
            r is Unknown,
    {
        BetaThreadMessageStatus::Unknown(String::new())
    }
}

/// Deprecated beta thread run lifecycle status.
#[derive(Clone, Debug, PartialEq, Eq)]
pub enum BetaThreadRunStatus {
    Queued,
    InProgress,
    RequiresAction,
    Cancelling,
    Cancelled,
    Failed,
    Completed,
    Incomplete,
    Expired,
    /// A value this library does not know, kept as received.
    Unknown(String),
}

impl Literal for BetaThreadRunStatus {
    open spec fn literal(&self) -> Seq<char> {
        match self {
            BetaThreadRunStatus::Queued => "queued"@,
            BetaThreadRunStatus::InProgress => "in_progress"@,
            BetaThreadRunStatus::RequiresAction => "requires_action"@,
            BetaThreadRunStatus::Cancelling => "cancelling"@,
            BetaThreadRunStatus::Cancelled => "cancelled"@,
            BetaThreadRunStatus::Failed => "failed"@,
            BetaThreadRunStatus::Completed => "completed"@,
            BetaThreadRunStatus::Incomplete => "incomplete"@,
            BetaThreadRunStatus::Expired => "expired"@,
            BetaThreadRunStatus::Unknown(text) => text@,
        }
    }

    fn to_text(&self) -> (r: String) {
        self.as_str().to_string()
    }
}

impl OpenLiteral for BetaThreadRunStatus {
    open spec fn known(text: Seq<char>) -> Option<BetaThreadRunStatus> {
        if text == "queued"@ {
            Some(BetaThreadRunStatus::Queued)
        } else if text == "in_progress"@ {
            Some(BetaThreadRunStatus::InProgress)
        } else if text == "requires_action"@ {
            Some(BetaThreadRunStatus::RequiresAction)
        } else if text == "cancelling"@ {
            Some(BetaThreadRunStatus::Cancelling)
        } else if text == "cancelled"@ {
            Some(BetaThreadRunStatus::Cancelled)
        } else if text == "failed"@ {
            Some(BetaThreadRunStatus::Failed)
        } else if text == "completed"@ {
            Some(BetaThreadRunStatus::Completed)
        } else if text == "incomplete"@ {
            Some(BetaThreadRunStatus::Incomplete)
        } else if text == "expired"@ {
            Some(BetaThreadRunStatus::Expired)
        } else {
            None
        }
    }

    open spec fn is_unknown(&self) -> bool {
        self is Unknown
    }

    proof fn lemma_known_literal(value: Self) {
        reveal_strlit("queued");
        reveal_strlit("in_progress");
        reveal_strlit("requires_action");
        reveal_strlit("cancelling");
        reveal_strlit("cancelled");
        reveal_strlit("failed");
        reveal_strlit("completed");
        reveal_strlit("incomplete");
        reveal_strlit("expired");
        assert("queued"@.len() == 6);
        assert("in_progress"@.len() == 11);
        assert("requires_action"@.len() == 15);
        assert("cancelling"@.len() == 10);
        assert("cancelled"@.len() == 9);
        assert("failed"@.len() == 6);
        assert("completed"@.len() == 9);
        assert("incomplete"@.len() == 10);
        assert("expired"@.len() == 7);
        assert("queued"@[0] == 'q');
        assert("failed"@[0] == 'f');
        assert("cancelling"@[0] == 'c');
        assert("incomplete"@[0] == 'i');
        assert("cancelled"@[1] == 'a');
        assert("completed"@[1] == 'o');
    }

    proof fn lemma_known_text(text: Seq<char>) {
    }
}

impl BetaThreadRunStatus {
    /// The text the API uses for this value.
    pub fn as_str(&self) -> (r: &str)
        ensures
            r@ == self.literal(),
    {
        match self {
            BetaThreadRunStatus::Queued => "queued",
            BetaThreadRunStatus::InProgress => "in_progress",
            BetaThreadRunStatus::RequiresAction => "requires_action",
            BetaThreadRunStatus::Cancelling => "cancelling",
            BetaThreadRunStatus::Cancelled => "cancelled",
            BetaThreadRunStatus::Failed => "failed",
            BetaThreadRunStatus::Completed => "completed",
            BetaThreadRunStatus::Incomplete => "incomplete",
            BetaThreadRunStatus::Expired => "expired",
            BetaThreadRunStatus::Unknown(text) => text.as_str(),
        }
    }

    /// The value a text names; a text no variant uses is kept as `Unknown`.
    pub fn from_text(value: &str) -> (r: BetaThreadRunStatus)
        ensures
            r.literal() == value@,
            r.is_unknown() == (BetaThreadRunStatus::known(value@) is None),
            BetaThreadRunStatus::known(value@) matches Some(k) ==> r == k,
    {
        if str_eq(value, "queued") {
            BetaThreadRunStatus::Queued
        } else if str_eq(value, "in_progress") {
            BetaThreadRunStatus::InProgress
        } else if str_eq(value, "requires_action") {
            BetaThreadRunStatus::RequiresAction
        } else if str_eq(value, "cancelling") {
            BetaThreadRunStatus::Cancelling
        } else if str_eq(value, "cancelled") {
            BetaThreadRunStatus::Cancelled
        } else if str_eq(value, "failed") {
            BetaThreadRunStatus::Failed
        } else if str_eq(value, "completed") {
            BetaThreadRunStatus::Completed
        } else if str_eq(value, "incomplete") {
            BetaThreadRunStatus::Incomplete
        } else if str_eq(value, "expired") {
            BetaThreadRunStatus::Expired
        } else {
            BetaThreadRunStatus::Unknown(value.to_string())
        }
    }
}

impl Default for BetaThreadRunStatus {
    fn default() -> (r: BetaThreadRunStatus)
        ensures
            r.literal() == Seq::<char>::empty(),
            r is Unknown,
    {
        BetaThreadRunStatus::Unknown(String::new())
    }
}

/// Required action discriminator returned by deprecated beta thread runs.
#[derive(Clone, Debug, PartialEq, Eq)]
pub enum BetaThreadRunRequiredActionType {
    SubmitToolOutputs,
    /// A value this library does not know, kept as received.
    Unknown(String),
}

impl Literal for BetaThreadRunRequiredActionType {
    open spec fn literal(&self) -> Seq<char> {
        match self {
            BetaThreadRunRequiredActionType::SubmitToolOutputs => "submit_tool_outputs"@,
            BetaThreadRunRequiredActionType::Unknown(text) => text@,
        }
    }

    fn to_text(&self) -> (r: String) {
        self.as_str().to_string()
    }
}

impl OpenLiteral for BetaThreadRunRequiredActionType {
    open spec fn known(text: Seq<char>) -> Option<BetaThreadRunRequiredActionType> {
        if text == "submit_tool_outputs"@ {
            Some(BetaThreadRunRequiredActionType::SubmitToolOutputs)
        } else {
            None
        }
    }

    open spec fn is_unknown(&self) -> bool {
        self is Unknown
    }

    proof fn lemma_known_literal(value: Self) {
        reveal_strlit("submit_tool_outputs");
        assert("submit_tool_outputs"@.len() == 19);
    }

    proof fn lemma_known_text(text: Seq<char>) {
    }
}

impl BetaThreadRunRequiredActionType {
    /// The text the API uses for this value.
    pub fn as_str(&self) -> (r: &str)
        ensures
            r@ == self.literal(),
    {
        match self {
            BetaThreadRunRequiredActionType::SubmitToolOutputs => "submit_tool_outputs",
            BetaThreadRunRequiredActionType::Unknown(text) => text.as_str(),
        }
    }

    /// The value a text names; a text no variant uses is kept as `Unknown`.
    pub fn from_text(value: &str) -> (r: BetaThreadRunRequiredActionType)
        ensures
            r.literal() == value@,
            r.is_unknown() == (BetaThreadRunRequiredActionType::known(value@) is None),
            BetaThreadRunRequiredActionType::known(value@) matches Some(k) ==> r == k,
    {
        if str_eq(value, "submit_tool_outputs") {
            BetaThreadRunRequiredActionType::SubmitToolOutputs
        } else {
            BetaThreadRunRequiredActionType::Unknown(value.to_string())
        }
    }
}

impl Default for BetaThreadRunRequiredActionType {
    fn default() -> (r: BetaThreadRunRequiredActionType)
        ensures
            r.literal() == Seq::<char>::empty(),
            r is Unknown,
    {
        BetaThreadRunRequiredActionType::Unknown(String::new())
    }
}

/// Required tool-call discriminator returned by deprecated beta thread runs.
#[derive(Clone, Debug, PartialEq, Eq)]
pub enum BetaThreadRunRequiredActionToolCallType {
    Function,
    /// A value this library does not know, kept as received.
    Unknown(String),
}

impl Literal for BetaThreadRunRequiredActionToolCallType {
    open spec fn literal(&self) -> Seq<char> {
        match self {
            BetaThreadRunRequiredActionToolCallType::Function => "function"@,
            BetaThreadRunRequiredActionToolCallType::Unknown(text) => text@,
        }
    }

    fn to_text(&self) -> (r: String) {
        self.as_str().to_string()
    }
}

impl OpenLiteral for BetaThreadRunRequiredActionToolCallType {
    open spec fn known(text: Seq<char>) -> Option<BetaThreadRunRequiredActionToolCallType> {
        if text == "function"@ {
            Some(BetaThreadRunRequiredActionToolCallType::Function)
        } else {
            None
        }
    }

    open spec fn is_unknown(&self) -> bool {
        self is Unknown
    }

    proof fn lemma_known_literal(value: Self) {
        reveal_strlit("function");
        assert("function"@.len() == 8);
    }

    proof fn lemma_known_text(text: Seq<char>) {
    }
}

impl BetaThreadRunRequiredActionToolCallType {
    /// The text the API uses for this value.
    pub fn as_str(&self) -> (r: &str)
        ensures
            r@ == self.literal(),
    {
        match self {
            BetaThreadRunRequiredActionToolCallType::Function => "function",
            BetaThreadRunRequiredActionToolCallType::Unknown(text) => text.as_str(),
        }
    }

    /// The value a text names; a text no variant uses is kept as `Unknown`.
    pub fn from_text(value: &str) -> (r: BetaThreadRunRequiredActionToolCallType)
        ensures
            r.literal() == value@,
            r.is_unknown() == (BetaThreadRunRequiredActionToolCallType::known(value@) is None),
            BetaThreadRunRequiredActionToolCallType::known(value@) matches Some(k) ==> r == k,
    {
        if str_eq(value, "function") {
            BetaThreadRunRequiredActionToolCallType::Function
        } else {
            BetaThreadRunRequiredActionToolCallType::Unknown(value.to_string())
        }
    }
}

impl Default for BetaThreadRunRequiredActionToolCallType {
    fn default() -> (r: BetaThreadRunRequiredActionToolCallType)
        ensures
            r.literal() == Seq::<char>::empty(),
            r is Unknown,
    {
        BetaThreadRunRequiredActionToolCallType::Unknown(String::new())
    }
}

/// Deprecated beta thread run-step lifecycle status.
#[derive(Clone, Debug, PartialEq, Eq)]
pub enum BetaThreadRunStepStatus {
    InProgress,
    Cancelled,
    Failed,
    Completed,
    Expired,
    /// A value this library does not know, kept as received.
    Unknown(String),
}

impl Literal for BetaThreadRunStepStatus {
    open spec fn literal(&self) -> Seq<char> {
        match self {
            BetaThreadRunStepStatus::InProgress => "in_progress"@,
            BetaThreadRunStepStatus::Cancelled => "cancelled"@,
            BetaThreadRunStepStatus::Failed => "failed"@,
            BetaThreadRunStepStatus::Completed => "completed"@,
            BetaThreadRunStepStatus::Expired => "expired"@,
            BetaThreadRunStepStatus::Unknown(text) => text@,
        }
    }

    fn to_text(&self) -> (r: String) {
        self.as_str().to_string()
    }
}

impl OpenLiteral for BetaThreadRunStepStatus {
    open spec fn known(text: Seq<char>) -> Option<BetaThreadRunStepStatus> {
        if text == "in_progress"@ {
            Some(BetaThreadRunStepStatus::InProgress)
        } else if text == "cancelled"@ {
            Some(BetaThreadRunStepStatus::Cancelled)
        } else if text == "failed"@ {
            Some(BetaThreadRunStepStatus::Failed)
        } else if text == "completed"@ {
            Some(BetaThreadRunStepStatus::Completed)
        } else if text == "expired"@ {
            Some(BetaThreadRunStepStatus::Expired)
        } else {
            None
        }
    }

    open spec fn is_unknown(&self) -> bool {
        self is Unknown
    }

    proof fn lemma_known_literal(value: Self) {
        reveal_strlit("in_progress");
        reveal_strlit("cancelled");
        reveal_strlit("failed");
        reveal_strlit("completed");
        reveal_strlit("expired");
        assert("in_progress"@.len() == 11);
        assert("cancelled"@.len() == 9);
        assert("failed"@.len() == 6);
        assert("completed"@.len() == 9);
        assert("expired"@.len() == 7);
        assert("cancelled"@[1] == 'a');
        assert("completed"@[1] == 'o');
    }

    proof fn lemma_known_text(text: Seq<char>) {
    }
}

impl BetaThreadRunStepStatus {
    /// The text the API uses for this value.
    pub fn as_str(&self) -> (r: &str)
        ensures
            r@ == self.literal(),
    {
        match self {
            BetaThreadRunStepStatus::InProgress => "in_progress",
            BetaThreadRunStepStatus::Cancelled => "cancelled",
            BetaThreadRunStepStatus::Failed => "failed",
            BetaThreadRunStepStatus::Completed => "completed",
            BetaThreadRunStepStatus::Expired => "expired",
            BetaThreadRunStepStatus::Unknown(text) => text.as_str(),
        }
    }

    /// The value a text names; a text no variant uses is kept as `Unknown`.
    pub fn from_text(value: &str) -> (r: BetaThreadRunStepStatus)
        ensures
            r.literal() == value@,
            r.is_unknown() == (BetaThreadRunStepStatus::known(value@) is None),
            BetaThreadRunStepStatus::known(value@) matches Some(k) ==> r == k,
    {
        if str_eq(value, "in_progress") {
            BetaThreadRunStepStatus::InProgress
        } else if str_eq(value, "cancelled") {
            BetaThreadRunStepStatus::Cancelled
        } else if str_eq(value, "failed") {
            BetaThreadRunStepStatus::Failed
        } else if str_eq(value, "completed") {
            BetaThreadRunStepStatus::Completed
        } else if str_eq(value, "expired") {
            BetaThreadRunStepStatus::Expired
        } else {
            BetaThreadRunStepStatus::Unknown(value.to_string())
        }
    }
}

impl Default for BetaThreadRunStepStatus {
    fn default() -> (r: BetaThreadRunStepStatus)
        ensures
            r.literal() == Seq::<char>::empty(),
            r is Unknown,
    {
        BetaThreadRunStepStatus::Unknown(String::new())
    }
}

/// Deprecated beta thread run-step type.
#[derive(Clone, Debug, PartialEq, Eq)]
pub enum BetaThreadRunStepType {
    MessageCreation,
    ToolCalls,
    /// A value this library does not know, kept as received.
    Unknown(String),
}

impl Literal for BetaThreadRunStepType {
    open spec fn literal(&self) -> Seq<char> {
        match self {
            BetaThreadRunStepType::MessageCreation => "message_creation"@,
            BetaThreadRunStepType::ToolCalls => "tool_calls"@,
            BetaThreadRunStepType::Unknown(text) => text@,
        }
    }

    fn to_text(&self) -> (r: String) {
        self.as_str().to_string()
    }
}

impl OpenLiteral for BetaThreadRunStepType {
    open spec fn known(text: Seq<char>) -> Option<BetaThreadRunStepType> {
        if text == "message_creation"@ {
            Some(BetaThreadRunStepType::MessageCreation)
        } else if text == "tool_calls"@ {
            Some(BetaThreadRunStepType::ToolCalls)
        } else {
            None
        }
    }

    open spec fn is_unknown(&self) -> bool {
        self is Unknown
    }

    proof fn lemma_known_literal(value: Self) {
        reveal_strlit("message_creation");
        reveal_strlit("tool_calls");
        assert("message_creation"@.len() == 16);
        assert("tool_calls"@.len() == 10);
    }

    proof fn lemma_known_text(text: Seq<char>) {
    }
}

impl BetaThreadRunStepType {
    /// The text the API uses for this value.
    pub fn as_str(&self) -> (r: &str)
        ensures
            r@ == self.literal(),
    {
        match self {
            BetaThreadRunStepType::MessageCreation => "message_creation",
            BetaThreadRunStepType::ToolCalls => "tool_calls",
            BetaThreadRunStepType::Unknown(text) => text.as_str(),
        }
    }

    /// The value a text names; a text no variant uses is kept as `Unknown`.
    pub fn from_text(value: &str) -> (r: BetaThreadRunStepType)
        ensures
            r.literal() == value@,
            r.is_unknown() == (BetaThreadRunStepType::known(value@) is None),
            BetaThreadRunStepType::known(value@) matches Some(k) ==> r == k,
    {
        if str_eq(value, "message_creation") {
            BetaThreadRunStepType::MessageCreation
        } else if str_eq(value, "tool_calls") {
            BetaThreadRunStepType::ToolCalls
        } else {
            BetaThreadRunStepType::Unknown(value.to_string())
        }
    }
}

impl Default for BetaThreadRunStepType {
    fn default() -> (r: BetaThreadRunStepType)
        ensures
            r.literal() == Seq::<char>::empty(),
            r is Unknown,
    {
        BetaThreadRunStepType::Unknown(String::new())
    }
}

/// ChatKit attachment discriminator.
#[derive(Clone, Debug, PartialEq, Eq)]
pub enum ChatKitAttachmentType {
    Image,
    File,
    /// A value this library does not know, kept as received.
    Unknown(String),
}

impl Literal for ChatKitAttachmentType {
    open spec fn literal(&self) -> Seq<char> {
        match self {
            ChatKitAttachmentType::Image => "image"@,
            ChatKitAttachmentType::File => "file"@,
            ChatKitAttachmentType::Unknown(text) => text@,
        }
    }

    fn to_text(&self) -> (r: String) {
        self.as_str().to_string()
    }
}

impl OpenLiteral for ChatKitAttachmentType {
    open spec fn known(text: Seq<char>) -> Option<ChatKitAttachmentType> {
        if text == "image"@ {
            Some(ChatKitAttachmentType::Image)
        } else if text == "file"@ {
            Some(ChatKitAttachmentType::File)
        } else {
            None
        }
    }

    open spec fn is_unknown(&self) -> bool {
        self is Unknown
    }

    proof fn lemma_known_literal(value: Self) {
        reveal_strlit("image");
        reveal_strlit("file");
        assert("image"@.len() == 5);
        assert("file"@.len() == 4);
    }

    proof fn lemma_known_text(text: Seq<char>) {
    }
}

impl ChatKitAttachmentType {
    /// The text the API uses for this value.
    pub fn as_str(&self) -> (r: &str)
        ensures
            r@ == self.literal(),
    {
        match self {
            ChatKitAttachmentType::Image => "image",
            ChatKitAttachmentType::File => "file",
            ChatKitAttachmentType::Unknown(text) => text.as_str(),
        }
    }

    /// The value a text names; a text no variant uses is kept as `Unknown`.
    pub fn from_text(value: &str) -> (r: ChatKitAttachmentType)
        ensures
            r.literal() == value@,
            r.is_unknown() == (ChatKitAttachmentType::known(value@) is None),
            ChatKitAttachmentType::known(value@) matches Some(k) ==> r == k,
    {
        if str_eq(value, "image") {
            ChatKitAttachmentType::Image
        } else if str_eq(value, "file") {
            ChatKitAttachmentType::File
        } else {
            ChatKitAttachmentType::Unknown(value.to_string())
        }
    }
}

impl Default for ChatKitAttachmentType {
    fn default() -> (r: ChatKitAttachmentType)
        ensures
            r.literal() == Seq::<char>::empty(),
            r is Unknown,
    {
        ChatKitAttachmentType::Unknown(String::new())
    }
}

/// ChatKit client tool-call status.
#[derive(Clone, Debug, PartialEq, Eq)]
pub enum ChatKitClientToolCallStatus {
    InProgress,
    Completed,
    /// A value this library does not know, kept as received.
    Unknown(String),
}

impl Literal for ChatKitClientToolCallStatus {
    open spec fn literal(&self) -> Seq<char> {
        match self {
            ChatKitClientToolCallStatus::InProgress => "in_progress"@,
            ChatKitClientToolCallStatus::Completed => "completed"@,
            ChatKitClientToolCallStatus::Unknown(text) => text@,
        }
    }

    fn to_text(&self) -> (r: String) {
        self.as_str().to_string()
    }
}

impl OpenLiteral for ChatKitClientToolCallStatus {
    open spec fn known(text: Seq<char>) -> Option<ChatKitClientToolCallStatus> {
        if text == "in_progress"@ {
            Some(ChatKitClientToolCallStatus::InProgress)
        } else if text == "completed"@ {
            Some(ChatKitClientToolCallStatus::Completed)
        } else {
            None
        }
    }

    open spec fn is_unknown(&self) -> bool {
        self is Unknown
    }

    proof fn lemma_known_literal(value: Self) {
        reveal_strlit("in_progress");
        reveal_strlit("completed");
        assert("in_progress"@.len() == 11);
        assert("completed"@.len() == 9);
    }

    proof fn lemma_known_text(text: Seq<char>) {
    }
}

impl ChatKitClientToolCallStatus {
    /// The text the API uses for this value.
    pub fn as_str(&self) -> (r: &str)
        ensures
            r@ == self.literal(),
    {
        match self {
            ChatKitClientToolCallStatus::InProgress => "in_progress",
            ChatKitClientToolCallStatus::Completed => "completed",
            ChatKitClientToolCallStatus::Unknown(text) => text.as_str(),
        }
    }

    /// The value a text names; a text no variant uses is kept as `Unknown`.
    pub fn from_text(value: &str) -> (r: ChatKitClientToolCallStatus)
        ensures
            r.literal() == value@,
            r.is_unknown() == (ChatKitClientToolCallStatus::known(value@) is None),
            ChatKitClientToolCallStatus::known(value@) matches Some(k) ==> r == k,
    {
        if str_eq(value, "in_progress") {
            ChatKitClientToolCallStatus::InProgress
        } else if str_eq(value, "completed") {
            ChatKitClientToolCallStatus::Completed
        } else {
            ChatKitClientToolCallStatus::Unknown(value.to_string())
        }
    }
}

impl Default for ChatKitClientToolCallStatus {
    fn default() -> (r: ChatKitClientToolCallStatus)
        ensures
            r.literal() == Seq::<char>::empty(),
            r is Unknown,
    {
        ChatKitClientToolCallStatus::Unknown(String::new())
    }
}

/// ChatKit task subtype.
#[derive(Clone, Debug, PartialEq, Eq)]
pub enum ChatKitTaskType {
    Custom,
    Thought,
    /// A value this library does not know, kept as received.
    Unknown(String),
}

impl Literal for ChatKitTaskType {
    open spec fn literal(&self) -> Seq<char> {
        match self {
            ChatKitTaskType::Custom => "custom"@,
            ChatKitTaskType::Thought => "thought"@,
            ChatKitTaskType::Unknown(text) => text@,
        }
    }

    fn to_text(&self) -> (r: String) {
        self.as_str().to_string()
    }
}

impl OpenLiteral for ChatKitTaskType {
    open spec fn known(text: Seq<char>) -> Option<ChatKitTaskType> {
        if text == "custom"@ {
            Some(ChatKitTaskType::Custom)
        } else if text == "thought"@ {
            Some(ChatKitTaskType::Thought)
        } else {
            None
        }
    }

    open spec fn is_unknown(&self) -> bool {
        self is Unknown
    }

    proof fn lemma_known_literal(value: Self) {
        reveal_strlit("custom");
        reveal_strlit("thought");
        assert("custom"@.len() == 6);
        assert("thought"@.len() == 7);
    }

    proof fn lemma_known_text(text: Seq<char>) {
    }
}

impl ChatKitTaskType {
    /// The text the API uses for this value.
    pub fn as_str(&self) -> (r: &str)
        ensures
            r@ == self.literal(),
    {
        match self {
            ChatKitTaskType::Custom => "custom",
            ChatKitTaskType::Thought => "thought",
            ChatKitTaskType::Unknown(text) => text.as_str(),
        }
    }

    /// The value a text names; a text no variant uses is kept as `Unknown`.
    pub fn from_text(value: &str) -> (r: ChatKitTaskType)
        ensures
            r.literal() == value@,
            r.is_unknown() == (ChatKitTaskType::known(value@) is None),
            ChatKitTaskType::known(value@) matches Some(k) ==> r == k,
    {
        if str_eq(value, "custom") {
            ChatKitTaskType::Custom
        } else if str_eq(value, "thought") {
            ChatKitTaskType::Thought
        } else {
            ChatKitTaskType::Unknown(value.to_string())
        }
    }
}

impl Default for ChatKitTaskType {
    fn default() -> (r: ChatKitTaskType)
        ensures
            r.literal() == Seq::<char>::empty(),
            r is Unknown,
    {
        ChatKitTaskType::Unknown(String::new())
    }
}

/// Beta realtime session models accepted by session creation.
#[derive(Clone, Debug, PartialEq, Eq)]
pub enum BetaRealtimeSessionModel {
    GptRealtime,
    GptRealtime2025_08_28,
    Gpt4oRealtimePreview,
    Gpt4oRealtimePreview2024_10_01,
    Gpt4oRealtimePreview2024_12_17,
    Gpt4oRealtimePreview2025_06_03,
    Gpt4oMiniRealtimePreview,
    Gpt4oMiniRealtimePreview2024_12_17,
    /// A value this library does not know, kept as received.
    Unknown(String),
}

impl Literal for BetaRealtimeSessionModel {
    open spec fn literal(&self) -> Seq<char> {
        match self {
            BetaRealtimeSessionModel::GptRealtime => "gpt-realtime"@,
            BetaRealtimeSessionModel::GptRealtime2025_08_28 => "gpt-realtime-2025-08-28"@,
            BetaRealtimeSessionModel::Gpt4oRealtimePreview => "gpt-4o-realtime-preview"@,
            BetaRealtimeSessionModel::Gpt4oRealtimePreview2024_10_01 => "gpt-4o-realtime-preview-2024-10-01"@,
            BetaRealtimeSessionModel::Gpt4oRealtimePreview2024_12_17 => "gpt-4o-realtime-preview-2024-12-17"@,
            BetaRealtimeSessionModel::Gpt4oRealtimePreview2025_06_03 => "gpt-4o-realtime-preview-2025-06-03"@,
            BetaRealtimeSessionModel::Gpt4oMiniRealtimePreview => "gpt-4o-mini-realtime-preview"@,
            BetaRealtimeSessionModel::Gpt4oMiniRealtimePreview2024_12_17 => "gpt-4o-mini-realtime-preview-2024-12-17"@,
            BetaRealtimeSessionModel::Unknown(text) => text@,
        }
    }

    fn to_text(&self) -> (r: String) {
        self.as_str().to_string()
    }
}

impl OpenLiteral for BetaRealtimeSessionModel {
    open spec fn known(text: Seq<char>) -> Option<BetaRealtimeSessionModel> {
        if text == "gpt-realtime"@ {
            Some(BetaRealtimeSessionModel::GptRealtime)
        } else if text == "gpt-realtime-2025-08-28"@ {
            Some(BetaRealtimeSessionModel::GptRealtime2025_08_28)
        } else if text == "gpt-4o-realtime-preview"@ {
            Some(BetaRealtimeSessionModel::Gpt4oRealtimePreview)
        } else if text == "gpt-4o-realtime-preview-2024-10-01"@ {
            Some(BetaRealtimeSessionModel::Gpt4oRealtimePreview2024_10_01)
        } else if text == "gpt-4o-realtime-preview-2024-12-17"@ {
            Some(BetaRealtimeSessionModel::Gpt4oRealtimePreview2024_12_17)
        } else if text == "gpt-4o-realtime-preview-2025-06-03"@ {
            Some(BetaRealtimeSessionModel::Gpt4oRealtimePreview2025_06_03)
        } else if text == "gpt-4o-mini-realtime-preview"@ {
            Some(BetaRealtimeSessionModel::Gpt4oMiniRealtimePreview)
        } else if text == "gpt-4o-mini-realtime-preview-2024-12-17"@ {
            Some(BetaRealtimeSessionModel::Gpt4oMiniRealtimePreview2024_12_17)
        } else {
            None
        }
    }

    open spec fn is_unknown(&self) -> bool {
        self is Unknown
    }

    proof fn lemma_known_literal(value: Self) {
        reveal_strlit("gpt-realtime");
        reveal_strlit("gpt-realtime-2025-08-28");
        reveal_strlit("gpt-4o-realtime-preview");
        reveal_strlit("gpt-4o-realtime-preview-2024-10-01");
        reveal_strlit("gpt-4o-realtime-preview-2024-12-17");
        reveal_strlit("gpt-4o-realtime-preview-2025-06-03");
        reveal_strlit("gpt-4o-mini-realtime-preview");
        reveal_strlit("gpt-4o-mini-realtime-preview-2024-12-17");
        assert("gpt-realtime"@.len() == 12);
        assert("gpt-realtime-2025-08-28"@.len() == 23);
        assert("gpt-4o-realtime-preview"@.len() == 23);
        assert("gpt-4o-realtime-preview-2024-10-01"@.len() == 34);
        assert("gpt-4o-realtime-preview-2024-12-17"@.len() == 34);
        assert("gpt-4o-realtime-preview-2025-06-03"@.len() == 34);
        assert("gpt-4o-mini-realtime-preview"@.len() == 28);
        assert("gpt-4o-mini-realtime-preview-2024-12-17"@.len() == 39);
        assert("gpt-realtime-2025-08-28"@[4] == 'r');
        assert("gpt-4o-realtime-preview"@[4] == '4');
        assert("gpt-4o-realtime-preview-2024-10-01"@[30] == '0');
        assert("gpt-4o-realtime-preview-2024-12-17"@[30] == '2');
        assert("gpt-4o-realtime-preview-2024-10-01"@[27] == '4');
        assert("gpt-4o-realtime-preview-2025-06-03"@[27] == '5');
        assert("gpt-4o-realtime-preview-2024-12-17"@[27] == '4');
    }

    proof fn lemma_known_text(text: Seq<char>) {
    }
}

impl BetaRealtimeSessionModel {
    /// The text the API uses for this value.
    pub fn as_str(&self) -> (r: &str)
        ensures
            r@ == self.literal(),
    {
        match self {
            BetaRealtimeSessionModel::GptRealtime => "gpt-realtime",
            BetaRealtimeSessionModel::GptRealtime2025_08_28 => "gpt-realtime-2025-08-28",
            BetaRealtimeSessionModel::Gpt4oRealtimePreview => "gpt-4o-realtime-preview",
            BetaRealtimeSessionModel::Gpt4oRealtimePreview2024_10_01 => "gpt-4o-realtime-preview-2024-10-01",
            BetaRealtimeSessionModel::Gpt4oRealtimePreview2024_12_17 => "gpt-4o-realtime-preview-2024-12-17",
            BetaRealtimeSessionModel::Gpt4oRealtimePreview2025_06_03 => "gpt-4o-realtime-preview-2025-06-03",
            BetaRealtimeSessionModel::Gpt4oMiniRealtimePreview => "gpt-4o-mini-realtime-preview",
            BetaRealtimeSessionModel::Gpt4oMiniRealtimePreview2024_12_17 => "gpt-4o-mini-realtime-preview-2024-12-17",
            BetaRealtimeSessionModel::Unknown(text) => text.as_str(),
        }
    }

    /// The value a text names; a text no variant uses is kept as `Unknown`.
    pub fn from_text(value: &str) -> (r: BetaRealtimeSessionModel)
        ensures
            r.literal() == value@,
            r.is_unknown() == (BetaRealtimeSessionModel::known(value@) is None),
            BetaRealtimeSessionModel::known(value@) matches Some(k) ==> r == k,
    {
        if str_eq(value, "gpt-realtime") {
            BetaRealtimeSessionModel::GptRealtime
        } else if str_eq(value, "gpt-realtime-2025-08-28") {
            BetaRealtimeSessionModel::GptRealtime2025_08_28
        } else if str_eq(value, "gpt-4o-realtime-preview") {
            BetaRealtimeSessionModel::Gpt4oRealtimePreview
        } else if str_eq(value, "gpt-4o-realtime-preview-2024-10-01") {
            BetaRealtimeSessionModel::Gpt4oRealtimePreview2024_10_01
        } else if str_eq(value, "gpt-4o-realtime-preview-2024-12-17") {
            BetaRealtimeSessionModel::Gpt4oRealtimePreview2024_12_17
        } else if str_eq(value, "gpt-4o-realtime-preview-2025-06-03") {
            BetaRealtimeSessionModel::Gpt4oRealtimePreview2025_06_03
        } else if str_eq(value, "gpt-4o-mini-realtime-preview") {
            BetaRealtimeSessionModel::Gpt4oMiniRealtimePreview
        } else if str_eq(value, "gpt-4o-mini-realtime-preview-2024-12-17") {
            BetaRealtimeSessionModel::Gpt4oMiniRealtimePreview2024_12_17
        } else {
            BetaRealtimeSessionModel::Unknown(value.to_string())
        }
    }
}

impl Default for BetaRealtimeSessionModel {
    fn default() -> (r: BetaRealtimeSessionModel)
        ensures
            r.literal() == Seq::<char>::empty(),
            r is Unknown,
    {
        BetaRealtimeSessionModel::Unknown(String::new())
    }
}

/// Models accepted by beta realtime input-audio transcription.
#[derive(Clone, Debug, PartialEq, Eq)]
pub enum BetaRealtimeInputAudioTranscriptionModel {
    Gpt4oTranscribe,
    Gpt4oMiniTranscribe,
    Whisper1,
    /// A value this library does not know, kept as received.
    Unknown(String),
}

impl Literal for BetaRealtimeInputAudioTranscriptionModel {
    open spec fn literal(&self) -> Seq<char> {
        match self {
            BetaRealtimeInputAudioTranscriptionModel::Gpt4oTranscribe => "gpt-4o-transcribe"@,
            BetaRealtimeInputAudioTranscriptionModel::Gpt4oMiniTranscribe => "gpt-4o-mini-transcribe"@,
            BetaRealtimeInputAudioTranscriptionModel::Whisper1 => "whisper-1"@,
            BetaRealtimeInputAudioTranscriptionModel::Unknown(text) => text@,
        }
    }

    fn to_text(&self) -> (r: String) {
        self.as_str().to_string()
    }
}

impl OpenLiteral for BetaRealtimeInputAudioTranscriptionModel {
    open spec fn known(text: Seq<char>) -> Option<BetaRealtimeInputAudioTranscriptionModel> {
        if text == "gpt-4o-transcribe"@ {
            Some(BetaRealtimeInputAudioTranscriptionModel::Gpt4oTranscribe)
        } else if text == "gpt-4o-mini-transcribe"@ {
            Some(BetaRealtimeInputAudioTranscriptionModel::Gpt4oMiniTranscribe)
        } else if text == "whisper-1"@ {
            Some(BetaRealtimeInputAudioTranscriptionModel::Whisper1)
        } else {
            None
        }
    }

    open spec fn is_unknown(&self) -> bool {
        self is Unknown
    }

    proof fn lemma_known_literal(value: Self) {
        reveal_strlit("gpt-4o-transcribe");
        reveal_strlit("gpt-4o-mini-transcribe");
        reveal_strlit("whisper-1");
        assert("gpt-4o-transcribe"@.len() == 17);
        assert("gpt-4o-mini-transcribe"@.len() == 22);
        assert("whisper-1"@.len() == 9);
    }

    proof fn lemma_known_text(text: Seq<char>) {
    }
}

impl BetaRealtimeInputAudioTranscriptionModel {
    /// The text the API uses for this value.
    pub fn as_str(&self) -> (r: &str)
        ensures
            r@ == self.literal(),
    {
        match self {
            BetaRealtimeInputAudioTranscriptionModel::Gpt4oTranscribe => "gpt-4o-transcribe",
            BetaRealtimeInputAudioTranscriptionModel::Gpt4oMiniTranscribe => "gpt-4o-mini-transcribe",
            BetaRealtimeInputAudioTranscriptionModel::Whisper1 => "whisper-1",
            BetaRealtimeInputAudioTranscriptionModel::Unknown(text) => text.as_str(),
        }
    }

    /// The value a text names; a text no variant uses is kept as `Unknown`.
    pub fn from_text(value: &str) -> (r: BetaRealtimeInputAudioTranscriptionModel)
        ensures
            r.literal() == value@,
            r.is_unknown() == (BetaRealtimeInputAudioTranscriptionModel::known(value@) is None),
            BetaRealtimeInputAudioTranscriptionModel::known(value@) matches Some(k) ==> r == k,
    {
        if str_eq(value, "gpt-4o-transcribe") {
            BetaRealtimeInputAudioTranscriptionModel::Gpt4oTranscribe
        } else if str_eq(value, "gpt-4o-mini-transcribe") {
            BetaRealtimeInputAudioTranscriptionModel::Gpt4oMiniTranscribe
        } else if str_eq(value, "whisper-1") {
            BetaRealtimeInputAudioTranscriptionModel::Whisper1
        } else {
            BetaRealtimeInputAudioTranscriptionModel::Unknown(value.to_string())
        }
    }
}

impl Default for BetaRealtimeInputAudioTranscriptionModel {
    fn default() -> (r: BetaRealtimeInputAudioTranscriptionModel)
        ensures
            r.literal() == Seq::<char>::empty(),
            r is Unknown,
    {
        BetaRealtimeInputAudioTranscriptionModel::Unknown(String::new())
    }
}

/// Flexible query parameters for deprecated beta endpoints.
#[derive(Clone, Debug)]
pub struct BetaQueryParams {
    pairs: QueryPairs,
}

impl View for BetaQueryParams {
    type V = Seq<(Seq<char>, Seq<char>)>;

    closed spec fn view(&self) -> Seq<(Seq<char>, Seq<char>)> {
        self.pairs@
    }
}

impl BetaQueryParams {
    pub fn new() -> (r: BetaQueryParams)
        ensures
            r@ == Seq::<(Seq<char>, Seq<char>)>::empty(),
    {
        BetaQueryParams { pairs: QueryPairs::new() }
    }

    pub(crate) fn from_pairs(pairs: QueryPairs) -> (r: BetaQueryParams)
        ensures
            r@ == pairs@,
    {
        BetaQueryParams { pairs }
    }

    /// Appends one pair.
    pub fn push(self, key: &str, value: String) -> (r: BetaQueryParams)
        ensures
            r@ == self@.push((key@, value@)),
    {
        let mut r = self;
        r.pairs.push(key, value);
        r
    }

    /// Appends one pair when a value is present.
    pub fn push_opt(self, key: &str, value: Option<String>) -> (r: BetaQueryParams)
        ensures
            r@ == self@ + opt_pair(key@, opt_view(value)),
    {
        let mut r = self;
        r.pairs.push_opt(key, value);
        r
    }

    /// Appends the key once for each value, in order.
    pub fn push_repeated(self, key: &str, values: Vec<String>) -> (r: BetaQueryParams)
        ensures
            r@ == self@ + crate::query::repeated_pairs(key@, crate::query::texts_view(values@)),
    {
        let mut r = self;
        r.pairs.push_repeated(key, &values);
        r
    }

    /// Appends `key[]` once for each value, in order.
    pub fn push_array(self, key: &str, values: Vec<String>) -> (r: BetaQueryParams)
        ensures
            r@ == self@ + crate::query::repeated_pairs(key@ + "[]"@, crate::query::texts_view(values@)),
    {
        let mut array_key = key.to_string();
        push_str(&mut array_key, "[]");
        let mut r = self;
        r.pairs.push_repeated(array_key.as_str(), &values);
        r
    }

    /// The pairs, in order.
    pub fn pairs(&self) -> (r: &[(String, String)])
        ensures
            pairs_view(r@) == self@,
    {
        self.pairs.as_slice()
    }

    pub fn into_pairs(self) -> (r: Vec<(String, String)>)
        ensures
            pairs_view(r@) == self@,
    {
        self.pairs.into_vec()
    }
}


/// Deprecated beta assistant deletion response.
#[derive(Clone, Debug, PartialEq)]
pub struct BetaAssistantDeleted {
    pub id: String,
    pub object: String,
    pub deleted: bool,
    pub extra: BTreeMap<String, Value>,
}

/// Deprecated beta assistant response format selector.
#[derive(Clone, Debug, PartialEq)]
pub enum BetaAssistantResponseFormat {
    Auto,
    Text,
    JsonObject,
    JsonSchema(BetaAssistantResponseFormatJsonSchema),
}

/// JSON-schema response format payload for deprecated beta assistants.
#[derive(Clone, Debug, Default, PartialEq)]
pub struct BetaAssistantResponseFormatJsonSchema {
    pub name: String,
    pub schema: Value,
    pub description: Option<String>,
    pub strict: Option<bool>,
    pub extra: BTreeMap<String, Value>,
}

/// Deprecated beta assistant tool-choice selector.
#[derive(Clone, Debug, PartialEq)]
pub enum BetaAssistantToolChoice {
    NoTools,
    Auto,
    Required,
    Function(BetaAssistantToolChoiceFunction),
    CodeInterpreter,
    FileSearch,
}

/// Function name for a deprecated beta assistant named tool choice.
#[derive(Clone, Debug, Default, PartialEq)]
pub struct BetaAssistantToolChoiceFunction {
    pub name: String,
    pub extra: BTreeMap<String, Value>,
}

/// Deprecated beta thread/run truncation strategy.
#[derive(Clone, Debug, Default, PartialEq)]
pub struct BetaTruncationStrategy {
    pub strategy_type: BetaTruncationStrategyType,
    pub last_messages: Option<u32>,
    pub extra: BTreeMap<String, Value>,
}

/// Function definition for deprecated beta assistant tools.
#[derive(Clone, Debug, Default, PartialEq)]
pub struct BetaAssistantFunctionDefinition {
    pub name: String,
    pub description: Option<String>,
    pub parameters: Option<Value>,
    pub strict: Option<bool>,
    pub extra: BTreeMap<String, Value>,
}

/// Tool resources accepted when creating beta assistants or threads.
#[derive(Clone, Debug, Default, PartialEq)]
pub struct BetaToolResources {
    pub code_interpreter: Option<BetaToolResourcesCodeInterpreter>,
    pub file_search: Option<BetaToolResourcesFileSearch>,
    pub extra: BTreeMap<String, Value>,
}

/// Code-interpreter file resources.
#[derive(Clone, Debug, Default, PartialEq)]
pub struct BetaToolResourcesCodeInterpreter {
    pub file_ids: Vec<String>,
    pub extra: BTreeMap<String, Value>,
}

/// File-search resources accepted by create calls.
#[derive(Clone, Debug, Default, PartialEq)]
pub struct BetaToolResourcesFileSearch {
    pub vector_store_ids: Vec<String>,
    pub vector_stores: Vec<BetaToolResourcesVectorStore>,
    pub extra: BTreeMap<String, Value>,
}

/// Inline vector-store creation helper for beta tool resources.
#[derive(Clone, Debug, Default, PartialEq)]
pub struct BetaToolResourcesVectorStore {
    pub chunking_strategy: Option<BetaVectorStoreChunkingStrategy>,
    pub file_ids: Vec<String>,
    pub metadata: Option<BTreeMap<String, String>>,
    pub extra: BTreeMap<String, Value>,
}

/// Vector-store chunking strategy for beta tool-resource helpers.
#[derive(Clone, Debug, PartialEq)]
pub enum BetaVectorStoreChunkingStrategy {
    Auto,
    Static {
        static_config: BetaVectorStoreStaticChunkingStrategy,
    },
}

/// Static vector-store chunking configuration.
#[derive(Clone, Debug, Eq, PartialEq)]
pub struct BetaVectorStoreStaticChunkingStrategy {
    pub chunk_overlap_tokens: u32,
    pub max_chunk_size_tokens: u32,
}

/// Tool-resource overrides accepted by beta update and run top-level calls.
#[derive(Clone, Debug, Default, PartialEq)]
pub struct BetaToolResourceOverrides {
    pub code_interpreter: Option<BetaToolResourcesCodeInterpreter>,
    pub file_search: Option<BetaToolResourceFileSearchOverrides>,
    pub extra: BTreeMap<String, Value>,
}

/// File-search resource override list.
#[derive(Clone, Debug, Default, PartialEq)]
pub struct BetaToolResourceFileSearchOverrides {
    pub vector_store_ids: Vec<String>,
    pub extra: BTreeMap<String, Value>,
}

/// Deprecated beta assistant list parameters.
#[derive(Clone, Debug, Default, Eq, PartialEq)]
pub struct BetaAssistantListParams {
    pub after: Option<String>,
    pub before: Option<String>,
    pub limit: Option<u32>,
    pub order: Option<ListOrder>,
}

/// Deprecated beta thread resource.
#[derive(Clone, Debug, PartialEq)]
pub struct BetaThread {
    pub id: String,
    pub object: String,
    pub created_at: u64,
    pub metadata: Option<BTreeMap<String, String>>,
    pub tool_resources: Option<BetaToolResources>,
    pub extra: BTreeMap<String, Value>,
}

/// Deprecated beta thread deletion response.
#[derive(Clone, Debug, PartialEq)]
pub struct BetaThreadDeleted {
    pub id: String,
    pub object: String,
    pub deleted: bool,
    pub extra: BTreeMap<String, Value>,
}

/// Deprecated beta thread creation parameters.
#[derive(Clone, Debug, Default, PartialEq)]
pub struct BetaThreadCreateParams {
    pub messages: Option<Vec<BetaThreadMessageCreateParams>>,
    pub metadata: Option<BTreeMap<String, String>>,
    pub tool_resources: Option<BetaToolResources>,
}

/// Deprecated beta thread update parameters.
#[derive(Clone, Debug, Default, PartialEq)]
pub struct BetaThreadUpdateParams {
    pub metadata: Option<BTreeMap<String, String>>,
    pub tool_resources: Option<BetaToolResourceOverrides>,
}

/// Deprecated beta thread message resource.
#[derive(Clone, Debug, PartialEq)]
pub struct BetaThreadMessage {
    pub id: String,
    pub object: String,
    pub created_at: u64,
    pub thread_id: String,
    pub assistant_id: Option<String>,
    pub attachments: Option<Vec<BetaThreadMessageAttachment>>,
    pub completed_at: Option<u64>,
    pub content: Vec<BetaThreadMessageContentBlock>,
    pub incomplete_at: Option<u64>,
    pub incomplete_details: Option<BetaThreadRunIncompleteDetails>,
    pub metadata: Option<BTreeMap<String, String>>,
    pub role: Option<BetaThreadMessageRole>,
    pub run_id: Option<String>,
    pub status: Option<BetaThreadMessageStatus>,
    pub extra: BTreeMap<String, Value>,
}

/// Deprecated beta thread message list response.
pub type BetaThreadMessageListResponse = BetaCursorPage<BetaThreadMessage>;

/// Deprecated beta thread message content block.
#[derive(Clone, Debug, PartialEq)]
pub enum BetaThreadMessageContentBlock {
    Text {
        text: BetaThreadMessageText,
    },
    ImageFile {
        image_file: BetaThreadMessageImageFile,
    },
    ImageUrl {
        image_url: BetaThreadMessageImageUrl,
    },
    Refusal {
        refusal: String,
    },
}

/// Text content returned on deprecated beta thread messages.
#[derive(Clone, Debug, PartialEq)]
pub struct BetaThreadMessageText {
    pub annotations: Vec<BetaThreadMessageAnnotation>,
    pub value: String,
    pub extra: BTreeMap<String, Value>,
}

/// Annotation returned on deprecated beta thread message text.
#[derive(Clone, Debug, PartialEq)]
pub enum BetaThreadMessageAnnotation {
    FileCitation {
        end_index: u64,
        file_citation: BetaThreadMessageFileCitation,
        start_index: u64,
        text: String,
        extra: BTreeMap<String, Value>,
    },
    FilePath {
        end_index: u64,
        file_path: BetaThreadMessageFilePath,
        start_index: u64,
        text: String,
        extra: BTreeMap<String, Value>,
    },
}

/// File citation annotation payload.
#[derive(Clone, Debug, PartialEq)]
pub struct BetaThreadMessageFileCitation {
    pub file_id: String,
    pub extra: BTreeMap<String, Value>,
}

/// File path annotation payload.
#[derive(Clone, Debug, PartialEq)]
pub struct BetaThreadMessageFilePath {
    pub file_id: String,
    pub extra: BTreeMap<String, Value>,
}

/// Deprecated beta thread message deletion response.
#[derive(Clone, Debug, PartialEq)]
pub struct BetaThreadMessageDeleted {
    pub id: String,
    pub object: String,
    pub deleted: bool,
    pub extra: BTreeMap<String, Value>,
}

/// Deprecated beta thread message creation parameters.
#[derive(Clone, Debug, PartialEq)]
pub struct BetaThreadMessageCreateParams {
    pub role: BetaThreadMessageRole,
    pub content: BetaThreadMessageContent,
    pub attachments: Option<Vec<BetaThreadMessageAttachment>>,
    pub metadata: Option<BTreeMap<String, String>>,
}

/// Deprecated beta thread message content.
#[derive(Clone, Debug, Eq, PartialEq)]
pub enum BetaThreadMessageContent {
    Text(String),
    Parts(Vec<BetaThreadMessageContentPart>),
}

/// Deprecated beta thread message multimodal content part.
#[derive(Clone, Debug, Eq, PartialEq)]
pub enum BetaThreadMessageContentPart {
    Text {
        text: String,
    },
    ImageFile {
        image_file: BetaThreadMessageImageFile,
    },
    ImageUrl {
        image_url: BetaThreadMessageImageUrl,
    },
}

/// Deprecated beta thread image detail control.
#[derive(Clone, Copy, Debug, Eq, PartialEq)]
pub enum BetaThreadMessageImageDetail {
    Auto,
    Low,
    High,
}

/// Deprecated beta thread message image-file descriptor.
#[derive(Clone, Debug, Eq, PartialEq)]
pub struct BetaThreadMessageImageFile {
    pub file_id: String,
    pub detail: Option<BetaThreadMessageImageDetail>,
}

/// Deprecated beta thread message image-url descriptor.
#[derive(Clone, Debug, Eq, PartialEq)]
pub struct BetaThreadMessageImageUrl {
    pub url: String,
    pub detail: Option<BetaThreadMessageImageDetail>,
}

/// Deprecated beta thread message file attachment.
#[derive(Clone, Debug, Default, Eq, PartialEq)]
pub struct BetaThreadMessageAttachment {
    pub file_id: Option<String>,
    pub tools: Vec<BetaThreadMessageAttachmentTool>,
}

/// Deprecated beta thread message attachment tool target.
#[derive(Clone, Debug, Eq, PartialEq)]
pub enum BetaThreadMessageAttachmentTool {
    CodeInterpreter,
    FileSearch,
}

/// Deprecated beta thread message update parameters.
#[derive(Clone, Debug, Default, PartialEq)]
pub struct BetaThreadMessageUpdateParams {
    pub metadata: Option<BTreeMap<String, String>>,
}

/// Deprecated beta thread message list parameters.
#[derive(Clone, Debug, Default, Eq, PartialEq)]
pub struct BetaThreadMessageListParams {
    pub after: Option<String>,
    pub before: Option<String>,
    pub limit: Option<u32>,
    pub order: Option<ListOrder>,
    pub run_id: Option<String>,
}

/// Details on why a deprecated beta thread run is incomplete.
#[derive(Clone, Debug, PartialEq)]
pub struct BetaThreadRunIncompleteDetails {
    pub reason: Option<String>,
    pub extra: BTreeMap<String, Value>,
}

/// Last error returned on a deprecated beta thread run.
#[derive(Clone, Debug, PartialEq)]
pub struct BetaThreadRunLastError {
    pub code: Option<String>,
    pub message: String,
    pub extra: BTreeMap<String, Value>,
}

/// Token usage returned on a terminal deprecated beta thread run.
#[derive(Clone, Debug, PartialEq)]
pub struct BetaThreadRunUsage {
    pub completion_tokens: u64,
    pub prompt_tokens: u64,
    pub total_tokens: u64,
    pub extra: BTreeMap<String, Value>,
}

/// Required action returned on a deprecated beta thread run.
#[derive(Clone, Debug, PartialEq)]
pub struct BetaThreadRunRequiredAction {
    pub action_type: BetaThreadRunRequiredActionType,
    pub submit_tool_outputs: BetaThreadRunRequiredActionSubmitToolOutputs,
    pub extra: BTreeMap<String, Value>,
}

/// Tool outputs required to continue a deprecated beta thread run.
#[derive(Clone, Debug, PartialEq)]
pub struct BetaThreadRunRequiredActionSubmitToolOutputs {
    pub tool_calls: Vec<BetaThreadRunRequiredActionFunctionToolCall>,
    pub extra: BTreeMap<String, Value>,
}

/// Function tool call required to continue a deprecated beta thread run.
#[derive(Clone, Debug, PartialEq)]
pub struct BetaThreadRunRequiredActionFunctionToolCall {
    pub id: String,
    pub function: BetaThreadRunRequiredActionFunction,
    pub tool_call_type: BetaThreadRunRequiredActionToolCallType,
    pub extra: BTreeMap<String, Value>,
}

/// Function payload for a required deprecated beta thread run action.
#[derive(Clone, Debug, PartialEq)]
pub struct BetaThreadRunRequiredActionFunction {
    pub arguments: String,
    pub name: String,
    pub extra: BTreeMap<String, Value>,
}

/// Additional message to add before creating a deprecated beta thread run.
#[derive(Clone, Debug, PartialEq)]
pub struct BetaThreadRunAdditionalMessage {
    pub role: BetaThreadMessageRole,
    pub content: BetaThreadMessageContent,
    pub attachments: Option<Vec<BetaThreadMessageAttachment>>,
    pub metadata: Option<BTreeMap<String, String>>,
}

/// Deprecated beta thread run update parameters.
#[derive(Clone, Debug, Default, PartialEq)]
pub struct BetaThreadRunUpdateParams {
    pub metadata: Option<BTreeMap<String, String>>,
}

/// Deprecated beta thread run list parameters.
#[derive(Clone, Debug, Default, Eq, PartialEq)]
pub struct BetaThreadRunListParams {
    pub after: Option<String>,
    pub before: Option<String>,
    pub limit: Option<u32>,
    pub order: Option<ListOrder>,
}

/// Deprecated beta run tool output payload.
#[derive(Clone, Debug, Default, Eq, PartialEq)]
pub struct BetaThreadRunToolOutput {
    pub output: Option<String>,
    pub tool_call_id: Option<String>,
}

/// Deprecated beta submit-tool-outputs parameters.
#[derive(Clone, Debug, Default, Eq, PartialEq)]
pub struct BetaThreadRunSubmitToolOutputsParams {
    pub tool_outputs: Vec<BetaThreadRunToolOutput>,
    pub stream: Option<bool>,
}

/// Last error returned on a deprecated beta thread run step.
#[derive(Clone, Debug, PartialEq)]
pub struct BetaThreadRunStepLastError {
    pub code: Option<String>,
    pub message: String,
    pub extra: BTreeMap<String, Value>,
}

/// Message-creation payload returned for a deprecated beta thread run step.
#[derive(Clone, Debug, PartialEq)]
pub struct BetaThreadRunStepMessageCreation {
    pub message_id: String,
    pub extra: BTreeMap<String, Value>,
}

/// Code-interpreter payload returned for a deprecated beta thread run step.
#[derive(Clone, Debug, PartialEq)]
pub struct BetaThreadRunStepCodeInterpreter {
    pub input: String,
    pub outputs: Vec<BetaThreadRunStepCodeInterpreterOutput>,
    pub extra: BTreeMap<String, Value>,
}

/// Code-interpreter output returned for a deprecated beta thread run step.
#[derive(Clone, Debug, PartialEq)]
pub enum BetaThreadRunStepCodeInterpreterOutput {
    Logs {
        logs: String,
        extra: BTreeMap<String, Value>,
    },
    Image {
        image: BetaThreadRunStepCodeInterpreterOutputImage,
        extra: BTreeMap<String, Value>,
    },
}

/// Code-interpreter image output returned for a deprecated beta thread run step.
#[derive(Clone, Debug, PartialEq)]
pub struct BetaThreadRunStepCodeInterpreterOutputImage {
    pub file_id: String,
    pub extra: BTreeMap<String, Value>,
}

/// File-search result content returned for a deprecated beta thread run step.
#[derive(Clone, Debug, PartialEq)]
pub struct BetaThreadRunStepFileSearchResultContent {
    pub text: Option<String>,
    pub content_type: Option<String>,
    pub extra: BTreeMap<String, Value>,
}

/// Function payload returned for a deprecated beta thread run step.
#[derive(Clone, Debug, PartialEq)]
pub struct BetaThreadRunStepFunction {
    pub arguments: String,
    pub name: String,
    pub output: Option<String>,
    pub extra: BTreeMap<String, Value>,
}

/// Usage returned on a deprecated beta thread run step.
#[derive(Clone, Debug, PartialEq)]
pub struct BetaThreadRunStepUsage {
    pub completion_tokens: u64,
    pub prompt_tokens: u64,
    pub total_tokens: u64,
    pub extra: BTreeMap<String, Value>,
}

/// Deprecated beta run-step retrieve query parameters.
#[derive(Clone, Debug, Default, Eq, PartialEq)]
pub struct BetaThreadRunStepRetrieveParams {
    pub includes: Option<Vec<BetaThreadRunStepInclude>>,
}

/// Deprecated beta run-step list query parameters.
#[derive(Clone, Debug, Default, Eq, PartialEq)]
pub struct BetaThreadRunStepListParams {
    pub after: Option<String>,
    pub before: Option<String>,
    pub includes: Option<Vec<BetaThreadRunStepInclude>>,
    pub limit: Option<u32>,
    pub order: Option<ListOrder>,
}

/// Cursor page returned by deprecated beta list endpoints.
#[derive(Clone, Debug, PartialEq)]
pub struct BetaCursorPage<T> {
    pub object: String,
    pub data: Vec<T>,
    pub first_id: Option<String>,
    pub last_id: Option<String>,
    pub has_more: bool,
    pub extra: BTreeMap<String, Value>,
}

/// Deprecated beta Assistants stream message-delta payload.
#[derive(Clone, Debug, PartialEq)]
pub struct BetaThreadMessageDeltaEvent {
    pub id: String,
    pub object: String,
    pub delta: Value,
    pub extra: BTreeMap<String, Value>,
}

/// Deprecated beta Assistants stream run-step-delta payload.
#[derive(Clone, Debug, PartialEq)]
pub struct BetaThreadRunStepDeltaEvent {
    pub id: String,
    pub object: String,
    pub delta: Value,
    pub extra: BTreeMap<String, Value>,
}

/// Error payload emitted on deprecated beta Assistants streams.
#[derive(Clone, Debug, PartialEq)]
pub struct BetaAssistantStreamError {
    pub code: Option<String>,
    pub message: String,
    pub param: Option<String>,
    pub error_type: Option<String>,
    pub extra: BTreeMap<String, Value>,
}

/// Ephemeral realtime client secret returned by the beta realtime REST endpoints.
#[derive(Clone, Debug, PartialEq)]
pub struct BetaRealtimeClientSecretResponse {
    pub value: String,
    pub expires_at: u64,
    pub extra: BTreeMap<String, Value>,
}

/// Realtime transcription settings returned by the beta realtime REST endpoints.
#[derive(Clone, Debug, PartialEq)]
pub struct BetaRealtimeInputAudioTranscriptionResponse {
    pub language: Option<String>,
    pub model: Option<String>,
    pub prompt: Option<String>,
    pub extra: BTreeMap<String, Value>,
}

/// Realtime function tool returned by the beta realtime REST endpoints.
#[derive(Clone, Debug, PartialEq)]
pub struct BetaRealtimeToolResponse {
    pub description: Option<String>,
    pub name: Option<String>,
    pub parameters: Option<Value>,
    pub tool_type: Option<String>,
    pub extra: BTreeMap<String, Value>,
}

/// Nullable realtime config slot used when `null` disables an active config.
#[derive(Clone, Debug, PartialEq)]
pub enum BetaRealtimeNullable<T> {
    Value(T),
    Null,
}

/// Realtime audio wire formats.
#[derive(Clone, Copy, Debug, Eq, PartialEq)]
pub enum BetaRealtimeAudioFormat {
    Pcm16,
    G711Ulaw,
    G711Alaw,
}

/// Realtime response modalities.
#[derive(Clone, Copy, Debug, Eq, PartialEq)]
pub enum BetaRealtimeModality {
    Text,
    Audio,
}

/// Realtime client-secret creation options.
#[derive(Clone, Debug, Default, PartialEq)]
pub struct BetaRealtimeClientSecret {
    pub expires_after: Option<BetaRealtimeClientSecretExpiresAfter>,
    pub extra: BTreeMap<String, Value>,
}

/// Realtime transcription client-secret creation options.
#[derive(Clone, Debug, Default, PartialEq)]
pub struct BetaRealtimeTranscriptionClientSecret {
    pub expires_at: Option<BetaRealtimeClientSecretExpiresAt>,
    pub extra: BTreeMap<String, Value>,
}

/// Realtime client-secret expiration relative to token creation.
#[derive(Clone, Debug, Default, PartialEq)]
pub struct BetaRealtimeClientSecretExpiresAfter {
    pub anchor: Option<BetaRealtimeClientSecretAnchor>,
    pub seconds: Option<u32>,
    pub extra: BTreeMap<String, Value>,
}

/// Realtime transcription client-secret expiration relative to token creation.
#[derive(Clone, Debug, Default, PartialEq)]
pub struct BetaRealtimeClientSecretExpiresAt {
    pub anchor: Option<BetaRealtimeClientSecretAnchor>,
    pub seconds: Option<u32>,
    pub extra: BTreeMap<String, Value>,
}

/// Realtime client-secret expiration anchor.
#[derive(Clone, Copy, Debug, Eq, PartialEq)]
pub enum BetaRealtimeClientSecretAnchor {
    CreatedAt,
}

/// Realtime input-audio noise-reduction config.
#[derive(Clone, Debug, Default, PartialEq)]
pub struct BetaRealtimeInputAudioNoiseReduction {
    pub noise_reduction_type: Option<BetaRealtimeNoiseReductionType>,
    pub extra: BTreeMap<String, Value>,
}

/// Realtime input-audio noise-reduction modes.
#[derive(Clone, Copy, Debug, Eq, PartialEq)]
pub enum BetaRealtimeNoiseReductionType {
    NearField,
    FarField,
}

/// Realtime input-audio transcription config.
#[derive(Clone, Debug, Default, PartialEq)]
pub struct BetaRealtimeInputAudioTranscription {
    pub language: Option<String>,
    pub model: Option<BetaRealtimeInputAudioTranscriptionModel>,
    pub prompt: Option<String>,
    pub extra: BTreeMap<String, Value>,
}

/// Realtime max response output token limit.
#[derive(Clone, Copy, Debug, Eq, PartialEq)]
pub enum BetaRealtimeMaxResponseOutputTokens {
    Tokens(u64),
    Inf,
}

/// Realtime function tool definition.
#[derive(Clone, Debug, Default, PartialEq)]
pub struct BetaRealtimeTool {
    pub description: Option<String>,
    pub name: Option<String>,
    pub parameters: Option<Value>,
    pub tool_type: Option<BetaRealtimeToolType>,
    pub extra: BTreeMap<String, Value>,
}

/// Realtime tool kind.
#[derive(Clone, Copy, Debug, Eq, PartialEq)]
pub enum BetaRealtimeToolType {
    Function,
}

/// Realtime tracing config.
#[derive(Clone, Debug, PartialEq)]
pub enum BetaRealtimeTracing {
    Auto,
    Configuration(BetaRealtimeTracingConfiguration),
}

/// Realtime tracing configuration object.
#[derive(Clone, Debug, Default, PartialEq)]
pub struct BetaRealtimeTracingConfiguration {
    pub group_id: Option<String>,
    pub metadata: Option<Value>,
    pub workflow_name: Option<String>,
    pub extra: BTreeMap<String, Value>,
}

/// Realtime turn-detection mode.
#[derive(Clone, Copy, Debug, Eq, PartialEq)]
pub enum BetaRealtimeTurnDetectionType {
    ServerVad,
    SemanticVad,
}

/// Realtime semantic VAD eagerness.
#[derive(Clone, Copy, Debug, Eq, PartialEq)]
pub enum BetaRealtimeTurnDetectionEagerness {
    Low,
    Medium,
    High,
    Auto,
}

/// Per-session workflow tracing override.
#[derive(Clone, Debug, Default, Eq, PartialEq)]
pub struct ChatKitWorkflowTracingParam {
    pub enabled: Option<bool>,
}

/// Controls when a ChatKit session expires.
#[derive(Clone, Debug, Eq, PartialEq)]
pub struct ChatKitSessionExpiresAfterParam {
    pub anchor: ChatKitSessionExpiryAnchor,
    pub seconds: u64,
}

/// Supported ChatKit session expiration anchors.
#[derive(Clone, Copy, Debug, Eq, PartialEq)]
pub enum ChatKitSessionExpiryAnchor {
    CreatedAt,
}

/// Per-session ChatKit rate limit overrides.
#[derive(Clone, Debug, Default, Eq, PartialEq)]
pub struct ChatKitSessionRateLimitsParam {
    pub max_requests_per_1_minute: Option<u32>,
}

/// Per-session ChatKit feature configuration overrides.
#[derive(Clone, Debug, Default, Eq, PartialEq)]
pub struct ChatKitConfigurationParam {
    pub automatic_thread_titling: Option<ChatKitAutomaticThreadTitlingParam>,
    pub file_upload: Option<ChatKitFileUploadParam>,
    pub history: Option<ChatKitHistoryParam>,
}

/// Automatic thread-title generation configuration.
#[derive(Clone, Debug, Default, Eq, PartialEq)]
pub struct ChatKitAutomaticThreadTitlingParam {
    pub enabled: Option<bool>,
}

/// ChatKit upload configuration.
#[derive(Clone, Debug, Default, Eq, PartialEq)]
pub struct ChatKitFileUploadParam {
    pub enabled: Option<bool>,
    pub max_file_size: Option<u64>,
    pub max_files: Option<u32>,
}

/// ChatKit history-retention configuration.
#[derive(Clone, Debug, Default, Eq, PartialEq)]
pub struct ChatKitHistoryParam {
    pub enabled: Option<bool>,
    pub recent_threads: Option<u32>,
}

/// Resolved workflow tracing settings.
#[derive(Clone, Debug, Eq, PartialEq)]
pub struct ChatKitWorkflowTracing {
    pub enabled: bool,
}

/// Resolved ChatKit feature configuration.
#[derive(Clone, Debug, Eq, PartialEq)]
pub struct ChatKitConfiguration {
    pub automatic_thread_titling: ChatKitAutomaticThreadTitling,
    pub file_upload: ChatKitFileUpload,
    pub history: ChatKitHistory,
}

/// Resolved automatic thread-title generation configuration.
#[derive(Clone, Debug, Eq, PartialEq)]
pub struct ChatKitAutomaticThreadTitling {
    pub enabled: bool,
}

/// Resolved ChatKit upload configuration.
#[derive(Clone, Debug, Eq, PartialEq)]
pub struct ChatKitFileUpload {
    pub enabled: bool,
    pub max_file_size: Option<u64>,
    pub max_files: Option<u32>,
}

/// Resolved ChatKit history-retention configuration.
#[derive(Clone, Debug, Eq, PartialEq)]
pub struct ChatKitHistory {
    pub enabled: bool,
    pub recent_threads: Option<u32>,
}

/// ChatKit session lifecycle status.
#[derive(Clone, Debug, Eq, PartialEq)]
pub enum ChatKitSessionStatus {
    Active,
    Expired,
    Cancelled,
}

/// Resolved ChatKit session rate limit fields.
#[derive(Clone, Debug, Default, Eq, PartialEq)]
pub struct ChatKitSessionRateLimits {
    pub max_requests_per_1_minute: u32,
}

/// Thread list query parameters.
#[derive(Clone, Debug, Default, Eq, PartialEq)]
pub struct ChatKitThreadListParams {
    pub after: Option<String>,
    pub before: Option<String>,
    pub limit: Option<u32>,
    pub order: Option<ChatKitOrder>,
    pub user: Option<String>,
}

/// Thread item list query parameters.
#[derive(Clone, Debug, Default, Eq, PartialEq)]
pub struct ChatKitThreadItemListParams {
    pub after: Option<String>,
    pub before: Option<String>,
    pub limit: Option<u32>,
    pub order: Option<ChatKitOrder>,
}

/// ChatKit thread resource.
#[derive(Clone, Debug, PartialEq)]
pub struct ChatKitThread {
    pub id: String,
    pub object: String,
    pub created_at: u64,
    pub status: ChatKitThreadStatus,
    pub title: Option<String>,
    pub user: String,
    pub extra: BTreeMap<String, Value>,
}

/// ChatKit thread status.
#[derive(Clone, Debug, Eq, PartialEq)]
pub enum ChatKitThreadStatus {
    Active,
    Locked {
        reason: Option<String>,
    },
    Closed {
        reason: Option<String>,
    },
}

/// ChatKit thread list page.
#[derive(Clone, Debug, PartialEq)]
pub struct ChatKitThreadPage {
    pub object: String,
    pub data: Vec<ChatKitThread>,
    pub first_id: Option<String>,
    pub last_id: Option<String>,
    pub has_more: bool,
    pub extra: BTreeMap<String, Value>,
}

/// ChatKit thread item variants.
#[derive(Clone, Debug, PartialEq)]
pub enum ChatKitThreadItem {
    UserMessage {
        id: String,
        object: String,
        created_at: u64,
        thread_id: String,
        attachments: Vec<ChatKitAttachment>,
        content: Vec<ChatKitUserMessageContent>,
        inference_options: Option<ChatKitInferenceOptions>,
        extra: BTreeMap<String, Value>,
    },
    AssistantMessage {
        id: String,
        object: String,
        created_at: u64,
        thread_id: String,
        content: Vec<ChatKitResponseOutputText>,
        extra: BTreeMap<String, Value>,
    },
    Widget {
        id: String,
        object: String,
        created_at: u64,
        thread_id: String,
        widget: String,
        extra: BTreeMap<String, Value>,
    },
    ClientToolCall {
        id: String,
        object: String,
        created_at: u64,
        thread_id: String,
        arguments: String,
        call_id: String,
        name: String,
        output: Option<String>,
        status: ChatKitClientToolCallStatus,
        extra: BTreeMap<String, Value>,
    },
    Task {
        id: String,
        object: String,
        created_at: u64,
        thread_id: String,
        heading: Option<String>,
        summary: Option<String>,
        task_type: ChatKitTaskType,
        extra: BTreeMap<String, Value>,
    },
    TaskGroup {
        id: String,
        object: String,
        created_at: u64,
        thread_id: String,
        tasks: Vec<ChatKitTaskGroupTask>,
        extra: BTreeMap<String, Value>,
    },
}

/// ChatKit attachment metadata included on thread items.
#[derive(Clone, Debug, PartialEq)]
pub struct ChatKitAttachment {
    pub id: String,
    pub mime_type: String,
    pub name: String,
    pub preview_url: Option<String>,
    pub attachment_type: ChatKitAttachmentType,
}

/// User-authored ChatKit message content.
#[derive(Clone, Debug, PartialEq)]
pub enum ChatKitUserMessageContent {
    InputText { text: String },
    QuotedText { text: String },
}

/// ChatKit inference overrides applied to a user message.
#[derive(Clone, Debug, PartialEq)]
pub struct ChatKitInferenceOptions {
    pub model: Option<String>,
    pub tool_choice: Option<ChatKitInferenceToolChoice>,
}

/// Preferred ChatKit tool choice.
#[derive(Clone, Debug, PartialEq)]
pub struct ChatKitInferenceToolChoice {
    pub id: String,
}

/// Assistant response text with annotations.
#[derive(Clone, Debug, PartialEq)]
pub struct ChatKitResponseOutputText {
    pub annotations: Vec<ChatKitResponseAnnotation>,
    pub text: String,
}

/// Annotation attached to ChatKit response text.
#[derive(Clone, Debug, PartialEq)]
pub enum ChatKitResponseAnnotation {
    File { source: ChatKitFileAnnotationSource },
    Url { source: ChatKitUrlAnnotationSource },
}

/// File annotation source.
#[derive(Clone, Debug, PartialEq)]
pub struct ChatKitFileAnnotationSource {
    pub filename: String,
}

/// URL annotation source.
#[derive(Clone, Debug, PartialEq)]
pub struct ChatKitUrlAnnotationSource {
    pub url: String,
}

/// Task entry within a ChatKit task group.
#[derive(Clone, Debug, PartialEq)]
pub struct ChatKitTaskGroupTask {
    pub heading: Option<String>,
    pub summary: Option<String>,
    pub task_type: ChatKitTaskType,
}

/// ChatKit thread item list page.
#[derive(Clone, Debug, PartialEq)]
pub struct ChatKitThreadItemPage {
    pub object: String,
    pub data: Vec<ChatKitThreadItem>,
    pub first_id: Option<String>,
    pub last_id: Option<String>,
    pub has_more: bool,
    pub extra: BTreeMap<String, Value>,
}

/// ChatKit thread deletion response.
#[derive(Clone, Debug, Default, PartialEq)]
pub struct ChatKitThreadDeleteResponse {
    pub id: String,
    pub object: String,
    pub deleted: bool,
    pub extra: BTreeMap<String, Value>,
}

/// ChatKit list sort order.
#[derive(Clone, Copy, Debug, PartialEq, Eq)]
pub enum ChatKitOrder {
    Asc,
    Desc,
}

impl Literal for ChatKitOrder {
    open spec fn literal(&self) -> Seq<char> {
        match self {
            ChatKitOrder::Asc => "asc"@,
            ChatKitOrder::Desc => "desc"@,
        }
    }

    fn to_text(&self) -> (r: String) {
        self.as_str().to_string()
    }
}

impl ChatKitOrder {
    /// The text the API uses for this value.
    pub fn as_str(&self) -> (r: &'static str)
        ensures
            r@ == self.literal(),
    {
        match self {
            ChatKitOrder::Asc => "asc",
            ChatKitOrder::Desc => "desc",
        }
    }
}

impl BetaAssistantListParams {
    /// The query pairs of these parameters, in the order the API documents them.
    pub fn into_query_params(self) -> (r: BetaQueryParams)
        ensures
            r@ == Seq::<(Seq<char>, Seq<char>)>::empty() + opt_pair("after"@, opt_view(self.after)) + opt_pair("before"@, opt_view(self.before)) + opt_pair("limit"@, opt_u32_decimal(self.limit)) + opt_pair("order"@, opt_literal(self.order)),
    {
        let mut q = QueryPairs::new();
        q.push_opt("after", self.after.clone());
        q.push_opt("before", self.before.clone());
        q.push_opt_u32("limit", self.limit);
        q.push_opt_literal("order", &self.order);
        BetaQueryParams::from_pairs(q)
    }
}

impl BetaThreadMessageListParams {
    /// The query pairs of these parameters, in the order the API documents them.
    pub fn into_query_params(self) -> (r: BetaQueryParams)
        ensures
            r@ == Seq::<(Seq<char>, Seq<char>)>::empty() + opt_pair("after"@, opt_view(self.after)) + opt_pair("before"@, opt_view(self.before)) + opt_pair("limit"@, opt_u32_decimal(self.limit)) + opt_pair("order"@, opt_literal(self.order)) + opt_pair("run_id"@, opt_view(self.run_id)),
    {
        let mut q = QueryPairs::new();
        q.push_opt("after", self.after.clone());
        q.push_opt("before", self.before.clone());
        q.push_opt_u32("limit", self.limit);
        q.push_opt_literal("order", &self.order);
        q.push_opt("run_id", self.run_id.clone());
        BetaQueryParams::from_pairs(q)
    }
}

impl BetaThreadRunListParams {
    /// The query pairs of these parameters, in the order the API documents them.
    pub fn into_query_params(self) -> (r: BetaQueryParams)
        ensures
            r@ == Seq::<(Seq<char>, Seq<char>)>::empty() + opt_pair("after"@, opt_view(self.after)) + opt_pair("before"@, opt_view(self.before)) + opt_pair("limit"@, opt_u32_decimal(self.limit)) + opt_pair("order"@, opt_literal(self.order)),
    {
        let mut q = QueryPairs::new();
        q.push_opt("after", self.after.clone());
        q.push_opt("before", self.before.clone());
        q.push_opt_u32("limit", self.limit);
        q.push_opt_literal("order", &self.order);
        BetaQueryParams::from_pairs(q)
    }
}

impl BetaThreadRunStepRetrieveParams {
    /// The query pairs of these parameters, in the order the API documents them.
    pub fn into_query_params(self) -> (r: BetaQueryParams)
        ensures
            r@ == Seq::<(Seq<char>, Seq<char>)>::empty() + opt_repeated(inclusion_key() + "[]"@, opt_literals(self.includes)),
    {
        let mut q = QueryPairs::new();
        q.push_array_opt_literals(inclusion_key_text().as_str(), &self.includes);
        BetaQueryParams::from_pairs(q)
    }
}

impl BetaThreadRunStepListParams {
    /// The query pairs of these parameters, in the order the API documents them.
    pub fn into_query_params(self) -> (r: BetaQueryParams)
        ensures
            r@ == Seq::<(Seq<char>, Seq<char>)>::empty() + opt_pair("after"@, opt_view(self.after)) + opt_pair("before"@, opt_view(self.before)) + opt_pair("limit"@, opt_u32_decimal(self.limit)) + opt_pair("order"@, opt_literal(self.order)) + opt_repeated(inclusion_key() + "[]"@, opt_literals(self.includes)),
    {
        let mut q = QueryPairs::new();
        q.push_opt("after", self.after.clone());
        q.push_opt("before", self.before.clone());
        q.push_opt_u32("limit", self.limit);
        q.push_opt_literal("order", &self.order);
        q.push_array_opt_literals(inclusion_key_text().as_str(), &self.includes);
        BetaQueryParams::from_pairs(q)
    }
}

impl ChatKitThreadListParams {
    /// The query pairs of these parameters.
    pub fn into_query(self) -> (r: QueryPairs)
        ensures
            r@ == Seq::<(Seq<char>, Seq<char>)>::empty() + opt_pair("after"@, opt_view(self.after)) + opt_pair("before"@, opt_view(self.before)) + opt_pair("limit"@, opt_u32_decimal(self.limit)) + opt_pair("order"@, opt_literal(self.order)) + opt_pair("user"@, opt_view(self.user)),
    {
        let mut q = QueryPairs::new();
        q.push_opt("after", self.after.clone());
        q.push_opt("before", self.before.clone());
        q.push_opt_u32("limit", self.limit);
        q.push_opt_literal("order", &self.order);
        q.push_opt("user", self.user.clone());
        q
    }
}

impl ChatKitThreadItemListParams {
    /// The query pairs of these parameters.
    pub fn into_query(self) -> (r: QueryPairs)
        ensures
            r@ == Seq::<(Seq<char>, Seq<char>)>::empty() + opt_pair("after"@, opt_view(self.after)) + opt_pair("before"@, opt_view(self.before)) + opt_pair("limit"@, opt_u32_decimal(self.limit)) + opt_pair("order"@, opt_literal(self.order)),
    {
        let mut q = QueryPairs::new();
        q.push_opt("after", self.after.clone());
        q.push_opt("before", self.before.clone());
        q.push_opt_u32("limit", self.limit);
        q.push_opt_literal("order", &self.order);
        q
    }
}

impl<T> BetaCursorPage<T> {
    pub fn has_next_page(&self) -> (b: bool)
        ensures
            b == self.has_more,
    {
        self.has_more
    }

    /// The `last_id` cursor, when the server reports more pages.
    pub fn next_after(&self) -> (r: Option<&str>)
        ensures
            r is Some <==> (self.has_more && self.last_id is Some),
            r matches Some(id) ==> id@ == self.last_id->Some_0@,
    {
        match &self.last_id {
            Some(id) => if self.has_more {
                Some(id.as_str())
            } else {
                None
            },
            None => None,
        }
    }
}

impl ChatKitThreadPage {
    pub fn has_next_page(&self) -> (b: bool)
        ensures
            b == self.has_more,
    {
        self.has_more
    }

    /// The `last_id` cursor, when the server reports more pages.
    pub fn next_after(&self) -> (r: Option<&str>)
        ensures
            r is Some <==> (self.has_more && self.last_id is Some),
            r matches Some(id) ==> id@ == self.last_id->Some_0@,
    {
        match &self.last_id {
            Some(id) => if self.has_more {
                Some(id.as_str())
            } else {
                None
            },
            None => None,
        }
    }
}

impl ChatKitThreadItemPage {
    pub fn has_next_page(&self) -> (b: bool)
        ensures
            b == self.has_more,
    {
        self.has_more
    }

    /// The `last_id` cursor, when the server reports more pages.
    pub fn next_after(&self) -> (r: Option<&str>)
        ensures
            r is Some <==> (self.has_more && self.last_id is Some),
            r matches Some(id) ==> id@ == self.last_id->Some_0@,
    {
        match &self.last_id {
            Some(id) => if self.has_more {
                Some(id.as_str())
            } else {
                None
            },
            None => None,
        }
    }
}

/// Polling options for deprecated beta Assistants run helpers, in milliseconds.
#[derive(Clone, Debug, PartialEq, Eq)]
pub struct BetaRunPollOptions {
    /// A fixed wait between polls; when absent the server's `openai-poll-after-ms` hint, or one second.
    pub poll_interval: Option<u64>,
    /// The longest the whole poll may take.
    pub max_wait: u64,
}

impl Default for BetaRunPollOptions {
    fn default() -> (r: BetaRunPollOptions)
        ensures
            r.poll_interval is None,
            r.max_wait == 600_000,
    {
        BetaRunPollOptions { poll_interval: None, max_wait: 600_000 }
    }
}

/// A run in one of these states will not change without the caller acting.
pub open spec fn is_terminal_run_status_spec(status: Option<BetaThreadRunStatus>) -> bool {
    match status {
        Some(BetaThreadRunStatus::RequiresAction) => true,
        Some(BetaThreadRunStatus::Cancelled) => true,
        Some(BetaThreadRunStatus::Completed) => true,
        Some(BetaThreadRunStatus::Failed) => true,
        Some(BetaThreadRunStatus::Expired) => true,
        Some(BetaThreadRunStatus::Incomplete) => true,
        _ => false,
    }
}

pub fn is_terminal_run_status(status: &Option<BetaThreadRunStatus>) -> (b: bool)
    ensures
        b == is_terminal_run_status_spec(*status),
        *status == Some(BetaThreadRunStatus::RequiresAction) ==> b,
        *status == Some(BetaThreadRunStatus::Cancelled) ==> b,
        *status == Some(BetaThreadRunStatus::Completed) ==> b,
        *status == Some(BetaThreadRunStatus::Failed) ==> b,
        *status == Some(BetaThreadRunStatus::Expired) ==> b,
        *status == Some(BetaThreadRunStatus::Incomplete) ==> b,
        *status == Some(BetaThreadRunStatus::Queued) ==> !b,
        *status == Some(BetaThreadRunStatus::InProgress) ==> !b,
        *status == Some(BetaThreadRunStatus::Cancelling) ==> !b,
        *status matches Some(BetaThreadRunStatus::Unknown(_)) ==> !b,
        *status is None ==> !b,
{
    match status {
        Some(BetaThreadRunStatus::RequiresAction) => true,
        Some(BetaThreadRunStatus::Cancelled) => true,
        Some(BetaThreadRunStatus::Completed) => true,
        Some(BetaThreadRunStatus::Failed) => true,
        Some(BetaThreadRunStatus::Expired) => true,
        Some(BetaThreadRunStatus::Incomplete) => true,
        _ => false,
    }
}

/// The message for an `openai-poll-after-ms` header that is not a number.
pub open spec fn poll_header_message(header: Seq<char>, kind: ParseIntErrorKind) -> Seq<char> {
    "invalid openai-poll-after-ms header `"@ + header + "`: "@ + kind.message_spec()
}

/// The wait before the next poll: the configured interval, else the server's
/// `openai-poll-after-ms` hint, else one second.
pub open spec fn poll_interval_spec(header: Option<Seq<char>>, options: BetaRunPollOptions) -> Result<
    u64,
    ParseIntErrorKind,
> {
    match options.poll_interval {
        Some(ms) => Ok(ms),
        None => match header {
            None => Ok(1000),
            Some(h) => parse_u64_spec(h),
        },
    }
}

pub fn poll_interval(header: Option<&str>, options: &BetaRunPollOptions) -> (r: Result<u64, OpenAIError>)
    ensures
        ({
            let h = match header {
                Some(v) => Some(v@),
                None => None,
            };
            match poll_interval_spec(h, *options) {
                Ok(ms) => r == Ok::<u64, OpenAIError>(ms),
                Err(kind) => r matches Err(e) && e.kind == ErrorKind::Parse && e.message@
                    == poll_header_message(h->Some_0, kind),
            }
        }),
{
    if let Some(ms) = options.poll_interval {
        return Ok(ms);
    }
    match header {
        None => Ok(1000),
        Some(h) => match parse_u64(h) {
            Ok(ms) => Ok(ms),
            Err(kind) => {
                let mut message = "invalid openai-poll-after-ms header `".to_string();
                push_str(&mut message, h);
                push_str(&mut message, "`: ");
                push_str(&mut message, kind.message());
                Err(OpenAIError::new(ErrorKind::Parse, message))
            },
        },
    }
}

/// Waiting `sleep` more after `elapsed` would go past `max_wait`.
pub open spec fn past_deadline(elapsed: u64, sleep: u64, max_wait: u64) -> bool {
    elapsed > max_wait || elapsed + sleep > max_wait
}

pub fn is_past_deadline(elapsed: u64, sleep: u64, max_wait: u64) -> (b: bool)
    ensures
        b == past_deadline(elapsed, sleep, max_wait),
{
    elapsed > max_wait || sleep > max_wait - elapsed
}

/// The body of a streamed run: the parameters with `"stream": true` set.
/// Parameters that are not a JSON object are refused.
pub fn body_with_stream_flag(params: Value) -> (r: Result<Value, OpenAIError>)
    ensures
        r is Ok <==> json_object(params) is Some,
        r matches Ok(body) ==> with_flag(params, body, "stream"@, true),
        r matches Err(e) ==> e.kind == ErrorKind::Validation && e.message@
            == "beta Assistants stream body must serialize to a JSON object"@,
{
    let mut value = params;
    if set_object_flag(&mut value, "stream", true) {
        Ok(value)
    } else {
        Err(
            OpenAIError::new(
                ErrorKind::Validation,
                "beta Assistants stream body must serialize to a JSON object".to_string(),
            ),
        )
    }
}

/// A run waits on its caller exactly when it requires action, was cancelled,
/// completed, failed, expired or is incomplete; a queued, running or
/// cancelling run, one in a state this library does not know, and one whose
/// state is not reported are polled again.
pub proof fn law_terminal_run_statuses(status: Option<BetaThreadRunStatus>)
    ensures
        is_terminal_run_status_spec(status) <==> (status == Some(BetaThreadRunStatus::RequiresAction) || status
            == Some(BetaThreadRunStatus::Cancelled) || status == Some(BetaThreadRunStatus::Completed) || status
            == Some(BetaThreadRunStatus::Failed) || status == Some(BetaThreadRunStatus::Expired) || status == Some(
            BetaThreadRunStatus::Incomplete,
        )),
        !is_terminal_run_status_spec(status) <==> (status == Some(BetaThreadRunStatus::Queued) || status == Some(
            BetaThreadRunStatus::InProgress,
        ) || status == Some(BetaThreadRunStatus::Cancelling) || status matches Some(
            BetaThreadRunStatus::Unknown(_),
        ) || status is None),
{
}

/// Polling that has given up stays given up: a later check, with no shorter
/// wait, is past the deadline too.
pub proof fn law_poll_deadline_monotone(earlier: u64, later: u64, sleep: u64, max_wait: u64)
    requires
        earlier <= later,
        past_deadline(earlier, sleep, max_wait),
    ensures
        past_deadline(later, sleep, max_wait),
{
}

impl BetaThreadRuns {
    /// One step of polling a run: `None` once the run is terminal, otherwise the
    /// wait before retrieving it again; an error when the wait would pass
    /// `max_wait` or the server's poll hint is not a number.
    pub fn poll(
        &self,
        status: &Option<BetaThreadRunStatus>,
        poll_after_header: Option<&str>,
        options: &BetaRunPollOptions,
        elapsed: u64,
    ) -> (r: Result<Option<u64>, OpenAIError>)
        ensures
            is_terminal_run_status_spec(*status) ==> r == Ok::<Option<u64>, OpenAIError>(None),
            (*status == Some(BetaThreadRunStatus::RequiresAction) || *status == Some(BetaThreadRunStatus::Cancelled)
                || *status == Some(BetaThreadRunStatus::Completed) || *status == Some(BetaThreadRunStatus::Failed)
                || *status == Some(BetaThreadRunStatus::Expired) || *status == Some(
                BetaThreadRunStatus::Incomplete,
            )) ==> r == Ok::<Option<u64>, OpenAIError>(None),
            !is_terminal_run_status_spec(*status) ==> ({
                let h = match poll_after_header {
                    Some(v) => Some(v@),
                    None => None,
                };
                match poll_interval_spec(h, *options) {
                    Ok(ms) => if past_deadline(elapsed, ms, options.max_wait) {
                        r matches Err(e) && e.kind == ErrorKind::Timeout && e.message@
                            == "beta Assistants run polling exceeded max_wait"@
                    } else {
                        r == Ok::<Option<u64>, OpenAIError>(Some(ms))
                    },
                    Err(kind) => r matches Err(e) && e.kind == ErrorKind::Parse && e.message@
                        == poll_header_message(h->Some_0, kind),
                }
            }),
    {
        if is_terminal_run_status(status) {
            return Ok(None);
        }
        let sleep = poll_interval(poll_after_header, options)?;
        if is_past_deadline(elapsed, sleep, options.max_wait) {
            return Err(
                OpenAIError::new(
                    ErrorKind::Timeout,
                    "beta Assistants run polling exceeded max_wait".to_string(),
                ),
            );
        }
        Ok(Some(sleep))
    }
}

/// The error text for a response that lacks a field a helper needs.
pub open spec fn missing_field_message(field: Seq<char>) -> Seq<char> {
    "beta Assistants response did not "@ + inclusion_key() + " a non-empty `"@ + field + "`"@
}

/// A field of a response that a helper needs and that must not be blank.
pub fn required_string_field(field: &str, value: Option<&str>) -> (r: Result<String, OpenAIError>)
    ensures
        r is Ok <==> (value is Some && !is_blank_spec(value->Some_0@)),
        r matches Ok(v) ==> v@ == value->Some_0@,
        r matches Err(e) ==> e.kind == ErrorKind::Parse && e.message@ == missing_field_message(field@),
{
    match value {
        Some(v) => if !is_blank(v) {
            return Ok(v.to_string());
        },
        None => {},
    }
    let mut message = "beta Assistants response did not ".to_string();
    push_str(&mut message, inclusion_key_text().as_str());
    push_str(&mut message, " a non-empty `");
    push_str(&mut message, field);
    push_str(&mut message, "`");
    Err(OpenAIError::new(ErrorKind::Parse, message))
}

/// The run to poll after submitting tool outputs: the id the server returned,
/// or the one submitted to when the returned id is blank.
pub fn resolved_run_id(submitted_id: &str, run_id: &str) -> (r: String)
    ensures
        r@ == (if is_blank_spec(submitted_id@) {
            run_id@
        } else {
            submitted_id@
        }),
{
    if is_blank(submitted_id) {
        run_id.to_string()
    } else {
        submitted_id.to_string()
    }
}

impl BetaTruncationStrategy {
    pub fn auto() -> (r: BetaTruncationStrategy)
        ensures
            r.strategy_type == BetaTruncationStrategyType::Auto,
            r.last_messages is None,
            r.extra@ == Map::<String, Value>::empty(),
    {
        BetaTruncationStrategy {
            strategy_type: BetaTruncationStrategyType::Auto,
            last_messages: None,
            extra: BTreeMap::new(),
        }
    }

    pub fn last_messages(last_messages: u32) -> (r: BetaTruncationStrategy)
        ensures
            r.strategy_type == BetaTruncationStrategyType::LastMessages,
            r.last_messages == Some(last_messages),
            r.extra@ == Map::<String, Value>::empty(),
    {
        BetaTruncationStrategy {
            strategy_type: BetaTruncationStrategyType::LastMessages,
            last_messages: Some(last_messages),
            extra: BTreeMap::new(),
        }
    }
}

impl BetaThreadMessageContentPart {
    pub fn text(text: String) -> (r: BetaThreadMessageContentPart)
        ensures
            r == (BetaThreadMessageContentPart::Text { text }),
    {
        BetaThreadMessageContentPart::Text { text }
    }

    pub fn image_file(file_id: String, detail: Option<BetaThreadMessageImageDetail>) -> (r:
        BetaThreadMessageContentPart)
        ensures
            r == (BetaThreadMessageContentPart::ImageFile {
                image_file: BetaThreadMessageImageFile { file_id, detail },
            }),
    {
        BetaThreadMessageContentPart::ImageFile {
            image_file: BetaThreadMessageImageFile { file_id, detail },
        }
    }

    pub fn image_url(url: String, detail: Option<BetaThreadMessageImageDetail>) -> (r:
        BetaThreadMessageContentPart)
        ensures
            r == (BetaThreadMessageContentPart::ImageUrl {
                image_url: BetaThreadMessageImageUrl { url, detail },
            }),
    {
        BetaThreadMessageContentPart::ImageUrl {
            image_url: BetaThreadMessageImageUrl { url, detail },
        }
    }
}

/// The shape of a JSON value a selector is read from: a string, an object with
/// its optional string `type` and the decoded payload field, or anything else.
pub enum JsonShape<T> {
    Text(String),
    Object { type_field: Option<String>, payload: Option<Result<T, String>> },
    Other,
}

impl BetaAssistantToolChoice {
    /// Reads a tool choice: `"none"`, `"auto"`, `"required"`, or an object whose
    /// `type` is `function` (with its `function` payload), `code_interpreter` or `file_search`.
    pub fn decode(shape: JsonShape<BetaAssistantToolChoiceFunction>) -> (r: Result<
        BetaAssistantToolChoice,
        String,
    >)
        ensures
            match shape {
                JsonShape::Text(choice) => if choice@ == "none"@ {
                    r == Ok::<BetaAssistantToolChoice, String>(BetaAssistantToolChoice::NoTools)
                } else if choice@ == "auto"@ {
                    r == Ok::<BetaAssistantToolChoice, String>(BetaAssistantToolChoice::Auto)
                } else if choice@ == "required"@ {
                    r == Ok::<BetaAssistantToolChoice, String>(BetaAssistantToolChoice::Required)
                } else {
                    r matches Err(m) && m@ == "unsupported beta assistant tool choice string: "@
                        + choice@
                },
                JsonShape::Object { type_field, payload } => match type_field {
                    None => r matches Err(m) && m@
                        == "beta assistant tool choice object missing string type"@,
                    Some(t) => if t@ == "function"@ {
                        match payload {
                            None => r matches Err(m) && m@
                                == "beta assistant function tool choice missing function"@,
                            Some(Err(e)) => r == Err::<BetaAssistantToolChoice, String>(e),
                            Some(Ok(f)) => r == Ok::<BetaAssistantToolChoice, String>(
                                BetaAssistantToolChoice::Function(f),
                            ),
                        }
                    } else if t@ == "code_interpreter"@ {
                        r == Ok::<BetaAssistantToolChoice, String>(
                            BetaAssistantToolChoice::CodeInterpreter,
                        )
                    } else if t@ == "file_search"@ {
                        r == Ok::<BetaAssistantToolChoice, String>(BetaAssistantToolChoice::FileSearch)
                    } else {
                        r matches Err(m) && m@ == "unsupported beta assistant tool choice type: "@
                            + t@
                    },
                },
                JsonShape::Other => r matches Err(m) && m@
                    == "beta assistant tool choice must be a string or object"@,
            },
    {
        match shape {
            JsonShape::Text(choice) => {
                if str_eq(choice.as_str(), "none") {
                    Ok(BetaAssistantToolChoice::NoTools)
                } else if str_eq(choice.as_str(), "auto") {
                    Ok(BetaAssistantToolChoice::Auto)
                } else if str_eq(choice.as_str(), "required") {
                    Ok(BetaAssistantToolChoice::Required)
                } else {
                    let mut m = "unsupported beta assistant tool choice string: ".to_string();
                    push_str(&mut m, choice.as_str());
                    Err(m)
                }
            },
            JsonShape::Object { type_field, payload } => match type_field {
                None => Err("beta assistant tool choice object missing string type".to_string()),
                Some(t) => {
                    if str_eq(t.as_str(), "function") {
                        match payload {
                            None => Err(
                                "beta assistant function tool choice missing function".to_string(),
                            ),
                            Some(Err(e)) => Err(e),
                            Some(Ok(f)) => Ok(BetaAssistantToolChoice::Function(f)),
                        }
                    } else if str_eq(t.as_str(), "code_interpreter") {
                        Ok(BetaAssistantToolChoice::CodeInterpreter)
                    } else if str_eq(t.as_str(), "file_search") {
                        Ok(BetaAssistantToolChoice::FileSearch)
                    } else {
                        let mut m = "unsupported beta assistant tool choice type: ".to_string();
                        push_str(&mut m, t.as_str());
                        Err(m)
                    }
                },
            },
            JsonShape::Other => Err("beta assistant tool choice must be a string or object".to_string()),
        }
    }

    /// The text the choice is written as: the bare string for `none`, `auto`
    /// and `required`, otherwise the object's `type`.
    pub fn wire_type(&self) -> (r: &'static str)
        ensures
            r@ == match self {
                BetaAssistantToolChoice::NoTools => "none"@,
                BetaAssistantToolChoice::Auto => "auto"@,
                BetaAssistantToolChoice::Required => "required"@,
                BetaAssistantToolChoice::Function(_) => "function"@,
                BetaAssistantToolChoice::CodeInterpreter => "code_interpreter"@,
                BetaAssistantToolChoice::FileSearch => "file_search"@,
            },
    {
        match self {
            BetaAssistantToolChoice::NoTools => "none",
            BetaAssistantToolChoice::Auto => "auto",
            BetaAssistantToolChoice::Required => "required",
            BetaAssistantToolChoice::Function(_) => "function",
            BetaAssistantToolChoice::CodeInterpreter => "code_interpreter",
            BetaAssistantToolChoice::FileSearch => "file_search",
        }
    }

    /// The choice is written as a bare string rather than an object.
    pub fn is_string_form(&self) -> (b: bool)
        ensures
            b == (self is NoTools || self is Auto || self is Required),
    {
        match self {
            BetaAssistantToolChoice::NoTools => true,
            BetaAssistantToolChoice::Auto => true,
            BetaAssistantToolChoice::Required => true,
            _ => false,
        }
    }
}

impl BetaAssistantResponseFormat {
    /// Reads a response format: `"auto"`, or an object whose `type` is `text`,
    /// `json_object` or `json_schema` (with its `json_schema` payload).
    pub fn decode(shape: JsonShape<BetaAssistantResponseFormatJsonSchema>) -> (r: Result<
        BetaAssistantResponseFormat,
        String,
    >)
        ensures
            match shape {
                JsonShape::Text(format) => if format@ == "auto"@ {
                    r == Ok::<BetaAssistantResponseFormat, String>(BetaAssistantResponseFormat::Auto)
                } else {
                    r matches Err(m) && m@ == "unsupported beta assistant response format string: "@
                        + format@
                },
                JsonShape::Object { type_field, payload } => match type_field {
                    None => r matches Err(m) && m@
                        == "beta assistant response format object missing string type"@,
                    Some(t) => if t@ == "text"@ {
                        r == Ok::<BetaAssistantResponseFormat, String>(BetaAssistantResponseFormat::Text)
                    } else if t@ == "json_object"@ {
                        r == Ok::<BetaAssistantResponseFormat, String>(
                            BetaAssistantResponseFormat::JsonObject,
                        )
                    } else if t@ == "json_schema"@ {
                        match payload {
                            None => r matches Err(m) && m@
                                == "beta assistant json_schema response format missing json_schema"@,
                            Some(Err(e)) => r == Err::<BetaAssistantResponseFormat, String>(e),
                            Some(Ok(s)) => r == Ok::<BetaAssistantResponseFormat, String>(
                                BetaAssistantResponseFormat::JsonSchema(s),
                            ),
                        }
                    } else {
                        r matches Err(m) && m@ == "unsupported beta assistant response format type: "@
                            + t@
                    },
                },
                JsonShape::Other => r matches Err(m) && m@
                    == "beta assistant response format must be auto or an object"@,
            },
    {
        match shape {
            JsonShape::Text(format) => {
                if str_eq(format.as_str(), "auto") {
                    Ok(BetaAssistantResponseFormat::Auto)
                } else {
                    let mut m = "unsupported beta assistant response format string: ".to_string();
                    push_str(&mut m, format.as_str());
                    Err(m)
                }
            },
            JsonShape::Object { type_field, payload } => match type_field {
                None => Err("beta assistant response format object missing string type".to_string()),
                Some(t) => {
                    if str_eq(t.as_str(), "text") {
                        Ok(BetaAssistantResponseFormat::Text)
                    } else if str_eq(t.as_str(), "json_object") {
                        Ok(BetaAssistantResponseFormat::JsonObject)
                    } else if str_eq(t.as_str(), "json_schema") {
                        match payload {
                            None => Err(
                                "beta assistant json_schema response format missing json_schema".to_string(),
                            ),
                            Some(Err(e)) => Err(e),
                            Some(Ok(s)) => Ok(BetaAssistantResponseFormat::JsonSchema(s)),
                        }
                    } else {
                        let mut m = "unsupported beta assistant response format type: ".to_string();
                        push_str(&mut m, t.as_str());
                        Err(m)
                    }
                },
            },
            JsonShape::Other => Err("beta assistant response format must be auto or an object".to_string()),
        }
    }

    /// The `type` the format is written with; `auto` is written as a bare string.
    pub fn wire_type(&self) -> (r: &'static str)
        ensures
            r@ == match self {
                BetaAssistantResponseFormat::Auto => "auto"@,
                BetaAssistantResponseFormat::Text => "text"@,
                BetaAssistantResponseFormat::JsonObject => "json_object"@,
                BetaAssistantResponseFormat::JsonSchema(_) => "json_schema"@,
            },
    {
        match self {
            BetaAssistantResponseFormat::Auto => "auto",
            BetaAssistantResponseFormat::Text => "text",
            BetaAssistantResponseFormat::JsonObject => "json_object",
            BetaAssistantResponseFormat::JsonSchema(_) => "json_schema",
        }
    }
}

/// Which typed payload an Assistants stream event carries, by its event name.
#[derive(Clone, Copy, Debug, PartialEq, Eq)]
pub enum BetaStreamPayloadKind {
    Thread,
    Run,
    RunStep,
    RunStepDelta,
    Message,
    MessageDelta,
    Error,
    Unknown,
}

pub open spec fn payload_kind_spec(event: Option<BetaAssistantStreamEventType>) -> BetaStreamPayloadKind {
    match event {
        Some(BetaAssistantStreamEventType::ThreadCreated) => BetaStreamPayloadKind::Thread,
        Some(BetaAssistantStreamEventType::ThreadRunCreated) => BetaStreamPayloadKind::Run,
        Some(BetaAssistantStreamEventType::ThreadRunQueued) => BetaStreamPayloadKind::Run,
        Some(BetaAssistantStreamEventType::ThreadRunInProgress) => BetaStreamPayloadKind::Run,
        Some(BetaAssistantStreamEventType::ThreadRunRequiresAction) => BetaStreamPayloadKind::Run,
        Some(BetaAssistantStreamEventType::ThreadRunCompleted) => BetaStreamPayloadKind::Run,
        Some(BetaAssistantStreamEventType::ThreadRunIncomplete) => BetaStreamPayloadKind::Run,
        Some(BetaAssistantStreamEventType::ThreadRunFailed) => BetaStreamPayloadKind::Run,
        Some(BetaAssistantStreamEventType::ThreadRunCancelling) => BetaStreamPayloadKind::Run,
        Some(BetaAssistantStreamEventType::ThreadRunCancelled) => BetaStreamPayloadKind::Run,
        Some(BetaAssistantStreamEventType::ThreadRunExpired) => BetaStreamPayloadKind::Run,
        Some(BetaAssistantStreamEventType::ThreadRunStepCreated) => BetaStreamPayloadKind::RunStep,
        Some(BetaAssistantStreamEventType::ThreadRunStepInProgress) => BetaStreamPayloadKind::RunStep,
        Some(BetaAssistantStreamEventType::ThreadRunStepCompleted) => BetaStreamPayloadKind::RunStep,
        Some(BetaAssistantStreamEventType::ThreadRunStepFailed) => BetaStreamPayloadKind::RunStep,
        Some(BetaAssistantStreamEventType::ThreadRunStepCancelled) => BetaStreamPayloadKind::RunStep,
        Some(BetaAssistantStreamEventType::ThreadRunStepExpired) => BetaStreamPayloadKind::RunStep,
        Some(BetaAssistantStreamEventType::ThreadRunStepDelta) => BetaStreamPayloadKind::RunStepDelta,
        Some(BetaAssistantStreamEventType::ThreadMessageCreated) => BetaStreamPayloadKind::Message,
        Some(BetaAssistantStreamEventType::ThreadMessageInProgress) => BetaStreamPayloadKind::Message,
        Some(BetaAssistantStreamEventType::ThreadMessageCompleted) => BetaStreamPayloadKind::Message,
        Some(BetaAssistantStreamEventType::ThreadMessageIncomplete) => BetaStreamPayloadKind::Message,
        Some(BetaAssistantStreamEventType::ThreadMessageDelta) => BetaStreamPayloadKind::MessageDelta,
        Some(BetaAssistantStreamEventType::Error) => BetaStreamPayloadKind::Error,
        _ => BetaStreamPayloadKind::Unknown,
    }
}

/// The payload type an event's data is decoded as; unknown or missing event names keep raw JSON.
pub fn payload_kind(event: &Option<BetaAssistantStreamEventType>) -> (k: BetaStreamPayloadKind)
    ensures
        k == payload_kind_spec(*event),
        *event == Some(BetaAssistantStreamEventType::ThreadRunCreated) ==> k == BetaStreamPayloadKind::Run,
        *event == Some(BetaAssistantStreamEventType::ThreadRunQueued) ==> k == BetaStreamPayloadKind::Run,
        *event == Some(BetaAssistantStreamEventType::ThreadRunInProgress) ==> k == BetaStreamPayloadKind::Run,
        *event == Some(BetaAssistantStreamEventType::ThreadRunRequiresAction) ==> k == BetaStreamPayloadKind::Run,
        *event == Some(BetaAssistantStreamEventType::ThreadRunCompleted) ==> k == BetaStreamPayloadKind::Run,
        *event == Some(BetaAssistantStreamEventType::ThreadRunIncomplete) ==> k == BetaStreamPayloadKind::Run,
        *event == Some(BetaAssistantStreamEventType::ThreadRunFailed) ==> k == BetaStreamPayloadKind::Run,
        *event == Some(BetaAssistantStreamEventType::ThreadRunCancelling) ==> k == BetaStreamPayloadKind::Run,
        *event == Some(BetaAssistantStreamEventType::ThreadRunCancelled) ==> k == BetaStreamPayloadKind::Run,
        *event == Some(BetaAssistantStreamEventType::ThreadRunExpired) ==> k == BetaStreamPayloadKind::Run,
{
    match event {
        Some(BetaAssistantStreamEventType::ThreadCreated) => BetaStreamPayloadKind::Thread,
        Some(BetaAssistantStreamEventType::ThreadRunCreated) => BetaStreamPayloadKind::Run,
        Some(BetaAssistantStreamEventType::ThreadRunQueued) => BetaStreamPayloadKind::Run,
        Some(BetaAssistantStreamEventType::ThreadRunInProgress) => BetaStreamPayloadKind::Run,
        Some(BetaAssistantStreamEventType::ThreadRunRequiresAction) => BetaStreamPayloadKind::Run,
        Some(BetaAssistantStreamEventType::ThreadRunCompleted) => BetaStreamPayloadKind::Run,
        Some(BetaAssistantStreamEventType::ThreadRunIncomplete) => BetaStreamPayloadKind::Run,
        Some(BetaAssistantStreamEventType::ThreadRunFailed) => BetaStreamPayloadKind::Run,
        Some(BetaAssistantStreamEventType::ThreadRunCancelling) => BetaStreamPayloadKind::Run,
        Some(BetaAssistantStreamEventType::ThreadRunCancelled) => BetaStreamPayloadKind::Run,
        Some(BetaAssistantStreamEventType::ThreadRunExpired) => BetaStreamPayloadKind::Run,
        Some(BetaAssistantStreamEventType::ThreadRunStepCreated) => BetaStreamPayloadKind::RunStep,
        Some(BetaAssistantStreamEventType::ThreadRunStepInProgress) => BetaStreamPayloadKind::RunStep,
        Some(BetaAssistantStreamEventType::ThreadRunStepCompleted) => BetaStreamPayloadKind::RunStep,
        Some(BetaAssistantStreamEventType::ThreadRunStepFailed) => BetaStreamPayloadKind::RunStep,
        Some(BetaAssistantStreamEventType::ThreadRunStepCancelled) => BetaStreamPayloadKind::RunStep,
        Some(BetaAssistantStreamEventType::ThreadRunStepExpired) => BetaStreamPayloadKind::RunStep,
        Some(BetaAssistantStreamEventType::ThreadRunStepDelta) => BetaStreamPayloadKind::RunStepDelta,
        Some(BetaAssistantStreamEventType::ThreadMessageCreated) => BetaStreamPayloadKind::Message,
        Some(BetaAssistantStreamEventType::ThreadMessageInProgress) => BetaStreamPayloadKind::Message,
        Some(BetaAssistantStreamEventType::ThreadMessageCompleted) => BetaStreamPayloadKind::Message,
        Some(BetaAssistantStreamEventType::ThreadMessageIncomplete) => BetaStreamPayloadKind::Message,
        Some(BetaAssistantStreamEventType::ThreadMessageDelta) => BetaStreamPayloadKind::MessageDelta,
        Some(BetaAssistantStreamEventType::Error) => BetaStreamPayloadKind::Error,
        _ => BetaStreamPayloadKind::Unknown,
    }
}

/// Every `thread.run.*` status event (created, queued, in progress, requires
/// action, completed, incomplete, failed, cancelling, cancelled, expired)
/// carries a run, and no other event does.
pub proof fn law_run_events_carry_runs(event: Option<BetaAssistantStreamEventType>)
    ensures
        payload_kind_spec(event) == BetaStreamPayloadKind::Run <==> (event == Some(BetaAssistantStreamEventType::ThreadRunCreated) || event == Some(BetaAssistantStreamEventType::ThreadRunQueued) || event == Some(BetaAssistantStreamEventType::ThreadRunInProgress) || event == Some(BetaAssistantStreamEventType::ThreadRunRequiresAction) || event == Some(BetaAssistantStreamEventType::ThreadRunCompleted) || event == Some(BetaAssistantStreamEventType::ThreadRunIncomplete) || event == Some(BetaAssistantStreamEventType::ThreadRunFailed) || event == Some(BetaAssistantStreamEventType::ThreadRunCancelling) || event == Some(BetaAssistantStreamEventType::ThreadRunCancelled) || event == Some(BetaAssistantStreamEventType::ThreadRunExpired)),
{
}

/// What one SSE frame of an Assistants stream means.
pub enum BetaFrame {
    /// The `[DONE]` marker.
    Done,
    /// An event: its name, when the frame has one, and the kind of payload to decode.
    Event { event: Option<BetaAssistantStreamEventType>, kind: BetaStreamPayloadKind },
}

/// The state of reading an Assistants stream: how many events were seen and whether `[DONE]` came.
pub struct BetaAssistantStreamState {
    pub events: usize,
    pub seen_done: bool,
}

impl BetaAssistantStreamState {
    pub fn new() -> (s: BetaAssistantStreamState)
        ensures
            s.events == 0,
            !s.seen_done,
    {
        BetaAssistantStreamState { events: 0, seen_done: false }
    }

    /// Reads one frame: `[DONE]` (surrounded by any whitespace) ends the
    /// stream, anything else is an event whose name picks its payload type.
    pub fn ingest(&mut self, frame: &SseFrame) -> (r: BetaFrame)
        requires
            old(self).events < usize::MAX,
        ensures
            frame_ingested(*old(self), *final(self), *frame),
            trim_spec(frame.data@) == "[DONE]"@ ==> r is Done && final(self).seen_done
                && final(self).events == old(self).events,
            trim_spec(frame.data@) != "[DONE]"@ ==> final(self).seen_done == old(self).seen_done
                && final(self).events == old(self).events + 1 && (r matches BetaFrame::Event {
                event,
                kind,
            } && kind == payload_kind_spec(event) && (event matches Some(e) ==> e.literal()
                == frame.event->Some_0@) && (event is Some <==> frame.event is Some)),
    {
        if str_eq(trim(frame.data.as_str()), "[DONE]") {
            self.seen_done = true;
            return BetaFrame::Done;
        }
        let event = match &frame.event {
            Some(name) => Some(BetaAssistantStreamEventType::from_text(name.as_str())),
            None => None,
        };
        let kind = payload_kind(&event);
        self.events = self.events + 1;
        BetaFrame::Event { event, kind }
    }

    /// The end of the stream: an error unless `[DONE]` was seen.
    pub fn finish(&self) -> (r: Result<(), OpenAIError>)
        ensures
            r is Ok <==> self.seen_done,
            r matches Err(e) ==> e.kind == ErrorKind::Transport && e.message@
                == "beta Assistants stream ended before [DONE]"@,
    {
        if self.seen_done {
            Ok(())
        } else {
            Err(
                OpenAIError::new(
                    ErrorKind::Transport,
                    "beta Assistants stream ended before [DONE]".to_string(),
                ),
            )
        }
    }
}

/// The frame is the `[DONE]` marker, surrounded by any whitespace.
pub open spec fn is_done_frame_data(frame: SseFrame) -> bool {
    trim_spec(frame.data@) == "[DONE]"@
}

/// `after` is `before` with one frame read, as [`BetaAssistantStreamState::ingest`] reads it.
pub open spec fn frame_ingested(before: BetaAssistantStreamState, after: BetaAssistantStreamState, frame: SseFrame) -> bool {
    if is_done_frame_data(frame) {
        after.seen_done && after.events == before.events
    } else {
        after.seen_done == before.seen_done && after.events == before.events + 1
    }
}

/// How many frames are events rather than `[DONE]`.
pub open spec fn event_frame_count(frames: Seq<SseFrame>) -> nat
    decreases frames.len(),
{
    if frames.len() == 0 {
        0
    } else {
        event_frame_count(frames.drop_last()) + if is_done_frame_data(frames.last()) {
            0nat
        } else {
            1nat
        }
    }
}

/// `states` is a run of the stream state over `frames`.
pub open spec fn is_frame_run(states: Seq<BetaAssistantStreamState>, frames: Seq<SseFrame>) -> bool {
    &&& states.len() == frames.len() + 1
    &&& forall|k: int| 0 <= k < frames.len() ==> frame_ingested(#[trigger] states[k], states[k + 1], frames[k])
}

/// Reading an Assistants stream from the start: every frame but `[DONE]` is
/// an event, and the stream counts as complete exactly when some frame was
/// `[DONE]`, wherever it came.
pub proof fn law_beta_stream_run(states: Seq<BetaAssistantStreamState>, frames: Seq<SseFrame>)
    requires
        is_frame_run(states, frames),
        states[0].events == 0,
        !states[0].seen_done,
    ensures
        states.last().events == event_frame_count(frames),
        states.last().seen_done == exists|k: int| 0 <= k < frames.len() && is_done_frame_data(#[trigger] frames[k]),
    decreases frames.len(),
{
    if frames.len() > 0 {
        let n = frames.len() - 1;
        let prefix_states = states.drop_last();
        let prefix = frames.drop_last();
        assert forall|k: int| 0 <= k < prefix.len() implies frame_ingested(
            #[trigger] prefix_states[k],
            prefix_states[k + 1],
            prefix[k],
        ) by {
            assert(frame_ingested(states[k], states[k + 1], frames[k]));
        }
        law_beta_stream_run(prefix_states, prefix);
        assert(frame_ingested(states[n], states[n + 1], frames[n]));
        assert(prefix_states.last() == states[n]);
        assert(states.last() == states[n + 1]);
        assert(frames.last() == frames[n]);
        if states.last().seen_done {
            if !states[n].seen_done {
                assert(is_done_frame_data(frames[n]));
            } else {
                let k = choose|k: int| 0 <= k < prefix.len() && is_done_frame_data(#[trigger] prefix[k]);
                assert(frames[k] == prefix[k]);
            }
        } else {
            assert forall|k: int| 0 <= k < frames.len() implies !is_done_frame_data(#[trigger] frames[k]) by {
                if k < n {
                    assert(frames[k] == prefix[k]);
                }
            }
        }
    }
}

/// A stream request under the Assistants beta flag: asks for server-sent
/// events and names the helper that opened it.
pub open spec fn assistants_stream(path: Seq<char>, body: Value, helper: Seq<char>) -> RequestView {
    RequestView {
        method: HttpMethod::Post,
        path,
        headers: seq![
            ("accept"@, "text/event-stream"@),
            ("openai-beta"@, assistants_beta()),
            ("x-stainless-stream-helper"@, helper),
            ("x-stainless-custom-event-handler"@, "false"@),
        ],
        body: BodyView::JsonValue(body),
    }
}

/// A request that is an Assistants stream to `path`, opened by `helper`,
/// whose body is `params` with `"stream": true` set.
pub open spec fn streams_to(req: RequestView, path: Seq<char>, helper: Seq<char>, params: Value) -> bool {
    &&& req.body is JsonValue
    &&& req == assistants_stream(path, req.body->JsonValue_0, helper)
    &&& with_flag(params, req.body->JsonValue_0, "stream"@, true)
}

fn assistants_stream_request(path: String, body: Value, helper: &str) -> (r: ApiRequest)
    ensures
        r@ == assistants_stream(path@, body, helper@),
{
    let r = ApiRequest::new(HttpMethod::Post, path, RequestBody::JsonValue(body)).with_header(
        "accept",
        "text/event-stream",
    ).with_header("openai-beta", "assistants=v2").with_header("x-stainless-stream-helper", helper).with_header(
        "x-stainless-custom-event-handler",
        "false",
    );
    assert(r@.headers =~= seq![
        ("accept"@, "text/event-stream"@),
        ("openai-beta"@, assistants_beta()),
        ("x-stainless-stream-helper"@, helper@),
        ("x-stainless-custom-event-handler"@, "false"@),
    ]);
    r
}


/// Beta API family.
#[derive(Clone, Copy, Debug)]
pub struct Beta {}

impl Beta {
    pub fn new() -> Beta {
        Beta {}
    }

    pub fn chat(&self) -> crate::chat::Chat {
        crate::chat::Chat::new()
    }

    pub fn realtime(&self) -> BetaRealtime {
        BetaRealtime::new()
    }

    pub fn assistants(&self) -> BetaAssistants {
        BetaAssistants::new()
    }

    pub fn threads(&self) -> BetaThreads {
        BetaThreads::new()
    }

    pub fn chatkit(&self) -> ChatKit {
        ChatKit::new()
    }

}

/// Deprecated beta Assistants API family.
#[derive(Clone, Copy, Debug)]
pub struct BetaAssistants {}

impl BetaAssistants {
    pub fn new() -> BetaAssistants {
        BetaAssistants {}
    }

    pub fn create(&self, body: String) -> (r: Result<ApiRequest, OpenAIError>)
        ensures
            r matches Ok(req) && req@ == beta_json(assistants_beta(), HttpMethod::Post, "/assistants"@, BodyView::Json(body@)),
    {
        let path = "/assistants".to_string();
        Ok(ApiRequest::beta("assistants=v2", HttpMethod::Post, path, RequestBody::Json(body)))
    }

    pub fn retrieve(&self, assistant_id: &str) -> (r: Result<ApiRequest, OpenAIError>)
        ensures
            r is Ok <==> (!is_blank_spec(assistant_id@)),
            r matches Ok(req) ==> req@ == beta_json(assistants_beta(), HttpMethod::Get, "/assistants/"@ + encoded_id(assistant_id@), BodyView::Empty),
            r matches Err(e) ==> e.kind == ErrorKind::Validation && e.message@ == blank_message("assistant_id"@),
    {
        let assistant_id = path_id("assistant_id", assistant_id)?;
        let mut path = "/assistants/".to_string();
        push_str(&mut path, assistant_id.as_str());
        Ok(ApiRequest::beta("assistants=v2", HttpMethod::Get, path, RequestBody::Empty))
    }

    pub fn update(&self, assistant_id: &str, body: String) -> (r: Result<ApiRequest, OpenAIError>)
        ensures
            r is Ok <==> (!is_blank_spec(assistant_id@)),
            r matches Ok(req) ==> req@ == beta_json(assistants_beta(), HttpMethod::Post, "/assistants/"@ + encoded_id(assistant_id@), BodyView::Json(body@)),
            r matches Err(e) ==> e.kind == ErrorKind::Validation && e.message@ == blank_message("assistant_id"@),
    {
        let assistant_id = path_id("assistant_id", assistant_id)?;
        let mut path = "/assistants/".to_string();
        push_str(&mut path, assistant_id.as_str());
        Ok(ApiRequest::beta("assistants=v2", HttpMethod::Post, path, RequestBody::Json(body)))
    }

    pub fn list(&self, params: BetaQueryParams) -> (r: Result<ApiRequest, OpenAIError>)
        ensures
            r matches Ok(req) && req@ == beta_json(assistants_beta(), HttpMethod::Get, with_query("/assistants"@, form_query(params@), params@.len() > 0), BodyView::Empty),
    {
        let mut path = "/assistants".to_string();
        let path = path_with_query(path, params.pairs());
        Ok(ApiRequest::beta("assistants=v2", HttpMethod::Get, path, RequestBody::Empty))
    }

    pub fn delete(&self, assistant_id: &str) -> (r: Result<ApiRequest, OpenAIError>)
        ensures
            r is Ok <==> (!is_blank_spec(assistant_id@)),
            r matches Ok(req) ==> req@ == beta_json(assistants_beta(), HttpMethod::Delete, "/assistants/"@ + encoded_id(assistant_id@), BodyView::Empty),
            r matches Err(e) ==> e.kind == ErrorKind::Validation && e.message@ == blank_message("assistant_id"@),
    {
        let assistant_id = path_id("assistant_id", assistant_id)?;
        let mut path = "/assistants/".to_string();
        push_str(&mut path, assistant_id.as_str());
        Ok(ApiRequest::beta("assistants=v2", HttpMethod::Delete, path, RequestBody::Empty))
    }

}

/// Deprecated beta Threads API family.
#[derive(Clone, Copy, Debug)]
pub struct BetaThreads {}

impl BetaThreads {
    pub fn new() -> BetaThreads {
        BetaThreads {}
    }

    pub fn messages(&self) -> BetaThreadMessages {
        BetaThreadMessages::new()
    }

    pub fn runs(&self) -> BetaThreadRuns {
        BetaThreadRuns::new()
    }

    pub fn create_empty(&self) -> (r: Result<ApiRequest, OpenAIError>)
        ensures
            r matches Ok(req) && req@ == beta_json(
                assistants_beta(),
                HttpMethod::Post,
                "/threads"@,
                BodyView::Json("{}"@),
            ),
    {
        Ok(
            ApiRequest::beta(
                "assistants=v2",
                HttpMethod::Post,
                "/threads".to_string(),
                RequestBody::Json("{}".to_string()),
            ),
        )
    }

    pub fn create(&self, body: String) -> (r: Result<ApiRequest, OpenAIError>)
        ensures
            r matches Ok(req) && req@ == beta_json(assistants_beta(), HttpMethod::Post, "/threads"@, BodyView::Json(body@)),
    {
        let path = "/threads".to_string();
        Ok(ApiRequest::beta("assistants=v2", HttpMethod::Post, path, RequestBody::Json(body)))
    }

    pub fn retrieve(&self, thread_id: &str) -> (r: Result<ApiRequest, OpenAIError>)
        ensures
            r is Ok <==> (!is_blank_spec(thread_id@)),
            r matches Ok(req) ==> req@ == beta_json(assistants_beta(), HttpMethod::Get, "/threads/"@ + encoded_id(thread_id@), BodyView::Empty),
            r matches Err(e) ==> e.kind == ErrorKind::Validation && e.message@ == blank_message("thread_id"@),
    {
        let thread_id = path_id("thread_id", thread_id)?;
        let mut path = "/threads/".to_string();
        push_str(&mut path, thread_id.as_str());
        Ok(ApiRequest::beta("assistants=v2", HttpMethod::Get, path, RequestBody::Empty))
    }

    pub fn update(&self, thread_id: &str, body: String) -> (r: Result<ApiRequest, OpenAIError>)
        ensures
            r is Ok <==> (!is_blank_spec(thread_id@)),
            r matches Ok(req) ==> req@ == beta_json(assistants_beta(), HttpMethod::Post, "/threads/"@ + encoded_id(thread_id@), BodyView::Json(body@)),
            r matches Err(e) ==> e.kind == ErrorKind::Validation && e.message@ == blank_message("thread_id"@),
    {
        let thread_id = path_id("thread_id", thread_id)?;
        let mut path = "/threads/".to_string();
        push_str(&mut path, thread_id.as_str());
        Ok(ApiRequest::beta("assistants=v2", HttpMethod::Post, path, RequestBody::Json(body)))
    }

    pub fn delete(&self, thread_id: &str) -> (r: Result<ApiRequest, OpenAIError>)
        ensures
            r is Ok <==> (!is_blank_spec(thread_id@)),
            r matches Ok(req) ==> req@ == beta_json(assistants_beta(), HttpMethod::Delete, "/threads/"@ + encoded_id(thread_id@), BodyView::Empty),
            r matches Err(e) ==> e.kind == ErrorKind::Validation && e.message@ == blank_message("thread_id"@),
    {
        let thread_id = path_id("thread_id", thread_id)?;
        let mut path = "/threads/".to_string();
        push_str(&mut path, thread_id.as_str());
        Ok(ApiRequest::beta("assistants=v2", HttpMethod::Delete, path, RequestBody::Empty))
    }

    pub fn create_and_run(&self, body: String) -> (r: Result<ApiRequest, OpenAIError>)
        ensures
            r matches Ok(req) && req@ == beta_json(assistants_beta(), HttpMethod::Post, "/threads/runs"@, BodyView::Json(body@)),
    {
        let path = "/threads/runs".to_string();
        Ok(ApiRequest::beta("assistants=v2", HttpMethod::Post, path, RequestBody::Json(body)))
    }

    pub fn create_and_run_stream(&self, params: Value) -> (r: Result<ApiRequest, OpenAIError>)
        ensures
            r is Ok <==> json_object(params) is Some,
            r matches Ok(req) ==> streams_to(req@, "/threads/runs"@, "threads.create_and_run_stream"@, params),
            r matches Err(e) ==> e.message@ == "beta Assistants stream body must serialize to a JSON object"@,
            r matches Err(e) ==> e.kind == ErrorKind::Validation,
    {
        let body = body_with_stream_flag(params)?;
        Ok(assistants_stream_request("/threads/runs".to_string(), body, "threads.create_and_run_stream"))
    }

    /// Run polling itself is a loop of [`BetaThreadRuns::retrieve`] and
    /// [`BetaThreadRuns::poll`]; this gives the thread and run it follows,
    /// taken from the created run.
    pub fn create_and_run_poll(&self, created_id: &str, created_thread_id: Option<&str>) -> (r:
        Result<(String, String), OpenAIError>)
        ensures
            r is Ok <==> (!is_blank_spec(created_id@) && created_thread_id is Some
                && !is_blank_spec(created_thread_id->Some_0@)),
            r matches Ok(p) ==> p.0@ == created_thread_id->Some_0@ && p.1@ == created_id@,
            r matches Err(e) ==> e.kind == ErrorKind::Parse && e.message@ == missing_field_message(
                if is_blank_spec(created_id@) {
                    "id"@
                } else {
                    "thread_id"@
                },
            ),
    {
        let run_id = required_string_field("id", Some(created_id))?;
        let thread_id = required_string_field("thread_id", created_thread_id)?;
        Ok((thread_id, run_id))
    }

}

/// Deprecated beta thread message endpoints.
#[derive(Clone, Copy, Debug)]
pub struct BetaThreadMessages {}

impl BetaThreadMessages {
    pub fn new() -> BetaThreadMessages {
        BetaThreadMessages {}
    }

    pub fn create(&self, thread_id: &str, body: String) -> (r: Result<ApiRequest, OpenAIError>)
        ensures
            r is Ok <==> (!is_blank_spec(thread_id@)),
            r matches Ok(req) ==> req@ == beta_json(assistants_beta(), HttpMethod::Post, "/threads/"@ + encoded_id(thread_id@) + "/messages"@, BodyView::Json(body@)),
            r matches Err(e) ==> e.kind == ErrorKind::Validation && e.message@ == blank_message("thread_id"@),
    {
        let thread_id = path_id("thread_id", thread_id)?;
        let mut path = "/threads/".to_string();
        push_str(&mut path, thread_id.as_str());
        push_str(&mut path, "/messages");
        Ok(ApiRequest::beta("assistants=v2", HttpMethod::Post, path, RequestBody::Json(body)))
    }

    pub fn retrieve(&self, thread_id: &str, message_id: &str) -> (r: Result<ApiRequest, OpenAIError>)
        ensures
            r is Ok <==> (!is_blank_spec(thread_id@) && !is_blank_spec(message_id@)),
            r matches Ok(req) ==> req@ == beta_json(assistants_beta(), HttpMethod::Get, "/threads/"@ + encoded_id(thread_id@) + "/messages/"@ + encoded_id(message_id@), BodyView::Empty),
            r matches Err(e) ==> e.kind == ErrorKind::Validation && e.message@ == blank_message(if is_blank_spec(thread_id@) { "thread_id"@ } else { "message_id"@ }),
    {
        let thread_id = path_id("thread_id", thread_id)?;
        let message_id = path_id("message_id", message_id)?;
        let mut path = "/threads/".to_string();
        push_str(&mut path, thread_id.as_str());
        push_str(&mut path, "/messages/");
        push_str(&mut path, message_id.as_str());
        Ok(ApiRequest::beta("assistants=v2", HttpMethod::Get, path, RequestBody::Empty))
    }

    pub fn update(&self, thread_id: &str, message_id: &str, body: String) -> (r: Result<ApiRequest, OpenAIError>)
        ensures
            r is Ok <==> (!is_blank_spec(thread_id@) && !is_blank_spec(message_id@)),
            r matches Ok(req) ==> req@ == beta_json(assistants_beta(), HttpMethod::Post, "/threads/"@ + encoded_id(thread_id@) + "/messages/"@ + encoded_id(message_id@), BodyView::Json(body@)),
            r matches Err(e) ==> e.kind == ErrorKind::Validation && e.message@ == blank_message(if is_blank_spec(thread_id@) { "thread_id"@ } else { "message_id"@ }),
    {
        let thread_id = path_id("thread_id", thread_id)?;
        let message_id = path_id("message_id", message_id)?;
        let mut path = "/threads/".to_string();
        push_str(&mut path, thread_id.as_str());
        push_str(&mut path, "/messages/");
        push_str(&mut path, message_id.as_str());
        Ok(ApiRequest::beta("assistants=v2", HttpMethod::Post, path, RequestBody::Json(body)))
    }

    pub fn list(&self, thread_id: &str, params: BetaQueryParams) -> (r: Result<ApiRequest, OpenAIError>)
        ensures
            r is Ok <==> (!is_blank_spec(thread_id@)),
            r matches Ok(req) ==> req@ == beta_json(assistants_beta(), HttpMethod::Get, with_query("/threads/"@ + encoded_id(thread_id@) + "/messages"@, form_query(params@), params@.len() > 0), BodyView::Empty),
            r matches Err(e) ==> e.kind == ErrorKind::Validation && e.message@ == blank_message("thread_id"@),
    {
        let thread_id = path_id("thread_id", thread_id)?;
        let mut path = "/threads/".to_string();
        push_str(&mut path, thread_id.as_str());
        push_str(&mut path, "/messages");
        let path = path_with_query(path, params.pairs());
        Ok(ApiRequest::beta("assistants=v2", HttpMethod::Get, path, RequestBody::Empty))
    }

    pub fn delete(&self, thread_id: &str, message_id: &str) -> (r: Result<ApiRequest, OpenAIError>)
        ensures
            r is Ok <==> (!is_blank_spec(thread_id@) && !is_blank_spec(message_id@)),
            r matches Ok(req) ==> req@ == beta_json(assistants_beta(), HttpMethod::Delete, "/threads/"@ + encoded_id(thread_id@) + "/messages/"@ + encoded_id(message_id@), BodyView::Empty),
            r matches Err(e) ==> e.kind == ErrorKind::Validation && e.message@ == blank_message(if is_blank_spec(thread_id@) { "thread_id"@ } else { "message_id"@ }),
    {
        let thread_id = path_id("thread_id", thread_id)?;
        let message_id = path_id("message_id", message_id)?;
        let mut path = "/threads/".to_string();
        push_str(&mut path, thread_id.as_str());
        push_str(&mut path, "/messages/");
        push_str(&mut path, message_id.as_str());
        Ok(ApiRequest::beta("assistants=v2", HttpMethod::Delete, path, RequestBody::Empty))
    }

}

/// Deprecated beta thread run endpoints.
#[derive(Clone, Copy, Debug)]
pub struct BetaThreadRuns {}

impl BetaThreadRuns {
    pub fn new() -> BetaThreadRuns {
        BetaThreadRuns {}
    }

    pub fn steps(&self) -> BetaThreadRunSteps {
        BetaThreadRunSteps::new()
    }

    pub fn create(&self, thread_id: &str, body: String) -> (r: Result<ApiRequest, OpenAIError>)
        ensures
            r is Ok <==> !is_blank_spec(thread_id@),
            r matches Ok(req) ==> req@ == beta_json(
                assistants_beta(),
                HttpMethod::Post,
                "/threads/"@ + encoded_id(thread_id@) + "/runs"@,
                BodyView::Json(body@),
            ),
            r matches Err(e) ==> e.kind == ErrorKind::Validation && e.message@ == blank_message(
                "thread_id"@,
            ),
    {
        let r = self.create_with_query(thread_id, body, BetaQueryParams::new());
        proof {
            if r is Ok {
                assert(with_query(
                    "/threads/"@ + encoded_id(thread_id@) + "/runs"@,
                    form_query(seq![]),
                    false,
                ) == "/threads/"@ + encoded_id(thread_id@) + "/runs"@);
            }
        }
        r
    }

    pub fn create_with_query(&self, thread_id: &str, body: String, query: BetaQueryParams) -> (r:
        Result<ApiRequest, OpenAIError>)
        ensures
            r is Ok <==> !is_blank_spec(thread_id@),
            r matches Ok(req) ==> req@ == beta_json(
                assistants_beta(),
                HttpMethod::Post,
                with_query(
                    "/threads/"@ + encoded_id(thread_id@) + "/runs"@,
                    form_query(query@),
                    query@.len() > 0,
                ),
                BodyView::Json(body@),
            ),
            r matches Err(e) ==> e.kind == ErrorKind::Validation && e.message@ == blank_message(
                "thread_id"@,
            ),
    {
        let thread_id = path_id("thread_id", thread_id)?;
        let mut path = "/threads/".to_string();
        push_str(&mut path, thread_id.as_str());
        push_str(&mut path, "/runs");
        let path = path_with_query(path, query.pairs());
        Ok(ApiRequest::beta("assistants=v2", HttpMethod::Post, path, RequestBody::Json(body)))
    }

    pub fn create_stream(&self, thread_id: &str, params: Value) -> (r: Result<ApiRequest, OpenAIError>)
        ensures
            is_blank_spec(thread_id@) ==> (r matches Err(e) && e.kind == ErrorKind::Validation
                && e.message@ == blank_message("thread_id"@)),
            r matches Err(e) ==> e.kind == ErrorKind::Validation,
            r is Ok <==> (!is_blank_spec(thread_id@) && json_object(params) is Some),
            !is_blank_spec(thread_id@) && json_object(params) is None ==> (r matches Err(e) && e.message@
                == "beta Assistants stream body must serialize to a JSON object"@),
            r matches Ok(req) ==> !is_blank_spec(thread_id@) && streams_to(req@, 
                    "/threads/"@ + encoded_id(thread_id@) + "/runs"@,
                    "threads.runs.create_and_stream"@, params),
    {
        let r = self.create_stream_with_query(thread_id, params, BetaQueryParams::new());
        proof {
            assert(with_query(
                "/threads/"@ + encoded_id(thread_id@) + "/runs"@,
                form_query(seq![]),
                false,
            ) == "/threads/"@ + encoded_id(thread_id@) + "/runs"@);
        }
        r
    }

    pub fn create_and_stream(&self, thread_id: &str, params: Value) -> (r: Result<ApiRequest, OpenAIError>)
        ensures
            is_blank_spec(thread_id@) ==> (r matches Err(e) && e.kind == ErrorKind::Validation
                && e.message@ == blank_message("thread_id"@)),
            r matches Err(e) ==> e.kind == ErrorKind::Validation,
            r is Ok <==> (!is_blank_spec(thread_id@) && json_object(params) is Some),
            !is_blank_spec(thread_id@) && json_object(params) is None ==> (r matches Err(e) && e.message@
                == "beta Assistants stream body must serialize to a JSON object"@),
            r matches Ok(req) ==> !is_blank_spec(thread_id@) && streams_to(req@, 
                    "/threads/"@ + encoded_id(thread_id@) + "/runs"@,
                    "threads.runs.create_and_stream"@, params),
    {
        self.create_stream(thread_id, params)
    }

    pub fn create_stream_with_query(&self, thread_id: &str, params: Value, query: BetaQueryParams) -> (r:
        Result<ApiRequest, OpenAIError>)
        ensures
            is_blank_spec(thread_id@) ==> (r matches Err(e) && e.kind == ErrorKind::Validation
                && e.message@ == blank_message("thread_id"@)),
            r is Ok <==> (!is_blank_spec(thread_id@) && json_object(params) is Some),
            !is_blank_spec(thread_id@) && json_object(params) is None ==> (r matches Err(e) && e.message@
                == "beta Assistants stream body must serialize to a JSON object"@),
            r matches Ok(req) ==> !is_blank_spec(thread_id@) && streams_to(req@, 
                    with_query(
                        "/threads/"@ + encoded_id(thread_id@) + "/runs"@,
                        form_query(query@),
                        query@.len() > 0,
                    ),
                    "threads.runs.create_and_stream"@, params),
            r matches Err(e) ==> e.kind == ErrorKind::Validation,
    {
        let thread_id = path_id("thread_id", thread_id)?;
        let body = body_with_stream_flag(params)?;
        let mut path = "/threads/".to_string();
        push_str(&mut path, thread_id.as_str());
        push_str(&mut path, "/runs");
        let path = path_with_query(path, query.pairs());
        Ok(assistants_stream_request(path, body, "threads.runs.create_and_stream"))
    }

    pub fn stream(&self, thread_id: &str, params: Value) -> (r: Result<ApiRequest, OpenAIError>)
        ensures
            is_blank_spec(thread_id@) ==> (r matches Err(e) && e.kind == ErrorKind::Validation
                && e.message@ == blank_message("thread_id"@)),
            r matches Err(e) ==> e.kind == ErrorKind::Validation,
            r is Ok <==> (!is_blank_spec(thread_id@) && json_object(params) is Some),
            !is_blank_spec(thread_id@) && json_object(params) is None ==> (r matches Err(e) && e.message@
                == "beta Assistants stream body must serialize to a JSON object"@),
            r matches Ok(req) ==> !is_blank_spec(thread_id@) && streams_to(req@, 
                    "/threads/"@ + encoded_id(thread_id@) + "/runs"@,
                    "threads.runs.create_and_stream"@, params),
    {
        self.create_stream(thread_id, params)
    }

    /// The run to poll after `create` answered: the created run's id, which must not be blank.
    pub fn create_and_poll(&self, created_id: &str) -> (r: Result<String, OpenAIError>)
        ensures
            r is Ok <==> !is_blank_spec(created_id@),
            r matches Ok(v) ==> v@ == created_id@,
            r matches Err(e) ==> e.kind == ErrorKind::Parse && e.message@
                == missing_field_message("id"@),
    {
        required_string_field("id", Some(created_id))
    }

    /// The run to poll after `create_with_query` answered.
    pub fn create_and_poll_with_query(&self, created_id: &str) -> (r: Result<String, OpenAIError>)
        ensures
            r is Ok <==> !is_blank_spec(created_id@),
            r matches Ok(v) ==> v@ == created_id@,
            r matches Err(e) ==> e.kind == ErrorKind::Parse && e.message@
                == missing_field_message("id"@),
    {
        self.create_and_poll(created_id)
    }

    pub fn retrieve(&self, thread_id: &str, run_id: &str) -> (r: Result<ApiRequest, OpenAIError>)
        ensures
            r is Ok <==> (!is_blank_spec(thread_id@) && !is_blank_spec(run_id@)),
            r matches Ok(req) ==> req@ == beta_json(assistants_beta(), HttpMethod::Get, "/threads/"@ + encoded_id(thread_id@) + "/runs/"@ + encoded_id(run_id@), BodyView::Empty),
            r matches Err(e) ==> e.kind == ErrorKind::Validation && e.message@ == blank_message(if is_blank_spec(thread_id@) { "thread_id"@ } else { "run_id"@ }),
    {
        let thread_id = path_id("thread_id", thread_id)?;
        let run_id = path_id("run_id", run_id)?;
        let mut path = "/threads/".to_string();
        push_str(&mut path, thread_id.as_str());
        push_str(&mut path, "/runs/");
        push_str(&mut path, run_id.as_str());
        Ok(ApiRequest::beta("assistants=v2", HttpMethod::Get, path, RequestBody::Empty))
    }

    pub fn update(&self, thread_id: &str, run_id: &str, body: String) -> (r: Result<ApiRequest, OpenAIError>)
        ensures
            r is Ok <==> (!is_blank_spec(thread_id@) && !is_blank_spec(run_id@)),
            r matches Ok(req) ==> req@ == beta_json(assistants_beta(), HttpMethod::Post, "/threads/"@ + encoded_id(thread_id@) + "/runs/"@ + encoded_id(run_id@), BodyView::Json(body@)),
            r matches Err(e) ==> e.kind == ErrorKind::Validation && e.message@ == blank_message(if is_blank_spec(thread_id@) { "thread_id"@ } else { "run_id"@ }),
    {
        let thread_id = path_id("thread_id", thread_id)?;
        let run_id = path_id("run_id", run_id)?;
        let mut path = "/threads/".to_string();
        push_str(&mut path, thread_id.as_str());
        push_str(&mut path, "/runs/");
        push_str(&mut path, run_id.as_str());
        Ok(ApiRequest::beta("assistants=v2", HttpMethod::Post, path, RequestBody::Json(body)))
    }

    pub fn list(&self, thread_id: &str, params: BetaQueryParams) -> (r: Result<ApiRequest, OpenAIError>)
        ensures
            r is Ok <==> (!is_blank_spec(thread_id@)),
            r matches Ok(req) ==> req@ == beta_json(assistants_beta(), HttpMethod::Get, with_query("/threads/"@ + encoded_id(thread_id@) + "/runs"@, form_query(params@), params@.len() > 0), BodyView::Empty),
            r matches Err(e) ==> e.kind == ErrorKind::Validation && e.message@ == blank_message("thread_id"@),
    {
        let thread_id = path_id("thread_id", thread_id)?;
        let mut path = "/threads/".to_string();
        push_str(&mut path, thread_id.as_str());
        push_str(&mut path, "/runs");
        let path = path_with_query(path, params.pairs());
        Ok(ApiRequest::beta("assistants=v2", HttpMethod::Get, path, RequestBody::Empty))
    }

    pub fn cancel(&self, thread_id: &str, run_id: &str) -> (r: Result<ApiRequest, OpenAIError>)
        ensures
            r is Ok <==> (!is_blank_spec(thread_id@) && !is_blank_spec(run_id@)),
            r matches Ok(req) ==> req@ == beta_json(assistants_beta(), HttpMethod::Post, "/threads/"@ + encoded_id(thread_id@) + "/runs/"@ + encoded_id(run_id@) + "/cancel"@, BodyView::Empty),
            r matches Err(e) ==> e.kind == ErrorKind::Validation && e.message@ == blank_message(if is_blank_spec(thread_id@) { "thread_id"@ } else { "run_id"@ }),
    {
        let thread_id = path_id("thread_id", thread_id)?;
        let run_id = path_id("run_id", run_id)?;
        let mut path = "/threads/".to_string();
        push_str(&mut path, thread_id.as_str());
        push_str(&mut path, "/runs/");
        push_str(&mut path, run_id.as_str());
        push_str(&mut path, "/cancel");
        Ok(ApiRequest::beta("assistants=v2", HttpMethod::Post, path, RequestBody::Empty))
    }

    pub fn submit_tool_outputs(&self, thread_id: &str, run_id: &str, body: String) -> (r: Result<ApiRequest, OpenAIError>)
        ensures
            r is Ok <==> (!is_blank_spec(thread_id@) && !is_blank_spec(run_id@)),
            r matches Ok(req) ==> req@ == beta_json(assistants_beta(), HttpMethod::Post, "/threads/"@ + encoded_id(thread_id@) + "/runs/"@ + encoded_id(run_id@) + "/submit_tool_outputs"@, BodyView::Json(body@)),
            r matches Err(e) ==> e.kind == ErrorKind::Validation && e.message@ == blank_message(if is_blank_spec(thread_id@) { "thread_id"@ } else { "run_id"@ }),
    {
        let thread_id = path_id("thread_id", thread_id)?;
        let run_id = path_id("run_id", run_id)?;
        let mut path = "/threads/".to_string();
        push_str(&mut path, thread_id.as_str());
        push_str(&mut path, "/runs/");
        push_str(&mut path, run_id.as_str());
        push_str(&mut path, "/submit_tool_outputs");
        Ok(ApiRequest::beta("assistants=v2", HttpMethod::Post, path, RequestBody::Json(body)))
    }

    pub fn submit_tool_outputs_stream(&self, thread_id: &str, run_id: &str, params: Value) -> (r:
        Result<ApiRequest, OpenAIError>)
        ensures
            is_blank_spec(thread_id@) || is_blank_spec(run_id@) ==> (r matches Err(e) && e.kind
                == ErrorKind::Validation && e.message@ == blank_message(
                if is_blank_spec(thread_id@) {
                    "thread_id"@
                } else {
                    "run_id"@
                },
            )),
            r is Ok <==> (!is_blank_spec(thread_id@) && !is_blank_spec(run_id@) && json_object(params) is Some),
            !is_blank_spec(thread_id@) && !is_blank_spec(run_id@) && json_object(params) is None ==> (r matches Err(
                e) && e.message@ == "beta Assistants stream body must serialize to a JSON object"@),
            r matches Ok(req) ==> !is_blank_spec(thread_id@) && !is_blank_spec(run_id@) && streams_to(req@, 
                    "/threads/"@ + encoded_id(thread_id@) + "/runs/"@ + encoded_id(run_id@)
                        + "/submit_tool_outputs"@,
                    "threads.runs.submit_tool_outputs_stream"@, params),
            r matches Err(e) ==> e.kind == ErrorKind::Validation,
    {
        let thread_id = path_id("thread_id", thread_id)?;
        let run_id = path_id("run_id", run_id)?;
        let body = body_with_stream_flag(params)?;
        let mut path = "/threads/".to_string();
        push_str(&mut path, thread_id.as_str());
        push_str(&mut path, "/runs/");
        push_str(&mut path, run_id.as_str());
        push_str(&mut path, "/submit_tool_outputs");
        Ok(assistants_stream_request(path, body, "threads.runs.submit_tool_outputs_stream"))
    }

    /// The run to poll after `submit_tool_outputs` answered: the returned id,
    /// or the submitted one when the returned id is blank.
    pub fn submit_tool_outputs_and_poll(&self, submitted_id: &str, run_id: &str) -> (r: String)
        ensures
            r@ == (if is_blank_spec(submitted_id@) {
                run_id@
            } else {
                submitted_id@
            }),
    {
        resolved_run_id(submitted_id, run_id)
    }

}

/// Deprecated beta run step endpoints.
#[derive(Clone, Copy, Debug)]
pub struct BetaThreadRunSteps {}

impl BetaThreadRunSteps {
    pub fn new() -> BetaThreadRunSteps {
        BetaThreadRunSteps {}
    }

    pub fn retrieve(&self, thread_id: &str, run_id: &str, step_id: &str) -> (r: Result<ApiRequest, OpenAIError>)
        ensures
            r is Ok <==> (!is_blank_spec(thread_id@) && !is_blank_spec(run_id@) && !is_blank_spec(step_id@)),
            r matches Ok(req) ==> req@ == beta_json(
                assistants_beta(),
                HttpMethod::Get,
                "/threads/"@ + encoded_id(thread_id@) + "/runs/"@ + encoded_id(run_id@) + "/steps/"@
                    + encoded_id(step_id@),
                BodyView::Empty,
            ),
            r matches Err(e) ==> e.kind == ErrorKind::Validation && e.message@ == blank_message(
                if is_blank_spec(thread_id@) {
                    "thread_id"@
                } else if is_blank_spec(run_id@) {
                    "run_id"@
                } else {
                    "step_id"@
                },
            ),
    {
        let r = self.retrieve_with_query(thread_id, run_id, step_id, BetaQueryParams::new());
        proof {
            assert(with_query(
                "/threads/"@ + encoded_id(thread_id@) + "/runs/"@ + encoded_id(run_id@) + "/steps/"@
                    + encoded_id(step_id@),
                form_query(seq![]),
                false,
            ) == "/threads/"@ + encoded_id(thread_id@) + "/runs/"@ + encoded_id(run_id@) + "/steps/"@
                + encoded_id(step_id@));
        }
        r
    }

    pub fn retrieve_with_query(&self, thread_id: &str, run_id: &str, step_id: &str, params: BetaQueryParams) -> (r: Result<ApiRequest, OpenAIError>)
        ensures
            r is Ok <==> (!is_blank_spec(thread_id@) && !is_blank_spec(run_id@) && !is_blank_spec(step_id@)),
            r matches Ok(req) ==> req@ == beta_json(assistants_beta(), HttpMethod::Get, with_query("/threads/"@ + encoded_id(thread_id@) + "/runs/"@ + encoded_id(run_id@) + "/steps/"@ + encoded_id(step_id@), form_query(params@), params@.len() > 0), BodyView::Empty),
            r matches Err(e) ==> e.kind == ErrorKind::Validation && e.message@ == blank_message(if is_blank_spec(thread_id@) { "thread_id"@ } else { if is_blank_spec(run_id@) { "run_id"@ } else { "step_id"@ } }),
    {
        let thread_id = path_id("thread_id", thread_id)?;
        let run_id = path_id("run_id", run_id)?;
        let step_id = path_id("step_id", step_id)?;
        let mut path = "/threads/".to_string();
        push_str(&mut path, thread_id.as_str());
        push_str(&mut path, "/runs/");
        push_str(&mut path, run_id.as_str());
        push_str(&mut path, "/steps/");
        push_str(&mut path, step_id.as_str());
        let path = path_with_query(path, params.pairs());
        Ok(ApiRequest::beta("assistants=v2", HttpMethod::Get, path, RequestBody::Empty))
    }

    pub fn list(&self, thread_id: &str, run_id: &str, params: BetaQueryParams) -> (r: Result<ApiRequest, OpenAIError>)
        ensures
            r is Ok <==> (!is_blank_spec(thread_id@) && !is_blank_spec(run_id@)),
            r matches Ok(req) ==> req@ == beta_json(assistants_beta(), HttpMethod::Get, with_query("/threads/"@ + encoded_id(thread_id@) + "/runs/"@ + encoded_id(run_id@) + "/steps"@, form_query(params@), params@.len() > 0), BodyView::Empty),
            r matches Err(e) ==> e.kind == ErrorKind::Validation && e.message@ == blank_message(if is_blank_spec(thread_id@) { "thread_id"@ } else { "run_id"@ }),
    {
        let thread_id = path_id("thread_id", thread_id)?;
        let run_id = path_id("run_id", run_id)?;
        let mut path = "/threads/".to_string();
        push_str(&mut path, thread_id.as_str());
        push_str(&mut path, "/runs/");
        push_str(&mut path, run_id.as_str());
        push_str(&mut path, "/steps");
        let path = path_with_query(path, params.pairs());
        Ok(ApiRequest::beta("assistants=v2", HttpMethod::Get, path, RequestBody::Empty))
    }

}

/// ChatKit beta API family.
#[derive(Clone, Copy, Debug)]
pub struct ChatKit {}

impl ChatKit {
    pub fn new() -> ChatKit {
        ChatKit {}
    }

    pub fn sessions(&self) -> ChatKitSessions {
        ChatKitSessions::new()
    }

    pub fn threads(&self) -> ChatKitThreads {
        ChatKitThreads::new()
    }

}

/// Beta realtime REST API family.
#[derive(Clone, Copy, Debug)]
pub struct BetaRealtime {}

impl BetaRealtime {
    pub fn new() -> BetaRealtime {
        BetaRealtime {}
    }

    pub fn sessions(&self) -> BetaRealtimeSessions {
        BetaRealtimeSessions::new()
    }

    pub fn transcription_sessions(&self) -> BetaRealtimeTranscriptionSessions {
        BetaRealtimeTranscriptionSessions::new()
    }

}

/// Beta realtime session-token endpoints.
#[derive(Clone, Copy, Debug)]
pub struct BetaRealtimeSessions {}

impl BetaRealtimeSessions {
    pub fn new() -> BetaRealtimeSessions {
        BetaRealtimeSessions {}
    }

    pub fn create(&self, body: String) -> (r: Result<ApiRequest, OpenAIError>)
        ensures
            r matches Ok(req) && req@ == beta_json(assistants_beta(), HttpMethod::Post, "/realtime/sessions"@, BodyView::Json(body@)),
    {
        let path = "/realtime/sessions".to_string();
        Ok(ApiRequest::beta("assistants=v2", HttpMethod::Post, path, RequestBody::Json(body)))
    }

}

/// Beta realtime transcription-session token endpoints.
#[derive(Clone, Copy, Debug)]
pub struct BetaRealtimeTranscriptionSessions {}

impl BetaRealtimeTranscriptionSessions {
    pub fn new() -> BetaRealtimeTranscriptionSessions {
        BetaRealtimeTranscriptionSessions {}
    }

    pub fn create(&self, body: String) -> (r: Result<ApiRequest, OpenAIError>)
        ensures
            r matches Ok(req) && req@ == beta_json(assistants_beta(), HttpMethod::Post, "/realtime/transcription_sessions"@, BodyView::Json(body@)),
    {
        let path = "/realtime/transcription_sessions".to_string();
        Ok(ApiRequest::beta("assistants=v2", HttpMethod::Post, path, RequestBody::Json(body)))
    }

}

/// ChatKit session endpoints.
#[derive(Clone, Copy, Debug)]
pub struct ChatKitSessions {}

impl ChatKitSessions {
    pub fn new() -> ChatKitSessions {
        ChatKitSessions {}
    }

    pub fn create(&self, body: String) -> (r: Result<ApiRequest, OpenAIError>)
        ensures
            r matches Ok(req) && req@ == beta_json(chatkit_beta(), HttpMethod::Post, "/chatkit/sessions"@, BodyView::Json(body@)),
    {
        let path = "/chatkit/sessions".to_string();
        Ok(ApiRequest::beta("chatkit_beta=v1", HttpMethod::Post, path, RequestBody::Json(body)))
    }

    pub fn cancel(&self, session_id: &str) -> (r: Result<ApiRequest, OpenAIError>)
        ensures
            r is Ok <==> (!is_blank_spec(session_id@)),
            r matches Ok(req) ==> req@ == beta_json(chatkit_beta(), HttpMethod::Post, "/chatkit/sessions/"@ + encoded_id(session_id@) + "/cancel"@, BodyView::Empty),
            r matches Err(e) ==> e.kind == ErrorKind::Validation && e.message@ == blank_message("session_id"@),
    {
        let session_id = path_id("session_id", session_id)?;
        let mut path = "/chatkit/sessions/".to_string();
        push_str(&mut path, session_id.as_str());
        push_str(&mut path, "/cancel");
        Ok(ApiRequest::beta("chatkit_beta=v1", HttpMethod::Post, path, RequestBody::Empty))
    }

}

/// ChatKit thread endpoints.
#[derive(Clone, Copy, Debug)]
pub struct ChatKitThreads {}

impl ChatKitThreads {
    pub fn new() -> ChatKitThreads {
        ChatKitThreads {}
    }

    pub fn retrieve(&self, thread_id: &str) -> (r: Result<ApiRequest, OpenAIError>)
        ensures
            r is Ok <==> (!is_blank_spec(thread_id@)),
            r matches Ok(req) ==> req@ == beta_json(chatkit_beta(), HttpMethod::Get, "/chatkit/threads/"@ + encoded_id(thread_id@), BodyView::Empty),
            r matches Err(e) ==> e.kind == ErrorKind::Validation && e.message@ == blank_message("thread_id"@),
    {
        let thread_id = path_id("thread_id", thread_id)?;
        let mut path = "/chatkit/threads/".to_string();
        push_str(&mut path, thread_id.as_str());
        Ok(ApiRequest::beta("chatkit_beta=v1", HttpMethod::Get, path, RequestBody::Empty))
    }

    pub fn list(&self, params: QueryPairs) -> (r: Result<ApiRequest, OpenAIError>)
        ensures
            r matches Ok(req) && req@ == beta_json(chatkit_beta(), HttpMethod::Get, with_query("/chatkit/threads"@, form_query(params@), params@.len() > 0), BodyView::Empty),
    {
        let mut path = "/chatkit/threads".to_string();
        let path = path_with_query(path, params.pairs());
        Ok(ApiRequest::beta("chatkit_beta=v1", HttpMethod::Get, path, RequestBody::Empty))
    }

    pub fn delete(&self, thread_id: &str) -> (r: Result<ApiRequest, OpenAIError>)
        ensures
            r is Ok <==> (!is_blank_spec(thread_id@)),
            r matches Ok(req) ==> req@ == beta_json(chatkit_beta(), HttpMethod::Delete, "/chatkit/threads/"@ + encoded_id(thread_id@), BodyView::Empty),
            r matches Err(e) ==> e.kind == ErrorKind::Validation && e.message@ == blank_message("thread_id"@),
    {
        let thread_id = path_id("thread_id", thread_id)?;
        let mut path = "/chatkit/threads/".to_string();
        push_str(&mut path, thread_id.as_str());
        Ok(ApiRequest::beta("chatkit_beta=v1", HttpMethod::Delete, path, RequestBody::Empty))
    }

    pub fn list_items(&self, thread_id: &str, params: QueryPairs) -> (r: Result<ApiRequest, OpenAIError>)
        ensures
            r is Ok <==> (!is_blank_spec(thread_id@)),
            r matches Ok(req) ==> req@ == beta_json(chatkit_beta(), HttpMethod::Get, with_query("/chatkit/threads/"@ + encoded_id(thread_id@) + "/items"@, form_query(params@), params@.len() > 0), BodyView::Empty),
            r matches Err(e) ==> e.kind == ErrorKind::Validation && e.message@ == blank_message("thread_id"@),
    {
        let thread_id = path_id("thread_id", thread_id)?;
        let mut path = "/chatkit/threads/".to_string();
        push_str(&mut path, thread_id.as_str());
        push_str(&mut path, "/items");
        let path = path_with_query(path, params.pairs());
        Ok(ApiRequest::beta("chatkit_beta=v1", HttpMethod::Get, path, RequestBody::Empty))
    }

}

} // verus!
