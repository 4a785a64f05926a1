//! Literals shared by several API families.
use vstd::prelude::*;
use crate::literal::Literal;

verus! {

/// Shared reasoning-effort literal used by chat, responses, evals, graders, and Assistants.
#[derive(Clone, Copy, Debug, PartialEq, Eq)]
pub enum ReasoningEffort {
    NoReasoning,
    Minimal,
    Low,
    Medium,
    High,
    XHigh,
}

impl Literal for ReasoningEffort {
    open spec fn literal(&self) -> Seq<char> {
        match self {
            ReasoningEffort::NoReasoning => "none"@,
            ReasoningEffort::Minimal => "minimal"@,
            ReasoningEffort::Low => "low"@,
            ReasoningEffort::Medium => "medium"@,
            ReasoningEffort::High => "high"@,
            ReasoningEffort::XHigh => "xhigh"@,
        }
    }

    fn to_text(&self) -> (r: String) {
        self.as_str().to_string()
    }
}

impl ReasoningEffort {
    /// The text the API uses for this value.
    pub fn as_str(&self) -> (r: &'static str)
        ensures
            r@ == self.literal(),
    {
        match self {
            ReasoningEffort::NoReasoning => "none",
            ReasoningEffort::Minimal => "minimal",
            ReasoningEffort::Low => "low",
            ReasoningEffort::Medium => "medium",
            ReasoningEffort::High => "high",
            ReasoningEffort::XHigh => "xhigh",
        }
    }
}

/// Prompt-cache retention policy literal.
#[derive(Clone, Copy, Debug, PartialEq, Eq)]
pub enum PromptCacheRetention {
    InMemory,
    TwentyFourHours,
}

impl Literal for PromptCacheRetention {
    open spec fn literal(&self) -> Seq<char> {
        match self {
            PromptCacheRetention::InMemory => "in_memory"@,
            PromptCacheRetention::TwentyFourHours => "24h"@,
        }
    }

    fn to_text(&self) -> (r: String) {
        self.as_str().to_string()
    }
}

impl PromptCacheRetention {
    /// The text the API uses for this value.
    pub fn as_str(&self) -> (r: &'static str)
        ensures
            r@ == self.literal(),
    {
        match self {
            PromptCacheRetention::InMemory => "in_memory",
            PromptCacheRetention::TwentyFourHours => "24h",
        }
    }
}

/// Request/response service tier literal.
#[derive(Clone, Copy, Debug, PartialEq, Eq)]
pub enum ServiceTier {
    Auto,
    Default,
    Flex,
    Scale,
    Priority,
}

impl Literal for ServiceTier {
    open spec fn literal(&self) -> Seq<char> {
        match self {
            ServiceTier::Auto => "auto"@,
            ServiceTier::Default => "default"@,
            ServiceTier::Flex => "flex"@,
            ServiceTier::Scale => "scale"@,
            ServiceTier::Priority => "priority"@,
        }
    }

    fn to_text(&self) -> (r: String) {
        self.as_str().to_string()
    }
}

impl ServiceTier {
    /// The text the API uses for this value.
    pub fn as_str(&self) -> (r: &'static str)
        ensures
            r@ == self.literal(),
    {
        match self {
            ServiceTier::Auto => "auto",
            ServiceTier::Default => "default",
            ServiceTier::Flex => "flex",
            ServiceTier::Scale => "scale",
            ServiceTier::Priority => "priority",
        }
    }
}

/// Model response truncation strategy literal.
#[derive(Clone, Copy, Debug, PartialEq, Eq)]
pub enum Truncation {
    Auto,
    Disabled,
}

impl Literal for Truncation {
    open spec fn literal(&self) -> Seq<char> {
        match self {
            Truncation::Auto => "auto"@,
            Truncation::Disabled => "disabled"@,
        }
    }

    fn to_text(&self) -> (r: String) {
        self.as_str().to_string()
    }
}

impl Truncation {
    /// The text the API uses for this value.
    pub fn as_str(&self) -> (r: &'static str)
        ensures
            r@ == self.literal(),
    {
        match self {
            Truncation::Auto => "auto",
            Truncation::Disabled => "disabled",
        }
    }
}

/// Text verbosity literal.
#[derive(Clone, Copy, Debug, PartialEq, Eq)]
pub enum Verbosity {
    Low,
    Medium,
    High,
}

impl Literal for Verbosity {
    open spec fn literal(&self) -> Seq<char> {
        match self {
            Verbosity::Low => "low"@,
            Verbosity::Medium => "medium"@,
            Verbosity::High => "high"@,
        }
    }

    fn to_text(&self) -> (r: String) {
        self.as_str().to_string()
    }
}

impl Verbosity {
    /// The text the API uses for this value.
    pub fn as_str(&self) -> (r: &'static str)
        ensures
            r@ == self.literal(),
    {
        match self {
            Verbosity::Low => "low",
            Verbosity::Medium => "medium",
            Verbosity::High => "high",
        }
    }
}

/// Reasoning-summary style literal.
#[derive(Clone, Copy, Debug, PartialEq, Eq)]
pub enum ReasoningSummary {
    Auto,
    Concise,
    Detailed,
}

impl Literal for ReasoningSummary {
    open spec fn literal(&self) -> Seq<char> {
        match self {
            ReasoningSummary::Auto => "auto"@,
            ReasoningSummary::Concise => "concise"@,
            ReasoningSummary::Detailed => "detailed"@,
        }
    }

    fn to_text(&self) -> (r: String) {
        self.as_str().to_string()
    }
}

impl ReasoningSummary {
    /// The text the API uses for this value.
    pub fn as_str(&self) -> (r: &'static str)
        ensures
            r@ == self.literal(),
    {
        match self {
            ReasoningSummary::Auto => "auto",
            ReasoningSummary::Concise => "concise",
            ReasoningSummary::Detailed => "detailed",
        }
    }
}

/// Web-search context-size literal.
#[derive(Clone, Copy, Debug, PartialEq, Eq)]
pub enum SearchContextSize {
    Low,
    Medium,
    High,
}

impl Literal for SearchContextSize {
    open spec fn literal(&self) -> Seq<char> {
        match self {
            SearchContextSize::Low => "low"@,
            SearchContextSize::Medium => "medium"@,
            SearchContextSize::High => "high"@,
        }
    }

    fn to_text(&self) -> (r: String) {
        self.as_str().to_string()
    }
}

impl SearchContextSize {
    /// The text the API uses for this value.
    pub fn as_str(&self) -> (r: &'static str)
        ensures
            r@ == self.literal(),
    {
        match self {
            SearchContextSize::Low => "low",
            SearchContextSize::Medium => "medium",
            SearchContextSize::High => "high",
        }
    }
}

/// Sort order of cursor-paginated list endpoints.
#[derive(Clone, Copy, Debug, PartialEq, Eq)]
pub enum ListOrder {
    Asc,
    Desc,
}

impl Literal for ListOrder {
    open spec fn literal(&self) -> Seq<char> {
        match self {
            ListOrder::Asc => "asc"@,
            ListOrder::Desc => "desc"@,
        }
    }

    fn to_text(&self) -> (r: String) {
        self.as_str().to_string()
    }
}

impl ListOrder {
    /// The text the API uses for this value.
    pub fn as_str(&self) -> (r: &'static str)
        ensures
            r@ == self.literal(),
    {
        match self {
            ListOrder::Asc => "asc",
            ListOrder::Desc => "desc",
        }
    }
}
} // verus!
