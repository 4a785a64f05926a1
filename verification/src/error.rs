//! Errors raised by the library's own checks.
use vstd::prelude::*;
use crate::text::push_str;

verus! {

/// The family an error belongs to.
#[derive(Clone, Copy, Debug, PartialEq, Eq)]
pub enum ErrorKind {
    /// A caller-supplied value was rejected before any request was made.
    Validation,
    /// A response or stream payload could not be understood.
    Parse,
    /// A wait or poll went past its deadline.
    Timeout,
    /// The connection or the stream broke off.
    Transport,
}

/// An error with its kind and a human-readable message.
#[derive(Clone, Debug)]
pub struct OpenAIError {
    pub kind: ErrorKind,
    pub message: String,
}

/// The message given when a path identifier is blank.
pub open spec fn blank_message(label: Seq<char>) -> Seq<char> {
    label + " cannot be blank"@
}

impl OpenAIError {
    pub fn new(kind: ErrorKind, message: String) -> (e: OpenAIError)
        ensures
            e.kind == kind,
            e.message@ == message@,
    {
        OpenAIError { kind, message }
    }

    /// A message made of a fixed prefix followed by a detail.
    pub fn with_detail(kind: ErrorKind, prefix: &str, detail: &str) -> (e: OpenAIError)
        ensures
            e.kind == kind,
            e.message@ == prefix@ + detail@,
    {
        let mut message = prefix.to_string();
        push_str(&mut message, detail);
        OpenAIError { kind, message }
    }

    /// The validation error for a blank path identifier.
    pub fn blank(label: &str) -> (e: OpenAIError)
        ensures
            e.kind == ErrorKind::Validation,
            e.message@ == blank_message(label@),
    {
        let mut message = label.to_string();
        push_str(&mut message, " cannot be blank");
        OpenAIError { kind: ErrorKind::Validation, message }
    }
}

} // verus!
