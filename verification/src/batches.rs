//! Batches: creating, retrieving, listing and cancelling batch jobs.
use vstd::prelude::*;
use serde_json::Value;
use std::collections::BTreeMap;
use crate::error::{blank_message, ErrorKind, OpenAIError};
use crate::ids::{encode_path_id, encoded_id, validate_path_id};
use crate::literal::Literal;
use crate::query::{form_query, opt_pair, opt_u32_decimal, opt_view, path_with_query, QueryPairs, with_query};
use crate::request::{plain, ApiRequest, BodyView, HttpMethod, RequestBody};
use crate::text::{is_blank_spec, push_str};

verus! {

/// Supported batch completion windows.
#[derive(Clone, Copy, Debug, PartialEq, Eq)]
pub enum BatchCompletionWindow {
    Hours24,
}

impl Literal for BatchCompletionWindow {
    open spec fn literal(&self) -> Seq<char> {
        match self {
            BatchCompletionWindow::Hours24 => "24h"@,
        }
    }

    fn to_text(&self) -> (r: String) {
        self.as_str().to_string()
    }
}

impl BatchCompletionWindow {
    /// The text the API uses for this value.
    pub fn as_str(&self) -> (r: &'static str)
        ensures
            r@ == self.literal(),
    {
        match self {
            BatchCompletionWindow::Hours24 => "24h",
        }
    }
}

/// Supported batch endpoints.
#[derive(Clone, Copy, Debug, PartialEq, Eq)]
pub enum BatchEndpoint {
    Responses,
    ChatCompletions,
    Embeddings,
    Completions,
    Moderations,
    ImagesGenerations,
    ImagesEdits,
    Videos,
}

impl Literal for BatchEndpoint {
    open spec fn literal(&self) -> Seq<char> {
        match self {
            BatchEndpoint::Responses => "/v1/responses"@,
            BatchEndpoint::ChatCompletions => "/v1/chat/completions"@,
            BatchEndpoint::Embeddings => "/v1/embeddings"@,
            BatchEndpoint::Completions => "/v1/completions"@,
            BatchEndpoint::Moderations => "/v1/moderations"@,
            BatchEndpoint::ImagesGenerations => "/v1/images/generations"@,
            BatchEndpoint::ImagesEdits => "/v1/images/edits"@,
            BatchEndpoint::Videos => "/v1/videos"@,
        }
    }

    fn to_text(&self) -> (r: String) {
        self.as_str().to_string()
    }
}

impl BatchEndpoint {
    /// The text the API uses for this value.
    pub fn as_str(&self) -> (r: &'static str)
        ensures
            r@ == self.literal(),
    {
        match self {
            BatchEndpoint::Responses => "/v1/responses",
            BatchEndpoint::ChatCompletions => "/v1/chat/completions",
            BatchEndpoint::Embeddings => "/v1/embeddings",
            BatchEndpoint::Completions => "/v1/completions",
            BatchEndpoint::Moderations => "/v1/moderations",
            BatchEndpoint::ImagesGenerations => "/v1/images/generations",
            BatchEndpoint::ImagesEdits => "/v1/images/edits",
            BatchEndpoint::Videos => "/v1/videos",
        }
    }
}

/// Create-batch request body.
#[derive(Clone, Debug, PartialEq)]
pub struct BatchCreateParams {
    pub completion_window: BatchCompletionWindow,
    pub endpoint: BatchEndpoint,
    pub input_file_id: String,
    pub metadata: Option<Value>,
    pub output_expires_after: Option<BatchOutputExpiresAfter>,
}

/// Output/error file expiration policy for a batch.
#[derive(Clone, Debug, Eq, PartialEq)]
pub struct BatchOutputExpiresAfter {
    pub anchor: String,
    pub seconds: u64,
}

/// Typed batch resource.
#[derive(Clone, Debug, Default, PartialEq)]
pub struct Batch {
    pub id: String,
    pub object: String,
    pub completion_window: Option<String>,
    pub created_at: u64,
    pub endpoint: String,
    pub input_file_id: String,
    pub status: BatchStatus,
    pub cancelled_at: Option<u64>,
    pub cancelling_at: Option<u64>,
    pub completed_at: Option<u64>,
    pub error_file_id: Option<String>,
    pub errors: Option<BatchErrors>,
    pub expired_at: Option<u64>,
    pub expires_at: Option<u64>,
    pub failed_at: Option<u64>,
    pub finalizing_at: Option<u64>,
    pub in_progress_at: Option<u64>,
    pub metadata: Option<Value>,
    pub model: Option<String>,
    pub output_file_id: Option<String>,
    pub request_counts: Option<BatchRequestCounts>,
    pub usage: Option<BatchUsage>,
    pub extra: BTreeMap<String, Value>,
}

/// Batch lifecycle status.
#[derive(Clone, Debug, Default, Eq, PartialEq)]
pub enum BatchStatus {
    Validating,
    Failed,
    InProgress,
    Finalizing,
    Completed,
    Expired,
    Cancelling,
    Cancelled,
    #[default]
    Unknown,
}

/// Error list returned on some batch failures.
#[derive(Clone, Debug, Default, PartialEq)]
pub struct BatchErrors {
    pub data: Vec<BatchError>,
    pub object: Option<String>,
    pub extra: BTreeMap<String, Value>,
}

/// One batch error entry.
#[derive(Clone, Debug, Default, PartialEq)]
pub struct BatchError {
    pub code: Option<String>,
    pub line: Option<u64>,
    pub message: Option<String>,
    pub param: Option<String>,
    pub extra: BTreeMap<String, Value>,
}

/// Request-count summary for a batch.
#[derive(Clone, Debug, Default, PartialEq)]
pub struct BatchRequestCounts {
    pub completed: u64,
    pub failed: u64,
    pub total: u64,
    pub extra: BTreeMap<String, Value>,
}

/// Optional usage details attached to newer batches.
#[derive(Clone, Debug, Default, PartialEq)]
pub struct BatchUsage {
    pub input_tokens: u64,
    pub input_tokens_details: Option<BatchInputTokensDetails>,
    pub output_tokens: u64,
    pub output_tokens_details: Option<BatchOutputTokensDetails>,
    pub total_tokens: u64,
    pub extra: BTreeMap<String, Value>,
}

/// Input-token usage breakdown.
#[derive(Clone, Debug, Default, PartialEq)]
pub struct BatchInputTokensDetails {
    pub cached_tokens: u64,
    pub extra: BTreeMap<String, Value>,
}

/// Output-token usage breakdown.
#[derive(Clone, Debug, Default, PartialEq)]
pub struct BatchOutputTokensDetails {
    pub reasoning_tokens: u64,
    pub extra: BTreeMap<String, Value>,
}

/// List-batches query parameters.
#[derive(Clone, Debug, Default, PartialEq, Eq)]
pub struct BatchListParams {
    pub after: Option<String>,
    pub limit: Option<u32>,
}

/// The query of a batch listing: `after`, then `limit`.
pub open spec fn batch_list_pairs(p: BatchListParams) -> Seq<(Seq<char>, Seq<char>)> {
    opt_pair("after"@, opt_view(p.after)) + opt_pair("limit"@, opt_u32_decimal(p.limit))
}

/// Cursor page of batches.
#[derive(Clone, Debug, Default)]
pub struct BatchPage {
    pub object: String,
    pub data: Vec<Batch>,
    pub has_more: bool,
    pub extra: BTreeMap<String, Value>,
}

impl BatchPage {
    pub fn has_next_page(&self) -> (b: bool)
        ensures
            b == self.has_more,
    {
        self.has_more
    }

    /// The id of the last batch, when more pages follow.
    pub fn next_after(&self) -> (r: Option<&str>)
        ensures
            r is Some <==> (self.has_more && self.data@.len() > 0),
            r matches Some(id) ==> id@ == self.data@.last().id@,
    {
        if self.has_more && self.data.len() > 0 {
            Some(self.data[self.data.len() - 1].id.as_str())
        } else {
            None
        }
    }
}

/// Batches API family.
#[derive(Clone, Copy, Debug)]
pub struct Batches {}

impl Batches {
    pub fn new() -> Batches {
        Batches {}
    }

    /// Creates a batch; `body` is the serialized [`BatchCreateParams`].
    pub fn create(&self, body: String) -> (r: ApiRequest)
        ensures
            r@ == plain(HttpMethod::Post, "/batches"@, BodyView::Json(body@)),
    {
        ApiRequest::new(HttpMethod::Post, "/batches".to_string(), RequestBody::Json(body))
    }

    /// Retrieves one batch.
    pub fn retrieve(&self, batch_id: &str) -> (r: Result<ApiRequest, OpenAIError>)
        ensures
            r is Ok <==> !is_blank_spec(batch_id@),
            r matches Ok(req) ==> req@ == plain(HttpMethod::Get, "/batches/"@ + encoded_id(batch_id@), BodyView::Empty),
            r matches Err(e) ==> e.kind == ErrorKind::Validation && e.message@ == blank_message("batch_id"@),
    {
        let id = encode_path_id(validate_path_id("batch_id", batch_id)?);
        let mut path = "/batches/".to_string();
        push_str(&mut path, id.as_str());
        Ok(ApiRequest::new(HttpMethod::Get, path, RequestBody::Empty))
    }

    /// Lists batches.
    pub fn list(&self, params: BatchListParams) -> (r: ApiRequest)
        ensures
            r@ == plain(
                HttpMethod::Get,
                with_query("/batches"@, form_query(batch_list_pairs(params)), batch_list_pairs(params).len() > 0),
                BodyView::Empty,
            ),
    {
        let mut q = QueryPairs::new();
        q.push_opt("after", params.after);
        q.push_opt_u32("limit", params.limit);
        let path = path_with_query("/batches".to_string(), q.pairs());
        ApiRequest::new(HttpMethod::Get, path, RequestBody::Empty)
    }

    /// Cancels an in-progress batch.
    pub fn cancel(&self, batch_id: &str) -> (r: Result<ApiRequest, OpenAIError>)
        ensures
            r is Ok <==> !is_blank_spec(batch_id@),
            r matches Ok(req) ==> req@ == plain(
                HttpMethod::Post,
                "/batches/"@ + encoded_id(batch_id@) + "/cancel"@,
                BodyView::Empty,
            ),
            r matches Err(e) ==> e.kind == ErrorKind::Validation && e.message@ == blank_message("batch_id"@),
    {
        let id = encode_path_id(validate_path_id("batch_id", batch_id)?);
        let mut path = "/batches/".to_string();
        push_str(&mut path, id.as_str());
        push_str(&mut path, "/cancel");
        Ok(ApiRequest::new(HttpMethod::Post, path, RequestBody::Empty))
    }
}

} // verus!
