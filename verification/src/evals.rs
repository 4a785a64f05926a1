//! Evals: evaluations, their runs, and run output items.
use vstd::prelude::*;
use serde_json::Value;
use std::collections::BTreeMap;
use crate::error::{blank_message, ErrorKind, OpenAIError};
use crate::ids::{encoded_id, path_id};
use crate::literal::{opt_literal, Literal, OpenLiteral};
use crate::query::{form_query, opt_pair, opt_u32_decimal, opt_view, path_with_query, QueryPairs, with_query};
use crate::request::{plain, ApiRequest, BodyView, HttpMethod, RequestBody};
use crate::text::{is_blank_spec, push_str, str_eq};

verus! {

/// Shared order direction.
#[derive(Clone, Copy, Debug, PartialEq, Eq)]
pub enum EvalOrderDirection {
    Asc,
    Desc,
}

impl Literal for EvalOrderDirection {
    open spec fn literal(&self) -> Seq<char> {
        match self {
            EvalOrderDirection::Asc => "asc"@,
            EvalOrderDirection::Desc => "desc"@,
        }
    }

    fn to_text(&self) -> (r: String) {
        self.as_str().to_string()
    }
}

impl EvalOrderDirection {
    /// The text the API uses for this value.
    pub fn as_str(&self) -> (r: &'static str)
        ensures
            r@ == self.literal(),
    {
        match self {
            EvalOrderDirection::Asc => "asc",
            EvalOrderDirection::Desc => "desc",
        }
    }
}

/// Eval list ordering field.
#[derive(Clone, Copy, Debug, PartialEq, Eq)]
pub enum EvalOrderBy {
    CreatedAt,
    UpdatedAt,
}

impl Literal for EvalOrderBy {
    open spec fn literal(&self) -> Seq<char> {
        match self {
            EvalOrderBy::CreatedAt => "created_at"@,
            EvalOrderBy::UpdatedAt => "updated_at"@,
        }
    }

    fn to_text(&self) -> (r: String) {
        self.as_str().to_string()
    }
}

impl EvalOrderBy {
    /// The text the API uses for this value.
    pub fn as_str(&self) -> (r: &'static str)
        ensures
            r@ == self.literal(),
    {
        match self {
            EvalOrderBy::CreatedAt => "created_at",
            EvalOrderBy::UpdatedAt => "updated_at",
        }
    }
}

/// Eval run status.
#[derive(Clone, Debug, PartialEq, Eq)]
pub enum EvalRunStatus {
    Queued,
    InProgress,
    Completed,
    Failed,
    Canceled,
    /// A value this library does not know, kept as received.
    Unknown(String),
}

impl Literal for EvalRunStatus {
    open spec fn literal(&self) -> Seq<char> {
        match self {
            EvalRunStatus::Queued => "queued"@,
            EvalRunStatus::InProgress => "in_progress"@,
            EvalRunStatus::Completed => "completed"@,
            EvalRunStatus::Failed => "failed"@,
            EvalRunStatus::Canceled => "canceled"@,
            EvalRunStatus::Unknown(text) => text@,
        }
    }

    fn to_text(&self) -> (r: String) {
        self.as_str().to_string()
    }
}

impl OpenLiteral for EvalRunStatus {
    open spec fn known(text: Seq<char>) -> Option<EvalRunStatus> {
        if text == "queued"@ {
            Some(EvalRunStatus::Queued)
        } else if text == "in_progress"@ {
            Some(EvalRunStatus::InProgress)
        } else if text == "completed"@ {
            Some(EvalRunStatus::Completed)
        } else if text == "failed"@ {
            Some(EvalRunStatus::Failed)
        } else if text == "canceled"@ {
            Some(EvalRunStatus::Canceled)
        } else {
            None
        }
    }

    open spec fn is_unknown(&self) -> bool {
        self is Unknown
    }

    proof fn lemma_known_literal(value: Self) {
        reveal_strlit("queued");
        reveal_strlit("in_progress");
        reveal_strlit("completed");
        reveal_strlit("failed");
        reveal_strlit("canceled");
        assert("queued"@.len() == 6);
        assert("in_progress"@.len() == 11);
        assert("completed"@.len() == 9);
        assert("failed"@.len() == 6);
        assert("canceled"@.len() == 8);
        assert("queued"@[0] == 'q');
        assert("failed"@[0] == 'f');
    }

    proof fn lemma_known_text(text: Seq<char>) {
    }
}

impl EvalRunStatus {
    /// The text the API uses for this value.
    pub fn as_str(&self) -> (r: &str)
        ensures
            r@ == self.literal(),
    {
        match self {
            EvalRunStatus::Queued => "queued",
            EvalRunStatus::InProgress => "in_progress",
            EvalRunStatus::Completed => "completed",
            EvalRunStatus::Failed => "failed",
            EvalRunStatus::Canceled => "canceled",
            EvalRunStatus::Unknown(text) => text.as_str(),
        }
    }

    /// The value a text names; a text no variant uses is kept as `Unknown`.
    pub fn from_text(value: &str) -> (r: EvalRunStatus)
        ensures
            r.literal() == value@,
            r.is_unknown() == (EvalRunStatus::known(value@) is None),
            EvalRunStatus::known(value@) matches Some(k) ==> r == k,
    {
        if str_eq(value, "queued") {
            EvalRunStatus::Queued
        } else if str_eq(value, "in_progress") {
            EvalRunStatus::InProgress
        } else if str_eq(value, "completed") {
            EvalRunStatus::Completed
        } else if str_eq(value, "failed") {
            EvalRunStatus::Failed
        } else if str_eq(value, "canceled") {
            EvalRunStatus::Canceled
        } else {
            EvalRunStatus::Unknown(value.to_string())
        }
    }
}


/// Output item status.
#[derive(Clone, Debug, PartialEq, Eq)]
pub enum EvalOutputItemStatus {
    Pass,
    Fail,
    /// A value this library does not know, kept as received.
    Unknown(String),
}

impl Literal for EvalOutputItemStatus {
    open spec fn literal(&self) -> Seq<char> {
        match self {
            EvalOutputItemStatus::Pass => "pass"@,
            EvalOutputItemStatus::Fail => "fail"@,
            EvalOutputItemStatus::Unknown(text) => text@,
        }
    }

    fn to_text(&self) -> (r: String) {
        self.as_str().to_string()
    }
}

impl OpenLiteral for EvalOutputItemStatus {
    open spec fn known(text: Seq<char>) -> Option<EvalOutputItemStatus> {
        if text == "pass"@ {
            Some(EvalOutputItemStatus::Pass)
        } else if text == "fail"@ {
            Some(EvalOutputItemStatus::Fail)
        } else {
            None
        }
    }

    open spec fn is_unknown(&self) -> bool {
        self is Unknown
    }

    proof fn lemma_known_literal(value: Self) {
        reveal_strlit("pass");
        reveal_strlit("fail");
        assert("pass"@.len() == 4);
        assert("fail"@.len() == 4);
        assert("pass"@[0] == 'p');
        assert("fail"@[0] == 'f');
    }

    proof fn lemma_known_text(text: Seq<char>) {
    }
}

impl EvalOutputItemStatus {
    /// The text the API uses for this value.
    pub fn as_str(&self) -> (r: &str)
        ensures
            r@ == self.literal(),
    {
        match self {
            EvalOutputItemStatus::Pass => "pass",
            EvalOutputItemStatus::Fail => "fail",
            EvalOutputItemStatus::Unknown(text) => text.as_str(),
        }
    }

    /// The value a text names; a text no variant uses is kept as `Unknown`.
    pub fn from_text(value: &str) -> (r: EvalOutputItemStatus)
        ensures
            r.literal() == value@,
            r.is_unknown() == (EvalOutputItemStatus::known(value@) is None),
            EvalOutputItemStatus::known(value@) matches Some(k) ==> r == k,
    {
        if str_eq(value, "pass") {
            EvalOutputItemStatus::Pass
        } else if str_eq(value, "fail") {
            EvalOutputItemStatus::Fail
        } else {
            EvalOutputItemStatus::Unknown(value.to_string())
        }
    }
}


/// Datasource configuration accepted when creating an eval.
#[derive(Clone, Debug, PartialEq)]
pub enum EvalCreateDataSourceConfig {
    Custom {
        item_schema: Value,
        include_sample_schema: Option<bool>,
    },
    Logs {
        metadata: Option<Value>,
    },
    StoredCompletions {
        metadata: Option<Value>,
    },
}

/// Datasource configuration returned by eval CRUD endpoints.
#[derive(Clone, Debug, PartialEq)]
pub enum EvalDataSourceConfig {
    Custom {
        schema: Value,
        extra: BTreeMap<String, Value>,
    },
    Logs {
        schema: Value,
        metadata: Option<Value>,
        extra: BTreeMap<String, Value>,
    },
    StoredCompletions {
        schema: Value,
        metadata: Option<Value>,
        extra: BTreeMap<String, Value>,
    },
}

/// A message/template item reused by eval graders and runs.
#[derive(Clone, Debug, PartialEq)]
pub struct EvalMessageTemplate {
    pub role: String,
    pub content: Value,
    pub message_type: Option<String>,
}

/// Update-eval body.
#[derive(Clone, Debug, Default, PartialEq)]
pub struct EvalUpdateParams {
    pub metadata: Option<Value>,
    pub name: Option<String>,
}

/// Eval deletion response.
#[derive(Clone, Debug, Default, PartialEq)]
pub struct EvalDeleteResponse {
    pub object: String,
    pub deleted: bool,
    pub eval_id: String,
    pub extra: BTreeMap<String, Value>,
}

/// Row item for inline datasource content.
#[derive(Clone, Debug, PartialEq)]
pub struct EvalRunSourceRow {
    pub item: Value,
    pub sample: Option<Value>,
}

/// Input message shaping for model-sampled eval runs.
#[derive(Clone, Debug, PartialEq)]
pub enum EvalRunInputMessages {
    Template { template: Vec<EvalMessageTemplate> },
    ItemReference { item_reference: String },
}

/// Text output sampling configuration.
#[derive(Clone, Debug, Default, PartialEq)]
pub struct EvalRunTextConfig {
    pub format: Option<EvalRunOutputTextFormat>,
}

/// Output text formatting modes for run sampling.
#[derive(Clone, Debug, PartialEq)]
pub enum EvalRunOutputTextFormat {
    Text,
    JsonObject,
    JsonSchema(Value),
    Unknown(Value),
}

/// Eval API error payload surfaced by runs and output items.
#[derive(Clone, Debug, Default, PartialEq)]
pub struct EvalApiError {
    pub code: Option<String>,
    pub message: Option<String>,
    pub extra: BTreeMap<String, Value>,
}

/// Per-model usage stats for an eval run.
#[derive(Clone, Debug, Default, PartialEq)]
pub struct EvalRunPerModelUsage {
    pub cached_tokens: u64,
    pub completion_tokens: u64,
    pub invocation_count: u64,
    pub model_name: String,
    pub prompt_tokens: u64,
    pub total_tokens: u64,
    pub extra: BTreeMap<String, Value>,
}

/// Per-testing-criteria result summary for an eval run.
#[derive(Clone, Debug, Default, PartialEq)]
pub struct EvalRunTestingCriteriaResult {
    pub failed: u64,
    pub passed: u64,
    pub testing_criteria: String,
    pub extra: BTreeMap<String, Value>,
}

/// Aggregate counts for an eval run.
#[derive(Clone, Debug, Default, PartialEq)]
pub struct EvalRunResultCounts {
    pub errored: u64,
    pub failed: u64,
    pub passed: u64,
    pub total: u64,
    pub extra: BTreeMap<String, Value>,
}

/// Eval-run delete response.
#[derive(Clone, Debug, Default, PartialEq)]
pub struct EvalRunDeleteResponse {
    pub object: Option<String>,
    pub deleted: Option<bool>,
    pub run_id: Option<String>,
    pub extra: BTreeMap<String, Value>,
}

/// Input/output message stored on an output-item sample.
#[derive(Clone, Debug, Default, PartialEq)]
pub struct EvalOutputItemMessage {
    pub role: Option<String>,
    pub content: Option<Value>,
    pub extra: BTreeMap<String, Value>,
}

/// Usage details attached to an output-item sample.
#[derive(Clone, Debug, Default, PartialEq)]
pub struct EvalOutputItemUsage {
    pub cached_tokens: u64,
    pub completion_tokens: u64,
    pub prompt_tokens: u64,
    pub total_tokens: u64,
    pub extra: BTreeMap<String, Value>,
}

/// Eval list parameters.
#[derive(Clone, Debug, Default, PartialEq, Eq)]
pub struct EvalListParams {
    pub after: Option<String>,
    pub limit: Option<u32>,
    pub order: Option<EvalOrderDirection>,
    pub order_by: Option<EvalOrderBy>,
}

/// The query of these parameters, in field order.
pub open spec fn eval_list_pairs(p: EvalListParams) -> Seq<(Seq<char>, Seq<char>)> {
    opt_pair("after"@, opt_view(p.after)) + opt_pair("limit"@, opt_u32_decimal(p.limit)) + opt_pair("order"@, opt_literal(p.order)) + opt_pair("order_by"@, opt_literal(p.order_by))
}

impl EvalListParams {
    pub fn to_query(&self) -> (r: QueryPairs)
        ensures
            r@ == eval_list_pairs(*self),
    {
        let mut q = QueryPairs::new();
        q.push_opt("after", self.after.clone());
        q.push_opt_u32("limit", self.limit);
        q.push_opt_literal("order", &self.order);
        q.push_opt_literal("order_by", &self.order_by);
        q
    }
}

/// Eval-run list parameters.
#[derive(Clone, Debug, Default, PartialEq, Eq)]
pub struct EvalRunListParams {
    pub after: Option<String>,
    pub limit: Option<u32>,
    pub order: Option<EvalOrderDirection>,
}

/// The query of these parameters, in field order.
pub open spec fn eval_run_list_pairs(p: EvalRunListParams) -> Seq<(Seq<char>, Seq<char>)> {
    opt_pair("after"@, opt_view(p.after)) + opt_pair("limit"@, opt_u32_decimal(p.limit)) + opt_pair("order"@, opt_literal(p.order))
}

impl EvalRunListParams {
    pub fn to_query(&self) -> (r: QueryPairs)
        ensures
            r@ == eval_run_list_pairs(*self),
    {
        let mut q = QueryPairs::new();
        q.push_opt("after", self.after.clone());
        q.push_opt_u32("limit", self.limit);
        q.push_opt_literal("order", &self.order);
        q
    }
}

/// Output-item list parameters.
#[derive(Clone, Debug, Default, PartialEq, Eq)]
pub struct EvalOutputItemListParams {
    pub after: Option<String>,
    pub limit: Option<u32>,
    pub order: Option<EvalOrderDirection>,
    pub status: Option<EvalOutputItemStatus>,
}

/// The query of these parameters, in field order.
pub open spec fn eval_output_item_list_pairs(p: EvalOutputItemListParams) -> Seq<(Seq<char>, Seq<char>)> {
    opt_pair("after"@, opt_view(p.after)) + opt_pair("limit"@, opt_u32_decimal(p.limit)) + opt_pair("order"@, opt_literal(p.order)) + opt_pair("status"@, opt_literal(p.status))
}

impl EvalOutputItemListParams {
    pub fn to_query(&self) -> (r: QueryPairs)
        ensures
            r@ == eval_output_item_list_pairs(*self),
    {
        let mut q = QueryPairs::new();
        q.push_opt("after", self.after.clone());
        q.push_opt_u32("limit", self.limit);
        q.push_opt_literal("order", &self.order);
        q.push_opt_literal("status", &self.status);
        q
    }
}

impl Default for EvalRunStatus {
    fn default() -> (r: EvalRunStatus)
        ensures
            r matches EvalRunStatus::Unknown(s) && s@ == "unknown"@,
    {
        EvalRunStatus::Unknown("unknown".to_string())
    }
}

impl Default for EvalOutputItemStatus {
    fn default() -> (r: EvalOutputItemStatus)
        ensures
            r matches EvalOutputItemStatus::Unknown(s) && s@ == "unknown"@,
    {
        EvalOutputItemStatus::Unknown("unknown".to_string())
    }
}

impl EvalRunStatus {
    /// The status a wire value names; `running`, `succeeded` and `cancelled`
    /// are read as in progress, completed and canceled.
    pub fn from_wire(value: &str) -> (r: EvalRunStatus)
        ensures
            value@ == "running"@ ==> r == EvalRunStatus::InProgress,
            value@ == "succeeded"@ ==> r == EvalRunStatus::Completed,
            value@ == "cancelled"@ ==> r == EvalRunStatus::Canceled,
            value@ != "running"@ && value@ != "succeeded"@ && value@ != "cancelled"@ ==> r.literal()
                == value@ && r.is_unknown() == (EvalRunStatus::known(value@) is None),
    {
        proof {
            reveal_strlit("running");
            reveal_strlit("succeeded");
            reveal_strlit("cancelled");
            assert("running"@.len() == 7);
            assert("succeeded"@[0] == 's');
            assert("cancelled"@[0] == 'c');
        }
        if str_eq(value, "running") {
            EvalRunStatus::InProgress
        } else if str_eq(value, "succeeded") {
            EvalRunStatus::Completed
        } else if str_eq(value, "cancelled") {
            EvalRunStatus::Canceled
        } else {
            EvalRunStatus::from_text(value)
        }
    }
}

impl EvalOutputItemStatus {
    /// The status a wire value names; `passed` and `failed` are read as pass and fail.
    pub fn from_wire(value: &str) -> (r: EvalOutputItemStatus)
        ensures
            value@ == "passed"@ ==> r == EvalOutputItemStatus::Pass,
            value@ == "failed"@ ==> r == EvalOutputItemStatus::Fail,
            value@ != "passed"@ && value@ != "failed"@ ==> r.literal() == value@ && r.is_unknown() == (
            EvalOutputItemStatus::known(value@) is None),
    {
        proof {
            reveal_strlit("passed");
            reveal_strlit("failed");
            assert("passed"@[0] == 'p');
            assert("failed"@[0] == 'f');
        }
        if str_eq(value, "passed") {
            EvalOutputItemStatus::Pass
        } else if str_eq(value, "failed") {
            EvalOutputItemStatus::Fail
        } else {
            EvalOutputItemStatus::from_text(value)
        }
    }
}

/// Evals API family.
#[derive(Clone, Copy, Debug)]
pub struct Evals {}

impl Evals {
    pub fn new() -> Evals {
        Evals {}
    }

    /// Run operations under evals.
    pub fn runs(&self) -> EvalRuns {
        EvalRuns::new()
    }

    /// Creates an evaluation; `body` is the serialized [`EvalCreateParams`].
    pub fn create(&self, body: String) -> (r: Result<ApiRequest, OpenAIError>)
        ensures
            r matches Ok(req) && req@ == plain(HttpMethod::Post, "/evals"@, BodyView::Json(body@)),
    {
        let path = "/evals".to_string();
        Ok(ApiRequest::new(HttpMethod::Post, path, RequestBody::Json(body)))
    }

    /// Retrieves an evaluation.
    pub fn retrieve(&self, eval_id: &str) -> (r: Result<ApiRequest, OpenAIError>)
        ensures
            r is Ok <==> (!is_blank_spec(eval_id@)),
            r matches Ok(req) ==> req@ == plain(HttpMethod::Get, "/evals/"@ + encoded_id(eval_id@), BodyView::Empty),
            r matches Err(e) ==> e.kind == ErrorKind::Validation && e.message@ == blank_message("eval_id"@),
    {
        let eval_id = path_id("eval_id", eval_id)?;
        let mut path = "/evals/".to_string();
        push_str(&mut path, eval_id.as_str());
        Ok(ApiRequest::new(HttpMethod::Get, path, RequestBody::Empty))
    }

    /// Updates an evaluation's mutable fields; `body` is the serialized [`EvalUpdateParams`].
    pub fn update(&self, eval_id: &str, body: String) -> (r: Result<ApiRequest, OpenAIError>)
        ensures
            r is Ok <==> (!is_blank_spec(eval_id@)),
            r matches Ok(req) ==> req@ == plain(HttpMethod::Post, "/evals/"@ + encoded_id(eval_id@), BodyView::Json(body@)),
            r matches Err(e) ==> e.kind == ErrorKind::Validation && e.message@ == blank_message("eval_id"@),
    {
        let eval_id = path_id("eval_id", eval_id)?;
        let mut path = "/evals/".to_string();
        push_str(&mut path, eval_id.as_str());
        Ok(ApiRequest::new(HttpMethod::Post, path, RequestBody::Json(body)))
    }

    /// Lists evaluations.
    pub fn list(&self, params: EvalListParams) -> (r: Result<ApiRequest, OpenAIError>)
        ensures
            r matches Ok(req) && req@ == plain(HttpMethod::Get, with_query("/evals"@, form_query(eval_list_pairs(params)), eval_list_pairs(params).len() > 0), BodyView::Empty),
    {
        let mut path = "/evals".to_string();
        let path = path_with_query(path, params.to_query().pairs());
        Ok(ApiRequest::new(HttpMethod::Get, path, RequestBody::Empty))
    }

    /// Deletes an evaluation.
    pub fn delete(&self, eval_id: &str) -> (r: Result<ApiRequest, OpenAIError>)
        ensures
            r is Ok <==> (!is_blank_spec(eval_id@)),
            r matches Ok(req) ==> req@ == plain(HttpMethod::Delete, "/evals/"@ + encoded_id(eval_id@), BodyView::Empty),
            r matches Err(e) ==> e.kind == ErrorKind::Validation && e.message@ == blank_message("eval_id"@),
    {
        let eval_id = path_id("eval_id", eval_id)?;
        let mut path = "/evals/".to_string();
        push_str(&mut path, eval_id.as_str());
        Ok(ApiRequest::new(HttpMethod::Delete, path, RequestBody::Empty))
    }

}

/// Eval runs.
#[derive(Clone, Copy, Debug)]
pub struct EvalRuns {}

impl EvalRuns {
    pub fn new() -> EvalRuns {
        EvalRuns {}
    }

    /// Output-item inspection for runs.
    pub fn output_items(&self) -> EvalOutputItems {
        EvalOutputItems::new()
    }

    /// Creates a run of an evaluation; `body` is the serialized run parameters.
    pub fn create(&self, eval_id: &str, body: String) -> (r: Result<ApiRequest, OpenAIError>)
        ensures
            r is Ok <==> (!is_blank_spec(eval_id@)),
            r matches Ok(req) ==> req@ == plain(HttpMethod::Post, "/evals/"@ + encoded_id(eval_id@) + "/runs"@, BodyView::Json(body@)),
            r matches Err(e) ==> e.kind == ErrorKind::Validation && e.message@ == blank_message("eval_id"@),
    {
        let eval_id = path_id("eval_id", eval_id)?;
        let mut path = "/evals/".to_string();
        push_str(&mut path, eval_id.as_str());
        push_str(&mut path, "/runs");
        Ok(ApiRequest::new(HttpMethod::Post, path, RequestBody::Json(body)))
    }

    /// Retrieves a run.
    pub fn retrieve(&self, eval_id: &str, run_id: &str) -> (r: Result<ApiRequest, OpenAIError>)
        ensures
            r is Ok <==> (!is_blank_spec(eval_id@) && !is_blank_spec(run_id@)),
            r matches Ok(req) ==> req@ == plain(HttpMethod::Get, "/evals/"@ + encoded_id(eval_id@) + "/runs/"@ + encoded_id(run_id@), BodyView::Empty),
            r matches Err(e) ==> e.kind == ErrorKind::Validation && e.message@ == blank_message(if is_blank_spec(eval_id@) { "eval_id"@ } else { "run_id"@ }),
    {
        let eval_id = path_id("eval_id", eval_id)?;
        let run_id = path_id("run_id", run_id)?;
        let mut path = "/evals/".to_string();
        push_str(&mut path, eval_id.as_str());
        push_str(&mut path, "/runs/");
        push_str(&mut path, run_id.as_str());
        Ok(ApiRequest::new(HttpMethod::Get, path, RequestBody::Empty))
    }

    /// Lists the runs of an evaluation.
    pub fn list(&self, eval_id: &str, params: EvalRunListParams) -> (r: Result<ApiRequest, OpenAIError>)
        ensures
            r is Ok <==> (!is_blank_spec(eval_id@)),
            r matches Ok(req) ==> req@ == plain(HttpMethod::Get, with_query("/evals/"@ + encoded_id(eval_id@) + "/runs"@, form_query(eval_run_list_pairs(params)), eval_run_list_pairs(params).len() > 0), BodyView::Empty),
            r matches Err(e) ==> e.kind == ErrorKind::Validation && e.message@ == blank_message("eval_id"@),
    {
        let eval_id = path_id("eval_id", eval_id)?;
        let mut path = "/evals/".to_string();
        push_str(&mut path, eval_id.as_str());
        push_str(&mut path, "/runs");
        let path = path_with_query(path, params.to_query().pairs());
        Ok(ApiRequest::new(HttpMethod::Get, path, RequestBody::Empty))
    }

    /// Deletes a run.
    pub fn delete(&self, eval_id: &str, run_id: &str) -> (r: Result<ApiRequest, OpenAIError>)
        ensures
            r is Ok <==> (!is_blank_spec(eval_id@) && !is_blank_spec(run_id@)),
            r matches Ok(req) ==> req@ == plain(HttpMethod::Delete, "/evals/"@ + encoded_id(eval_id@) + "/runs/"@ + encoded_id(run_id@), BodyView::Empty),
            r matches Err(e) ==> e.kind == ErrorKind::Validation && e.message@ == blank_message(if is_blank_spec(eval_id@) { "eval_id"@ } else { "run_id"@ }),
    {
        let eval_id = path_id("eval_id", eval_id)?;
        let run_id = path_id("run_id", run_id)?;
        let mut path = "/evals/".to_string();
        push_str(&mut path, eval_id.as_str());
        push_str(&mut path, "/runs/");
        push_str(&mut path, run_id.as_str());
        Ok(ApiRequest::new(HttpMethod::Delete, path, RequestBody::Empty))
    }

    /// Cancels a run: a POST to the run itself.
    pub fn cancel(&self, eval_id: &str, run_id: &str) -> (r: Result<ApiRequest, OpenAIError>)
        ensures
            r is Ok <==> (!is_blank_spec(eval_id@) && !is_blank_spec(run_id@)),
            r matches Ok(req) ==> req@ == plain(HttpMethod::Post, "/evals/"@ + encoded_id(eval_id@) + "/runs/"@ + encoded_id(run_id@), BodyView::Empty),
            r matches Err(e) ==> e.kind == ErrorKind::Validation && e.message@ == blank_message(if is_blank_spec(eval_id@) { "eval_id"@ } else { "run_id"@ }),
    {
        let eval_id = path_id("eval_id", eval_id)?;
        let run_id = path_id("run_id", run_id)?;
        let mut path = "/evals/".to_string();
        push_str(&mut path, eval_id.as_str());
        push_str(&mut path, "/runs/");
        push_str(&mut path, run_id.as_str());
        Ok(ApiRequest::new(HttpMethod::Post, path, RequestBody::Empty))
    }

}

/// Output items of eval runs.
#[derive(Clone, Copy, Debug)]
pub struct EvalOutputItems {}

impl EvalOutputItems {
    pub fn new() -> EvalOutputItems {
        EvalOutputItems {}
    }

    /// Lists the output items of a run.
    pub fn list(&self, eval_id: &str, run_id: &str, params: EvalOutputItemListParams) -> (r: Result<ApiRequest, OpenAIError>)
        ensures
            r is Ok <==> (!is_blank_spec(eval_id@) && !is_blank_spec(run_id@)),
            r matches Ok(req) ==> req@ == plain(HttpMethod::Get, with_query("/evals/"@ + encoded_id(eval_id@) + "/runs/"@ + encoded_id(run_id@) + "/output_items"@, form_query(eval_output_item_list_pairs(params)), eval_output_item_list_pairs(params).len() > 0), BodyView::Empty),
            r matches Err(e) ==> e.kind == ErrorKind::Validation && e.message@ == blank_message(if is_blank_spec(eval_id@) { "eval_id"@ } else { "run_id"@ }),
    {
        let eval_id = path_id("eval_id", eval_id)?;
        let run_id = path_id("run_id", run_id)?;
        let mut path = "/evals/".to_string();
        push_str(&mut path, eval_id.as_str());
        push_str(&mut path, "/runs/");
        push_str(&mut path, run_id.as_str());
        push_str(&mut path, "/output_items");
        let path = path_with_query(path, params.to_query().pairs());
        Ok(ApiRequest::new(HttpMethod::Get, path, RequestBody::Empty))
    }

    /// Retrieves one output item.
    pub fn retrieve(&self, eval_id: &str, run_id: &str, output_item_id: &str) -> (r: Result<ApiRequest, OpenAIError>)
        ensures
            r is Ok <==> (!is_blank_spec(eval_id@) && !is_blank_spec(run_id@) && !is_blank_spec(output_item_id@)),
            r matches Ok(req) ==> req@ == plain(HttpMethod::Get, "/evals/"@ + encoded_id(eval_id@) + "/runs/"@ + encoded_id(run_id@) + "/output_items/"@ + encoded_id(output_item_id@), BodyView::Empty),
            r matches Err(e) ==> e.kind == ErrorKind::Validation && e.message@ == blank_message(if is_blank_spec(eval_id@) { "eval_id"@ } else { if is_blank_spec(run_id@) { "run_id"@ } else { "output_item_id"@ } }),
    {
        let eval_id = path_id("eval_id", eval_id)?;
        let run_id = path_id("run_id", run_id)?;
        let output_item_id = path_id("output_item_id", output_item_id)?;
        let mut path = "/evals/".to_string();
        push_str(&mut path, eval_id.as_str());
        push_str(&mut path, "/runs/");
        push_str(&mut path, run_id.as_str());
        push_str(&mut path, "/output_items/");
        push_str(&mut path, output_item_id.as_str());
        Ok(ApiRequest::new(HttpMethod::Get, path, RequestBody::Empty))
    }

}

} // verus!
