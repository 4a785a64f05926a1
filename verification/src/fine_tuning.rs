//! Fine-tuning: jobs, their events and checkpoints, checkpoint permissions,
//! and the alpha grader endpoints.
use vstd::prelude::*;
use serde_json::Value;
use std::collections::BTreeMap;
use crate::error::{blank_message, ErrorKind, OpenAIError};
use crate::ids::{encoded_id, path_id};
use crate::literal::{Literal, OpenLiteral};
use crate::query::{form_query, opt_pair, opt_u32_decimal, opt_view, pairs_view, path_with_query, QueryPairs, with_query};
use crate::request::{plain, ApiRequest, BodyView, HttpMethod, RequestBody};
use crate::text::{decimal, is_blank_spec, push_str, str_eq, u64_to_string};
use crate::json::{extra_text, extra_text_spec};

verus! {

/// Fine-tuning job status.
#[derive(Clone, Debug, PartialEq, Eq)]
pub enum FineTuningJobStatus {
    ValidatingFiles,
    Queued,
    Running,
    Paused,
    Succeeded,
    Failed,
    Cancelled,
    /// A value this library does not know, kept as received.
    Unknown(String),
}

impl Literal for FineTuningJobStatus {
    open spec fn literal(&self) -> Seq<char> {
        match self {
            FineTuningJobStatus::ValidatingFiles => "validating_files"@,
            FineTuningJobStatus::Queued => "queued"@,
            FineTuningJobStatus::Running => "running"@,
            FineTuningJobStatus::Paused => "paused"@,
            FineTuningJobStatus::Succeeded => "succeeded"@,
            FineTuningJobStatus::Failed => "failed"@,
            FineTuningJobStatus::Cancelled => "cancelled"@,
            FineTuningJobStatus::Unknown(text) => text@,
        }
    }

    fn to_text(&self) -> (r: String) {
        self.as_str().to_string()
    }
}

impl OpenLiteral for FineTuningJobStatus {
    open spec fn known(text: Seq<char>) -> Option<FineTuningJobStatus> {
        if text == "validating_files"@ {
            Some(FineTuningJobStatus::ValidatingFiles)
        } else if text == "queued"@ {
            Some(FineTuningJobStatus::Queued)
        } else if text == "running"@ {
            Some(FineTuningJobStatus::Running)
        } else if text == "paused"@ {
            Some(FineTuningJobStatus::Paused)
        } else if text == "succeeded"@ {
            Some(FineTuningJobStatus::Succeeded)
        } else if text == "failed"@ {
            Some(FineTuningJobStatus::Failed)
        } else if text == "cancelled"@ {
            Some(FineTuningJobStatus::Cancelled)
        } else {
            None
        }
    }

    open spec fn is_unknown(&self) -> bool {
        self is Unknown
    }

    proof fn lemma_known_literal(value: Self) {
        reveal_strlit("validating_files");
        reveal_strlit("queued");
        reveal_strlit("running");
        reveal_strlit("paused");
        reveal_strlit("succeeded");
        reveal_strlit("failed");
        reveal_strlit("cancelled");
        assert("validating_files"@.len() == 16);
        assert("queued"@.len() == 6);
        assert("running"@.len() == 7);
        assert("paused"@.len() == 6);
        assert("succeeded"@.len() == 9);
        assert("failed"@.len() == 6);
        assert("cancelled"@.len() == 9);
        assert("queued"@[0] == 'q');
        assert("paused"@[0] == 'p');
        assert("failed"@[0] == 'f');
        assert("succeeded"@[0] == 's');
        assert("cancelled"@[0] == 'c');
    }

    proof fn lemma_known_text(text: Seq<char>) {
    }
}

impl FineTuningJobStatus {
    /// The text the API uses for this value.
    pub fn as_str(&self) -> (r: &str)
        ensures
            r@ == self.literal(),
    {
        match self {
            FineTuningJobStatus::ValidatingFiles => "validating_files",
            FineTuningJobStatus::Queued => "queued",
            FineTuningJobStatus::Running => "running",
            FineTuningJobStatus::Paused => "paused",
            FineTuningJobStatus::Succeeded => "succeeded",
            FineTuningJobStatus::Failed => "failed",
            FineTuningJobStatus::Cancelled => "cancelled",
            FineTuningJobStatus::Unknown(text) => text.as_str(),
        }
    }

    /// The value a text names; a text no variant uses is kept as `Unknown`.
    pub fn from_text(value: &str) -> (r: FineTuningJobStatus)
        ensures
            r.literal() == value@,
            r.is_unknown() == (FineTuningJobStatus::known(value@) is None),
            FineTuningJobStatus::known(value@) matches Some(k) ==> r == k,
    {
        if str_eq(value, "validating_files") {
            FineTuningJobStatus::ValidatingFiles
        } else if str_eq(value, "queued") {
            FineTuningJobStatus::Queued
        } else if str_eq(value, "running") {
            FineTuningJobStatus::Running
        } else if str_eq(value, "paused") {
            FineTuningJobStatus::Paused
        } else if str_eq(value, "succeeded") {
            FineTuningJobStatus::Succeeded
        } else if str_eq(value, "failed") {
            FineTuningJobStatus::Failed
        } else if str_eq(value, "cancelled") {
            FineTuningJobStatus::Cancelled
        } else {
            FineTuningJobStatus::Unknown(value.to_string())
        }
    }
}


/// Fine-tuning job event level.
#[derive(Clone, Debug, PartialEq, Eq)]
pub enum FineTuningJobEventLevel {
    Info,
    Warn,
    Error,
    /// A value this library does not know, kept as received.
    Unknown(String),
}

impl Literal for FineTuningJobEventLevel {
    open spec fn literal(&self) -> Seq<char> {
        match self {
            FineTuningJobEventLevel::Info => "info"@,
            FineTuningJobEventLevel::Warn => "warn"@,
            FineTuningJobEventLevel::Error => "error"@,
            FineTuningJobEventLevel::Unknown(text) => text@,
        }
    }

    fn to_text(&self) -> (r: String) {
        self.as_str().to_string()
    }
}

impl OpenLiteral for FineTuningJobEventLevel {
    open spec fn known(text: Seq<char>) -> Option<FineTuningJobEventLevel> {
        if text == "info"@ {
            Some(FineTuningJobEventLevel::Info)
        } else if text == "warn"@ {
            Some(FineTuningJobEventLevel::Warn)
        } else if text == "error"@ {
            Some(FineTuningJobEventLevel::Error)
        } else {
            None
        }
    }

    open spec fn is_unknown(&self) -> bool {
        self is Unknown
    }

    proof fn lemma_known_literal(value: Self) {
        reveal_strlit("info");
        reveal_strlit("warn");
        reveal_strlit("error");
        assert("info"@.len() == 4);
        assert("warn"@.len() == 4);
        assert("error"@.len() == 5);
        assert("info"@[0] == 'i');
        assert("warn"@[0] == 'w');
    }

    proof fn lemma_known_text(text: Seq<char>) {
    }
}

impl FineTuningJobEventLevel {
    /// The text the API uses for this value.
    pub fn as_str(&self) -> (r: &str)
        ensures
            r@ == self.literal(),
    {
        match self {
            FineTuningJobEventLevel::Info => "info",
            FineTuningJobEventLevel::Warn => "warn",
            FineTuningJobEventLevel::Error => "error",
            FineTuningJobEventLevel::Unknown(text) => text.as_str(),
        }
    }

    /// The value a text names; a text no variant uses is kept as `Unknown`.
    pub fn from_text(value: &str) -> (r: FineTuningJobEventLevel)
        ensures
            r.literal() == value@,
            r.is_unknown() == (FineTuningJobEventLevel::known(value@) is None),
            FineTuningJobEventLevel::known(value@) matches Some(k) ==> r == k,
    {
        if str_eq(value, "info") {
            FineTuningJobEventLevel::Info
        } else if str_eq(value, "warn") {
            FineTuningJobEventLevel::Warn
        } else if str_eq(value, "error") {
            FineTuningJobEventLevel::Error
        } else {
            FineTuningJobEventLevel::Unknown(value.to_string())
        }
    }
}


#[derive(Clone, Debug, Default, PartialEq)]
pub struct FineTuningSupervisedMethod {
    pub hyperparameters: Option<FineTuningSupervisedHyperparameters>,
}

#[derive(Clone, Debug, Default, PartialEq)]
pub struct FineTuningDpoMethod {
    pub hyperparameters: Option<FineTuningDpoHyperparameters>,
}

#[derive(Clone, Debug, Default, PartialEq)]
pub struct FineTuningSupervisedHyperparameters {
    pub batch_size: Option<AutoOrNumber>,
    pub learning_rate_multiplier: Option<AutoOrNumber>,
    pub n_epochs: Option<AutoOrNumber>,
}

#[derive(Clone, Debug, Default, PartialEq)]
pub struct FineTuningDpoHyperparameters {
    pub batch_size: Option<AutoOrNumber>,
    pub beta: Option<AutoOrNumber>,
    pub learning_rate_multiplier: Option<AutoOrNumber>,
    pub n_epochs: Option<AutoOrNumber>,
}

#[derive(Clone, Debug, Default, PartialEq)]
pub struct FineTuningReinforcementHyperparameters {
    pub batch_size: Option<AutoOrNumber>,
    pub compute_multiplier: Option<AutoOrNumber>,
    pub eval_interval: Option<AutoOrNumber>,
    pub eval_samples: Option<AutoOrNumber>,
    pub learning_rate_multiplier: Option<AutoOrNumber>,
    pub n_epochs: Option<AutoOrNumber>,
    pub reasoning_effort: Option<String>,
}

/// Create-checkpoint-permission request body.
#[derive(Clone, Debug, Default, Eq, PartialEq)]
pub struct FineTuningCheckpointPermissionCreateParams {
    pub project_ids: Vec<String>,
}

/// Fine-tuning job resource.
#[derive(Clone, Debug, Default, PartialEq)]
pub struct FineTuningJob {
    pub id: String,
    pub object: String,
    pub created_at: u64,
    pub error: Option<FineTuningJobError>,
    pub fine_tuned_model: Option<String>,
    pub finished_at: Option<u64>,
    pub hyperparameters: Option<FineTuningSupervisedHyperparameters>,
    pub model: String,
    pub organization_id: String,
    pub result_files: Vec<String>,
    pub seed: u64,
    pub status: FineTuningJobStatus,
    pub trained_tokens: Option<u64>,
    pub training_file: String,
    pub validation_file: Option<String>,
    pub estimated_finish: Option<u64>,
    pub metadata: Option<Value>,
    pub method: Option<Value>,
    pub extra: BTreeMap<String, Value>,
}

/// Fine-tuning job error payload.
#[derive(Clone, Debug, Default, PartialEq)]
pub struct FineTuningJobError {
    pub code: Option<String>,
    pub message: Option<String>,
    pub param: Option<String>,
    pub extra: BTreeMap<String, Value>,
}

/// Cursor page of fine-tuning jobs.
#[derive(Clone, Debug, Default, PartialEq)]
pub struct FineTuningJobPage {
    pub object: String,
    pub data: Vec<FineTuningJob>,
    pub has_more: bool,
    pub extra: BTreeMap<String, Value>,
}

/// Fine-tuning job event.
#[derive(Clone, Debug, Default, PartialEq)]
pub struct FineTuningJobEvent {
    pub id: String,
    pub created_at: u64,
    pub level: FineTuningJobEventLevel,
    pub message: String,
    pub object: String,
    pub data: Option<Value>,
    pub event_type: Option<String>,
    pub extra: BTreeMap<String, Value>,
}

impl FineTuningJobEvent {
    /// The event's type: its own field, else a string `type` among the extra fields.
    pub fn event_type(&self) -> (r: Option<&str>)
        ensures
            self.event_type matches Some(t) ==> r matches Some(x) && x@ == t@,
            self.event_type is None ==> (r is Some <==> extra_text_spec(self.extra@, "type"@) is Some),
            self.event_type is None ==> (r matches Some(x) ==> extra_text_spec(self.extra@, "type"@) == Some(x@)),
    {
        match &self.event_type {
            Some(t) => Some(t.as_str()),
            None => extra_text(&self.extra, "type"),
        }
    }
}

/// Cursor page of fine-tuning events.
#[derive(Clone, Debug, Default, PartialEq)]
pub struct FineTuningJobEventPage {
    pub object: String,
    pub data: Vec<FineTuningJobEvent>,
    pub has_more: bool,
    pub extra: BTreeMap<String, Value>,
}

/// Checkpoint permission item.
#[derive(Clone, Debug, Default, PartialEq)]
pub struct FineTuningCheckpointPermission {
    pub id: String,
    pub created_at: u64,
    pub object: String,
    pub project_id: String,
    pub extra: BTreeMap<String, Value>,
}

/// Permission page used by create/list.
#[derive(Clone, Debug, Default, PartialEq)]
pub struct FineTuningCheckpointPermissionPage {
    pub object: String,
    pub data: Vec<FineTuningCheckpointPermission>,
    pub has_more: bool,
    pub first_id: Option<String>,
    pub last_id: Option<String>,
    pub extra: BTreeMap<String, Value>,
}

/// Delete-permission response.
#[derive(Clone, Debug, Default, PartialEq)]
pub struct FineTuningCheckpointPermissionDeleteResponse {
    pub id: String,
    pub object: String,
    pub deleted: bool,
    pub extra: BTreeMap<String, Value>,
}

/// Grader input message for model-based graders.
#[derive(Clone, Debug, PartialEq)]
pub struct FineTuningGraderMessage {
    pub role: String,
    pub content: Value,
    pub message_type: Option<String>,
}

/// Structured grader run error flags.
#[derive(Clone, Debug, Default, PartialEq)]
pub struct FineTuningGraderRunErrors {
    pub formula_parse_error: bool,
    pub invalid_variable_error: bool,
    pub model_grader_parse_error: bool,
    pub model_grader_refusal_error: bool,
    pub model_grader_server_error: bool,
    pub model_grader_server_error_details: Option<String>,
    pub other_error: bool,
    pub python_grader_runtime_error: bool,
    pub python_grader_runtime_error_details: Option<String>,
    pub python_grader_server_error: bool,
    pub python_grader_server_error_type: Option<String>,
    pub sample_parse_error: bool,
    pub truncated_observation_error: bool,
    pub unresponsive_reward_error: bool,
    pub extra: BTreeMap<String, Value>,
}

/// Job-list query parameters. `metadata` holds `(key, value)` filters in
/// ascending key order, each key once.
#[derive(Clone, Debug, Default, PartialEq, Eq)]
pub struct FineTuningJobListParams {
    pub after: Option<String>,
    pub limit: Option<u32>,
    pub metadata: Option<Vec<(String, String)>>,
}

/// The `metadata[key]=value` filters of a listing.
pub open spec fn metadata_filters(entries: Seq<(Seq<char>, Seq<char>)>) -> Seq<(Seq<char>, Seq<char>)> {
    entries.map_values(|kv: (Seq<char>, Seq<char>)| ("metadata["@ + kv.0 + "]"@, kv.1))
}

/// The query of a job listing: `after`, `limit`, then the metadata filters.
pub open spec fn job_list_pairs(p: FineTuningJobListParams) -> Seq<(Seq<char>, Seq<char>)> {
    opt_pair("after"@, opt_view(p.after)) + opt_pair("limit"@, opt_u32_decimal(p.limit)) + match p.metadata {
        Some(m) => metadata_filters(pairs_view(m@)),
        None => seq![],
    }
}

impl FineTuningJobListParams {
    pub fn to_query(&self) -> (r: QueryPairs)
        ensures
            r@ == job_list_pairs(*self),
    {
        let mut q = QueryPairs::new();
        q.push_opt("after", self.after.clone());
        q.push_opt_u32("limit", self.limit);
        match &self.metadata {
            Some(m) => {
                let ghost before = q@;
                let mut i: usize = 0;
                while i < m.len()
                    invariant
                        i <= m@.len(),
                        q@ == before + metadata_filters(pairs_view(m@.subrange(0, i as int))),
                    decreases m@.len() - i,
                {
                    let mut key = "metadata[".to_string();
                    push_str(&mut key, m[i].0.as_str());
                    push_str(&mut key, "]");
                    q.push(key.as_str(), m[i].1.clone());
                    assert(pairs_view(m@.subrange(0, i + 1)) =~= pairs_view(m@.subrange(0, i as int)).push(
                        (m@[i as int].0@, m@[i as int].1@),
                    ));
                    assert(metadata_filters(pairs_view(m@.subrange(0, i + 1))) =~= metadata_filters(
                        pairs_view(m@.subrange(0, i as int)),
                    ).push(("metadata["@ + m@[i as int].0@ + "]"@, m@[i as int].1@)));
                    i = i + 1;
                }
                assert(m@.subrange(0, m@.len() as int) =~= m@);
            },
            None => {
                assert(q@ =~= job_list_pairs(*self));
            },
        }
        q
    }
}

impl Default for FineTuningJobStatus {
    fn default() -> (r: FineTuningJobStatus)
        ensures
            r matches FineTuningJobStatus::Unknown(s) && s@ == "unknown"@,
    {
        FineTuningJobStatus::Unknown("unknown".to_string())
    }
}

impl Default for FineTuningJobEventLevel {
    fn default() -> (r: FineTuningJobEventLevel)
        ensures
            r matches FineTuningJobEventLevel::Unknown(s) && s@ == "unknown"@,
    {
        FineTuningJobEventLevel::Unknown("unknown".to_string())
    }
}

/// `auto`, or a number.
#[derive(Clone, Debug, Default, PartialEq, Eq)]
pub enum AutoOrNumber {
    #[default]
    Auto,
    Number(u64),
}

/// A hyperparameter as sent: `auto` as a JSON string, a number as itself.
pub open spec fn auto_or_number_json(v: AutoOrNumber) -> Seq<char> {
    match v {
        AutoOrNumber::Auto => "\"auto\""@,
        AutoOrNumber::Number(n) => decimal(n as nat),
    }
}

impl AutoOrNumber {
    /// The JSON text of this value.
    pub fn to_json(&self) -> (r: String)
        ensures
            r@ == auto_or_number_json(*self),
    {
        match self {
            AutoOrNumber::Auto => "\"auto\"".to_string(),
            AutoOrNumber::Number(n) => u64_to_string(*n),
        }
    }

    /// Reads a hyperparameter: the string `auto`, or an unsigned integer.
    pub fn from_json_parts(text: Option<&str>, number: Option<u64>) -> (r: Option<AutoOrNumber>)
        ensures
            (text matches Some(t) && t@ == "auto"@) ==> r == Some(AutoOrNumber::Auto),
            !(text matches Some(t) && t@ == "auto"@) ==> r == match number {
                Some(n) => Some(AutoOrNumber::Number(n)),
                None => None,
            },
    {
        match text {
            Some(t) => if str_eq(t, "auto") {
                return Some(AutoOrNumber::Auto);
            },
            None => {},
        }
        match number {
            Some(n) => Some(AutoOrNumber::Number(n)),
            None => None,
        }
    }
}

impl FineTuningJobPage {
    pub fn has_next_page(&self) -> (b: bool)
        ensures
            b == self.has_more,
    {
        self.has_more
    }

    /// The id of the last job, when more pages follow.
    pub fn next_after(&self) -> (r: Option<&str>)
        ensures
            r is Some <==> (self.has_more && self.data@.len() > 0),
            r matches Some(id) ==> id@ == self.data@.last().id@,
    {
        if self.has_more && self.data.len() > 0 {
            Some(self.data[self.data.len() - 1].id.as_str())
        } else {
            None
        }
    }
}

impl FineTuningCheckpointPermissionPage {
    /// The id of the last permission, when more pages follow.
    pub fn next_after(&self) -> (r: Option<&str>)
        ensures
            r is Some <==> (self.has_more && self.data@.len() > 0),
            r matches Some(id) ==> id@ == self.data@.last().id@,
    {
        if self.has_more && self.data.len() > 0 {
            Some(self.data[self.data.len() - 1].id.as_str())
        } else {
            None
        }
    }
}

/// Job-events query parameters.
#[derive(Clone, Debug, Default, PartialEq, Eq)]
pub struct FineTuningJobEventListParams {
    pub after: Option<String>,
    pub limit: Option<u32>,
}

/// The query of these parameters, in field order.
pub open spec fn job_event_list_pairs(p: FineTuningJobEventListParams) -> Seq<(Seq<char>, Seq<char>)> {
    opt_pair("after"@, opt_view(p.after)) + opt_pair("limit"@, opt_u32_decimal(p.limit))
}

impl FineTuningJobEventListParams {
    pub fn to_query(&self) -> (r: QueryPairs)
        ensures
            r@ == job_event_list_pairs(*self),
    {
        let mut q = QueryPairs::new();
        q.push_opt("after", self.after.clone());
        q.push_opt_u32("limit", self.limit);
        q
    }
}

/// Checkpoint-list query parameters.
#[derive(Clone, Debug, Default, PartialEq, Eq)]
pub struct FineTuningCheckpointListParams {
    pub after: Option<String>,
    pub limit: Option<u32>,
}

/// The query of these parameters, in field order.
pub open spec fn checkpoint_list_pairs(p: FineTuningCheckpointListParams) -> Seq<(Seq<char>, Seq<char>)> {
    opt_pair("after"@, opt_view(p.after)) + opt_pair("limit"@, opt_u32_decimal(p.limit))
}

impl FineTuningCheckpointListParams {
    pub fn to_query(&self) -> (r: QueryPairs)
        ensures
            r@ == checkpoint_list_pairs(*self),
    {
        let mut q = QueryPairs::new();
        q.push_opt("after", self.after.clone());
        q.push_opt_u32("limit", self.limit);
        q
    }
}

/// Checkpoint-permission list parameters.
#[derive(Clone, Debug, Default, PartialEq, Eq)]
pub struct FineTuningCheckpointPermissionListParams {
    pub after: Option<String>,
    pub limit: Option<u32>,
    pub order: Option<String>,
    pub project_id: Option<String>,
}

/// The query of these parameters, in field order.
pub open spec fn permission_list_pairs(p: FineTuningCheckpointPermissionListParams) -> Seq<(Seq<char>, Seq<char>)> {
    opt_pair("after"@, opt_view(p.after)) + opt_pair("limit"@, opt_u32_decimal(p.limit)) + opt_pair("order"@, opt_view(p.order)) + opt_pair("project_id"@, opt_view(p.project_id))
}

impl FineTuningCheckpointPermissionListParams {
    pub fn to_query(&self) -> (r: QueryPairs)
        ensures
            r@ == permission_list_pairs(*self),
    {
        let mut q = QueryPairs::new();
        q.push_opt("after", self.after.clone());
        q.push_opt_u32("limit", self.limit);
        q.push_opt("order", self.order.clone());
        q.push_opt("project_id", self.project_id.clone());
        q
    }
}

/// Fine-tuning API family.
#[derive(Clone, Copy, Debug)]
pub struct FineTuning {}

impl FineTuning {
    pub fn new() -> FineTuning {
        FineTuning {}
    }

    /// The jobs surface.
    pub fn jobs(&self) -> FineTuningJobs {
        FineTuningJobs::new()
    }

    /// Checkpoint helpers.
    pub fn checkpoints(&self) -> FineTuningCheckpoints {
        FineTuningCheckpoints::new()
    }

    /// The alpha surface.
    pub fn alpha(&self) -> FineTuningAlpha {
        FineTuningAlpha::new()
    }

}

/// Fine-tuning jobs.
#[derive(Clone, Copy, Debug)]
pub struct FineTuningJobs {}

impl FineTuningJobs {
    pub fn new() -> FineTuningJobs {
        FineTuningJobs {}
    }

    /// Checkpoints of jobs.
    pub fn checkpoints(&self) -> FineTuningJobCheckpoints {
        FineTuningJobCheckpoints::new()
    }

    /// Creates a job; `body` is the serialized [`FineTuningJobCreateParams`].
    pub fn create(&self, body: String) -> (r: Result<ApiRequest, OpenAIError>)
        ensures
            r matches Ok(req) && req@ == plain(HttpMethod::Post, "/fine_tuning/jobs"@, BodyView::Json(body@)),
    {
        let path = "/fine_tuning/jobs".to_string();
        Ok(ApiRequest::new(HttpMethod::Post, path, RequestBody::Json(body)))
    }

    /// Retrieves a job.
    pub fn retrieve(&self, job_id: &str) -> (r: Result<ApiRequest, OpenAIError>)
        ensures
            r is Ok <==> (!is_blank_spec(job_id@)),
            r matches Ok(req) ==> req@ == plain(HttpMethod::Get, "/fine_tuning/jobs/"@ + encoded_id(job_id@), BodyView::Empty),
            r matches Err(e) ==> e.kind == ErrorKind::Validation && e.message@ == blank_message("job_id"@),
    {
        let job_id = path_id("job_id", job_id)?;
        let mut path = "/fine_tuning/jobs/".to_string();
        push_str(&mut path, job_id.as_str());
        Ok(ApiRequest::new(HttpMethod::Get, path, RequestBody::Empty))
    }

    /// Lists jobs, with metadata filters.
    pub fn list(&self, params: FineTuningJobListParams) -> (r: Result<ApiRequest, OpenAIError>)
        ensures
            r matches Ok(req) && req@ == plain(HttpMethod::Get, with_query("/fine_tuning/jobs"@, form_query(job_list_pairs(params)), job_list_pairs(params).len() > 0), BodyView::Empty),
    {
        let mut path = "/fine_tuning/jobs".to_string();
        let path = path_with_query(path, params.to_query().pairs());
        Ok(ApiRequest::new(HttpMethod::Get, path, RequestBody::Empty))
    }

    /// Cancels a job.
    pub fn cancel(&self, job_id: &str) -> (r: Result<ApiRequest, OpenAIError>)
        ensures
            r is Ok <==> (!is_blank_spec(job_id@)),
            r matches Ok(req) ==> req@ == plain(HttpMethod::Post, "/fine_tuning/jobs/"@ + encoded_id(job_id@) + "/cancel"@, BodyView::Empty),
            r matches Err(e) ==> e.kind == ErrorKind::Validation && e.message@ == blank_message("job_id"@),
    {
        let job_id = path_id("job_id", job_id)?;
        let mut path = "/fine_tuning/jobs/".to_string();
        push_str(&mut path, job_id.as_str());
        push_str(&mut path, "/cancel");
        Ok(ApiRequest::new(HttpMethod::Post, path, RequestBody::Empty))
    }

    /// Lists the events of a job.
    pub fn list_events(&self, job_id: &str, params: FineTuningJobEventListParams) -> (r: Result<ApiRequest, OpenAIError>)
        ensures
            r is Ok <==> (!is_blank_spec(job_id@)),
            r matches Ok(req) ==> req@ == plain(HttpMethod::Get, with_query("/fine_tuning/jobs/"@ + encoded_id(job_id@) + "/events"@, form_query(job_event_list_pairs(params)), job_event_list_pairs(params).len() > 0), BodyView::Empty),
            r matches Err(e) ==> e.kind == ErrorKind::Validation && e.message@ == blank_message("job_id"@),
    {
        let job_id = path_id("job_id", job_id)?;
        let mut path = "/fine_tuning/jobs/".to_string();
        push_str(&mut path, job_id.as_str());
        push_str(&mut path, "/events");
        let path = path_with_query(path, params.to_query().pairs());
        Ok(ApiRequest::new(HttpMethod::Get, path, RequestBody::Empty))
    }

    /// Pauses a job.
    pub fn pause(&self, job_id: &str) -> (r: Result<ApiRequest, OpenAIError>)
        ensures
            r is Ok <==> (!is_blank_spec(job_id@)),
            r matches Ok(req) ==> req@ == plain(HttpMethod::Post, "/fine_tuning/jobs/"@ + encoded_id(job_id@) + "/pause"@, BodyView::Empty),
            r matches Err(e) ==> e.kind == ErrorKind::Validation && e.message@ == blank_message("job_id"@),
    {
        let job_id = path_id("job_id", job_id)?;
        let mut path = "/fine_tuning/jobs/".to_string();
        push_str(&mut path, job_id.as_str());
        push_str(&mut path, "/pause");
        Ok(ApiRequest::new(HttpMethod::Post, path, RequestBody::Empty))
    }

    /// Resumes a paused job.
    pub fn resume(&self, job_id: &str) -> (r: Result<ApiRequest, OpenAIError>)
        ensures
            r is Ok <==> (!is_blank_spec(job_id@)),
            r matches Ok(req) ==> req@ == plain(HttpMethod::Post, "/fine_tuning/jobs/"@ + encoded_id(job_id@) + "/resume"@, BodyView::Empty),
            r matches Err(e) ==> e.kind == ErrorKind::Validation && e.message@ == blank_message("job_id"@),
    {
        let job_id = path_id("job_id", job_id)?;
        let mut path = "/fine_tuning/jobs/".to_string();
        push_str(&mut path, job_id.as_str());
        push_str(&mut path, "/resume");
        Ok(ApiRequest::new(HttpMethod::Post, path, RequestBody::Empty))
    }

}

/// Checkpoints of one job.
#[derive(Clone, Copy, Debug)]
pub struct FineTuningJobCheckpoints {}

impl FineTuningJobCheckpoints {
    pub fn new() -> FineTuningJobCheckpoints {
        FineTuningJobCheckpoints {}
    }

    /// Lists the checkpoints of a job.
    pub fn list(&self, job_id: &str, params: FineTuningCheckpointListParams) -> (r: Result<ApiRequest, OpenAIError>)
        ensures
            r is Ok <==> (!is_blank_spec(job_id@)),
            r matches Ok(req) ==> req@ == plain(HttpMethod::Get, with_query("/fine_tuning/jobs/"@ + encoded_id(job_id@) + "/checkpoints"@, form_query(checkpoint_list_pairs(params)), checkpoint_list_pairs(params).len() > 0), BodyView::Empty),
            r matches Err(e) ==> e.kind == ErrorKind::Validation && e.message@ == blank_message("job_id"@),
    {
        let job_id = path_id("job_id", job_id)?;
        let mut path = "/fine_tuning/jobs/".to_string();
        push_str(&mut path, job_id.as_str());
        push_str(&mut path, "/checkpoints");
        let path = path_with_query(path, params.to_query().pairs());
        Ok(ApiRequest::new(HttpMethod::Get, path, RequestBody::Empty))
    }

}

/// Checkpoint helpers.
#[derive(Clone, Copy, Debug)]
pub struct FineTuningCheckpoints {}

impl FineTuningCheckpoints {
    pub fn new() -> FineTuningCheckpoints {
        FineTuningCheckpoints {}
    }

    /// Checkpoint permissions.
    pub fn permissions(&self) -> FineTuningCheckpointPermissions {
        FineTuningCheckpointPermissions::new()
    }

}

/// Alpha fine-tuning helpers.
#[derive(Clone, Copy, Debug)]
pub struct FineTuningAlpha {}

impl FineTuningAlpha {
    pub fn new() -> FineTuningAlpha {
        FineTuningAlpha {}
    }

    /// Alpha grader operations.
    pub fn graders(&self) -> FineTuningGraders {
        FineTuningGraders::new()
    }

}

/// Permissions on fine-tuned checkpoints.
#[derive(Clone, Copy, Debug)]
pub struct FineTuningCheckpointPermissions {}

impl FineTuningCheckpointPermissions {
    pub fn new() -> FineTuningCheckpointPermissions {
        FineTuningCheckpointPermissions {}
    }

    /// Grants projects access to a checkpoint; `body` is the serialized request.
    pub fn create(&self, checkpoint_id: &str, body: String) -> (r: Result<ApiRequest, OpenAIError>)
        ensures
            r is Ok <==> (!is_blank_spec(checkpoint_id@)),
            r matches Ok(req) ==> req@ == plain(HttpMethod::Post, "/fine_tuning/checkpoints/"@ + encoded_id(checkpoint_id@) + "/permissions"@, BodyView::Json(body@)),
            r matches Err(e) ==> e.kind == ErrorKind::Validation && e.message@ == blank_message("checkpoint_id"@),
    {
        let checkpoint_id = path_id("checkpoint_id", checkpoint_id)?;
        let mut path = "/fine_tuning/checkpoints/".to_string();
        push_str(&mut path, checkpoint_id.as_str());
        push_str(&mut path, "/permissions");
        Ok(ApiRequest::new(HttpMethod::Post, path, RequestBody::Json(body)))
    }

    /// Lists the permissions of a checkpoint.
    pub fn list(&self, checkpoint_id: &str, params: FineTuningCheckpointPermissionListParams) -> (r: Result<ApiRequest, OpenAIError>)
        ensures
            r is Ok <==> (!is_blank_spec(checkpoint_id@)),
            r matches Ok(req) ==> req@ == plain(HttpMethod::Get, with_query("/fine_tuning/checkpoints/"@ + encoded_id(checkpoint_id@) + "/permissions"@, form_query(permission_list_pairs(params)), permission_list_pairs(params).len() > 0), BodyView::Empty),
            r matches Err(e) ==> e.kind == ErrorKind::Validation && e.message@ == blank_message("checkpoint_id"@),
    {
        let checkpoint_id = path_id("checkpoint_id", checkpoint_id)?;
        let mut path = "/fine_tuning/checkpoints/".to_string();
        push_str(&mut path, checkpoint_id.as_str());
        push_str(&mut path, "/permissions");
        let path = path_with_query(path, params.to_query().pairs());
        Ok(ApiRequest::new(HttpMethod::Get, path, RequestBody::Empty))
    }

    /// Deletes one permission.
    pub fn delete(&self, checkpoint_id: &str, permission_id: &str) -> (r: Result<ApiRequest, OpenAIError>)
        ensures
            r is Ok <==> (!is_blank_spec(checkpoint_id@) && !is_blank_spec(permission_id@)),
            r matches Ok(req) ==> req@ == plain(HttpMethod::Delete, "/fine_tuning/checkpoints/"@ + encoded_id(checkpoint_id@) + "/permissions/"@ + encoded_id(permission_id@), BodyView::Empty),
            r matches Err(e) ==> e.kind == ErrorKind::Validation && e.message@ == blank_message(if is_blank_spec(checkpoint_id@) { "checkpoint_id"@ } else { "permission_id"@ }),
    {
        let checkpoint_id = path_id("checkpoint_id", checkpoint_id)?;
        let permission_id = path_id("permission_id", permission_id)?;
        let mut path = "/fine_tuning/checkpoints/".to_string();
        push_str(&mut path, checkpoint_id.as_str());
        push_str(&mut path, "/permissions/");
        push_str(&mut path, permission_id.as_str());
        Ok(ApiRequest::new(HttpMethod::Delete, path, RequestBody::Empty))
    }

}

/// Alpha grader endpoints.
#[derive(Clone, Copy, Debug)]
pub struct FineTuningGraders {}

impl FineTuningGraders {
    pub fn new() -> FineTuningGraders {
        FineTuningGraders {}
    }

    /// Validates a grader; `body` is the serialized request.
    pub fn validate(&self, body: String) -> (r: Result<ApiRequest, OpenAIError>)
        ensures
            r matches Ok(req) && req@ == plain(HttpMethod::Post, "/fine_tuning/alpha/graders/validate"@, BodyView::Json(body@)),
    {
        let path = "/fine_tuning/alpha/graders/validate".to_string();
        Ok(ApiRequest::new(HttpMethod::Post, path, RequestBody::Json(body)))
    }

    /// Runs a grader on a sample; `body` is the serialized request.
    pub fn run(&self, body: String) -> (r: Result<ApiRequest, OpenAIError>)
        ensures
            r matches Ok(req) && req@ == plain(HttpMethod::Post, "/fine_tuning/alpha/graders/run"@, BodyView::Json(body@)),
    {
        let path = "/fine_tuning/alpha/graders/run".to_string();
        Ok(ApiRequest::new(HttpMethod::Post, path, RequestBody::Json(body)))
    }

}

} // verus!
