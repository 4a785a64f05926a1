//! Files: uploads, listing, retrieval, deletion, content download, and the
//! decisions of waiting for a file to finish processing.
use vstd::prelude::*;
use serde_json::Value;
use std::collections::BTreeMap;
use crate::error::{blank_message, ErrorKind, OpenAIError};
use crate::ids::{encode_path_id, encoded_id, validate_path_id};
use crate::json::{json_quote, json_quoted};
use crate::literal::{opt_literal, Literal};
use crate::query::{form_query, opt_pair, opt_u32_decimal, opt_view, path_with_query, QueryPairs, with_query};
use crate::request::{parts_view, plain, text_part, ApiRequest, BodyView, HttpMethod, MultipartPart, PartView, RequestBody, RequestView};
use crate::text::{decimal, is_blank_spec, push_str, u64_to_string};

verus! {

/// Public file purpose, shared with uploads.
#[derive(Clone, Copy, Debug, PartialEq, Eq)]
pub enum FilePurpose {
    Assistants,
    AssistantsOutput,
    Batch,
    BatchOutput,
    FineTune,
    FineTuneResults,
    Vision,
    UserData,
    Evals,
}

impl Literal for FilePurpose {
    open spec fn literal(&self) -> Seq<char> {
        match self {
            FilePurpose::Assistants => "assistants"@,
            FilePurpose::AssistantsOutput => "assistants_output"@,
            FilePurpose::Batch => "batch"@,
            FilePurpose::BatchOutput => "batch_output"@,
            FilePurpose::FineTune => "fine-tune"@,
            FilePurpose::FineTuneResults => "fine-tune-results"@,
            FilePurpose::Vision => "vision"@,
            FilePurpose::UserData => "user_data"@,
            FilePurpose::Evals => "evals"@,
        }
    }

    fn to_text(&self) -> (r: String) {
        self.as_str().to_string()
    }
}

impl FilePurpose {
    pub fn as_str(&self) -> (r: &'static str)
        ensures
            r@ == self.literal(),
    {
        match self {
            FilePurpose::Assistants => "assistants",
            FilePurpose::AssistantsOutput => "assistants_output",
            FilePurpose::Batch => "batch",
            FilePurpose::BatchOutput => "batch_output",
            FilePurpose::FineTune => "fine-tune",
            FilePurpose::FineTuneResults => "fine-tune-results",
            FilePurpose::Vision => "vision",
            FilePurpose::UserData => "user_data",
            FilePurpose::Evals => "evals",
        }
    }
}

/// File processing status.
#[derive(Clone, Copy, Debug, PartialEq, Eq)]
pub enum FileStatus {
    Uploaded,
    Processed,
    Error,
    Deleted,
    Unknown,
}

/// Multipart upload input.
#[derive(Clone, Debug, PartialEq, Eq)]
pub struct FileUpload {
    pub filename: String,
    pub content_type: String,
    pub bytes: Vec<u8>,
}

impl FileUpload {
    pub fn new(filename: String, content_type: String, bytes: Vec<u8>) -> (f: FileUpload)
        ensures
            f.filename == filename,
            f.content_type == content_type,
            f.bytes == bytes,
    {
        FileUpload { filename, content_type, bytes }
    }
}

/// File expiration policy.
#[derive(Clone, Debug, Default, PartialEq, Eq)]
pub struct FileExpiresAfter {
    pub anchor: String,
    pub seconds: u64,
}

/// The JSON object of an expiration policy.
pub open spec fn expires_after_json(e: FileExpiresAfter) -> Seq<char> {
    "{"@ + json_quoted("anchor"@) + ":"@ + json_quoted(e.anchor@) + ","@ + json_quoted("seconds"@) + ":"@
        + decimal(e.seconds as nat) + "}"@
}

impl FileExpiresAfter {
    pub fn to_json(&self) -> (r: String)
        ensures
            r@ == expires_after_json(*self),
    {
        let mut out = "{".to_string();
        push_str(&mut out, json_quote("anchor").as_str());
        push_str(&mut out, ":");
        push_str(&mut out, json_quote(self.anchor.as_str()).as_str());
        push_str(&mut out, ",");
        push_str(&mut out, json_quote("seconds").as_str());
        push_str(&mut out, ":");
        push_str(&mut out, u64_to_string(self.seconds).as_str());
        push_str(&mut out, "}");
        out
    }
}

/// File creation parameters.
#[derive(Clone, Debug, PartialEq, Eq)]
pub struct FileCreateParams {
    pub file: FileUpload,
    pub purpose: FilePurpose,
    pub expires_after: Option<FileExpiresAfter>,
}

/// The upload form: the file, its purpose, and the expiration policy when set.
pub open spec fn file_form(p: FileCreateParams) -> Seq<PartView> {
    seq![
        PartView::File {
            name: "file"@,
            filename: p.file.filename@,
            content_type: p.file.content_type@,
            bytes: p.file.bytes@,
        },
        PartView::Text { name: "purpose"@, value: p.purpose.literal() },
    ] + match p.expires_after {
        Some(e) => seq![PartView::Text { name: "expires_after"@, value: expires_after_json(e) }],
        None => seq![],
    }
}

impl FileCreateParams {
    pub fn into_multipart(self) -> (parts: Vec<MultipartPart>)
        ensures
            parts_view(parts@) == file_form(self),
    {
        let ghost p = self;
        let mut parts: Vec<MultipartPart> = Vec::new();
        parts.push(
            MultipartPart::File {
                name: "file".to_string(),
                filename: self.file.filename,
                content_type: self.file.content_type,
                bytes: self.file.bytes,
            },
        );
        parts.push(text_part("purpose", self.purpose.as_str().to_string()));
        match &self.expires_after {
            Some(e) => {
                parts.push(text_part("expires_after", e.to_json()));
            },
            None => {},
        }
        assert(parts_view(parts@) =~= file_form(p));
        parts
    }
}

/// List parameters for files.
#[derive(Clone, Debug, Default, PartialEq, Eq)]
pub struct FileListParams {
    pub after: Option<String>,
    pub limit: Option<u32>,
    pub order: Option<String>,
    pub purpose: Option<FilePurpose>,
}

impl FileListParams {
    /// The query pairs: `after`, `limit`, `order`, `purpose`.
    pub fn to_query_pairs(&self) -> (r: QueryPairs)
        ensures
            r@ == opt_pair("after"@, opt_view(self.after)) + opt_pair("limit"@, opt_u32_decimal(self.limit))
                + opt_pair("order"@, opt_view(self.order)) + opt_pair("purpose"@, opt_literal(self.purpose)),
    {
        let mut q = QueryPairs::new();
        q.push_opt("after", self.after.clone());
        q.push_opt_u32("limit", self.limit);
        q.push_opt("order", self.order.clone());
        q.push_opt_literal("purpose", &self.purpose);
        q
    }
}

/// Typed file object.
#[derive(Clone, Debug, Default)]
pub struct FileObject {
    pub id: String,
    pub object: String,
    pub bytes: u64,
    pub created_at: u64,
    pub filename: String,
    pub purpose: Option<FilePurpose>,
    pub status: Option<FileStatus>,
    pub expires_at: Option<u64>,
    pub status_details: Option<String>,
    pub extra: BTreeMap<String, Value>,
}

/// Processed, errored and deleted files are done processing.
pub open spec fn is_terminal_status(status: Option<FileStatus>) -> bool {
    status == Some(FileStatus::Processed) || status == Some(FileStatus::Error) || status == Some(
        FileStatus::Deleted,
    )
}

pub fn terminal_status(status: &Option<FileStatus>) -> (b: bool)
    ensures
        b == is_terminal_status(*status),
        *status == Some(FileStatus::Processed) ==> b,
        *status == Some(FileStatus::Error) ==> b,
        *status == Some(FileStatus::Deleted) ==> b,
        *status == Some(FileStatus::Uploaded) ==> !b,
        *status == Some(FileStatus::Unknown) ==> !b,
        *status is None ==> !b,
{
    match status {
        Some(FileStatus::Processed) => true,
        Some(FileStatus::Error) => true,
        Some(FileStatus::Deleted) => true,
        _ => false,
    }
}

impl FileObject {
    pub fn is_terminal_processing_state(&self) -> (b: bool)
        ensures
            b == is_terminal_status(self.status),
    {
        terminal_status(&self.status)
    }
}

/// Cursor page of files.
#[derive(Clone, Debug, Default)]
pub struct FilesPage {
    pub object: String,
    pub data: Vec<FileObject>,
    pub has_more: bool,
    pub extra: BTreeMap<String, Value>,
}

impl FilesPage {
    pub fn has_next_page(&self) -> (b: bool)
        ensures
            b == self.has_more,
    {
        self.has_more
    }

    /// The id of the last file, when more pages follow.
    pub fn next_after(&self) -> (r: Option<&str>)
        ensures
            r is Some <==> (self.has_more && self.data@.len() > 0),
            r matches Some(id) ==> id@ == self.data@.last().id@,
    {
        if self.has_more && self.data.len() > 0 {
            Some(self.data[self.data.len() - 1].id.as_str())
        } else {
            None
        }
    }
}

/// File deletion response.
#[derive(Clone, Debug, Default)]
pub struct FileDeleteResponse {
    pub id: String,
    pub object: String,
    pub deleted: bool,
    pub extra: BTreeMap<String, Value>,
}

/// Polling settings for waiting on processing, in milliseconds.
#[derive(Clone, Copy, Debug, PartialEq, Eq)]
pub struct WaitForProcessingOptions {
    pub poll_interval: u64,
    pub max_wait: u64,
}

impl Default for WaitForProcessingOptions {
    /// Five seconds between polls, thirty minutes in all.
    fn default() -> (r: WaitForProcessingOptions)
        ensures
            r.poll_interval == 5000 && r.max_wait == 1800000,
    {
        WaitForProcessingOptions { poll_interval: 5000, max_wait: 1800000 }
    }
}

/// Files API family.
#[derive(Clone, Copy, Debug)]
pub struct Files {}

/// A JSON request that asks for `accept`.
pub open spec fn accepting(method: HttpMethod, path: Seq<char>, body: BodyView, accept: Seq<char>) -> RequestView {
    RequestView { method, path, headers: seq![("accept"@, accept)], body }
}

/// Waiting gives up once the time spent, or the time after one more poll, passes `max_wait`.
pub open spec fn wait_expired(elapsed: u64, poll_interval: u64, max_wait: u64) -> bool {
    elapsed > max_wait || elapsed + poll_interval > max_wait
}

impl Files {
    pub fn new() -> Files {
        Files {}
    }

    /// Uploads a file as a multipart form.
    pub fn create(&self, params: FileCreateParams) -> (r: ApiRequest)
        ensures
            r@ == accepting(HttpMethod::Post, "/files"@, BodyView::Multipart(file_form(params)), "application/json"@),
    {
        let parts = params.into_multipart();
        let r = ApiRequest::new(HttpMethod::Post, "/files".to_string(), RequestBody::Multipart(parts)).with_header(
            "accept",
            "application/json",
        );
        assert(r@.headers =~= seq![("accept"@, "application/json"@)]);
        r
    }

    /// Lists files.
    pub fn list(&self, params: FileListParams) -> (r: ApiRequest)
        ensures
            ({
                let pairs = opt_pair("after"@, opt_view(params.after)) + opt_pair(
                    "limit"@,
                    opt_u32_decimal(params.limit),
                ) + opt_pair("order"@, opt_view(params.order)) + opt_pair("purpose"@, opt_literal(params.purpose));
                r@ == plain(HttpMethod::Get, with_query("/files"@, form_query(pairs), pairs.len() > 0), BodyView::Empty)
            }),
    {
        let q = params.to_query_pairs();
        let path = path_with_query("/files".to_string(), q.pairs());
        ApiRequest::new(HttpMethod::Get, path, RequestBody::Empty)
    }

    /// Retrieves one file object.
    pub fn retrieve(&self, file_id: &str) -> (r: Result<ApiRequest, OpenAIError>)
        ensures
            r is Ok <==> !is_blank_spec(file_id@),
            r matches Ok(req) ==> req@ == plain(HttpMethod::Get, "/files/"@ + encoded_id(file_id@), BodyView::Empty),
            r matches Err(e) ==> e.kind == ErrorKind::Validation && e.message@ == blank_message("file_id"@),
    {
        let id = encode_path_id(validate_path_id("file_id", file_id)?);
        let mut path = "/files/".to_string();
        push_str(&mut path, id.as_str());
        Ok(ApiRequest::new(HttpMethod::Get, path, RequestBody::Empty))
    }

    /// Deletes a file.
    pub fn delete(&self, file_id: &str) -> (r: Result<ApiRequest, OpenAIError>)
        ensures
            r is Ok <==> !is_blank_spec(file_id@),
            r matches Ok(req) ==> req@ == plain(HttpMethod::Delete, "/files/"@ + encoded_id(file_id@), BodyView::Empty),
            r matches Err(e) ==> e.kind == ErrorKind::Validation && e.message@ == blank_message("file_id"@),
    {
        let id = encode_path_id(validate_path_id("file_id", file_id)?);
        let mut path = "/files/".to_string();
        push_str(&mut path, id.as_str());
        Ok(ApiRequest::new(HttpMethod::Delete, path, RequestBody::Empty))
    }

    /// Downloads file contents as raw bytes.
    pub fn content(&self, file_id: &str) -> (r: Result<ApiRequest, OpenAIError>)
        ensures
            r is Ok <==> !is_blank_spec(file_id@),
            r matches Ok(req) ==> req@ == accepting(
                HttpMethod::Get,
                "/files/"@ + encoded_id(file_id@) + "/content"@,
                BodyView::Empty,
                "application/octet-stream"@,
            ),
            r matches Err(e) ==> e.kind == ErrorKind::Validation && e.message@ == blank_message("file_id"@),
    {
        let id = encode_path_id(validate_path_id("file_id", file_id)?);
        let mut path = "/files/".to_string();
        push_str(&mut path, id.as_str());
        push_str(&mut path, "/content");
        let r = ApiRequest::new(HttpMethod::Get, path, RequestBody::Empty).with_header(
            "accept",
            "application/octet-stream",
        );
        assert(r@.headers =~= seq![("accept"@, "application/octet-stream"@)]);
        Ok(r)
    }

    /// One step of waiting for processing, after a retrieve answered with
    /// `status` and `elapsed` milliseconds have passed: `None` when the file is
    /// done, otherwise the wait before retrieving again; a timeout error once
    /// waiting would pass `max_wait`.
    pub fn wait_for_processing(
        &self,
        file_id: &str,
        status: &Option<FileStatus>,
        elapsed: u64,
        options: WaitForProcessingOptions,
    ) -> (r: Result<Option<u64>, OpenAIError>)
        ensures
            is_terminal_status(*status) ==> r == Ok::<Option<u64>, OpenAIError>(None),
            *status == Some(FileStatus::Processed) ==> r == Ok::<Option<u64>, OpenAIError>(None),
            *status == Some(FileStatus::Error) ==> r == Ok::<Option<u64>, OpenAIError>(None),
            *status == Some(FileStatus::Deleted) ==> r == Ok::<Option<u64>, OpenAIError>(None),
            !is_terminal_status(*status) && !wait_expired(elapsed, options.poll_interval, options.max_wait) ==> r
                == Ok::<Option<u64>, OpenAIError>(Some(options.poll_interval)),
            !is_terminal_status(*status) && wait_expired(elapsed, options.poll_interval, options.max_wait) ==> (
            r matches Err(e) && e.kind == ErrorKind::Timeout && e.message@ == "Giving up on waiting for file "@
                + file_id@ + " to finish processing after "@ + decimal(options.max_wait as nat)
                + " milliseconds."@),
    {
        if terminal_status(status) {
            return Ok(None);
        }
        if elapsed > options.max_wait || options.poll_interval > options.max_wait - elapsed {
            let mut message = "Giving up on waiting for file ".to_string();
            push_str(&mut message, file_id);
            push_str(&mut message, " to finish processing after ");
            push_str(&mut message, u64_to_string(options.max_wait).as_str());
            push_str(&mut message, " milliseconds.");
            return Err(OpenAIError::new(ErrorKind::Timeout, message));
        }
        Ok(Some(options.poll_interval))
    }
}

/// A file is done processing exactly when it was processed, its processing
/// failed, or it was deleted; an uploaded file, one in a state this library
/// does not know, and one whose state is not reported are still waited on.
pub proof fn law_done_file_statuses(status: Option<FileStatus>)
    ensures
        is_terminal_status(status) <==> (status == Some(FileStatus::Processed) || status == Some(FileStatus::Error)
            || status == Some(FileStatus::Deleted)),
        !is_terminal_status(status) <==> (status == Some(FileStatus::Uploaded) || status == Some(
            FileStatus::Unknown,
        ) || status is None),
{
    match status {
        Some(FileStatus::Uploaded) => {},
        Some(FileStatus::Processed) => {},
        Some(FileStatus::Error) => {},
        Some(FileStatus::Deleted) => {},
        Some(FileStatus::Unknown) => {},
        None => {},
    }
}

/// Waiting that has given up stays given up: a later check is past `max_wait` too.
pub proof fn law_wait_expiry_monotone(earlier: u64, later: u64, poll_interval: u64, max_wait: u64)
    requires
        earlier <= later,
        wait_expired(earlier, poll_interval, max_wait),
    ensures
        wait_expired(later, poll_interval, max_wait),
{
}

} // verus!
