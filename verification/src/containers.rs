//! Containers and the files inside them.
use vstd::prelude::*;
use serde_json::Value;
use std::collections::BTreeMap;
use crate::error::{blank_message, ErrorKind, OpenAIError};
use crate::ids::{encode_path_id, encoded_id, validate_path_id};
use crate::json::{json_quote, json_quoted};
use crate::literal::{opt_literal, Literal, OpenLiteral};
use crate::query::{form_query, opt_pair, opt_u32_decimal, opt_view, path_with_query, QueryPairs, with_query};
use crate::request::{parts_view, plain, ApiRequest, BodyView, HttpMethod, MultipartPart, PartView, RequestBody, RequestView};
use crate::text::{is_blank_spec, push_str, str_eq};

verus! {

/// Memory limit for a container.
#[derive(Clone, Copy, Debug, PartialEq, Eq)]
pub enum ContainerMemoryLimit {
    G1,
    G4,
    G16,
    G64,
}

impl Literal for ContainerMemoryLimit {
    open spec fn literal(&self) -> Seq<char> {
        match self {
            ContainerMemoryLimit::G1 => "1g"@,
            ContainerMemoryLimit::G4 => "4g"@,
            ContainerMemoryLimit::G16 => "16g"@,
            ContainerMemoryLimit::G64 => "64g"@,
        }
    }

    fn to_text(&self) -> (r: String) {
        self.as_str().to_string()
    }
}

impl ContainerMemoryLimit {
    /// The text the API uses for this value.
    pub fn as_str(&self) -> (r: &'static str)
        ensures
            r@ == self.literal(),
    {
        match self {
            ContainerMemoryLimit::G1 => "1g",
            ContainerMemoryLimit::G4 => "4g",
            ContainerMemoryLimit::G16 => "16g",
            ContainerMemoryLimit::G64 => "64g",
        }
    }
}

/// Container list sort direction.
#[derive(Clone, Copy, Debug, PartialEq, Eq)]
pub enum ContainerOrder {
    Asc,
    Desc,
}

impl Literal for ContainerOrder {
    open spec fn literal(&self) -> Seq<char> {
        match self {
            ContainerOrder::Asc => "asc"@,
            ContainerOrder::Desc => "desc"@,
        }
    }

    fn to_text(&self) -> (r: String) {
        self.as_str().to_string()
    }
}

impl ContainerOrder {
    /// The text the API uses for this value.
    pub fn as_str(&self) -> (r: &'static str)
        ensures
            r@ == self.literal(),
    {
        match self {
            ContainerOrder::Asc => "asc",
            ContainerOrder::Desc => "desc",
        }
    }
}

/// Container-file list sort direction.
#[derive(Clone, Copy, Debug, PartialEq, Eq)]
pub enum ContainerFileOrder {
    Asc,
    Desc,
}

impl Literal for ContainerFileOrder {
    open spec fn literal(&self) -> Seq<char> {
        match self {
            ContainerFileOrder::Asc => "asc"@,
            ContainerFileOrder::Desc => "desc"@,
        }
    }

    fn to_text(&self) -> (r: String) {
        self.as_str().to_string()
    }
}

impl ContainerFileOrder {
    /// The text the API uses for this value.
    pub fn as_str(&self) -> (r: &'static str)
        ensures
            r@ == self.literal(),
    {
        match self {
            ContainerFileOrder::Asc => "asc",
            ContainerFileOrder::Desc => "desc",
        }
    }
}

/// Lifecycle status of a container.
#[derive(Clone, Debug, PartialEq, Eq)]
pub enum ContainerStatus {
    Running,
    Deleted,
    Failed,
    Creating,
    /// A value this library does not know, kept as received.
    Unknown(String),
}

impl Literal for ContainerStatus {
    open spec fn literal(&self) -> Seq<char> {
        match self {
            ContainerStatus::Running => "running"@,
            ContainerStatus::Deleted => "deleted"@,
            ContainerStatus::Failed => "failed"@,
            ContainerStatus::Creating => "creating"@,
            ContainerStatus::Unknown(text) => text@,
        }
    }

    fn to_text(&self) -> (r: String) {
        self.as_str().to_string()
    }
}

impl OpenLiteral for ContainerStatus {
    open spec fn known(text: Seq<char>) -> Option<ContainerStatus> {
        if text == "running"@ {
            Some(ContainerStatus::Running)
        } else if text == "deleted"@ {
            Some(ContainerStatus::Deleted)
        } else if text == "failed"@ {
            Some(ContainerStatus::Failed)
        } else if text == "creating"@ {
            Some(ContainerStatus::Creating)
        } else {
            None
        }
    }

    open spec fn is_unknown(&self) -> bool {
        self is Unknown
    }

    proof fn lemma_known_literal(value: Self) {
        reveal_strlit("running");
        reveal_strlit("deleted");
        reveal_strlit("failed");
        reveal_strlit("creating");
        assert("running"@.len() == 7);
        assert("deleted"@.len() == 7);
        assert("failed"@.len() == 6);
        assert("creating"@.len() == 8);
        assert("running"@[0] == 'r');
        assert("deleted"@[0] == 'd');
    }

    proof fn lemma_known_text(text: Seq<char>) {
    }
}

impl ContainerStatus {
    /// The text the API uses for this value.
    pub fn as_str(&self) -> (r: &str)
        ensures
            r@ == self.literal(),
    {
        match self {
            ContainerStatus::Running => "running",
            ContainerStatus::Deleted => "deleted",
            ContainerStatus::Failed => "failed",
            ContainerStatus::Creating => "creating",
            ContainerStatus::Unknown(text) => text.as_str(),
        }
    }

    /// The value a text names; a text no variant uses is kept as `Unknown`.
    pub fn from_text(value: &str) -> (r: ContainerStatus)
        ensures
            r.literal() == value@,
            r.is_unknown() == (ContainerStatus::known(value@) is None),
            ContainerStatus::known(value@) matches Some(k) ==> r == k,
    {
        if str_eq(value, "running") {
            ContainerStatus::Running
        } else if str_eq(value, "deleted") {
            ContainerStatus::Deleted
        } else if str_eq(value, "failed") {
            ContainerStatus::Failed
        } else if str_eq(value, "creating") {
            ContainerStatus::Creating
        } else {
            ContainerStatus::Unknown(value.to_string())
        }
    }
}


/// Who put a file in a container.
#[derive(Clone, Debug, PartialEq, Eq)]
pub enum ContainerFileSource {
    User,
    Assistant,
    /// A value this library does not know, kept as received.
    Unknown(String),
}

impl Literal for ContainerFileSource {
    open spec fn literal(&self) -> Seq<char> {
        match self {
            ContainerFileSource::User => "user"@,
            ContainerFileSource::Assistant => "assistant"@,
            ContainerFileSource::Unknown(text) => text@,
        }
    }

    fn to_text(&self) -> (r: String) {
        self.as_str().to_string()
    }
}

impl OpenLiteral for ContainerFileSource {
    open spec fn known(text: Seq<char>) -> Option<ContainerFileSource> {
        if text == "user"@ {
            Some(ContainerFileSource::User)
        } else if text == "assistant"@ {
            Some(ContainerFileSource::Assistant)
        } else {
            None
        }
    }

    open spec fn is_unknown(&self) -> bool {
        self is Unknown
    }

    proof fn lemma_known_literal(value: Self) {
        reveal_strlit("user");
        reveal_strlit("assistant");
        assert("user"@.len() == 4);
        assert("assistant"@.len() == 9);
    }

    proof fn lemma_known_text(text: Seq<char>) {
    }
}

impl ContainerFileSource {
    /// The text the API uses for this value.
    pub fn as_str(&self) -> (r: &str)
        ensures
            r@ == self.literal(),
    {
        match self {
            ContainerFileSource::User => "user",
            ContainerFileSource::Assistant => "assistant",
            ContainerFileSource::Unknown(text) => text.as_str(),
        }
    }

    /// The value a text names; a text no variant uses is kept as `Unknown`.
    pub fn from_text(value: &str) -> (r: ContainerFileSource)
        ensures
            r.literal() == value@,
            r.is_unknown() == (ContainerFileSource::known(value@) is None),
            ContainerFileSource::known(value@) matches Some(k) ==> r == k,
    {
        if str_eq(value, "user") {
            ContainerFileSource::User
        } else if str_eq(value, "assistant") {
            ContainerFileSource::Assistant
        } else {
            ContainerFileSource::Unknown(value.to_string())
        }
    }
}


/// Container creation parameters.
#[derive(Clone, Debug, PartialEq)]
pub struct ContainerCreateParams {
    pub name: String,
    pub expires_after: Option<ContainerExpiresAfter>,
    pub file_ids: Option<Vec<String>>,
    pub memory_limit: Option<ContainerMemoryLimit>,
    pub network_policy: Option<ContainerNetworkPolicy>,
    pub skills: Option<Vec<ContainerSkill>>,
}

/// Container expiration policy.
#[derive(Clone, Debug, Default, PartialEq, Eq)]
pub struct ContainerExpiresAfter {
    pub anchor: String,
    pub minutes: u64,
}

/// Container network policy.
#[derive(Clone, Debug, Eq, PartialEq)]
pub enum ContainerNetworkPolicy {
    Allowlist {
        allowed_domains: Vec<String>,
        domain_secrets: Option<Vec<DomainSecret>>,
    },
    Disabled,
}

/// Documented read-time container network policy.
#[derive(Clone, Debug, Eq, PartialEq)]
pub enum ContainerReadNetworkPolicy {
    Allowlist { allowed_domains: Vec<String> },
    Disabled,
}

/// Domain-scoped secret injected into an allowlisted network policy.
#[derive(Clone, Debug, Default, Eq, PartialEq)]
pub struct DomainSecret {
    pub domain: String,
    pub name: String,
    pub value: String,
}

/// Skill selector supported by containers.
#[derive(Clone, Debug, PartialEq)]
pub enum ContainerSkill {
    Reference(ContainerSkillReference),
    Inline(ContainerInlineSkill),
}

/// Reference to a persisted skill.
#[derive(Clone, Debug, Eq, PartialEq)]
pub struct ContainerSkillReference {
    pub skill_id: String,
    pub kind: String,
    pub version: Option<String>,
}

/// Inline skill payload.
#[derive(Clone, Debug, Eq, PartialEq)]
pub struct ContainerInlineSkill {
    pub description: String,
    pub name: String,
    pub source: ContainerInlineSkillSource,
    pub kind: String,
}

/// Inline skill source metadata.
#[derive(Clone, Debug, Eq, PartialEq)]
pub struct ContainerInlineSkillSource {
    pub data: String,
    pub media_type: String,
    pub source_type: String,
}

/// Typed container resource.
#[derive(Clone, Debug, Default, PartialEq)]
pub struct Container {
    pub id: String,
    pub object: String,
    pub created_at: u64,
    pub status: Option<ContainerStatus>,
    pub name: String,
    pub expires_after: Option<ContainerExpiresAfter>,
    pub last_active_at: Option<u64>,
    pub memory_limit: Option<ContainerMemoryLimit>,
    pub network_policy: Option<ContainerReadNetworkPolicy>,
    pub extra: BTreeMap<String, Value>,
}

/// Multipart upload file input for container files.
#[derive(Clone, Debug, Eq, PartialEq)]
pub struct ContainerFileUpload {
    pub filename: String,
    pub content_type: String,
    pub bytes: Vec<u8>,
}

/// Container-file create input.
#[derive(Clone, Debug, Eq, PartialEq)]
pub enum ContainerFileCreateParams {
    Upload(ContainerFileUpload),
    FileId(String),
}

/// Typed container-file metadata.
#[derive(Clone, Debug, Default, PartialEq)]
pub struct ContainerFile {
    pub id: String,
    pub object: String,
    pub created_at: u64,
    pub bytes: u64,
    pub container_id: String,
    pub path: String,
    pub source: Option<ContainerFileSource>,
    pub extra: BTreeMap<String, Value>,
}

/// Container-file deletion result.
#[derive(Clone, Debug, Default, PartialEq)]
pub struct ContainerFileDeleteResponse {
    pub id: String,
    pub object: String,
    pub deleted: bool,
    pub container_id: String,
    pub extra: BTreeMap<String, Value>,
}

impl Default for ContainerStatus {
    fn default() -> (r: ContainerStatus)
        ensures
            r matches ContainerStatus::Unknown(s) && s@ == "unknown"@,
    {
        ContainerStatus::Unknown("unknown".to_string())
    }
}

impl Default for ContainerFileSource {
    fn default() -> (r: ContainerFileSource)
        ensures
            r matches ContainerFileSource::Unknown(s) && s@ == "unknown"@,
    {
        ContainerFileSource::Unknown("unknown".to_string())
    }
}

impl ContainerSkillReference {
    /// A reference to a persisted skill, at its default version.
    pub fn new(skill_id: String) -> (r: ContainerSkillReference)
        ensures
            r.skill_id == skill_id,
            r.kind@ == "skill_reference"@,
            r.version is None,
    {
        ContainerSkillReference { skill_id, kind: "skill_reference".to_string(), version: None }
    }
}

impl ContainerInlineSkill {
    pub fn new(name: String, description: String, source: ContainerInlineSkillSource) -> (r: ContainerInlineSkill)
        ensures
            r.name == name,
            r.description == description,
            r.source == source,
            r.kind@ == "inline"@,
    {
        ContainerInlineSkill { description, name, source, kind: "inline".to_string() }
    }
}

impl ContainerInlineSkillSource {
    /// A base64 zip archive.
    pub fn new(data: String) -> (r: ContainerInlineSkillSource)
        ensures
            r.data == data,
            r.media_type@ == "application/zip"@,
            r.source_type@ == "base64"@,
    {
        ContainerInlineSkillSource {
            data,
            media_type: "application/zip".to_string(),
            source_type: "base64".to_string(),
        }
    }
}

impl ContainerFileUpload {
    pub fn new(filename: String, content_type: String, bytes: Vec<u8>) -> (f: ContainerFileUpload)
        ensures
            f.filename == filename,
            f.content_type == content_type,
            f.bytes == bytes,
    {
        ContainerFileUpload { filename, content_type, bytes }
    }
}

/// List parameters for containers.
#[derive(Clone, Debug, Default, PartialEq, Eq)]
pub struct ContainerListParams {
    pub after: Option<String>,
    pub limit: Option<u32>,
    pub name: Option<String>,
    pub order: Option<ContainerOrder>,
}

/// The query of a container listing: `after`, `limit`, `name`, `order`.
pub open spec fn container_list_pairs(p: ContainerListParams) -> Seq<(Seq<char>, Seq<char>)> {
    opt_pair("after"@, opt_view(p.after)) + opt_pair("limit"@, opt_u32_decimal(p.limit)) + opt_pair(
        "name"@,
        opt_view(p.name),
    ) + opt_pair("order"@, opt_literal(p.order))
}

/// Container-file list parameters.
#[derive(Clone, Debug, Default, PartialEq, Eq)]
pub struct ContainerFileListParams {
    pub after: Option<String>,
    pub limit: Option<u32>,
    pub order: Option<ContainerFileOrder>,
}

/// The query of a container-file listing: `after`, `limit`, `order`.
pub open spec fn container_file_list_pairs(p: ContainerFileListParams) -> Seq<(Seq<char>, Seq<char>)> {
    opt_pair("after"@, opt_view(p.after)) + opt_pair("limit"@, opt_u32_decimal(p.limit)) + opt_pair(
        "order"@,
        opt_literal(p.order),
    )
}

/// Cursor page of containers.
#[derive(Clone, Debug, Default)]
pub struct ContainersPage {
    pub object: String,
    pub data: Vec<Container>,
    pub has_more: bool,
    pub extra: BTreeMap<String, Value>,
}

impl ContainersPage {
    pub fn has_next_page(&self) -> (b: bool)
        ensures
            b == self.has_more,
    {
        self.has_more
    }

    /// The id of the last container, when more pages follow.
    pub fn next_after(&self) -> (r: Option<&str>)
        ensures
            r is Some <==> (self.has_more && self.data@.len() > 0),
            r matches Some(id) ==> id@ == self.data@.last().id@,
    {
        if self.has_more && self.data.len() > 0 {
            Some(self.data[self.data.len() - 1].id.as_str())
        } else {
            None
        }
    }
}

/// Cursor page of container files.
#[derive(Clone, Debug, Default)]
pub struct ContainerFilesPage {
    pub object: String,
    pub data: Vec<ContainerFile>,
    pub has_more: bool,
    pub extra: BTreeMap<String, Value>,
}

impl ContainerFilesPage {
    pub fn has_next_page(&self) -> (b: bool)
        ensures
            b == self.has_more,
    {
        self.has_more
    }

    /// The id of the last file, when more pages follow.
    pub fn next_after(&self) -> (r: Option<&str>)
        ensures
            r is Some <==> (self.has_more && self.data@.len() > 0),
            r matches Some(id) ==> id@ == self.data@.last().id@,
    {
        if self.has_more && self.data.len() > 0 {
            Some(self.data[self.data.len() - 1].id.as_str())
        } else {
            None
        }
    }
}

/// A request with one `accept` header.
pub open spec fn accepting(method: HttpMethod, path: Seq<char>, body: BodyView, accept: Seq<char>) -> RequestView {
    RequestView { method, path, headers: seq![("accept"@, accept)], body }
}

/// The path of one container.
pub open spec fn container_path(id: Seq<char>) -> Seq<char> {
    "/containers/"@ + encoded_id(id)
}

/// The path of one file of a container.
pub open spec fn container_file_path(container: Seq<char>, file: Seq<char>) -> Seq<char> {
    container_path(container) + "/files/"@ + encoded_id(file)
}

fn container_path_of(id: &str) -> (r: Result<String, OpenAIError>)
    ensures
        r is Ok <==> !is_blank_spec(id@),
        r matches Ok(p) ==> p@ == container_path(id@),
        r matches Err(e) ==> e.kind == ErrorKind::Validation && e.message@ == blank_message("container_id"@),
{
    let id = encode_path_id(validate_path_id("container_id", id)?);
    let mut path = "/containers/".to_string();
    push_str(&mut path, id.as_str());
    Ok(path)
}

fn container_file_path_of(container_id: &str, file_id: &str) -> (r: Result<String, OpenAIError>)
    ensures
        r is Ok <==> (!is_blank_spec(container_id@) && !is_blank_spec(file_id@)),
        r matches Ok(p) ==> p@ == container_file_path(container_id@, file_id@),
        r matches Err(e) ==> e.kind == ErrorKind::Validation && e.message@ == blank_message(
            if is_blank_spec(container_id@) {
                "container_id"@
            } else {
                "file_id"@
            },
        ),
{
    let mut path = container_path_of(container_id)?;
    let file = encode_path_id(validate_path_id("file_id", file_id)?);
    push_str(&mut path, "/files/");
    push_str(&mut path, file.as_str());
    Ok(path)
}

/// Containers API family.
#[derive(Clone, Copy, Debug)]
pub struct Containers {}

impl Containers {
    pub fn new() -> Containers {
        Containers {}
    }

    /// The nested container-files surface.
    pub fn files(&self) -> ContainerFiles {
        ContainerFiles::new()
    }

    /// Creates a container; `body` is the serialized [`ContainerCreateParams`].
    pub fn create(&self, body: String) -> (r: ApiRequest)
        ensures
            r@ == plain(HttpMethod::Post, "/containers"@, BodyView::Json(body@)),
    {
        ApiRequest::new(HttpMethod::Post, "/containers".to_string(), RequestBody::Json(body))
    }

    pub fn retrieve(&self, container_id: &str) -> (r: Result<ApiRequest, OpenAIError>)
        ensures
            r is Ok <==> !is_blank_spec(container_id@),
            r matches Ok(req) ==> req@ == plain(HttpMethod::Get, container_path(container_id@), BodyView::Empty),
            r matches Err(e) ==> e.kind == ErrorKind::Validation && e.message@ == blank_message("container_id"@),
    {
        let path = container_path_of(container_id)?;
        Ok(ApiRequest::new(HttpMethod::Get, path, RequestBody::Empty))
    }

    pub fn list(&self, params: ContainerListParams) -> (r: ApiRequest)
        ensures
            r@ == plain(
                HttpMethod::Get,
                with_query(
                    "/containers"@,
                    form_query(container_list_pairs(params)),
                    container_list_pairs(params).len() > 0,
                ),
                BodyView::Empty,
            ),
    {
        let mut q = QueryPairs::new();
        q.push_opt("after", params.after);
        q.push_opt_u32("limit", params.limit);
        q.push_opt("name", params.name);
        q.push_opt_literal("order", &params.order);
        let path = path_with_query("/containers".to_string(), q.pairs());
        ApiRequest::new(HttpMethod::Get, path, RequestBody::Empty)
    }

    /// Deletes a container; an empty success body is expected.
    pub fn delete(&self, container_id: &str) -> (r: Result<ApiRequest, OpenAIError>)
        ensures
            r is Ok <==> !is_blank_spec(container_id@),
            r matches Ok(req) ==> req@ == plain(HttpMethod::Delete, container_path(container_id@), BodyView::Empty),
            r matches Err(e) ==> e.kind == ErrorKind::Validation && e.message@ == blank_message("container_id"@),
    {
        let path = container_path_of(container_id)?;
        Ok(ApiRequest::new(HttpMethod::Delete, path, RequestBody::Empty))
    }
}

/// Files inside containers.
#[derive(Clone, Copy, Debug)]
pub struct ContainerFiles {}

/// The JSON body that copies an existing file into a container.
pub open spec fn file_id_body(file_id: Seq<char>) -> Seq<char> {
    "{"@ + json_quoted("file_id"@) + ":"@ + json_quoted(file_id) + "}"@
}

impl ContainerFiles {
    pub fn new() -> ContainerFiles {
        ContainerFiles {}
    }

    /// Creates a container file from uploaded bytes (a multipart form) or by
    /// copying an existing file (a JSON body naming it).
    pub fn create(&self, container_id: &str, params: ContainerFileCreateParams) -> (r: Result<
        ApiRequest,
        OpenAIError,
    >)
        ensures
            is_blank_spec(container_id@) ==> (r matches Err(e) && e.kind == ErrorKind::Validation && e.message@
                == blank_message("container_id"@)),
            !is_blank_spec(container_id@) ==> match params {
                ContainerFileCreateParams::Upload(f) => r matches Ok(req) && req@ == accepting(
                    HttpMethod::Post,
                    container_path(container_id@) + "/files"@,
                    BodyView::Multipart(
                        seq![
                            PartView::File {
                                name: "file"@,
                                filename: f.filename@,
                                content_type: f.content_type@,
                                bytes: f.bytes@,
                            },
                        ],
                    ),
                    "application/json"@,
                ),
                ContainerFileCreateParams::FileId(id) => if is_blank_spec(id@) {
                    r matches Err(e) && e.kind == ErrorKind::Validation && e.message@ == blank_message("file_id"@)
                } else {
                    r matches Ok(req) && req@ == plain(
                        HttpMethod::Post,
                        container_path(container_id@) + "/files"@,
                        BodyView::Json(file_id_body(id@)),
                    )
                },
            },
    {
        let mut path = container_path_of(container_id)?;
        push_str(&mut path, "/files");
        match params {
            ContainerFileCreateParams::Upload(file) => {
                let ghost f = file;
                let mut parts: Vec<MultipartPart> = Vec::new();
                parts.push(
                    MultipartPart::File {
                        name: "file".to_string(),
                        filename: file.filename,
                        content_type: file.content_type,
                        bytes: file.bytes,
                    },
                );
                assert(parts_view(parts@) =~= seq![
                    PartView::File {
                        name: "file"@,
                        filename: f.filename@,
                        content_type: f.content_type@,
                        bytes: f.bytes@,
                    },
                ]);
                let r = ApiRequest::new(HttpMethod::Post, path, RequestBody::Multipart(parts)).with_header(
                    "accept",
                    "application/json",
                );
                assert(r@.headers =~= seq![("accept"@, "application/json"@)]);
                Ok(r)
            },
            ContainerFileCreateParams::FileId(file_id) => {
                let id = validate_path_id("file_id", file_id.as_str())?;
                let mut body = "{".to_string();
                push_str(&mut body, json_quote("file_id").as_str());
                push_str(&mut body, ":");
                push_str(&mut body, json_quote(id).as_str());
                push_str(&mut body, "}");
                Ok(ApiRequest::new(HttpMethod::Post, path, RequestBody::Json(body)))
            },
        }
    }

    pub fn retrieve(&self, container_id: &str, file_id: &str) -> (r: Result<ApiRequest, OpenAIError>)
        ensures
            r is Ok <==> (!is_blank_spec(container_id@) && !is_blank_spec(file_id@)),
            r matches Ok(req) ==> req@ == plain(
                HttpMethod::Get,
                container_file_path(container_id@, file_id@),
                BodyView::Empty,
            ),
            r matches Err(e) ==> e.kind == ErrorKind::Validation && e.message@ == blank_message(
                if is_blank_spec(container_id@) {
                    "container_id"@
                } else {
                    "file_id"@
                },
            ),
    {
        let path = container_file_path_of(container_id, file_id)?;
        Ok(ApiRequest::new(HttpMethod::Get, path, RequestBody::Empty))
    }

    pub fn list(&self, container_id: &str, params: ContainerFileListParams) -> (r: Result<ApiRequest, OpenAIError>)
        ensures
            r is Ok <==> !is_blank_spec(container_id@),
            r matches Ok(req) ==> req@ == plain(
                HttpMethod::Get,
                with_query(
                    container_path(container_id@) + "/files"@,
                    form_query(container_file_list_pairs(params)),
                    container_file_list_pairs(params).len() > 0,
                ),
                BodyView::Empty,
            ),
            r matches Err(e) ==> e.kind == ErrorKind::Validation && e.message@ == blank_message("container_id"@),
    {
        let mut path = container_path_of(container_id)?;
        push_str(&mut path, "/files");
        let mut q = QueryPairs::new();
        q.push_opt("after", params.after);
        q.push_opt_u32("limit", params.limit);
        q.push_opt_literal("order", &params.order);
        Ok(ApiRequest::new(HttpMethod::Get, path_with_query(path, q.pairs()), RequestBody::Empty))
    }

    /// Downloads the bytes of a container file.
    pub fn content(&self, container_id: &str, file_id: &str) -> (r: Result<ApiRequest, OpenAIError>)
        ensures
            r is Ok <==> (!is_blank_spec(container_id@) && !is_blank_spec(file_id@)),
            r matches Ok(req) ==> req@ == accepting(
                HttpMethod::Get,
                container_file_path(container_id@, file_id@) + "/content"@,
                BodyView::Empty,
                "application/binary"@,
            ),
            r matches Err(e) ==> e.kind == ErrorKind::Validation && e.message@ == blank_message(
                if is_blank_spec(container_id@) {
                    "container_id"@
                } else {
                    "file_id"@
                },
            ),
    {
        let mut path = container_file_path_of(container_id, file_id)?;
        push_str(&mut path, "/content");
        let r = ApiRequest::new(HttpMethod::Get, path, RequestBody::Empty).with_header("accept", "application/binary");
        assert(r@.headers =~= seq![("accept"@, "application/binary"@)]);
        Ok(r)
    }

    pub fn delete(&self, container_id: &str, file_id: &str) -> (r: Result<ApiRequest, OpenAIError>)
        ensures
            r is Ok <==> (!is_blank_spec(container_id@) && !is_blank_spec(file_id@)),
            r matches Ok(req) ==> req@ == accepting(
                HttpMethod::Delete,
                container_file_path(container_id@, file_id@),
                BodyView::Empty,
                "*/*"@,
            ),
            r matches Err(e) ==> e.kind == ErrorKind::Validation && e.message@ == blank_message(
                if is_blank_spec(container_id@) {
                    "container_id"@
                } else {
                    "file_id"@
                },
            ),
    {
        let path = container_file_path_of(container_id, file_id)?;
        let r = ApiRequest::new(HttpMethod::Delete, path, RequestBody::Empty).with_header("accept", "*/*");
        assert(r@.headers =~= seq![("accept"@, "*/*"@)]);
        Ok(r)
    }
}

} // verus!
