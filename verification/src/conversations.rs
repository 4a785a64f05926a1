//! Conversations and their items. Item payloads come from the Responses API
//! and pass through this module as JSON values; the includable names are
//! those of the Responses API.
use vstd::prelude::*;
use serde_json::Value;
use std::collections::BTreeMap;
use crate::common::ListOrder;
use crate::error::{blank_message, ErrorKind, OpenAIError};
use crate::ids::{encode_path_id_unreserved, validate_trimmed_path_id};
use crate::literal::opt_literal;
use crate::query::{form_query, inclusion_key, inclusion_key_text, opt_pair, opt_u32_decimal, opt_view, pairs_view, path_with_query, repeated_pairs, texts_view, with_query, QueryPairs};
use crate::request::{plain, ApiRequest, BodyView, HttpMethod, RequestBody};
use crate::text::{percent_encode_spec, push_str, trim_spec, ByteSet};

verus! {

/// Create-conversation body.
#[derive(Clone, Debug, Default)]
pub struct ConversationCreateParams {
    pub items: Vec<Value>,
    pub metadata: Option<BTreeMap<String, String>>,
    pub extra: BTreeMap<String, Value>,
}

/// Update-conversation body.
#[derive(Clone, Debug, Default)]
pub struct ConversationUpdateParams {
    pub metadata: Option<BTreeMap<String, String>>,
    pub extra: BTreeMap<String, Value>,
}

/// Create-item request: the items and extra fields form the body, the
/// includable names the query.
#[derive(Clone, Debug, Default)]
pub struct ConversationItemCreateParams {
    pub items: Vec<Value>,
    pub includes: Vec<String>,
    pub extra: BTreeMap<String, Value>,
}

impl ConversationItemCreateParams {
    /// One pair per includable name.
    pub fn to_query_pairs(&self) -> (r: Vec<(String, String)>)
        ensures
            pairs_view(r@) == repeated_pairs(inclusion_key(), texts_view(self.includes@)),
    {
        let mut q = QueryPairs::new();
        q.push_repeated(inclusion_key_text().as_str(), &self.includes);
        q.into_vec()
    }
}

/// Retrieve-item query parameters.
#[derive(Clone, Debug, Default, PartialEq, Eq)]
pub struct ConversationItemRetrieveParams {
    pub includes: Vec<String>,
}

impl ConversationItemRetrieveParams {
    /// One pair per includable name.
    pub fn to_query_pairs(&self) -> (r: Vec<(String, String)>)
        ensures
            pairs_view(r@) == repeated_pairs(inclusion_key(), texts_view(self.includes@)),
    {
        let mut q = QueryPairs::new();
        q.push_repeated(inclusion_key_text().as_str(), &self.includes);
        q.into_vec()
    }
}

/// List-items query parameters.
#[derive(Clone, Debug, Default, PartialEq, Eq)]
pub struct ConversationItemListParams {
    pub after: Option<String>,
    pub includes: Vec<String>,
    pub limit: Option<u32>,
    pub order: Option<ListOrder>,
}

/// The query of an item listing: `after`, each includable name, `limit`, `order`.
pub open spec fn item_list_pairs(p: ConversationItemListParams) -> Seq<(Seq<char>, Seq<char>)> {
    opt_pair("after"@, opt_view(p.after)) + repeated_pairs(inclusion_key(), texts_view(p.includes@)) + opt_pair(
        "limit"@,
        opt_u32_decimal(p.limit),
    ) + opt_pair("order"@, opt_literal(p.order))
}

impl ConversationItemListParams {
    pub fn to_query_pairs(&self) -> (r: Vec<(String, String)>)
        ensures
            pairs_view(r@) == item_list_pairs(*self),
    {
        let mut q = QueryPairs::new();
        q.push_opt("after", self.after.clone());
        q.push_repeated(inclusion_key_text().as_str(), &self.includes);
        q.push_opt_u32("limit", self.limit);
        q.push_opt_literal("order", &self.order);
        q.into_vec()
    }
}

/// Typed conversation resource.
#[derive(Clone, Debug)]
pub struct Conversation {
    pub id: String,
    pub object: String,
    pub created_at: i64,
    pub metadata: BTreeMap<String, String>,
    pub extra: BTreeMap<String, Value>,
}

/// Conversation deletion marker.
#[derive(Clone, Debug)]
pub struct ConversationDeletedResource {
    pub id: String,
    pub deleted: bool,
    pub object: String,
    pub extra: BTreeMap<String, Value>,
}

/// A page of conversation items of type `I`.
#[derive(Clone, Debug)]
pub struct ConversationItemList<I> {
    pub object: String,
    pub data: Vec<I>,
    pub first_id: Option<String>,
    pub last_id: Option<String>,
    pub has_more: bool,
    pub extra: BTreeMap<String, Value>,
}

impl<I> ConversationItemList<I> {
    /// More pages follow when the server says so and names the last id.
    pub fn has_next_page(&self) -> (b: bool)
        ensures
            b == (self.has_more && self.last_id is Some),
    {
        self.has_more && self.last_id.is_some()
    }

    pub fn next_after(&self) -> (r: Option<&str>)
        ensures
            r is Some <==> (self.has_more && self.last_id is Some),
            r matches Some(id) ==> id@ == self.last_id->Some_0@,
    {
        match &self.last_id {
            Some(id) => if self.has_more {
                Some(id.as_str())
            } else {
                None
            },
            None => None,
        }
    }
}

/// An identifier in a conversation path: trimmed, then percent-encoded
/// keeping only unreserved characters.
pub open spec fn conversation_segment(id: Seq<char>) -> Seq<char> {
    percent_encode_spec(ByteSet::Unreserved, trim_spec(id))
}

pub open spec fn conversation_path(id: Seq<char>) -> Seq<char> {
    "/conversations/"@ + conversation_segment(id)
}

pub open spec fn item_path(conversation: Seq<char>, item: Seq<char>) -> Seq<char> {
    conversation_path(conversation) + "/items/"@ + conversation_segment(item)
}

fn segment(label: &str, id: &str) -> (r: Result<String, OpenAIError>)
    ensures
        r is Ok <==> trim_spec(id@).len() > 0,
        r matches Ok(s) ==> s@ == conversation_segment(id@),
        r matches Err(e) ==> e.kind == ErrorKind::Validation && e.message@ == blank_message(label@),
{
    let trimmed = validate_trimmed_path_id(label, id)?;
    Ok(encode_path_id_unreserved(trimmed))
}

fn conversation_path_of(id: &str) -> (r: Result<String, OpenAIError>)
    ensures
        r is Ok <==> trim_spec(id@).len() > 0,
        r matches Ok(p) ==> p@ == conversation_path(id@),
        r matches Err(e) ==> e.kind == ErrorKind::Validation && e.message@ == blank_message("conversation_id"@),
{
    let s = segment("conversation_id", id)?;
    let mut path = "/conversations/".to_string();
    push_str(&mut path, s.as_str());
    Ok(path)
}

fn item_path_of(conversation_id: &str, item_id: &str) -> (r: Result<String, OpenAIError>)
    ensures
        r is Ok <==> (trim_spec(conversation_id@).len() > 0 && trim_spec(item_id@).len() > 0),
        r matches Ok(p) ==> p@ == item_path(conversation_id@, item_id@),
        r matches Err(e) ==> e.kind == ErrorKind::Validation && e.message@ == blank_message(
            if trim_spec(conversation_id@).len() == 0 {
                "conversation_id"@
            } else {
                "item_id"@
            },
        ),
{
    let mut path = conversation_path_of(conversation_id)?;
    let s = segment("item_id", item_id)?;
    push_str(&mut path, "/items/");
    push_str(&mut path, s.as_str());
    Ok(path)
}

/// Conversations API family.
#[derive(Clone, Copy, Debug)]
pub struct Conversations {}

impl Conversations {
    pub fn new() -> Conversations {
        Conversations {}
    }

    /// The nested items surface.
    pub fn items(&self) -> Items {
        Items::new()
    }

    /// Creates a conversation; `body` is the serialized [`ConversationCreateParams`].
    pub fn create(&self, body: String) -> (r: ApiRequest)
        ensures
            r@ == plain(HttpMethod::Post, "/conversations"@, BodyView::Json(body@)),
    {
        ApiRequest::new(HttpMethod::Post, "/conversations".to_string(), RequestBody::Json(body))
    }

    pub fn retrieve(&self, conversation_id: &str) -> (r: Result<ApiRequest, OpenAIError>)
        ensures
            r is Ok <==> trim_spec(conversation_id@).len() > 0,
            r matches Ok(req) ==> req@ == plain(HttpMethod::Get, conversation_path(conversation_id@), BodyView::Empty),
            r matches Err(e) ==> e.kind == ErrorKind::Validation && e.message@ == blank_message("conversation_id"@),
    {
        let path = conversation_path_of(conversation_id)?;
        Ok(ApiRequest::new(HttpMethod::Get, path, RequestBody::Empty))
    }

    /// Updates a conversation's metadata; `body` is the serialized [`ConversationUpdateParams`].
    pub fn update(&self, conversation_id: &str, body: String) -> (r: Result<ApiRequest, OpenAIError>)
        ensures
            r is Ok <==> trim_spec(conversation_id@).len() > 0,
            r matches Ok(req) ==> req@ == plain(
                HttpMethod::Post,
                conversation_path(conversation_id@),
                BodyView::Json(body@),
            ),
            r matches Err(e) ==> e.kind == ErrorKind::Validation && e.message@ == blank_message("conversation_id"@),
    {
        let path = conversation_path_of(conversation_id)?;
        Ok(ApiRequest::new(HttpMethod::Post, path, RequestBody::Json(body)))
    }

    pub fn delete(&self, conversation_id: &str) -> (r: Result<ApiRequest, OpenAIError>)
        ensures
            r is Ok <==> trim_spec(conversation_id@).len() > 0,
            r matches Ok(req) ==> req@ == plain(
                HttpMethod::Delete,
                conversation_path(conversation_id@),
                BodyView::Empty,
            ),
            r matches Err(e) ==> e.kind == ErrorKind::Validation && e.message@ == blank_message("conversation_id"@),
    {
        let path = conversation_path_of(conversation_id)?;
        Ok(ApiRequest::new(HttpMethod::Delete, path, RequestBody::Empty))
    }
}

/// Items of a conversation.
#[derive(Clone, Copy, Debug)]
pub struct Items {}

impl Items {
    pub fn new() -> Items {
        Items {}
    }

    /// Adds items to a conversation. `params` gives the query; `body` is the
    /// items and extra fields serialized as one JSON object.
    pub fn create(&self, conversation_id: &str, params: &ConversationItemCreateParams, body: Value) -> (r: Result<
        ApiRequest,
        OpenAIError,
    >)
        ensures
            r is Ok <==> trim_spec(conversation_id@).len() > 0,
            r matches Ok(req) ==> req@ == plain(
                HttpMethod::Post,
                with_query(
                    conversation_path(conversation_id@) + "/items"@,
                    form_query(repeated_pairs(inclusion_key(), texts_view(params.includes@))),
                    params.includes@.len() > 0,
                ),
                BodyView::JsonValue(body),
            ),
            r matches Err(e) ==> e.kind == ErrorKind::Validation && e.message@ == blank_message("conversation_id"@),
    {
        let mut path = conversation_path_of(conversation_id)?;
        push_str(&mut path, "/items");
        let pairs = params.to_query_pairs();
        Ok(ApiRequest::new(HttpMethod::Post, path_with_query(path, pairs.as_slice()), RequestBody::JsonValue(body)))
    }

    pub fn retrieve(&self, conversation_id: &str, item_id: &str, params: ConversationItemRetrieveParams) -> (r: Result<
        ApiRequest,
        OpenAIError,
    >)
        ensures
            r is Ok <==> (trim_spec(conversation_id@).len() > 0 && trim_spec(item_id@).len() > 0),
            r matches Ok(req) ==> req@ == plain(
                HttpMethod::Get,
                with_query(
                    item_path(conversation_id@, item_id@),
                    form_query(repeated_pairs(inclusion_key(), texts_view(params.includes@))),
                    params.includes@.len() > 0,
                ),
                BodyView::Empty,
            ),
            r matches Err(e) ==> e.kind == ErrorKind::Validation && e.message@ == blank_message(
                if trim_spec(conversation_id@).len() == 0 {
                    "conversation_id"@
                } else {
                    "item_id"@
                },
            ),
    {
        let path = item_path_of(conversation_id, item_id)?;
        let pairs = params.to_query_pairs();
        Ok(ApiRequest::new(HttpMethod::Get, path_with_query(path, pairs.as_slice()), RequestBody::Empty))
    }

    pub fn list(&self, conversation_id: &str, params: ConversationItemListParams) -> (r: Result<
        ApiRequest,
        OpenAIError,
    >)
        ensures
            r is Ok <==> trim_spec(conversation_id@).len() > 0,
            r matches Ok(req) ==> req@ == plain(
                HttpMethod::Get,
                with_query(
                    conversation_path(conversation_id@) + "/items"@,
                    form_query(item_list_pairs(params)),
                    item_list_pairs(params).len() > 0,
                ),
                BodyView::Empty,
            ),
            r matches Err(e) ==> e.kind == ErrorKind::Validation && e.message@ == blank_message("conversation_id"@),
    {
        let mut path = conversation_path_of(conversation_id)?;
        push_str(&mut path, "/items");
        let pairs = params.to_query_pairs();
        Ok(ApiRequest::new(HttpMethod::Get, path_with_query(path, pairs.as_slice()), RequestBody::Empty))
    }

    /// Deletes an item; the answer is the updated conversation.
    pub fn delete(&self, conversation_id: &str, item_id: &str) -> (r: Result<ApiRequest, OpenAIError>)
        ensures
            r is Ok <==> (trim_spec(conversation_id@).len() > 0 && trim_spec(item_id@).len() > 0),
            r matches Ok(req) ==> req@ == plain(HttpMethod::Delete, item_path(conversation_id@, item_id@), BodyView::Empty),
            r matches Err(e) ==> e.kind == ErrorKind::Validation && e.message@ == blank_message(
                if trim_spec(conversation_id@).len() == 0 {
                    "conversation_id"@
                } else {
                    "item_id"@
                },
            ),
    {
        let path = item_path_of(conversation_id, item_id)?;
        Ok(ApiRequest::new(HttpMethod::Delete, path, RequestBody::Empty))
    }
}

} // verus!
