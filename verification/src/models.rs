//! Models: retrieving, listing and deleting models.
use vstd::prelude::*;
use serde_json::Value;
use std::collections::BTreeMap;
use crate::error::{blank_message, ErrorKind, OpenAIError};
use crate::ids::validate_trimmed_path_id;
use crate::request::{plain, ApiRequest, BodyView, HttpMethod, RequestBody};
use crate::text::{push_str, trim_spec};

verus! {

/// Models API family.
#[derive(Clone, Copy, Debug)]
pub struct Models {}

/// The path of one model: the trimmed id after `/models/`, otherwise as given.
pub open spec fn model_path(id: Seq<char>) -> Seq<char> {
    "/models/"@ + trim_spec(id)
}

impl Models {
    pub fn new() -> Models {
        Models {}
    }

    /// Retrieves a model by id; the id is trimmed and otherwise not rewritten.
    pub fn retrieve(&self, model_id: &str) -> (r: Result<ApiRequest, OpenAIError>)
        ensures
            r is Ok <==> trim_spec(model_id@).len() > 0,
            r matches Ok(req) ==> req@ == plain(HttpMethod::Get, model_path(model_id@), BodyView::Empty),
            r matches Err(e) ==> e.kind == ErrorKind::Validation && e.message@ == blank_message("model_id"@),
    {
        let id = validate_trimmed_path_id("model_id", model_id)?;
        let mut path = "/models/".to_string();
        push_str(&mut path, id);
        Ok(ApiRequest::new(HttpMethod::Get, path, RequestBody::Empty))
    }

    /// Lists models as one page.
    pub fn list(&self) -> (r: ApiRequest)
        ensures
            r@ == plain(HttpMethod::Get, "/models"@, BodyView::Empty),
    {
        ApiRequest::new(HttpMethod::Get, "/models".to_string(), RequestBody::Empty)
    }

    /// Deletes an owned model.
    pub fn delete(&self, model_id: &str) -> (r: Result<ApiRequest, OpenAIError>)
        ensures
            r is Ok <==> trim_spec(model_id@).len() > 0,
            r matches Ok(req) ==> req@ == plain(HttpMethod::Delete, model_path(model_id@), BodyView::Empty),
            r matches Err(e) ==> e.kind == ErrorKind::Validation && e.message@ == blank_message("model_id"@),
    {
        let id = validate_trimmed_path_id("model_id", model_id)?;
        let mut path = "/models/".to_string();
        push_str(&mut path, id);
        Ok(ApiRequest::new(HttpMethod::Delete, path, RequestBody::Empty))
    }
}

/// Typed model object.
#[derive(Clone, Debug, Default)]
pub struct Model {
    pub id: String,
    pub object: String,
    pub created: Option<i64>,
    pub owned_by: Option<String>,
    pub extra: BTreeMap<String, Value>,
}

/// Single-page models list.
#[derive(Clone, Debug, Default)]
pub struct ModelsPage {
    pub object: String,
    pub data: Vec<Model>,
    pub extra: BTreeMap<String, Value>,
}

impl ModelsPage {
    /// The models list is never paged.
    pub fn has_next_page(&self) -> (b: bool)
        ensures
            !b,
    {
        false
    }

    pub fn next_after(&self) -> (r: Option<&str>)
        ensures
            r is None,
    {
        None
    }
}

/// Model deletion marker.
#[derive(Clone, Debug, Default)]
pub struct DeletedModel {
    pub id: String,
    pub object: String,
    pub deleted: bool,
    pub extra: BTreeMap<String, Value>,
}

} // verus!
