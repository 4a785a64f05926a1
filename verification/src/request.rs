//! What an endpoint call sends: method, path, extra headers and body. The
//! library decides all of it; the transport that sends it lives outside.
use vstd::prelude::*;
use crate::query::pairs_view;

verus! {

/// HTTP verbs the API uses.
#[derive(Clone, Copy, Debug, PartialEq, Eq)]
pub enum HttpMethod {
    Get,
    Post,
    Delete,
}

/// One part of a multipart/form-data body.
#[derive(Clone, Debug)]
pub enum MultipartPart {
    /// A text field.
    Text { name: String, value: String },
    /// An uploaded file.
    File { name: String, filename: String, content_type: String, bytes: Vec<u8> },
}

/// What a multipart part is made of.
pub enum PartView {
    Text { name: Seq<char>, value: Seq<char> },
    File { name: Seq<char>, filename: Seq<char>, content_type: Seq<char>, bytes: Seq<u8> },
}

impl View for MultipartPart {
    type V = PartView;

    open spec fn view(&self) -> PartView {
        match self {
            MultipartPart::Text { name, value } => PartView::Text { name: name@, value: value@ },
            MultipartPart::File { name, filename, content_type, bytes } => PartView::File {
                name: name@,
                filename: filename@,
                content_type: content_type@,
                bytes: bytes@,
            },
        }
    }
}

/// The parts of a multipart body, in order.
pub open spec fn parts_view(parts: Seq<MultipartPart>) -> Seq<PartView> {
    parts.map_values(|p: MultipartPart| p@)
}

pub fn text_part(name: &str, value: String) -> (p: MultipartPart)
    ensures
        p@ == (PartView::Text { name: name@, value: value@ }),
{
    MultipartPart::Text { name: name.to_string(), value }
}

/// The body of a request.
#[derive(Clone, Debug)]
pub enum RequestBody {
    Empty,
    /// A JSON document, already serialized.
    Json(String),
    /// A JSON document the transport serializes.
    JsonValue(serde_json::Value),
    /// A multipart/form-data form.
    Multipart(Vec<MultipartPart>),
}

pub enum BodyView {
    Empty,
    Json(Seq<char>),
    JsonValue(serde_json::Value),
    Multipart(Seq<PartView>),
}

impl View for RequestBody {
    type V = BodyView;

    open spec fn view(&self) -> BodyView {
        match self {
            RequestBody::Empty => BodyView::Empty,
            RequestBody::Json(text) => BodyView::Json(text@),
            RequestBody::JsonValue(value) => BodyView::JsonValue(*value),
            RequestBody::Multipart(parts) => BodyView::Multipart(parts_view(parts@)),
        }
    }
}

/// A request ready for the transport.
#[derive(Clone, Debug)]
pub struct ApiRequest {
    pub method: HttpMethod,
    /// Path below the API base URL, with its query string.
    pub path: String,
    /// Headers added to the client's defaults, in order.
    pub headers: Vec<(String, String)>,
    pub body: RequestBody,
}

pub struct RequestView {
    pub method: HttpMethod,
    pub path: Seq<char>,
    pub headers: Seq<(Seq<char>, Seq<char>)>,
    pub body: BodyView,
}

impl View for ApiRequest {
    type V = RequestView;

    open spec fn view(&self) -> RequestView {
        RequestView {
            method: self.method,
            path: self.path@,
            headers: pairs_view(self.headers@),
            body: self.body@,
        }
    }
}

/// A request without extra headers.
pub open spec fn plain(method: HttpMethod, path: Seq<char>, body: BodyView) -> RequestView {
    RequestView { method, path, headers: seq![], body }
}

/// `openai-beta` header value of the Assistants API.
pub open spec fn assistants_beta() -> Seq<char> {
    "assistants=v2"@
}

/// `openai-beta` header value of the ChatKit API.
pub open spec fn chatkit_beta() -> Seq<char> {
    "chatkit_beta=v1"@
}

/// A request that asks for JSON under the given `openai-beta` flag.
pub open spec fn beta_json(
    beta: Seq<char>,
    method: HttpMethod,
    path: Seq<char>,
    body: BodyView,
) -> RequestView {
    RequestView {
        method,
        path,
        headers: match body {
            BodyView::Json(_) => seq![("openai-beta"@, beta)],
            _ => seq![("accept"@, "application/json"@), ("openai-beta"@, beta)],
        },
        body,
    }
}

impl ApiRequest {
    pub fn new(method: HttpMethod, path: String, body: RequestBody) -> (r: ApiRequest)
        ensures
            r@ == plain(method, path@, body@),
    {
        let r = ApiRequest { method, path, headers: Vec::new(), body };
        assert(pairs_view(r.headers@) =~= Seq::<(Seq<char>, Seq<char>)>::empty());
        r
    }

    pub fn get(path: String) -> (r: ApiRequest)
        ensures
            r@ == plain(HttpMethod::Get, path@, BodyView::Empty),
    {
        ApiRequest::new(HttpMethod::Get, path, RequestBody::Empty)
    }

    pub fn post(path: String) -> (r: ApiRequest)
        ensures
            r@ == plain(HttpMethod::Post, path@, BodyView::Empty),
    {
        ApiRequest::new(HttpMethod::Post, path, RequestBody::Empty)
    }

    pub fn post_json(path: String, body: String) -> (r: ApiRequest)
        ensures
            r@ == plain(HttpMethod::Post, path@, BodyView::Json(body@)),
    {
        ApiRequest::new(HttpMethod::Post, path, RequestBody::Json(body))
    }

    pub fn delete(path: String) -> (r: ApiRequest)
        ensures
            r@ == plain(HttpMethod::Delete, path@, BodyView::Empty),
    {
        ApiRequest::new(HttpMethod::Delete, path, RequestBody::Empty)
    }

    /// Appends a header.
    pub fn with_header(self, name: &str, value: &str) -> (r: ApiRequest)
        ensures
            r@ == (RequestView { headers: self@.headers.push((name@, value@)), ..self@ }),
    {
        let mut r = self;
        r.headers.push((name.to_string(), value.to_string()));
        assert(pairs_view(r.headers@) =~= pairs_view(self.headers@).push((name@, value@)));
        r
    }

    /// A request under an `openai-beta` flag; JSON is asked for unless a JSON body goes out.
    pub fn beta(beta: &str, method: HttpMethod, path: String, body: RequestBody) -> (r: ApiRequest)
        ensures
            r@ == beta_json(beta@, method, path@, body@),
    {
        let is_json = match &body {
            RequestBody::Json(_) => true,
            _ => false,
        };
        let r = ApiRequest::new(method, path, body);
        if is_json {
            let r = r.with_header("openai-beta", beta);
            assert(r@.headers =~= seq![("openai-beta"@, beta@)]);
            r
        } else {
            let r = r.with_header("accept", "application/json").with_header("openai-beta", beta);
            assert(r@.headers =~= seq![("accept"@, "application/json"@), ("openai-beta"@, beta@)]);
            r
        }
    }
}

} // verus!
