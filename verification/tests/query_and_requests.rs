use openai_resources::query::{append_percent_query, next_cursor, path_with_query, QueryPairs};
use openai_resources::request::{ApiRequest, HttpMethod, RequestBody};

fn pairs(items: &[(&str, &str)]) -> Vec<(String, String)> {
    items.iter().map(|(k, v)| (k.to_string(), v.to_string())).collect()
}

#[test]
fn form_query_encodes_spaces_as_plus() {
    let p = pairs(&[("after", "a b"), ("limit", "10")]);
    assert_eq!(path_with_query("/files".to_string(), &p), "/files?after=a+b&limit=10");
}

#[test]
fn form_query_percent_encodes_reserved_bytes() {
    let p = pairs(&[("q", "x&y=z"), ("name", "é*")]);
    assert_eq!(path_with_query("/p".to_string(), &p), "/p?q=x%26y%3Dz&name=%C3%A9*");
}

#[test]
fn no_pairs_keep_the_bare_path() {
    assert_eq!(path_with_query("/models".to_string(), &[]), "/models");
    assert_eq!(append_percent_query("/chat/completions", &Vec::new()), "/chat/completions");
}

#[test]
fn percent_query_keeps_only_unreserved() {
    let p = pairs(&[("metadata[k]", "a b~")]);
    assert_eq!(append_percent_query("/chat/completions", &p), "/chat/completions?metadata%5Bk%5D=a%20b~");
}

#[test]
fn query_pairs_builder() {
    let mut q = QueryPairs::new();
    q.push_opt("after", Some("x".to_string()));
    q.push_opt("before", None);
    q.push_opt_u32("limit", Some(5));
    q.push_opt_bool("flag", Some(false));
    q.push_repeated("ids", &vec!["1".to_string(), "2".to_string()]);
    assert_eq!(q.into_vec(), pairs(&[("after", "x"), ("limit", "5"), ("flag", "false"), ("ids", "1"), ("ids", "2")]));
}

#[test]
fn cursor_only_when_more_pages() {
    assert_eq!(next_cursor(true, Some("id9")), Some("id9"));
    assert_eq!(next_cursor(false, Some("id9")), None);
    assert_eq!(next_cursor(true, None), None);
}

#[test]
fn beta_requests_carry_the_beta_header() {
    let r = ApiRequest::beta("assistants=v2", HttpMethod::Get, "/assistants".to_string(), RequestBody::Empty);
    assert_eq!(r.headers, pairs(&[("accept", "application/json"), ("openai-beta", "assistants=v2")]));
    let r = ApiRequest::beta("assistants=v2", HttpMethod::Post, "/threads".to_string(), RequestBody::Json("{}".to_string()));
    assert_eq!(r.headers, pairs(&[("openai-beta", "assistants=v2")]));
}
