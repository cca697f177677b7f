use crate::body::{fold_pairs, RequestBody};
use crate::kv::KvPair;
use vstd::prelude::*;

verus! {

/// The two methods the client issues.
#[derive(Debug, Clone, Copy, PartialEq, Eq, Structural)]
pub enum Method {
    Get,
    Post,
}

/// A request ready to be sent: its method, its URL, and for a POST the
/// mapping sent as a JSON object.
pub struct Request {
    pub method: Method,
    pub url: String,
    pub body: Option<RequestBody>,
}

/// The headers that the client sends with every request: a marker of the
/// client implementation, and the tool's `User-Agent`.
pub open spec fn default_header_list() -> Seq<(Seq<char>, Seq<char>)> {
    seq![("X-POWERED"@, "Rust"@), ("user-agent"@, "Rust Httpie"@)]
}

/// The headers set once on the client, as name and value.
pub fn default_headers() -> (r: Vec<(String, String)>)
    ensures
        r@.len() == default_header_list().len(),
        forall|i: int|
            0 <= i < r@.len() ==> (#[trigger] r@[i]).0@ == default_header_list()[i].0 && r@[i].1@
                == default_header_list()[i].1,
{
    let mut r: Vec<(String, String)> = Vec::new();
    r.push((String::from_str("X-POWERED"), String::from_str("Rust")));
    r.push((String::from_str("user-agent"), String::from_str("Rust Httpie")));
    r
}

/// A GET of `url`, with no body.
pub fn build_get(url: String) -> (r: Request)
    ensures
        r.method == Method::Get,
        r.url@ == url@,
        r.body is None,
{
    Request { method: Method::Get, url, body: None }
}

/// A POST of `url` whose body maps each key to the value of the last pair
/// that names it.
pub fn build_post(url: String, pairs: &Vec<KvPair>) -> (r: Request)
    ensures
        r.method == Method::Post,
        r.url@ == url@,
        r.body matches Some(b) && b.wf() && b@ == fold_pairs(pairs@),
{
    Request { method: Method::Post, url, body: Some(RequestBody::from_pairs(pairs)) }
}

} // verus!
