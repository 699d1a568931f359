//! The HTTP requests sent to the service and the reading of its status.
use vstd::prelude::*;
use crate::api::{IndexPathRequest, SearchParams, index_body, search_query, extensions_view};
use crate::text::{dec_nat, push_dec_u64, push_str};

verus! {

/// Base address of the service.
pub const BASE_URL: &'static str = "http://localhost:19531";

/// Endpoint for indexing and unindexing.
pub const INDEX_ENDPOINT: &'static str = "/api/index/";

/// Endpoint for searching.
pub const SEARCH_ENDPOINT: &'static str = "/api/search/";

/// Seconds that one request may take, connection and answer together.
pub const TIMEOUT_SECS: u64 = 30;

/// HTTP method of a request.
#[derive(Debug, Clone, Copy, PartialEq, Eq, Structural)]
pub enum Method {
    Post,
    Get,
    Delete,
}

/// One request to the service: what to send, not yet sent.
pub struct HttpRequest {
    pub method: Method,
    pub url: String,
    /// JSON body, where the request has one.
    pub body: Option<String>,
}

/// Why a request to the service failed.
#[derive(Debug, Clone, Copy, PartialEq, Eq, Structural)]
pub enum TransportError {
    /// No connection could be made.
    Connect,
    /// The request took longer than the timeout.
    Timeout,
    /// The request could not be sent for another reason.
    Request,
    /// The service answered with a status outside 200..=299.
    Status(u16),
    /// The answer body could not be read.
    Body,
}

impl TransportError {
    pub open spec fn message_spec(&self) -> Seq<char> {
        match self {
            TransportError::Connect => "Connection to the service failed"@,
            TransportError::Timeout => "Request timed out"@,
            TransportError::Request => "Request could not be sent"@,
            TransportError::Status(code) => "Request failed with status: "@ + dec_nat(*code as nat),
            TransportError::Body => "Response body could not be read"@,
        }
    }

    /// A one-line description of the error.
    pub fn message(&self) -> (r: String)
        ensures
            r@ == self.message_spec(),
    {
        match self {
            TransportError::Connect => String::from_str("Connection to the service failed"),
            TransportError::Timeout => String::from_str("Request timed out"),
            TransportError::Request => String::from_str("Request could not be sent"),
            TransportError::Status(code) => {
                let mut out = String::from_str("Request failed with status: ");
                push_dec_u64(&mut out, *code as u64);
                out
            },
            TransportError::Body => String::from_str("Response body could not be read"),
        }
    }
}

/// Whether an HTTP status means success.
pub open spec fn is_success(status: u16) -> bool {
    200 <= status <= 299
}

/// Accepts an answer: its body when the status is a success, else the
/// status as an error.
pub fn check_status(status: u16, body: String) -> (r: Result<String, TransportError>)
    ensures
        is_success(status) ==> r == Ok::<String, TransportError>(body),
        !is_success(status) ==> r == Err::<String, TransportError>(TransportError::Status(status)),
{
    if 200 <= status && status <= 299 {
        Ok(body)
    } else {
        Err(TransportError::Status(status))
    }
}

/// Full URL of the index endpoint.
pub open spec fn index_url() -> Seq<char> {
    BASE_URL@ + INDEX_ENDPOINT@
}

/// Full URL of a search with the given query string.
pub open spec fn search_url(query: Seq<char>) -> Seq<char> {
    BASE_URL@ + SEARCH_ENDPOINT@ + "?"@ + query
}

/// Whether `r` is `method` on `url` with the JSON `body`.
pub open spec fn is_request(r: HttpRequest, method: Method, url: Seq<char>, body: Option<Seq<char>>) -> bool {
    &&& r.method == method
    &&& r.url@ == url
    &&& match body {
        Some(b) => r.body is Some && r.body->Some_0@ == b,
        None => r.body is None,
    }
}

fn index_endpoint_url() -> (r: String)
    ensures
        r@ == index_url(),
{
    let mut url = String::from_str(BASE_URL);
    push_str(&mut url, INDEX_ENDPOINT);
    url
}

/// The request that indexes a directory: a POST of the JSON body.
pub fn index_request(req: &IndexPathRequest) -> (r: HttpRequest)
    ensures
        is_request(r, Method::Post, index_url(), Some(index_body(req.path@, req.force))),
{
    HttpRequest { method: Method::Post, url: index_endpoint_url(), body: Some(req.to_json()) }
}

/// The request that removes a directory from the index: a DELETE of the
/// JSON body.
pub fn unindex_request(req: &IndexPathRequest) -> (r: HttpRequest)
    ensures
        is_request(r, Method::Delete, index_url(), Some(index_body(req.path@, req.force))),
{
    HttpRequest { method: Method::Delete, url: index_endpoint_url(), body: Some(req.to_json()) }
}

/// The request that searches: a GET with the parameters in the query string.
pub fn search_request(params: &SearchParams) -> (r: HttpRequest)
    ensures
        is_request(
            r,
            Method::Get,
            search_url(search_query(params.path@, params.query@, params.limit, extensions_view(params))),
            None,
        ),
{
    let mut url = String::from_str(BASE_URL);
    push_str(&mut url, SEARCH_ENDPOINT);
    push_str(&mut url, "?");
    let q = params.query_string();
    push_str(&mut url, q.as_str());
    HttpRequest { method: Method::Get, url, body: None }
}

} // verus!
