//! Requests and responses as plain values: what the router, the handlers and
//! the host exchange. Reading them from a socket and writing them to one is
//! the host's part.

use vstd::prelude::*;

verus! {

/// The status of a request for which no handler was found.
pub const NOT_FOUND: u16 = 404;

/// The status that is reported where a handler failed with a number that is
/// no status code.
pub const INTERNAL_SERVER_ERROR: u16 = 500;

/// A header: its name and its value.
#[derive(Debug, Clone, PartialEq, Eq)]
pub struct HttpHeader {
    pub name: String,
    pub value: String,
}

impl View for HttpHeader {
    type V = (Seq<char>, Seq<char>);

    open spec fn view(&self) -> (Seq<char>, Seq<char>) {
        (self.name@, self.value@)
    }
}

impl DeepView for HttpHeader {
    type V = (Seq<char>, Seq<char>);

    open spec fn deep_view(&self) -> (Seq<char>, Seq<char>) {
        self@
    }
}

impl HttpHeader {
    /// The header `name: value`.
    pub fn new(name: &str, value: &str) -> (header: HttpHeader)
        ensures
            header@ == (name@, value@),
    {
        HttpHeader { name: name.to_owned(), value: value.to_owned() }
    }
}

/// A request as the router and the handlers see it.
#[derive(Debug, Clone, PartialEq, Eq)]
pub struct HttpRequest {
    /// The method, such as `GET`.
    pub method: String,
    /// The path of the request's URI, without query.
    pub path: String,
    /// The query of the request's URI, if it has one.
    pub query: Option<String>,
    /// The headers, in the order in which they came.
    pub headers: Vec<HttpHeader>,
    /// The body.
    pub body: Vec<u8>,
}

impl HttpRequest {
    /// A request for `path` with no query, no header and an empty body.
    pub fn new(method: &str, path: &str) -> (request: HttpRequest)
        ensures
            request.method@ == method@,
            request.path@ == path@,
            request.query is None,
            request.headers@.len() == 0,
            request.body@.len() == 0,
    {
        HttpRequest {
            method: method.to_owned(),
            path: path.to_owned(),
            query: None,
            headers: Vec::new(),
            body: Vec::new(),
        }
    }
}

/// A response as a handler returns it.
#[derive(Debug, Clone, PartialEq, Eq)]
pub struct HttpResponse {
    /// The status code.
    pub status: u16,
    /// The headers, in order.
    pub headers: Vec<HttpHeader>,
    /// The body.
    pub body: Vec<u8>,
}

impl HttpResponse {
    /// A response with the given status and body and no header.
    pub fn new(status: u16, body: Vec<u8>) -> (response: HttpResponse)
        ensures
            response.status == status,
            response.headers@.len() == 0,
            response.body == body,
    {
        HttpResponse { status, headers: Vec::new(), body }
    }
}

} // verus!
