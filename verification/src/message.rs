//! The two messages of a call, as plain values: the request to send and the
//! response that came back.

use vstd::prelude::*;

verus! {

/// `reqwest::header::HeaderName`, carried from a body type to the request.
#[verifier::external_type_specification]
#[verifier::external_body]
pub struct ExFieldName(reqwest::header::HeaderName);

/// `reqwest::header::HeaderValue`, carried from a body type to the request.
#[verifier::external_type_specification]
#[verifier::external_body]
pub struct ExFieldValue(reqwest::header::HeaderValue);

/// The method of a request.
#[derive(Clone, Copy, Debug, PartialEq, Eq, Structural)]
pub enum Method {
    Get,
    Post,
    Put,
    Delete,
    Head,
    Options,
    Connect,
    Patch,
    Trace,
}

/// A request, ready to be sent.
#[derive(Debug)]
pub struct Request {
    /// The method to send it with.
    pub method: Method,
    /// Where to send it.
    pub url: String,
    /// The content type header to set, if any.
    pub content_type: Option<(reqwest::header::HeaderName, reqwest::header::HeaderValue)>,
    /// The encoded body.
    pub body: String,
}

/// A request with its texts as sequences of characters.
pub struct RequestView {
    pub method: Method,
    pub url: Seq<char>,
    pub content_type: Option<(reqwest::header::HeaderName, reqwest::header::HeaderValue)>,
    pub body: Seq<char>,
}

impl View for Request {
    type V = RequestView;

    open spec fn view(&self) -> RequestView {
        RequestView {
            method: self.method,
            url: self.url@,
            content_type: self.content_type,
            body: self.body@,
        }
    }
}

/// The request for an endpoint at `path` under `base_url`. Its address is
/// the base address with the path put behind it, character for character:
/// nothing is escaped, and no slash is added or taken away.
pub open spec fn assembled(
    method: Method,
    base_url: Seq<char>,
    path: Seq<char>,
    content_type: Option<(reqwest::header::HeaderName, reqwest::header::HeaderValue)>,
    body: Seq<char>,
) -> RequestView {
    RequestView { method, url: base_url + path, content_type, body }
}

/// Puts a request together from what an endpoint declares.
pub fn assemble(
    method: Method,
    base_url: &str,
    path: &str,
    content_type: Option<(reqwest::header::HeaderName, reqwest::header::HeaderValue)>,
    body: String,
) -> (request: Request)
    ensures
        request@ == assembled(method, base_url@, path@, content_type, body@),
{
    Request { method, url: base_url.to_owned().concat(path), content_type, body }
}

/// What came back from the server, as far as a call looks at it.
#[derive(Debug)]
pub struct Response {
    /// The numeric status of the reply.
    pub status: u16,
    /// The payload of the reply, whole.
    pub payload: Vec<u8>,
}

/// Whether a status is one of success: 200 to 299.
pub open spec fn success_status(status: u16) -> bool {
    200 <= status < 300
}

impl Response {
    /// Whether the server reported success.
    pub fn is_success(&self) -> (yes: bool)
        ensures
            yes == success_status(self.status),
    {
        200 <= self.status && self.status < 300
    }
}

} // verus!
