//! The parts of an HTTP exchange that the gateway reads and writes.

use vstd::prelude::*;

verus! {

/// The request methods the gateway tells apart.
#[derive(Clone, Copy, Debug, PartialEq, Eq, Structural)]
pub enum Method {
    /// `GET`.
    Get,
    /// `POST`.
    Post,
    /// Any other method.
    Other,
}

/// Status of a response that carries what was asked for.
pub const STATUS_OK: u16 = 200;

/// Status of a response to a request that does not parse.
pub const STATUS_BAD_REQUEST: u16 = 400;

/// Status of a response when nothing was found.
pub const STATUS_NOT_FOUND: u16 = 404;

/// Status of a response to a method that a path does not take.
pub const STATUS_METHOD_NOT_ALLOWED: u16 = 405;

/// Status of a response when the backend could not be reached.
pub const STATUS_BAD_GATEWAY: u16 = 502;

/// One request as the gateway sees it: the method, the path as it came over
/// the wire (still percent-encoded, without the query), and the bytes of the
/// body.
#[derive(Clone, Debug, PartialEq, Eq)]
pub struct HttpRequest {
    /// The request method.
    pub method: Method,
    /// The path of the request target, as sent.
    pub path: String,
    /// The bytes of the body; empty where the request has none.
    pub body: Vec<u8>,
}

/// What a response is: a status code and the text of the body.
pub ghost struct ResponseView {
    pub status: u16,
    pub body: Seq<char>,
}

/// One response: a status code and a plain-text body.
#[derive(Clone, Debug, PartialEq, Eq)]
pub struct HttpResponse {
    /// The status code.
    pub status: u16,
    /// The body, sent as plain text.
    pub body: String,
}

impl View for HttpResponse {
    type V = ResponseView;

    open spec fn view(&self) -> ResponseView {
        ResponseView { status: self.status, body: self.body@ }
    }
}

impl HttpResponse {
    /// A response with the given status and body.
    pub fn new(status: u16, body: &str) -> (r: HttpResponse)
        ensures
            r@ == (ResponseView { status, body: body@ }),
    {
        HttpResponse { status, body: body.to_owned() }
    }
}

} // verus!
