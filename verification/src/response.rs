//! The answer to a request: a status code, a body and content headers.

use crate::dict::Dict;
use vstd::prelude::*;

verus! {

/// The body of a response.
#[derive(Clone, Debug, PartialEq, Eq)]
pub enum Body {
    /// Plain text.
    Text(String),
    /// A JSON document, as the text that goes on the wire.
    Json(String),
}

/// A body as contracts see it.
pub enum BodyView {
    Text(Seq<char>),
    Json(Seq<char>),
}

impl View for Body {
    type V = BodyView;

    open spec fn view(&self) -> BodyView {
        match self {
            Body::Text(text) => BodyView::Text(text@),
            Body::Json(text) => BodyView::Json(text@),
        }
    }
}

impl BodyView {
    /// The characters of the body, whatever its kind.
    pub open spec fn text(self) -> Seq<char> {
        match self {
            BodyView::Text(text) => text,
            BodyView::Json(text) => text,
        }
    }
}

/// A response as contracts see it.
pub struct ResponseView {
    pub status: u16,
    pub body: BodyView,
    pub headers: Seq<(Seq<char>, Seq<char>)>,
}

/// The name of the header that says what kind of content the body is.
pub open spec fn content_type_name() -> Seq<char> {
    "content-type"@
}

/// A response with status 200 and a plain-text body.
pub open spec fn ok_response(body: Seq<char>) -> ResponseView {
    ResponseView {
        status: 200,
        body: BodyView::Text(body),
        headers: seq![(content_type_name(), "text/plain; charset=utf-8"@)],
    }
}

/// A response with status 200 whose body is the JSON document `text`.
pub open spec fn json_response(text: Seq<char>) -> ResponseView {
    ResponseView {
        status: 200,
        body: BodyView::Json(text),
        headers: seq![(content_type_name(), "application/json"@)],
    }
}

/// A response that reports an error: the status, the message as its body,
/// and no headers.
pub open spec fn error_response(message: Seq<char>, status: u16) -> ResponseView {
    ResponseView { status, body: BodyView::Text(message), headers: Seq::empty() }
}

/// Whether `status` is in the range of HTTP error codes.
pub open spec fn is_error_status(status: u16) -> bool {
    400 <= status <= 599
}

/// The answer to a request that no route accepts.
pub open spec fn not_found_response() -> ResponseView {
    error_response("Not Found"@, 404)
}

/// The answer to a request that lacks what its handler needs.
pub open spec fn bad_request_response() -> ResponseView {
    error_response("Bad Request"@, 400)
}

/// The answer to a form whose named field is a file.
pub open spec fn unprocessable_response() -> ResponseView {
    error_response("`field` param in form shouldn't be a File"@, 422)
}

/// The answer to a request whose handling failed on this side.
pub open spec fn internal_error_response() -> ResponseView {
    error_response("INTERNAL SERVER ERROR"@, 500)
}

/// A response. Once made it cannot be altered, only read.
#[derive(Clone, Debug, PartialEq, Eq)]
pub struct Response {
    status: u16,
    body: Body,
    headers: Dict<String>,
}

impl View for Response {
    type V = ResponseView;

    closed spec fn view(&self) -> ResponseView {
        ResponseView { status: self.status, body: self.body@, headers: self.headers.entries() }
    }
}

impl Response {
    /// A successful response with `body` as plain text.
    pub fn ok(body: String) -> (r: Response)
        ensures
            r@ == ok_response(body@),
    {
        let headers = Dict::new().with("content-type", "text/plain; charset=utf-8".to_owned());
        Response { status: 200, body: Body::Text(body), headers }
    }

    /// A successful response whose body is the JSON document `text`.
    pub fn json(text: String) -> (r: Response)
        ensures
            r@ == json_response(text@),
    {
        let headers = Dict::new().with("content-type", "application/json".to_owned());
        Response { status: 200, body: Body::Json(text), headers }
    }

    /// A response that reports an error to the client. Only the codes from
    /// 400 to 599 report errors; with another code nothing is made.
    pub fn error(message: String, status: u16) -> (r: Option<Response>)
        ensures
            match r {
                Some(response) => is_error_status(status) && response@ == error_response(
                    message@,
                    status,
                ),
                None => !is_error_status(status),
            },
    {
        if 400 <= status && status <= 599 {
            Some(Response { status, body: Body::Text(message), headers: Dict::new() })
        } else {
            None
        }
    }

    /// The fixed answer to a request that no route accepts.
    pub fn not_found() -> (r: Response)
        ensures
            r@ == not_found_response(),
    {
        Response { status: 404, body: Body::Text("Not Found".to_owned()), headers: Dict::new() }
    }

    /// The fixed answer to a request that lacks what its handler needs.
    pub fn bad_request() -> (r: Response)
        ensures
            r@ == bad_request_response(),
    {
        Response { status: 400, body: Body::Text("Bad Request".to_owned()), headers: Dict::new() }
    }

    /// The fixed answer to a form whose named field is a file.
    pub fn unprocessable() -> (r: Response)
        ensures
            r@ == unprocessable_response(),
    {
        Response {
            status: 422,
            body: Body::Text("`field` param in form shouldn't be a File".to_owned()),
            headers: Dict::new(),
        }
    }

    /// The fixed answer to a request whose handling failed on this side.
    pub fn internal_error() -> (r: Response)
        ensures
            r@ == internal_error_response(),
    {
        Response {
            status: 500,
            body: Body::Text("INTERNAL SERVER ERROR".to_owned()),
            headers: Dict::new(),
        }
    }

    /// The status code.
    pub fn status(&self) -> (r: u16)
        ensures
            r == self@.status,
    {
        self.status
    }

    /// Whether the status code reports success.
    pub fn is_success(&self) -> (r: bool)
        ensures
            r == (200 <= self@.status <= 299),
    {
        200 <= self.status && self.status <= 299
    }

    /// The body.
    pub fn body(&self) -> (r: &Body)
        ensures
            r@ == self@.body,
    {
        &self.body
    }

    /// The characters of the body, whatever its kind.
    pub fn text(&self) -> (r: &str)
        ensures
            r@ == self@.body.text(),
    {
        match &self.body {
            Body::Text(text) => text.as_str(),
            Body::Json(text) => text.as_str(),
        }
    }

    /// The headers, in the order in which they were set.
    pub fn headers(&self) -> (r: &Dict<String>)
        ensures
            r.entries() == self@.headers,
    {
        &self.headers
    }
}

} // verus!
