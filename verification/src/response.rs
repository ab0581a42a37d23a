//! Wire responses: a status code, a content type and a body.

use vstd::prelude::*;
use vstd::string::*;

verus! {

/// The two content types that the service answers with.
#[derive(Clone, Copy, Debug, PartialEq, Eq, Structural)]
pub enum ContentType {
    PlainText,
    Json,
}

impl ContentType {
    /// The value of the `content-type` header.
    pub fn header_value(&self) -> (value: &'static str)
        ensures
            *self == ContentType::PlainText ==> value@ == "text/plain"@,
            *self == ContentType::Json ==> value@ == "application/json"@,
    {
        match self {
            ContentType::PlainText => "text/plain",
            ContentType::Json => "application/json",
        }
    }
}

/// A response as a mathematical value.
pub struct ResponseView {
    pub status: u16,
    pub content_type: ContentType,
    pub body: Seq<char>,
}

/// A response ready for the transport.
#[derive(Clone, Debug, PartialEq, Eq)]
pub struct Response {
    pub status: u16,
    pub content_type: ContentType,
    pub body: String,
}

impl View for Response {
    type V = ResponseView;

    open spec fn view(&self) -> ResponseView {
        ResponseView { status: self.status, content_type: self.content_type, body: self.body@ }
    }
}

/// A plain-text response.
pub open spec fn plain(status: u16, body: Seq<char>) -> ResponseView {
    ResponseView { status, content_type: ContentType::PlainText, body }
}

/// Success, with the encoded record as the body.
pub open spec fn json_ok(body: Seq<char>) -> ResponseView {
    ResponseView { status: 200, content_type: ContentType::Json, body }
}

/// The store holds no record for the key: a defined outcome of a read, not
/// an error.
pub open spec fn not_found() -> ResponseView {
    plain(404, "not found"@)
}

impl Response {
    /// A plain-text response with the given status and body.
    pub fn plain_text(status: u16, body: String) -> (r: Response)
        ensures
            r@ == plain(status, body@),
    {
        Response { status, content_type: ContentType::PlainText, body }
    }

    /// The success response around an encoded record.
    pub fn json(body: String) -> (r: Response)
        ensures
            r@ == json_ok(body@),
    {
        Response { status: 200, content_type: ContentType::Json, body }
    }

    /// The response to a read of a key that has no record.
    pub fn not_found() -> (r: Response)
        ensures
            r@ == not_found(),
    {
        Response::plain_text(404, String::from_str("not found"))
    }
}

} // verus!
