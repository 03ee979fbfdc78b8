//! The response descriptor that the resolver hands to the transport.

use vstd::prelude::*;
use vstd::utf8::encode_utf8;

verus! {

/// The three outcomes a request can have.
#[derive(Clone, Copy, Debug, PartialEq, Eq, Structural)]
pub enum Status {
    /// `200 OK`: the resolved file is served.
    Success,
    /// `404 Not Found`: no file matched.
    NotFound,
    /// `500 Internal Server Error`: the listing page could not be rendered.
    ServerError,
}

impl Status {
    /// The numeric HTTP status code.
    pub open spec fn spec_code(self) -> u16 {
        match self {
            Status::Success => 200,
            Status::NotFound => 404,
            Status::ServerError => 500,
        }
    }

    /// The numeric HTTP status code.
    #[verifier::when_used_as_spec(spec_code)]
    pub fn code(self) -> (code: u16)
        ensures
            code == self.spec_code(),
    {
        match self {
            Status::Success => 200,
            Status::NotFound => 404,
            Status::ServerError => 500,
        }
    }
}

/// A response: status, the value of the `Content-Type` header if one is
/// set, and the body.
#[derive(Clone, Debug, PartialEq, Eq)]
pub struct Response {
    pub status: Status,
    pub content_type: Option<String>,
    pub body: Vec<u8>,
}

/// The mathematical value of a [`Response`].
pub struct ResponseView {
    pub status: Status,
    pub content_type: Option<Seq<char>>,
    pub body: Seq<u8>,
}

impl View for Response {
    type V = ResponseView;

    open spec fn view(&self) -> ResponseView {
        ResponseView {
            status: self.status,
            content_type: self.content_type.deep_view(),
            body: self.body@,
        }
    }
}

/// The suffix that every emitted content type carries, whatever the bytes
/// of the body are.
pub open spec fn charset_suffix() -> Seq<char> {
    "; charset=utf-8"@
}

/// The media type of a rendered listing page.
pub open spec fn listing_media_type() -> Seq<char> {
    "text/html"@
}

/// The `Content-Type` value for a media type.
pub open spec fn content_type_of(media_type: Seq<char>) -> Seq<char> {
    media_type + charset_suffix()
}

/// The response that serves a file.
pub open spec fn file_response(media_type: Seq<char>, body: Seq<u8>) -> ResponseView {
    ResponseView {
        status: Status::Success,
        content_type: Some(content_type_of(media_type)),
        body,
    }
}

/// The bare not-found response.
pub open spec fn not_found_response() -> ResponseView {
    ResponseView { status: Status::NotFound, content_type: None, body: Seq::empty() }
}

/// The not-found response that carries a rendered listing page.
pub open spec fn listing_response(page: Seq<char>) -> ResponseView {
    ResponseView {
        status: Status::NotFound,
        content_type: Some(content_type_of(listing_media_type())),
        body: encode_utf8(page),
    }
}

/// The response to a rendering failure: the diagnostic text is the body.
pub open spec fn failure_response(detail: Seq<char>) -> ResponseView {
    ResponseView { status: Status::ServerError, content_type: None, body: encode_utf8(detail) }
}

/// The `Content-Type` value for a media type: the media type followed by
/// `; charset=utf-8`.
pub fn content_type(media_type: &str) -> (value: String)
    ensures
        value@ == content_type_of(media_type@),
{
    String::from_str(media_type).concat("; charset=utf-8")
}

impl Response {
    /// `200 OK` with the file's bytes and the content type for its media
    /// type.
    pub fn file(media_type: &str, body: Vec<u8>) -> (response: Response)
        ensures
            response@ == file_response(media_type@, body@),
    {
        Response { status: Status::Success, content_type: Some(content_type(media_type)), body }
    }

    /// `404 Not Found` with no content type and no body.
    pub fn not_found() -> (response: Response)
        ensures
            response@ == not_found_response(),
    {
        Response { status: Status::NotFound, content_type: None, body: Vec::new() }
    }

    /// `404 Not Found` with the rendered listing page as an HTML body.
    pub fn listing(page: &str) -> (response: Response)
        ensures
            response@ == listing_response(page@),
    {
        Response {
            status: Status::NotFound,
            content_type: Some(content_type("text/html")),
            body: page.as_bytes_vec(),
        }
    }

    /// `500 Internal Server Error` with the diagnostic text as the body.
    pub fn failure(detail: &str) -> (response: Response)
        ensures
            response@ == failure_response(detail@),
    {
        Response { status: Status::ServerError, content_type: None, body: detail.as_bytes_vec() }
    }
}

} // verus!
