//! Responses: a status, an ordered list of headers and a body of bytes.

use vstd::prelude::*;
use vstd::utf8::encode_utf8;

verus! {

/// Status of a request that was answered normally.
pub const STATUS_OK: u16 = 200;

/// Status of a request that no route matched.
pub const STATUS_NOT_FOUND: u16 = 404;

/// Name of the header that says what kind of body a response carries.
pub const CONTENT_TYPE: &'static str = "Content-Type";

/// Content type of plain text whose encoding is announced.
pub const TEXT_PLAIN_UTF_8: &'static str = "text/plain; charset=utf-8";

/// Content type of plain text.
pub const TEXT_PLAIN: &'static str = "text/plain";

/// Content type of an HTML page.
pub const TEXT_HTML_UTF_8: &'static str = "text/html; charset=utf-8";

/// Content type of a PNG image.
pub const IMAGE_PNG: &'static str = "image/png";

/// One header of a response.
#[derive(Clone, Debug, PartialEq, Eq)]
pub struct Header {
    pub name: String,
    pub value: String,
}

impl View for Header {
    type V = (Seq<char>, Seq<char>);

    open spec fn view(&self) -> (Seq<char>, Seq<char>) {
        (self.name@, self.value@)
    }
}

/// What a handler hands back: status, headers in the order they are sent, body.
#[derive(Clone, Debug, PartialEq, Eq)]
pub struct Response {
    pub status: u16,
    pub headers: Vec<Header>,
    pub body: Vec<u8>,
}

/// A response as a mathematical value.
pub struct ResponseView {
    pub status: int,
    pub headers: Seq<(Seq<char>, Seq<char>)>,
    pub body: Seq<u8>,
}

impl View for Response {
    type V = ResponseView;

    open spec fn view(&self) -> ResponseView {
        ResponseView {
            status: self.status as int,
            headers: self.headers@.map_values(|h: Header| h@),
            body: self.body@,
        }
    }
}

impl ResponseView {
    /// The response with the given status and body and a single header, which
    /// announces the body's content type.
    pub open spec fn typed(status: int, content_type: Seq<char>, body: Seq<u8>) -> ResponseView {
        ResponseView { status, headers: seq![(CONTENT_TYPE@, content_type)], body }
    }

    /// The response whose body is the UTF-8 encoding of `text`.
    pub open spec fn text(status: int, content_type: Seq<char>, text: Seq<char>) -> ResponseView {
        Self::typed(status, content_type, encode_utf8(text))
    }

    /// Every response says what its body is: some header is a content type.
    pub open spec fn well_formed(self) -> bool {
        exists|i: int|
            0 <= i < self.headers.len() && (#[trigger] self.headers[i]).0 == CONTENT_TYPE@
    }
}

/// A response built with one header, its content type, is well formed.
pub proof fn lemma_typed_well_formed(status: int, content_type: Seq<char>, body: Seq<u8>)
    ensures
        ResponseView::typed(status, content_type, body).well_formed(),
{
    let r = ResponseView::typed(status, content_type, body);
    assert(r.headers[0].0 == CONTENT_TYPE@);
}

impl Response {
    /// Builds the response with one header, the content type of `body`.
    pub fn typed(status: u16, content_type: &str, body: Vec<u8>) -> (r: Response)
        ensures
            r@ == ResponseView::typed(status as int, content_type@, body@),
            r@.well_formed(),
    {
        let header = Header { name: CONTENT_TYPE.to_owned(), value: content_type.to_owned() };
        let mut headers: Vec<Header> = Vec::new();
        headers.push(header);
        let r = Response { status, headers, body };
        proof {
            assert(r@.headers =~= seq![(CONTENT_TYPE@, content_type@)]);
            lemma_typed_well_formed(status as int, content_type@, body@);
        }
        r
    }

    /// Builds the response whose body is `text` in UTF-8.
    pub fn text(status: u16, content_type: &str, text: &str) -> (r: Response)
        ensures
            r@ == ResponseView::text(status as int, content_type@, text@),
            r@.well_formed(),
    {
        Response::typed(status, content_type, text.as_bytes_vec())
    }
}

} // verus!
