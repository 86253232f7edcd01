//! The handlers of the demonstration service: what each route answers.

use crate::codec::{base64_decoded, debug_quoted, decode_base64, quote_debug, DecodeError};
use crate::response::{
    lemma_typed_well_formed, Response, ResponseView, IMAGE_PNG, STATUS_NOT_FOUND, STATUS_OK,
    TEXT_HTML_UTF_8, TEXT_PLAIN, TEXT_PLAIN_UTF_8,
};
use vstd::prelude::*;

verus! {

/// A one-pixel transparent PNG image, in base64.
pub const DEMO_PNG_BASE64: &'static str =
    "iVBORw0KGgoAAAANSUhEUgAAAAEAAAABCAYAAAAfFcSJAAAADUlEQVR42mPk+89QDwADvgGOSHzRgAAAAABJRU5ErkJggg==";

/// What a handler comes to: a response, or the reason why it has none.
pub open spec fn outcome_view(outcome: Result<Response, DecodeError>) -> Result<
    ResponseView,
    DecodeError,
> {
    match outcome {
        Ok(response) => Ok(response@),
        Err(e) => Err(e),
    }
}

/// The line that reports a request's URI, given the URI's quoted form.
pub open spec fn uri_report(quoted: Seq<char>) -> Seq<char> {
    "The URI is: "@ + quoted
}

/// The line that names the URI that no route matched.
pub open spec fn no_route_message(uri: Seq<char>) -> Seq<char> {
    "No route "@ + uri
}

/// The image response for decoded bytes; a failed decoding is passed on.
pub open spec fn png_outcome(decoded: Result<Seq<u8>, DecodeError>) -> Result<
    ResponseView,
    DecodeError,
> {
    match decoded {
        Ok(bytes) => Ok(ResponseView::typed(STATUS_OK as int, IMAGE_PNG@, bytes)),
        Err(e) => Err(e),
    }
}

/// Handler of `GET /`: a greeting in plain text.
pub fn hello() -> (r: Response)
    ensures
        r@ == ResponseView::text(STATUS_OK as int, TEXT_PLAIN_UTF_8@, "Hello, World!"@),
{
    Response::text(STATUS_OK, TEXT_PLAIN_UTF_8, "Hello, World!")
}

/// Handler of `GET /demo.html`: a fixed HTML fragment.
pub fn get_demo_html() -> (r: Response)
    ensures
        r@ == ResponseView::text(STATUS_OK as int, TEXT_HTML_UTF_8@, "<h1>Hello</h1>"@),
{
    Response::text(STATUS_OK, TEXT_HTML_UTF_8, "<h1>Hello</h1>")
}

/// Handler of `GET /hello.html`: the page `template`, byte for byte.
pub fn hello_html(template: &str) -> (r: Response)
    ensures
        r@ == ResponseView::text(STATUS_OK as int, TEXT_HTML_UTF_8@, template@),
{
    Response::text(STATUS_OK, TEXT_HTML_UTF_8, template)
}

/// Handler of `GET /demo-status`: an explicit status with a message.
pub fn demo_status() -> (r: Response)
    ensures
        r@ == ResponseView::text(STATUS_OK as int, TEXT_PLAIN_UTF_8@, "Everything is OK"@),
{
    Response::text(STATUS_OK, TEXT_PLAIN_UTF_8, "Everything is OK")
}

/// Builds the line that reports a URI from the URI's quoted form.
pub fn uri_message(quoted: &str) -> (message: String)
    ensures
        message@ == uri_report(quoted@),
{
    let mut message = "The URI is: ".to_owned();
    message.append(quoted);
    message
}

/// Handler of `GET /demo-uri`: reports the request's own URI, quoted and
/// escaped as `{:?}` writes a string.
pub fn demo_uri(uri: &str) -> (r: Response)
    ensures
        r@ == ResponseView::text(
            STATUS_OK as int,
            TEXT_PLAIN_UTF_8@,
            uri_report(debug_quoted(uri@)),
        ),
{
    let quoted = quote_debug(uri);
    let message = uri_message(quoted.as_str());
    Response::text(STATUS_OK, TEXT_PLAIN_UTF_8, message.as_str())
}

/// Turns the outcome of decoding an image into the response that carries it.
pub fn png_response(decoded: Result<Vec<u8>, DecodeError>) -> (r: Result<Response, DecodeError>)
    ensures
        outcome_view(r) == png_outcome(
            match decoded {
                Ok(bytes) => Ok(bytes@),
                Err(e) => Err(e),
            },
        ),
{
    match decoded {
        Ok(bytes) => Ok(Response::typed(STATUS_OK, IMAGE_PNG, bytes)),
        Err(e) => Err(e),
    }
}

/// Decodes an image from base64 and answers with its bytes; fails with the
/// decoder's error where `encoded` is not base64.
pub fn png_from_base64(encoded: &str) -> (r: Result<Response, DecodeError>)
    ensures
        outcome_view(r) == png_outcome(base64_decoded(encoded@)),
{
    png_response(decode_base64(encoded))
}

/// Handler of `GET /demo.png`: decodes the embedded image each time it is
/// asked and answers with its bytes. Fails only if the embedded text is not
/// base64.
pub fn get_demo_png() -> (r: Result<Response, DecodeError>)
    ensures
        outcome_view(r) == png_outcome(base64_decoded(DEMO_PNG_BASE64@)),
{
    png_from_base64(DEMO_PNG_BASE64)
}

/// Handler of `GET /foo`.
pub fn get_foo() -> (r: Response)
    ensures
        r@ == ResponseView::text(STATUS_OK as int, TEXT_PLAIN@, "GET foo"@),
{
    Response::text(STATUS_OK, TEXT_PLAIN, "GET foo")
}

/// Handler of `PUT /foo`.
pub fn put_foo() -> (r: Response)
    ensures
        r@ == ResponseView::text(STATUS_OK as int, TEXT_PLAIN@, "PUT foo"@),
{
    Response::text(STATUS_OK, TEXT_PLAIN, "PUT foo")
}

/// Handler of `PATCH /foo`.
pub fn patch_foo() -> (r: Response)
    ensures
        r@ == ResponseView::text(STATUS_OK as int, TEXT_PLAIN@, "PATCH foo"@),
{
    Response::text(STATUS_OK, TEXT_PLAIN, "PATCH foo")
}

/// Handler of `POST /foo`.
pub fn post_foo() -> (r: Response)
    ensures
        r@ == ResponseView::text(STATUS_OK as int, TEXT_PLAIN@, "POST foo"@),
{
    Response::text(STATUS_OK, TEXT_PLAIN, "POST foo")
}

/// Handler of `DELETE /foo`.
pub fn delete_foo() -> (r: Response)
    ensures
        r@ == ResponseView::text(STATUS_OK as int, TEXT_PLAIN@, "DELETE foo"@),
{
    Response::text(STATUS_OK, TEXT_PLAIN, "DELETE foo")
}

/// Handler of every request that no route matches: not found, with the
/// request's URI in the body.
pub fn fallback(uri: &str) -> (r: Response)
    ensures
        r@ == ResponseView::text(STATUS_NOT_FOUND as int, TEXT_PLAIN@, no_route_message(uri@)),
{
    let mut message = "No route ".to_owned();
    message.append(uri);
    Response::text(STATUS_NOT_FOUND, TEXT_PLAIN, message.as_str())
}

/// A handler as a value that a router can hold: one variant for each handler
/// of this module.
#[derive(Clone, Debug, PartialEq, Eq)]
pub enum Handler {
    Hello,
    DemoHtml,
    /// Answers with the page it holds.
    HelloHtml { template: String },
    DemoStatus,
    DemoUri,
    DemoPng,
    GetFoo,
    PutFoo,
    PatchFoo,
    PostFoo,
    DeleteFoo,
    /// The catch-all, `fallback`.
    NotFound,
}

/// A handler as a mathematical value.
pub enum HandlerView {
    Hello,
    DemoHtml,
    HelloHtml { template: Seq<char> },
    DemoStatus,
    DemoUri,
    DemoPng,
    GetFoo,
    PutFoo,
    PatchFoo,
    PostFoo,
    DeleteFoo,
    NotFound,
}

impl View for Handler {
    type V = HandlerView;

    open spec fn view(&self) -> HandlerView {
        match *self {
            Handler::Hello => HandlerView::Hello,
            Handler::DemoHtml => HandlerView::DemoHtml,
            Handler::HelloHtml { template } => HandlerView::HelloHtml { template: template@ },
            Handler::DemoStatus => HandlerView::DemoStatus,
            Handler::DemoUri => HandlerView::DemoUri,
            Handler::DemoPng => HandlerView::DemoPng,
            Handler::GetFoo => HandlerView::GetFoo,
            Handler::PutFoo => HandlerView::PutFoo,
            Handler::PatchFoo => HandlerView::PatchFoo,
            Handler::PostFoo => HandlerView::PostFoo,
            Handler::DeleteFoo => HandlerView::DeleteFoo,
            Handler::NotFound => HandlerView::NotFound,
        }
    }
}

impl HandlerView {
    /// What the handler answers to a request with the given URI.
    pub open spec fn response(self, uri: Seq<char>) -> Result<ResponseView, DecodeError> {
        match self {
            HandlerView::Hello => Ok(
                ResponseView::text(STATUS_OK as int, TEXT_PLAIN_UTF_8@, "Hello, World!"@),
            ),
            HandlerView::DemoHtml => Ok(
                ResponseView::text(STATUS_OK as int, TEXT_HTML_UTF_8@, "<h1>Hello</h1>"@),
            ),
            HandlerView::HelloHtml { template } => Ok(
                ResponseView::text(STATUS_OK as int, TEXT_HTML_UTF_8@, template),
            ),
            HandlerView::DemoStatus => Ok(
                ResponseView::text(STATUS_OK as int, TEXT_PLAIN_UTF_8@, "Everything is OK"@),
            ),
            HandlerView::DemoUri => Ok(
                ResponseView::text(
                    STATUS_OK as int,
                    TEXT_PLAIN_UTF_8@,
                    uri_report(debug_quoted(uri)),
                ),
            ),
            HandlerView::DemoPng => png_outcome(base64_decoded(DEMO_PNG_BASE64@)),
            HandlerView::GetFoo => Ok(
                ResponseView::text(STATUS_OK as int, TEXT_PLAIN@, "GET foo"@),
            ),
            HandlerView::PutFoo => Ok(
                ResponseView::text(STATUS_OK as int, TEXT_PLAIN@, "PUT foo"@),
            ),
            HandlerView::PatchFoo => Ok(
                ResponseView::text(STATUS_OK as int, TEXT_PLAIN@, "PATCH foo"@),
            ),
            HandlerView::PostFoo => Ok(
                ResponseView::text(STATUS_OK as int, TEXT_PLAIN@, "POST foo"@),
            ),
            HandlerView::DeleteFoo => Ok(
                ResponseView::text(STATUS_OK as int, TEXT_PLAIN@, "DELETE foo"@),
            ),
            HandlerView::NotFound => Ok(
                ResponseView::text(STATUS_NOT_FOUND as int, TEXT_PLAIN@, no_route_message(uri)),
            ),
        }
    }
}

/// Whatever a handler answers says what its body is: every response that a
/// handler produces carries a content type.
pub proof fn lemma_response_well_formed(handler: HandlerView, uri: Seq<char>)
    ensures
        handler.response(uri) matches Ok(response) ==> response.well_formed(),
{
    if let Ok(response) = handler.response(uri) {
        lemma_typed_well_formed(response.status, response.headers[0].1, response.body);
    }
}

/// Handlers do not fail, but for the image where its embedded text does
/// not decode; and the catch-all alone answers "not found", every other
/// handler answers with status 200.
pub proof fn lemma_only_image_can_fail(handler: HandlerView, uri: Seq<char>)
    ensures
        handler.response(uri) is Err ==> handler == HandlerView::DemoPng && base64_decoded(
            DEMO_PNG_BASE64@,
        ) is Err,
        handler.response(uri) matches Ok(response) ==> response.status == (if handler
            == HandlerView::NotFound {
            STATUS_NOT_FOUND as int
        } else {
            STATUS_OK as int
        }),
{
}

impl Handler {
    /// Runs the handler on a request with the given URI.
    pub fn respond(&self, uri: &str) -> (r: Result<Response, DecodeError>)
        ensures
            outcome_view(r) == self@.response(uri@),
            r matches Ok(response) ==> response@.well_formed(),
    {
        proof {
            lemma_response_well_formed(self@, uri@);
        }
        match self {
            Handler::Hello => Ok(hello()),
            Handler::DemoHtml => Ok(get_demo_html()),
            Handler::HelloHtml { template } => Ok(hello_html(template.as_str())),
            Handler::DemoStatus => Ok(demo_status()),
            Handler::DemoUri => Ok(demo_uri(uri)),
            Handler::DemoPng => get_demo_png(),
            Handler::GetFoo => Ok(get_foo()),
            Handler::PutFoo => Ok(put_foo()),
            Handler::PatchFoo => Ok(patch_foo()),
            Handler::PostFoo => Ok(post_foo()),
            Handler::DeleteFoo => Ok(delete_foo()),
            Handler::NotFound => Ok(fallback(uri)),
        }
    }
}

} // verus!
