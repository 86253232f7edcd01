//! The route table of the demonstration service, and what follows from it
//! for every request.

use crate::codec::{base64_decoded, debug_quoted, DecodeError};
use crate::handlers::{
    no_route_message, png_outcome, uri_report, Handler, HandlerView, DEMO_PNG_BASE64,
};
use crate::method::Method;
use crate::request::RequestView;
use crate::response::{
    ResponseView, STATUS_NOT_FOUND, STATUS_OK, TEXT_HTML_UTF_8, TEXT_PLAIN, TEXT_PLAIN_UTF_8,
};
use crate::router::{Router, RouterView};
use vstd::prelude::*;

verus! {

/// The service's routes: eleven keys, each with its handler, and the
/// catch-all for everything else. `hello_template` is the page that
/// `/hello.html` serves.
pub open spec fn demo_table(hello_template: Seq<char>) -> RouterView {
    RouterView {
        routes: Map::<(Method, Seq<char>), HandlerView>::empty()
            .insert((Method::Get, "/"@), HandlerView::Hello)
            .insert((Method::Get, "/demo.html"@), HandlerView::DemoHtml)
            .insert(
                (Method::Get, "/hello.html"@),
                HandlerView::HelloHtml { template: hello_template },
            )
            .insert((Method::Get, "/demo-status"@), HandlerView::DemoStatus)
            .insert((Method::Get, "/demo-uri"@), HandlerView::DemoUri)
            .insert((Method::Get, "/demo.png"@), HandlerView::DemoPng)
            .insert((Method::Get, "/foo"@), HandlerView::GetFoo)
            .insert((Method::Put, "/foo"@), HandlerView::PutFoo)
            .insert((Method::Patch, "/foo"@), HandlerView::PatchFoo)
            .insert((Method::Post, "/foo"@), HandlerView::PostFoo)
            .insert((Method::Delete, "/foo"@), HandlerView::DeleteFoo),
        fallback: HandlerView::NotFound,
    }
}

/// The method and path are those of a route of the service.
pub open spec fn registered(method: Method, path: Seq<char>) -> bool {
    ||| method == Method::Get && (path == "/"@ || path == "/demo.html"@ || path == "/hello.html"@
        || path == "/demo-status"@ || path == "/demo-uri"@ || path == "/demo.png"@)
    ||| path == "/foo"@
}

/// The seven paths of the table are seven different texts.
pub proof fn lemma_paths_differ()
    ensures
        "/"@.len() == 1,
        "/foo"@.len() == 4,
        "/demo-uri"@.len() == 9,
        "/demo.png"@.len() == 9,
        "/demo.html"@.len() == 10,
        "/hello.html"@.len() == 11,
        "/demo-status"@.len() == 12,
        "/demo-uri"@ != "/demo.png"@,
{
    reveal_strlit("/");
    reveal_strlit("/foo");
    reveal_strlit("/demo-uri");
    reveal_strlit("/demo.png");
    reveal_strlit("/demo.html");
    reveal_strlit("/hello.html");
    reveal_strlit("/demo-status");
    assert("/demo-uri"@[5] != "/demo.png"@[5]);
}

/// Builds the service's router: the fallback first, then the eleven routes.
pub fn demo_router(hello_template: &str) -> (router: Router)
    ensures
        router@ == demo_table(hello_template@),
{
    proof {
        lemma_paths_differ();
    }
    let mut router = Router::new();
    router.set_fallback(Handler::NotFound);
    router.insert(Method::Get, "/", Handler::Hello);
    router.insert(Method::Get, "/demo.html", Handler::DemoHtml);
    router.insert(
        Method::Get,
        "/hello.html",
        Handler::HelloHtml { template: hello_template.to_owned() },
    );
    router.insert(Method::Get, "/demo-status", Handler::DemoStatus);
    router.insert(Method::Get, "/demo-uri", Handler::DemoUri);
    router.insert(Method::Get, "/demo.png", Handler::DemoPng);
    router.insert(Method::Get, "/foo", Handler::GetFoo);
    router.insert(Method::Put, "/foo", Handler::PutFoo);
    router.insert(Method::Patch, "/foo", Handler::PatchFoo);
    router.insert(Method::Post, "/foo", Handler::PostFoo);
    router.insert(Method::Delete, "/foo", Handler::DeleteFoo);
    router
}

/// The table holds the service's routes and no other.
pub proof fn lemma_table_holds_registered(
    hello_template: Seq<char>,
    method: Method,
    path: Seq<char>,
)
    ensures
        demo_table(hello_template).routes.contains_key((method, path)) <==> registered(
            method,
            path,
        ),
{
    lemma_paths_differ();
}

/// Each route of the service answers as its row of the table says, status
/// and content type and every byte of the body, whatever the case in which
/// the request spells its method. The image is the one exception to "every
/// byte": its body is what decoding the embedded text gives.
pub proof fn lemma_registered_responses(hello_template: Seq<char>, request: RequestView)
    ensures
        ({
            let answer = demo_table(hello_template).dispatch(request);
            let method = Method::named(request.method);
            let path = request.path;
            let ok = STATUS_OK as int;
            &&& method == Some(Method::Get) && path == "/"@ ==> answer == Ok::<
                ResponseView,
                DecodeError,
            >(ResponseView::text(ok, TEXT_PLAIN_UTF_8@, "Hello, World!"@))
            &&& method == Some(Method::Get) && path == "/demo.html"@ ==> answer == Ok::<
                ResponseView,
                DecodeError,
            >(ResponseView::text(ok, TEXT_HTML_UTF_8@, "<h1>Hello</h1>"@))
            &&& method == Some(Method::Get) && path == "/hello.html"@ ==> answer == Ok::<
                ResponseView,
                DecodeError,
            >(ResponseView::text(ok, TEXT_HTML_UTF_8@, hello_template))
            &&& method == Some(Method::Get) && path == "/demo-status"@ ==> answer == Ok::<
                ResponseView,
                DecodeError,
            >(ResponseView::text(ok, TEXT_PLAIN_UTF_8@, "Everything is OK"@))
            &&& method == Some(Method::Get) && path == "/demo-uri"@ ==> answer == Ok::<
                ResponseView,
                DecodeError,
            >(ResponseView::text(ok, TEXT_PLAIN_UTF_8@, uri_report(debug_quoted(request.uri))))
            &&& method == Some(Method::Get) && path == "/demo.png"@ ==> answer == png_outcome(
                base64_decoded(DEMO_PNG_BASE64@),
            )
            &&& method == Some(Method::Get) && path == "/foo"@ ==> answer == Ok::<
                ResponseView,
                DecodeError,
            >(ResponseView::text(ok, TEXT_PLAIN@, "GET foo"@))
            &&& method == Some(Method::Put) && path == "/foo"@ ==> answer == Ok::<
                ResponseView,
                DecodeError,
            >(ResponseView::text(ok, TEXT_PLAIN@, "PUT foo"@))
            &&& method == Some(Method::Post) && path == "/foo"@ ==> answer == Ok::<
                ResponseView,
                DecodeError,
            >(ResponseView::text(ok, TEXT_PLAIN@, "POST foo"@))
            &&& method == Some(Method::Patch) && path == "/foo"@ ==> answer == Ok::<
                ResponseView,
                DecodeError,
            >(ResponseView::text(ok, TEXT_PLAIN@, "PATCH foo"@))
            &&& method == Some(Method::Delete) && path == "/foo"@ ==> answer == Ok::<
                ResponseView,
                DecodeError,
            >(ResponseView::text(ok, TEXT_PLAIN@, "DELETE foo"@))
        }),
{
    lemma_paths_differ();
}

/// Every other request is answered "not found", with its URI in the body:
/// one whose method is none of the five, and one whose method and path are
/// no route's.
pub proof fn lemma_unregistered_not_found(hello_template: Seq<char>, request: RequestView)
    requires
        !(Method::named(request.method) matches Some(m) && registered(m, request.path)),
    ensures
        demo_table(hello_template).dispatch(request) == Ok::<ResponseView, DecodeError>(
            ResponseView::text(
                STATUS_NOT_FOUND as int,
                TEXT_PLAIN@,
                no_route_message(request.uri),
            ),
        ),
{
    if let Some(m) = Method::named(request.method) {
        lemma_table_holds_registered(hello_template, m, request.path);
    }
}

} // verus!
