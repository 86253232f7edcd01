use demo_routes::codec::DecodeError;
use demo_routes::handlers::{
    delete_foo, demo_status, demo_uri, fallback, get_demo_html, get_demo_png, get_foo, hello,
    hello_html, patch_foo, png_from_base64, png_response, post_foo, put_foo, uri_message, Handler,
    DEMO_PNG_BASE64,
};
use demo_routes::response::Response;

const PNG_SIGNATURE: [u8; 8] = [0x89, 0x50, 0x4E, 0x47, 0x0D, 0x0A, 0x1A, 0x0A];

const DEMO_PNG: [u8; 70] = [
    137, 80, 78, 71, 13, 10, 26, 10, 0, 0, 0, 13, 73, 72, 68, 82, 0, 0, 0, 1, 0, 0, 0, 1, 8, 6,
    0, 0, 0, 31, 21, 196, 137, 0, 0, 0, 13, 73, 68, 65, 84, 120, 218, 99, 228, 251, 207, 80, 15,
    0, 3, 190, 1, 142, 72, 124, 209, 128, 0, 0, 0, 0, 73, 69, 78, 68, 174, 66, 96, 130,
];

fn single_header(response: &Response) -> (String, String) {
    assert_eq!(response.headers.len(), 1);
    (response.headers[0].name.clone(), response.headers[0].value.clone())
}

fn content_type(value: &str) -> (String, String) {
    ("Content-Type".to_string(), value.to_string())
}

#[test]
fn hello_greets_in_plain_text() {
    let r = hello();
    assert_eq!(r.status, 200);
    assert_eq!(single_header(&r), content_type("text/plain; charset=utf-8"));
    assert_eq!(r.body, b"Hello, World!".to_vec());
}

#[test]
fn demo_html_is_a_heading() {
    let r = get_demo_html();
    assert_eq!(r.status, 200);
    assert_eq!(single_header(&r), content_type("text/html; charset=utf-8"));
    assert_eq!(r.body, b"<h1>Hello</h1>".to_vec());
}

#[test]
fn hello_html_serves_the_template_unchanged() {
    let template = "<!doctype html>\n<h1>Hello</h1>\n<p>caf\u{e9} \u{2603}</p>\n";
    let r = hello_html(template);
    assert_eq!(r.status, 200);
    assert_eq!(single_header(&r), content_type("text/html; charset=utf-8"));
    assert_eq!(r.body, template.as_bytes().to_vec());
}

#[test]
fn hello_html_of_an_empty_template_is_empty() {
    let r = hello_html("");
    assert_eq!(r.status, 200);
    assert!(r.body.is_empty());
}

#[test]
fn demo_status_says_everything_is_ok() {
    let r = demo_status();
    assert_eq!(r.status, 200);
    assert_eq!(single_header(&r), content_type("text/plain; charset=utf-8"));
    assert_eq!(r.body, b"Everything is OK".to_vec());
}

#[test]
fn demo_uri_quotes_the_uri() {
    let r = demo_uri("/demo-uri");
    assert_eq!(r.status, 200);
    assert_eq!(single_header(&r), content_type("text/plain; charset=utf-8"));
    assert_eq!(r.body, b"The URI is: \"/demo-uri\"".to_vec());
}

#[test]
fn demo_uri_keeps_the_path_and_query_verbatim() {
    let r = demo_uri("/demo-uri?a=1&b=two");
    let body = String::from_utf8(r.body).unwrap();
    assert!(body.contains("/demo-uri?a=1&b=two"));
    assert_eq!(body, "The URI is: \"/demo-uri?a=1&b=two\"");
}

#[test]
fn demo_uri_escapes_what_cannot_stand_in_quotes() {
    let r = demo_uri("/a\"b\\c\nd");
    assert_eq!(r.body, b"The URI is: \"/a\\\"b\\\\c\\nd\"".to_vec());
}

#[test]
fn uri_message_puts_the_prefix_before_the_text() {
    assert_eq!(uri_message("x"), "The URI is: x");
    assert_eq!(uri_message(""), "The URI is: ");
}

#[test]
fn demo_png_is_the_decoded_image() {
    let r = get_demo_png().unwrap();
    assert_eq!(r.status, 200);
    assert_eq!(single_header(&r), content_type("image/png"));
    assert_eq!(r.body.len(), 70);
    assert_eq!(r.body[..8], PNG_SIGNATURE);
    assert_eq!(r.body, DEMO_PNG.to_vec());
}

#[test]
fn demo_png_is_not_its_own_encoding() {
    let r = get_demo_png().unwrap();
    assert_ne!(r.body, DEMO_PNG_BASE64.as_bytes().to_vec());
    assert_eq!(DEMO_PNG_BASE64.len(), 96);
}

#[test]
fn demo_png_text_is_the_embedded_literal() {
    assert_eq!(
        DEMO_PNG_BASE64,
        "iVBORw0KGgoAAAANSUhEUgAAAAEAAAABCAYAAAAfFcSJAAAADUlEQVR42mPk+89QDwADvgGOSHzRgAAAAABJRU5ErkJggg=="
    );
}

#[test]
fn png_from_base64_decodes_text() {
    let r = png_from_base64("aGVsbG8gd29ybGQ=").unwrap();
    assert_eq!(r.status, 200);
    assert_eq!(single_header(&r), content_type("image/png"));
    assert_eq!(r.body, b"hello world".to_vec());
}

#[test]
fn png_from_base64_of_nothing_is_an_empty_body() {
    let r = png_from_base64("").unwrap();
    assert!(r.body.is_empty());
}

#[test]
fn png_from_base64_reports_an_invalid_byte() {
    assert_eq!(
        png_from_base64("aGVs!G8="),
        Err(DecodeError::InvalidByte { offset: 4, byte: b'!' })
    );
}

#[test]
fn png_from_base64_reports_an_invalid_length() {
    assert_eq!(png_from_base64("aGVsb"), Err(DecodeError::InvalidLength));
}

#[test]
fn png_from_base64_reports_an_invalid_last_symbol() {
    assert_eq!(
        png_from_base64("AR=="),
        Err(DecodeError::InvalidLastSymbol { offset: 1, byte: b'R' })
    );
}

#[test]
fn png_response_carries_the_bytes_it_is_given() {
    let r = png_response(Ok(vec![1, 2, 3])).unwrap();
    assert_eq!(r.status, 200);
    assert_eq!(single_header(&r), content_type("image/png"));
    assert_eq!(r.body, vec![1, 2, 3]);
}

#[test]
fn png_response_passes_a_failure_on() {
    assert_eq!(png_response(Err(DecodeError::InvalidLength)), Err(DecodeError::InvalidLength));
    let e = DecodeError::InvalidByte { offset: 3, byte: 0x20 };
    assert_eq!(png_response(Err(e)), Err(e));
}

#[test]
fn foo_handlers_name_their_method() {
    let cases: Vec<(Response, &[u8])> = vec![
        (get_foo(), b"GET foo"),
        (put_foo(), b"PUT foo"),
        (patch_foo(), b"PATCH foo"),
        (post_foo(), b"POST foo"),
        (delete_foo(), b"DELETE foo"),
    ];
    for (r, body) in cases {
        assert_eq!(r.status, 200);
        assert_eq!(single_header(&r), content_type("text/plain"));
        assert_eq!(r.body, body.to_vec());
    }
}

#[test]
fn fallback_names_the_uri() {
    let r = fallback("/does-not-exist");
    assert_eq!(r.status, 404);
    assert_eq!(single_header(&r), content_type("text/plain"));
    assert_eq!(r.body, b"No route /does-not-exist".to_vec());
}

#[test]
fn fallback_keeps_the_query_and_any_character() {
    let r = fallback("/nowhere?q=\u{fc}ber");
    assert_eq!(r.status, 404);
    assert_eq!(r.body, "No route /nowhere?q=\u{fc}ber".as_bytes().to_vec());
}

#[test]
fn fallback_of_an_empty_uri_is_the_bare_prefix() {
    assert_eq!(fallback("").body, b"No route ".to_vec());
}

#[test]
fn each_handler_value_runs_its_handler() {
    let uri = "/some/uri";
    assert_eq!(Handler::Hello.respond(uri), Ok(hello()));
    assert_eq!(Handler::DemoHtml.respond(uri), Ok(get_demo_html()));
    assert_eq!(
        Handler::HelloHtml { template: "<p>x</p>".to_string() }.respond(uri),
        Ok(hello_html("<p>x</p>"))
    );
    assert_eq!(Handler::DemoStatus.respond(uri), Ok(demo_status()));
    assert_eq!(Handler::DemoUri.respond(uri), Ok(demo_uri(uri)));
    assert_eq!(Handler::DemoPng.respond(uri), get_demo_png());
    assert_eq!(Handler::GetFoo.respond(uri), Ok(get_foo()));
    assert_eq!(Handler::PutFoo.respond(uri), Ok(put_foo()));
    assert_eq!(Handler::PatchFoo.respond(uri), Ok(patch_foo()));
    assert_eq!(Handler::PostFoo.respond(uri), Ok(post_foo()));
    assert_eq!(Handler::DeleteFoo.respond(uri), Ok(delete_foo()));
    assert_eq!(Handler::NotFound.respond(uri), Ok(fallback(uri)));
}

#[test]
fn every_handler_announces_a_content_type() {
    let handlers = vec![
        Handler::Hello,
        Handler::DemoHtml,
        Handler::HelloHtml { template: "<p>x</p>".to_string() },
        Handler::DemoStatus,
        Handler::DemoUri,
        Handler::DemoPng,
        Handler::GetFoo,
        Handler::PutFoo,
        Handler::PatchFoo,
        Handler::PostFoo,
        Handler::DeleteFoo,
        Handler::NotFound,
    ];
    for handler in handlers {
        let r = handler.respond("/x").unwrap();
        assert!(r.headers.iter().any(|h| h.name == "Content-Type"));
    }
}
