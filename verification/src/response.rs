//! The bytes of a response.

use crate::decimal::{decimal_digits, push_decimal};
use crate::route::Route;
use vstd::prelude::*;
use vstd::string::StringSliceAdditionalSpecFns;
use vstd::utf8::encode_utf8;

verus! {

/// The body sent where the file could not be loaded.
pub open spec fn fallback_text() -> Seq<char> {
    "<h1>Error loading page</h1>"@
}

/// The body to send: what was loaded, or the fallback where nothing was.
pub open spec fn body_text(loaded: Option<String>) -> Seq<char> {
    match loaded {
        Some(contents) => contents@,
        None => fallback_text(),
    }
}

/// What stands between the status line and the length.
pub open spec fn length_label() -> Seq<u8> {
    "\r\nContent-Length: ".spec_bytes()
}

/// What stands between the length and the body: the header's line end and
/// an empty line.
pub open spec fn head_end() -> Seq<u8> {
    "\r\n\r\n".spec_bytes()
}

/// The response with the given status line and body: the status line, one
/// `Content-Length` header that gives the body's length in bytes, an empty
/// line, and the body. No other header, nothing after the body.
pub open spec fn response_bytes(status: Seq<u8>, body: Seq<u8>) -> Seq<u8> {
    status + length_label() + decimal_digits(body.len()) + head_end() + body
}

/// The response to `route` when loading its file gave `loaded`.
pub open spec fn response_to(route: Route, loaded: Option<String>) -> Seq<u8> {
    response_bytes(encode_utf8(route.status_text()), encode_utf8(body_text(loaded)))
}

/// Takes the loaded contents, or the fallback body where loading failed.
pub fn body_or_fallback(loaded: Option<String>) -> (body: String)
    ensures
        body@ == body_text(loaded),
{
    match loaded {
        Some(contents) => contents,
        None => String::from_str("<h1>Error loading page</h1>"),
    }
}

/// Lays out the response with the given status line and body.
pub fn build_response(status_line: &str, body: &str) -> (response: Vec<u8>)
    ensures
        response@ == response_bytes(status_line.spec_bytes(), body.spec_bytes()),
{
    let mut response: Vec<u8> = Vec::new();
    response.extend_from_slice(status_line.as_bytes());
    response.extend_from_slice("\r\nContent-Length: ".as_bytes());
    assert(response@ =~= status_line.spec_bytes() + length_label());
    let body_bytes = body.as_bytes();
    push_decimal(&mut response, body_bytes.len());
    let ghost head = response@;
    response.extend_from_slice("\r\n\r\n".as_bytes());
    response.extend_from_slice(body_bytes);
    assert(response@ =~= head + head_end() + body.spec_bytes());
    response
}

/// Lays out the response to `route`, with the loaded contents as its body,
/// or the fallback body where loading failed.
pub fn respond(route: Route, loaded: Option<String>) -> (response: Vec<u8>)
    ensures
        response@ == response_to(route, loaded),
{
    let body = body_or_fallback(loaded);
    build_response(route.status_line(), body.as_str())
}

} // verus!
