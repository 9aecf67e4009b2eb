//! One exchange from end to end, and what holds of every exchange.

use crate::decimal::{decimal_digits, decimal_reads_back, decimal_value};
use crate::pattern::{has_infix, has_prefix};
use crate::request::{
    decode_request, first_line, received, request_line, request_text, REQUEST_CAPACITY,
};
use crate::response::{body_text, head_end, length_label, response_bytes, response_to};
use crate::route::{about_request, index_request, route, route_of, Route};
use vstd::prelude::*;
use vstd::string::StringSliceAdditionalSpecFns;
use vstd::utf8::{decode_utf8_encode_utf8, encode_utf8, valid_utf8};

verus! {

/// The route of the request whose bytes are `raw`: that of the first line of
/// its text.
pub open spec fn request_route(raw: Seq<u8>) -> Route {
    route_of(first_line(encode_utf8(request_text(raw))))
}

/// Chooses the route of the request whose bytes are `raw`. Where the received
/// part is valid UTF-8, the choice is read off its bytes as they are; a
/// request of no bytes at all is not found.
pub fn route_request(raw: &[u8]) -> (chosen: Route)
    ensures
        chosen == request_route(raw@),
        valid_utf8(received(raw@)) ==> chosen == route_of(first_line(received(raw@))),
        raw@.len() == 0 ==> chosen == Route::NotFound,
{
    let text = decode_request(raw);
    proof {
        if valid_utf8(received(raw@)) {
            decode_utf8_encode_utf8(received(raw@));
        }
        if raw@.len() == 0 {
            empty_line_is_not_found();
            assert(first_line(received(raw@)) =~= Seq::<u8>::empty());
        }
    }
    route(request_line(text.as_str()))
}

/// A request line that begins with `GET / HTTP` is answered with status
/// `HTTP/1.1 200 OK` and the front page's file, or the fallback body where
/// that file could not be loaded.
pub proof fn front_page_is_served(line: Seq<u8>, loaded: Option<String>)
    requires
        has_prefix(line, index_request()),
    ensures
        route_of(line) == Route::Index,
        route_of(line).status_text() == "HTTP/1.1 200 OK"@,
        route_of(line).file_text() == "public/index.html"@,
        response_to(route_of(line), loaded) == response_bytes(
            "HTTP/1.1 200 OK".spec_bytes(),
            encode_utf8(body_text(loaded)),
        ),
{
}

/// A request line that holds `GET /about.html` anywhere, and does not begin
/// with `GET / HTTP`, is answered with status `HTTP/1.1 200 OK` and the about
/// page's file, or the fallback body where that file could not be loaded.
pub proof fn about_page_is_served(line: Seq<u8>, loaded: Option<String>)
    requires
        !has_prefix(line, index_request()),
        has_infix(line, about_request()),
    ensures
        route_of(line) == Route::About,
        route_of(line).status_text() == "HTTP/1.1 200 OK"@,
        route_of(line).file_text() == "public/about.html"@,
        response_to(route_of(line), loaded) == response_bytes(
            "HTTP/1.1 200 OK".spec_bytes(),
            encode_utf8(body_text(loaded)),
        ),
{
}

/// Every other request line is answered with status `HTTP/1.1 404 NOT FOUND`
/// and, all the same, the front page's file or the fallback body.
pub proof fn anything_else_is_not_found(line: Seq<u8>, loaded: Option<String>)
    requires
        !has_prefix(line, index_request()),
        !has_infix(line, about_request()),
    ensures
        route_of(line) == Route::NotFound,
        route_of(line).status_text() == "HTTP/1.1 404 NOT FOUND"@,
        route_of(line).file_text() == "public/index.html"@,
        response_to(route_of(line), loaded) == response_bytes(
            "HTTP/1.1 404 NOT FOUND".spec_bytes(),
            encode_utf8(body_text(loaded)),
        ),
{
}

/// The empty request line is not found.
pub proof fn empty_line_is_not_found()
    ensures
        route_of(Seq::<u8>::empty()) == Route::NotFound,
{
    reveal_strlit("GET / HTTP");
    reveal_strlit("GET /about.html");
    let index = "GET / HTTP"@;
    let about = "GET /about.html"@;
    assert(index.len() == 10);
    assert(about.len() == 15);
    assert(encode_utf8(index).len() > 0);
    assert(encode_utf8(about).len() > 0);
}

/// In every response the digits after `Content-Length: ` write the exact
/// number of bytes of the body, and the body is what the response ends with.
pub proof fn content_length_counts_the_body(status: Seq<u8>, body: Seq<u8>)
    ensures
        ({
            let response = response_bytes(status, body);
            let digits = decimal_digits(body.len());
            let head = (status.len() + length_label().len()) as int;
            &&& response.len() == head + digits.len() + head_end().len() + body.len()
            &&& response.subrange(0, status.len() as int) == status
            &&& response.subrange(head, head + digits.len()) == digits
            &&& decimal_value(digits) == body.len()
            &&& response.subrange(response.len() - body.len(), response.len() as int) == body
        }),
{
    let response = response_bytes(status, body);
    let digits = decimal_digits(body.len());
    let head = (status.len() + length_label().len()) as int;
    decimal_reads_back(body.len());
    assert(response.subrange(0, status.len() as int) =~= status);
    assert(response.subrange(head, head + digits.len()) =~= digits);
    assert(response.subrange(response.len() - body.len(), response.len() as int) =~= body);
}

/// At most `REQUEST_CAPACITY` bytes of a request are received, and they are
/// its first.
pub proof fn received_is_a_capped_prefix(raw: Seq<u8>)
    ensures
        received(raw).len() <= REQUEST_CAPACITY,
        received(raw).is_prefix_of(raw),
        received(raw).len() == raw.len() || received(raw).len() == REQUEST_CAPACITY,
{
}

/// Two requests that agree on what is received of them get the same route.
pub proof fn route_depends_on_received_bytes(first: Seq<u8>, second: Seq<u8>)
    requires
        received(first) == received(second),
    ensures
        request_route(first) == request_route(second),
{
}

/// What follows the first `REQUEST_CAPACITY` bytes of a request has no part
/// in its routing.
pub proof fn bytes_past_capacity_are_ignored(raw: Seq<u8>, more: Seq<u8>)
    requires
        raw.len() >= REQUEST_CAPACITY,
    ensures
        request_route(raw + more) == request_route(raw),
{
    assert(received(raw + more) =~= received(raw));
}

} // verus!
