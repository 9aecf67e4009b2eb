use page_server::request::{decode_request, request_line};
use page_server::route::{route, Route};
use page_server::server::route_request;

#[test]
fn front_page_request_routes_to_index() {
    assert_eq!(route("GET / HTTP/1.1"), Route::Index);
    assert_eq!(route("GET / HTTP"), Route::Index);
    assert_eq!(route("GET / HTTP/9.9 whatever follows"), Route::Index);
}

#[test]
fn about_request_routes_to_about() {
    assert_eq!(route("GET /about.html HTTP/1.1"), Route::About);
    assert_eq!(route("GET /about.html"), Route::About);
}

#[test]
fn about_pattern_matches_inside_a_longer_line() {
    assert_eq!(route("garbage GET /about.html more garbage"), Route::About);
    assert_eq!(route("POST /x?GET /about.htmlx"), Route::About);
}

#[test]
fn front_page_rule_wins_over_about_rule() {
    assert_eq!(route("GET / HTTP GET /about.html"), Route::Index);
}

#[test]
fn other_lines_are_not_found() {
    assert_eq!(route("GET /missing HTTP/1.1"), Route::NotFound);
    assert_eq!(route(""), Route::NotFound);
    assert_eq!(route(" GET / HTTP/1.1"), Route::NotFound);
    assert_eq!(route("GET / HTT"), Route::NotFound);
    assert_eq!(route("get / http/1.1"), Route::NotFound);
    assert_eq!(route("POST / HTTP/1.1"), Route::NotFound);
    assert_eq!(route("GET /about.htm"), Route::NotFound);
    assert_eq!(route("GET /About.html HTTP/1.1"), Route::NotFound);
}

#[test]
fn status_lines_are_fixed() {
    assert_eq!(Route::Index.status_line(), "HTTP/1.1 200 OK");
    assert_eq!(Route::About.status_line(), "HTTP/1.1 200 OK");
    assert_eq!(Route::NotFound.status_line(), "HTTP/1.1 404 NOT FOUND");
}

#[test]
fn file_names_are_fixed() {
    assert_eq!(Route::Index.file_name(), "public/index.html");
    assert_eq!(Route::About.file_name(), "public/about.html");
    assert_eq!(Route::NotFound.file_name(), "public/index.html");
}

#[test]
fn route_request_reads_the_first_line_only() {
    assert_eq!(route_request(b"GET / HTTP/1.1\r\nHost: x\r\n\r\n"), Route::Index);
    assert_eq!(route_request(b"GET /about.html HTTP/1.1\r\n\r\n"), Route::About);
    assert_eq!(route_request(b"GET /missing HTTP/1.1\r\n\r\n"), Route::NotFound);
    assert_eq!(route_request(b"POST /x HTTP/1.1\r\nX: GET /about.html\r\n\r\n"), Route::NotFound);
    assert_eq!(route_request(b"\nGET / HTTP/1.1\r\n"), Route::NotFound);
}

#[test]
fn route_request_of_nothing_is_not_found() {
    assert_eq!(route_request(b""), Route::NotFound);
}

#[test]
fn route_request_agrees_with_its_steps() {
    let requests: [&[u8]; 5] = [
        b"GET / HTTP/1.1\r\n\r\n",
        b"GET /about.html HTTP/1.1\r\n\r\n",
        b"GET /missing HTTP/1.1\r\n\r\n",
        b"",
        b"\xffGET /about.html\n",
    ];
    for raw in requests {
        let text = decode_request(raw);
        assert_eq!(route_request(raw), route(request_line(&text)));
    }
}

#[test]
fn ill_formed_bytes_do_not_hide_the_about_pattern() {
    assert_eq!(route_request(b"\xff\xfeGET /about.html\r\n"), Route::About);
}

#[test]
fn ill_formed_byte_in_front_spoils_the_front_page_prefix() {
    assert_eq!(route_request(b"\xffGET / HTTP/1.1\r\n"), Route::NotFound);
}

#[test]
fn pattern_that_ends_at_the_capacity_counts() {
    let mut raw = vec![b'x'; 1024 - 15];
    raw.extend_from_slice(b"GET /about.html");
    assert_eq!(raw.len(), 1024);
    assert_eq!(route_request(&raw), Route::About);
    raw.extend_from_slice(b" HTTP/1.1\r\n\r\n");
    assert_eq!(route_request(&raw), Route::About);
}

#[test]
fn pattern_cut_by_the_capacity_does_not_count() {
    let mut raw = vec![b'x'; 1024 - 14];
    raw.extend_from_slice(b"GET /about.html HTTP/1.1\r\n\r\n");
    assert_eq!(route_request(&raw), Route::NotFound);
}

#[test]
fn bytes_past_the_capacity_do_not_change_the_route() {
    let mut first = b"GET / HTTP/1.1\r\n".to_vec();
    first.resize(1024, b'h');
    let mut second = first.clone();
    first.extend_from_slice(b"tail one");
    second.extend_from_slice(b"\nGET /about.html and quite another tail");
    assert_eq!(route_request(&first), Route::Index);
    assert_eq!(route_request(&second), Route::Index);
}

#[test]
fn line_feed_past_the_capacity_is_not_seen() {
    let mut raw = vec![b'x'; 1024];
    raw.extend_from_slice(b"\n");
    let text = decode_request(&raw);
    assert_eq!(request_line(&text).len(), 1024);
}
