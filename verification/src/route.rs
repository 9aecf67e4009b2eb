//! Which page a request line asks for.

use crate::pattern::{contains, has_infix, has_prefix, starts_with};
use vstd::prelude::*;
use vstd::string::StringSliceAdditionalSpecFns;

verus! {

/// The three outcomes of routing.
#[derive(Clone, Copy, Debug, PartialEq, Eq, Structural)]
pub enum Route {
    /// The front page was asked for.
    Index,
    /// The about page was asked for.
    About,
    /// Anything else. It is answered with the front page under a 404 status.
    NotFound,
}

/// What a request line begins with when it asks for the front page.
pub open spec fn index_request() -> Seq<u8> {
    "GET / HTTP".spec_bytes()
}

/// What a request line holds, anywhere, when it asks for the about page.
pub open spec fn about_request() -> Seq<u8> {
    "GET /about.html".spec_bytes()
}

/// The route of a request line, given by its bytes. The rules are tried in
/// order and the first that matches wins.
pub open spec fn route_of(line: Seq<u8>) -> Route {
    if has_prefix(line, index_request()) {
        Route::Index
    } else if has_infix(line, about_request()) {
        Route::About
    } else {
        Route::NotFound
    }
}

/// Chooses the route of a request line.
pub fn route(line: &str) -> (chosen: Route)
    ensures
        chosen == route_of(line.spec_bytes()),
{
    let bytes = line.as_bytes();
    if starts_with(bytes, "GET / HTTP".as_bytes()) {
        Route::Index
    } else if contains(bytes, "GET /about.html".as_bytes()) {
        Route::About
    } else {
        Route::NotFound
    }
}

impl Route {
    /// The status line of the response, as text.
    pub open spec fn status_text(self) -> Seq<char> {
        match self {
            Route::Index | Route::About => "HTTP/1.1 200 OK"@,
            Route::NotFound => "HTTP/1.1 404 NOT FOUND"@,
        }
    }

    /// The path of the file whose contents are the body, as text.
    pub open spec fn file_text(self) -> Seq<char> {
        match self {
            Route::About => "public/about.html"@,
            Route::Index | Route::NotFound => "public/index.html"@,
        }
    }

    /// The status line of the response to this route.
    pub fn status_line(self) -> (line: &'static str)
        ensures
            line@ == self.status_text(),
    {
        match self {
            Route::Index | Route::About => "HTTP/1.1 200 OK",
            Route::NotFound => "HTTP/1.1 404 NOT FOUND",
        }
    }

    /// The path, relative to the working directory, of the file to serve.
    pub fn file_name(self) -> (path: &'static str)
        ensures
            path@ == self.file_text(),
    {
        match self {
            Route::About => "public/about.html",
            Route::Index | Route::NotFound => "public/index.html",
        }
    }
}

} // verus!
