//! A tiny static-page HTTP responder.
//!
//! The library holds everything about one exchange that is not I/O: cutting
//! the received bytes to the read capacity, decoding them leniently, taking
//! the request line, choosing a route, and laying out the response bytes.
//! Contracts speak of text by its UTF-8 bytes.

pub mod decimal;
pub mod pattern;
pub mod request;
pub mod response;
pub mod route;
pub mod server;
