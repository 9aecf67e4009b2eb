//! From received bytes to the request line.

use vstd::prelude::*;
use vstd::string::StringSliceAdditionalSpecFns;
use vstd::utf8::{
    decode_utf8, encode_utf8_valid_utf8, is_char_boundary_iff_not_is_continuation_byte,
    valid_utf8,
};

verus! {

/// How many bytes of a request are looked at; what lies beyond is ignored.
pub const REQUEST_CAPACITY: usize = 1024;

/// The line feed that ends a line.
pub const LINE_FEED: u8 = 10;

/// The carriage return that may stand before a line feed.
pub const CARRIAGE_RETURN: u8 = 13;

/// The part of `raw` that is looked at: its first `REQUEST_CAPACITY` bytes,
/// or all of it where it is shorter.
pub open spec fn received(raw: Seq<u8>) -> Seq<u8> {
    if raw.len() <= REQUEST_CAPACITY {
        raw
    } else {
        raw.subrange(0, REQUEST_CAPACITY as int)
    }
}

/// The text that lenient UTF-8 decoding makes of `bytes`: what is well
/// formed is kept, each ill-formed part becomes U+FFFD.
pub uninterp spec fn lossy_text(bytes: Seq<u8>) -> Seq<char>;

/// Calls `String::from_utf8_lossy` and takes the result as an owned string.
/// Believed of it: the result depends on the bytes alone, and bytes that are
/// valid UTF-8 decode to the text they encode.
#[verifier::external_body]
fn decode_lossy(bytes: &[u8]) -> (text: String)
    ensures
        text@ == lossy_text(bytes@),
        valid_utf8(bytes@) ==> text@ == decode_utf8(bytes@),
{
    String::from_utf8_lossy(bytes).into_owned()
}

/// The request text: the received part of `raw`, leniently decoded.
pub open spec fn request_text(raw: Seq<u8>) -> Seq<char> {
    lossy_text(received(raw))
}

/// Cuts `raw` to the capacity and decodes it leniently. Never fails.
pub fn decode_request(raw: &[u8]) -> (text: String)
    ensures
        text@ == request_text(raw@),
        valid_utf8(received(raw@)) ==> text@ == decode_utf8(received(raw@)),
{
    if raw.len() <= REQUEST_CAPACITY {
        decode_lossy(raw)
    } else {
        decode_lossy(&raw[0..REQUEST_CAPACITY])
    }
}

/// Where the first line of `text` stops: the offset of its first line feed,
/// or its length where it has none.
pub open spec fn line_end(text: Seq<u8>) -> nat
    decreases text.len(),
{
    if text.len() == 0 || text[0] == LINE_FEED {
        0
    } else {
        1 + line_end(text.drop_first())
    }
}

/// The first line of `text` without its terminator. The terminator is a line
/// feed, with the carriage return before it if there is one. A text without
/// line feed is its own first line, a trailing carriage return included.
pub open spec fn first_line(text: Seq<u8>) -> Seq<u8> {
    let end = line_end(text) as int;
    if 0 < end < text.len() && text[end - 1] == CARRIAGE_RETURN {
        text.subrange(0, end - 1)
    } else {
        text.subrange(0, end)
    }
}

/// `line_end` is the one offset with no line feed before it that is the
/// text's length or holds a line feed.
pub proof fn line_end_is_first_line_feed(text: Seq<u8>, end: int)
    requires
        0 <= end <= text.len(),
        forall|j: int| 0 <= j < end ==> text[j] != LINE_FEED,
        end < text.len() ==> text[end] == LINE_FEED,
    ensures
        line_end(text) == end,
    decreases text.len(),
{
    if end > 0 {
        let rest = text.drop_first();
        assert forall|j: int| 0 <= j < end - 1 implies rest[j] != LINE_FEED by {
            assert(rest[j] == text[j + 1]);
        }
        line_end_is_first_line_feed(rest, end - 1);
    }
}

/// The first line of `text`, borrowed from it.
pub fn request_line<'a>(text: &'a str) -> (line: &'a str)
    ensures
        line.spec_bytes() == first_line(text.spec_bytes()),
{
    let bytes = text.as_bytes();
    let mut end: usize = 0;
    while end < bytes.len() && bytes[end] != LINE_FEED
        invariant
            end <= bytes.len(),
            forall|j: int| 0 <= j < end ==> bytes@[j] != LINE_FEED,
        decreases bytes.len() - end,
    {
        end += 1;
    }
    proof {
        line_end_is_first_line_feed(bytes@, end as int);
    }
    if end == bytes.len() {
        proof {
            assert(bytes@.subrange(0, end as int) =~= bytes@);
        }
        return text;
    }
    let cut: usize = if end > 0 && bytes[end - 1] == CARRIAGE_RETURN {
        end - 1
    } else {
        end
    };
    proof {
        encode_utf8_valid_utf8(text@);
        is_char_boundary_iff_not_is_continuation_byte(bytes@, cut as int);
    }
    let (line, _) = text.split_at(cut);
    line
}

} // verus!
