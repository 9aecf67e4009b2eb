//! Literal byte patterns: where one occurs in a byte string.

use vstd::prelude::*;

verus! {

/// `pattern` stands in `text` at offset `at`.
pub open spec fn occurs_at(text: Seq<u8>, pattern: Seq<u8>, at: int) -> bool {
    &&& 0 <= at
    &&& at + pattern.len() <= text.len()
    &&& text.subrange(at, at + pattern.len()) == pattern
}

/// `text` begins with `pattern`.
pub open spec fn has_prefix(text: Seq<u8>, pattern: Seq<u8>) -> bool {
    occurs_at(text, pattern, 0)
}

/// `pattern` stands somewhere in `text`.
pub open spec fn has_infix(text: Seq<u8>, pattern: Seq<u8>) -> bool {
    exists|at: int| occurs_at(text, pattern, at)
}

/// Tells whether `pattern` stands in `text` at offset `at`.
pub fn matches_at(text: &[u8], pattern: &[u8], at: usize) -> (found: bool)
    ensures
        found == occurs_at(text@, pattern@, at as int),
{
    if pattern.len() > text.len() || at > text.len() - pattern.len() {
        return false;
    }
    let mut k: usize = 0;
    while k < pattern.len()
        invariant
            k <= pattern.len(),
            at + pattern.len() <= text.len(),
            forall|j: int| 0 <= j < k ==> text@[at + j] == pattern@[j],
        decreases pattern.len() - k,
    {
        if text[at + k] != pattern[k] {
            proof {
                let window = text@.subrange(at as int, at + pattern@.len());
                assert(window[k as int] == text@[at + k]);
            }
            return false;
        }
        k += 1;
    }
    proof {
        assert(text@.subrange(at as int, at + pattern@.len()) =~= pattern@);
    }
    true
}

/// Tells whether `text` begins with `pattern`.
pub fn starts_with(text: &[u8], pattern: &[u8]) -> (found: bool)
    ensures
        found == has_prefix(text@, pattern@),
{
    matches_at(text, pattern, 0)
}

/// Tells whether `pattern` stands somewhere in `text`.
pub fn contains(text: &[u8], pattern: &[u8]) -> (found: bool)
    ensures
        found == has_infix(text@, pattern@),
{
    if pattern.len() > text.len() {
        return false;
    }
    let last: usize = text.len() - pattern.len();
    let mut at: usize = 0;
    loop
        invariant
            last == text.len() - pattern.len(),
            at <= last,
            forall|j: int| 0 <= j < at ==> !occurs_at(text@, pattern@, j),
        decreases last - at,
    {
        if matches_at(text, pattern, at) {
            return true;
        }
        if at == last {
            return false;
        }
        at += 1;
    }
}

} // verus!
