//! Lengths of the texts that records carry.

use vstd::prelude::*;

verus! {

/// The number of bytes that `text` takes in UTF-8, the unit in which the
/// limits on stored texts are counted.
pub open spec fn byte_len(text: Seq<char>) -> nat {
    vstd::utf8::encode_utf8(text).len()
}

/// The characters of a text that may be absent.
pub open spec fn text_view(text: Option<String>) -> Option<Seq<char>> {
    match text {
        Some(t) => Some(t@),
        None => None,
    }
}

/// Whether `text` takes at most `limit` bytes.
pub fn fits(text: &String, limit: usize) -> (ok: bool)
    ensures
        ok == (byte_len(text@) <= limit),
{
    text.as_str().as_bytes().len() <= limit
}

} // verus!
