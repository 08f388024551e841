//! Lengths of the text fields that records store.

use vstd::prelude::*;
use vstd::string::StringSliceAdditionalSpecFns;
use vstd::utf8::encode_utf8;

verus! {

/// The number of bytes that `text` takes when it is stored, which is the
/// length of its UTF-8 encoding.
pub open spec fn byte_len(text: Seq<char>) -> nat {
    encode_utf8(text).len()
}

/// Whether `text` takes no more than `limit` bytes.
pub fn fits(text: &String, limit: usize) -> (yes: bool)
    ensures
        yes == (byte_len(text@) <= limit),
{
    text.as_str().as_bytes().len() <= limit
}

} // verus!
