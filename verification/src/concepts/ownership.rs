//! Giving a value away and lending it.

use vstd::prelude::*;
use vstd::utf8::encode_utf8;

verus! {

/// The number of bytes that the text occupies in its UTF-8 encoding.
pub open spec fn byte_length(text: Seq<char>) -> nat {
    encode_utf8(text).len()
}

/// Takes a string over for good: the caller gives it up, and what comes back
/// is the line to show, which is the string itself.
pub fn take_ownership(some_string: String) -> (line: String)
    ensures
        line@ == some_string@,
{
    some_string
}

/// Measures a borrowed string: the caller keeps the string, and the result is
/// the length of its UTF-8 encoding in bytes.
pub fn calculate_length(s: &String) -> (len: usize)
    ensures
        len == byte_length(s@),
{
    s.as_str().as_bytes().len()
}

} // verus!
