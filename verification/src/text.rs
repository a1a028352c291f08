//! The payload as text.

use vstd::prelude::*;
use vstd::utf8::{decode_utf8, valid_utf8};

verus! {

/// The characters that the lossy UTF-8 decoding of `bytes` yields: those
/// that the valid parts encode, with the replacement character U+FFFD in
/// place of each invalid sequence.
pub uninterp spec fn utf8_lossy(bytes: Seq<u8>) -> Seq<char>;

/// Calls `String::from_utf8_lossy` and takes the result as an owned
/// `String`.
///
/// Believed of it, not proved: the result is the lossy decoding of the
/// bytes, which depends on the bytes alone; and bytes that are valid UTF-8
/// decode to exactly the characters they encode, with nothing replaced.
#[verifier::external_body]
pub(crate) fn decode_lossy(bytes: &[u8]) -> (text: String)
    ensures
        text@ == utf8_lossy(bytes@),
        valid_utf8(bytes@) ==> text@ == decode_utf8(bytes@),
{
    String::from_utf8_lossy(bytes).into_owned()
}

} // verus!
