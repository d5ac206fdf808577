//! Decoding of the bytes that arrive, done by the standard library.
//!
//! What the decoding makes of bytes that are not valid UTF-8 is taken on
//! trust: `lossy_text` stands for the result, and nothing in this crate says
//! what it is for such bytes.

use vstd::prelude::*;
use vstd::utf8::{decode_utf8, valid_utf8};

verus! {

/// The text that `String::from_utf8_lossy` makes of `bytes`.
pub uninterp spec fn lossy_text(bytes: Seq<u8>) -> Seq<char>;

/// Decodes `bytes` with `String::from_utf8_lossy`. Trusted: the result is by
/// definition `lossy_text`, and for bytes that are valid UTF-8 it is the text
/// that they encode.
#[verifier::external_body]
pub(crate) fn decode_lossy(bytes: &[u8]) -> (text: String)
    ensures
        text@ == lossy_text(bytes@),
        valid_utf8(bytes@) ==> text@ == decode_utf8(bytes@),
{
    String::from_utf8_lossy(bytes).into_owned()
}

} // verus!
