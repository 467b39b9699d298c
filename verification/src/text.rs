//! Bytes as text.

use vstd::prelude::*;
use vstd::utf8::{encode_utf8, valid_utf8};

verus! {

/// `core::str::from_utf8`, with its error left out: the bytes as a string
/// slice where they are valid UTF-8, and nothing where they are not. The
/// slice it gives is made of the very bytes it was given.
///
/// This contract is taken on trust from the documentation of the standard
/// library; validity is the one that `vstd::utf8` defines.
#[verifier::external_body]
pub(crate) fn text_of(bytes: &[u8]) -> (text: Option<&str>)
    ensures
        text is Some <==> valid_utf8(bytes@),
        text matches Some(slice) ==> encode_utf8(slice@) == bytes@,
{
    match core::str::from_utf8(bytes) {
        Ok(slice) => Some(slice),
        Err(_) => None,
    }
}

} // verus!
