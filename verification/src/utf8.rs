//! Bytes that other programs print, read as text.
use vstd::prelude::*;
use vstd::utf8::{decode_utf8, valid_utf8};

verus! {

/// What `String::from_utf8_lossy` makes of the bytes.
pub uninterp spec fn lossy(bytes: Seq<u8>) -> Seq<char>;

/// Trusts `String::from_utf8_lossy`: the text is a function of the bytes, and
/// of valid UTF-8 it is what the bytes encode. Which characters stand for
/// invalid bytes is left to the name.
#[verifier::external_body]
pub(crate) fn decode(bytes: &[u8]) -> (result: String)
    ensures
        result@ == lossy(bytes@),
        valid_utf8(bytes@) ==> result@ == decode_utf8(bytes@),
{
    String::from_utf8_lossy(bytes).into_owned()
}

} // verus!
