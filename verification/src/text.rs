//! A path as text: the two conversions of std from bytes to a string.
//!
//! Nothing in this file is proved: each item states what std documents.

use vstd::prelude::*;
use vstd::utf8::{decode_utf8, valid_utf8};

verus! {

/// What `String::from_utf8_lossy` makes of the bytes: their text, with each
/// invalid sequence replaced by U+FFFD.
pub uninterp spec fn lossy_decode(bytes: Seq<u8>) -> Seq<char>;

/// `std::str::from_utf8`: the bytes as text, if and only if they are valid
/// UTF-8; the text is then what they decode to.
#[verifier::external_body]
pub(crate) fn utf8_text(bytes: &[u8]) -> (text: Option<&str>)
    ensures
        text is Some <==> valid_utf8(bytes@),
        text matches Some(s) ==> s@ == decode_utf8(bytes@),
{
    std::str::from_utf8(bytes).ok()
}

/// `String::from_utf8_lossy`: the bytes as text, whatever they hold.
#[verifier::external_body]
pub(crate) fn lossy_text(bytes: &[u8]) -> (text: String)
    ensures
        text@ == lossy_decode(bytes@),
{
    String::from_utf8_lossy(bytes).into_owned()
}

} // verus!
