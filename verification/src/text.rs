//! Text produced with the standard library: UTF-8 decoding and error messages.
use vstd::prelude::*;
use vstd::utf8::{decode_utf8, valid_utf8};
use crate::de::{push_text, unsigned_text};
use crate::model::decimal;

verus! {

/// What the standard library says of a byte sequence that is not valid UTF-8.
pub uninterp spec fn utf8_error_message(bytes: Seq<u8>) -> Seq<char>;

/// `String::from_utf8`: the string whose UTF-8 encoding the bytes are, or,
/// when they are no valid UTF-8, the message of the error (`to_string` of it).
#[verifier::external_body]
pub(crate) fn string_from_utf8(v: Vec<u8>) -> (r: Result<String, String>)
    ensures
        r is Ok <==> valid_utf8(v@),
        r matches Ok(s) ==> s@ == decode_utf8(v@),
        r matches Err(m) ==> m@ == utf8_error_message(v@),
{
    match String::from_utf8(v) {
        Ok(s) => Ok(s),
        Err(e) => Err(e.to_string()),
    }
}

/// The message of an invalid marker of the kind `kind`: the marker in
/// decimal.
pub(crate) fn marker_message(kind: &str, marker: u8) -> (s: String)
    ensures
        s@ == "invalid "@ + kind@ + " marker "@ + decimal(marker as nat),
{
    let mut s = String::new();
    push_text(&mut s, "invalid ");
    push_text(&mut s, kind);
    push_text(&mut s, " marker ");
    push_text(&mut s, unsigned_text(marker as u64).as_str());
    s
}

/// `==` on string slices: the same chars.
#[verifier::external_body]
pub(crate) fn str_eq(a: &str, b: &str) -> (r: bool)
    ensures
        r == (a@ == b@),
{
    a == b
}

} // verus!
