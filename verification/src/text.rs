//! Decoding of filename and comment bytes into strings.

use vstd::prelude::*;

use crate::cp437::{cp437_decode, from_cp437};

verus! {

/// What lossy UTF-8 decoding makes of a byte sequence: a function of the
/// bytes alone, with ill-formed sequences replaced by U+FFFD.
pub uninterp spec fn utf8_lossy_of(s: Seq<u8>) -> Seq<char>;

/// Relies on String::from_utf8_lossy: the decoded text depends on the bytes
/// alone, and no bytes decode to no text.
#[verifier::external_body]
pub fn utf8_lossy(bytes: &Vec<u8>) -> (r: String)
    ensures
        r@ == utf8_lossy_of(bytes@),
        bytes@.len() == 0 ==> r@.len() == 0,
{
    String::from_utf8_lossy(bytes.as_slice()).into_owned()
}

/// Relies on str FromIterator for String: collecting characters yields the
/// string of exactly those characters.
#[verifier::external_body]
pub fn chars_to_string(chars: &Vec<char>) -> (r: String)
    ensures
        r@ == chars@,
{
    chars.iter().collect()
}

/// The text an entry name or comment decodes to: UTF-8 when general purpose
/// flag bit 11 is set, IBM code page 437 otherwise.
pub open spec fn spec_decode_text(raw: Seq<u8>, is_utf8: bool) -> Seq<char> {
    if is_utf8 {
        utf8_lossy_of(raw)
    } else {
        cp437_decode(raw)
    }
}

/// Decodes an entry name or comment.
pub fn decode_text(raw: &Vec<u8>, is_utf8: bool) -> (r: String)
    ensures
        r@ == spec_decode_text(raw@, is_utf8),
{
    if is_utf8 {
        utf8_lossy(raw)
    } else {
        let chars = from_cp437(raw);
        chars_to_string(&chars)
    }
}

} // verus!
