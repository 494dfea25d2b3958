//! The deflate decompression primitive that `Deflated` entries rely on.

use vstd::prelude::*;

verus! {

/// What decompressing a raw deflate stream yields, as the `miniz_oxide`
/// crate computes it: `None` exactly when the stream is not a well-formed
/// deflate stream. A function of the compressed bytes alone.
pub uninterp spec fn inflate_of(s: Seq<u8>) -> Option<Seq<u8>>;

/// Relies on miniz_oxide::inflate::decompress_to_vec: decoding a raw deflate
/// stream depends on the compressed bytes alone; a malformed stream is
/// reported as an error.
#[verifier::external_body]
pub fn inflate(data: &Vec<u8>) -> (r: Option<Vec<u8>>)
    ensures
        r is Some <==> inflate_of(data@) is Some,
        r matches Some(v) && inflate_of(data@) matches Some(s) ==> v@ == s,
{
    match miniz_oxide::inflate::decompress_to_vec(data.as_slice()) {
        Ok(v) => Some(v),
        Err(_) => None,
    }
}

} // verus!
