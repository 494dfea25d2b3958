//! The CRC-32 checksum primitive that entry payload validation relies on.

use vstd::prelude::*;

verus! {

/// The IEEE CRC-32 checksum of a byte sequence, as the `crc32fast` crate
/// computes it: a function of the bytes alone.
pub uninterp spec fn crc32_of(s: Seq<u8>) -> u32;

/// Relies on crc32fast::hash: the checksum depends on the bytes alone, the
/// same on every machine and in every process.
#[verifier::external_body]
pub fn crc32(bytes: &Vec<u8>) -> (r: u32)
    ensures
        r == crc32_of(bytes@),
{
    crc32fast::hash(bytes.as_slice())
}

} // verus!
