//! Little-endian primitives of the archive wire format, read from an
//! in-memory byte buffer through an explicit cursor position.

use vstd::prelude::*;

use crate::result::{IoError, ZipError, ZipResult};

verus! {

/// Signature that opens every local file header.
pub const LOCAL_FILE_HEADER_SIGNATURE: u32 = 0x04034b50;
/// Signature that opens every central directory header.
pub const CENTRAL_DIRECTORY_HEADER_SIGNATURE: u32 = 0x02014b50;
/// Signature of the end-of-central-directory record.
pub const CENTRAL_DIRECTORY_END_SIGNATURE: u32 = 0x06054b50;
/// Signature of the ZIP64 end-of-central-directory record.
pub const ZIP64_CENTRAL_DIRECTORY_END_SIGNATURE: u32 = 0x06064b50;
/// Signature of the ZIP64 end-of-central-directory locator.
pub const ZIP64_CENTRAL_DIRECTORY_END_LOCATOR_SIGNATURE: u32 = 0x07064b50;
/// Sentinel in a 32-bit size or offset field that moves the value to ZIP64 extra data.
pub const ZIP64_BYTES_THR: u64 = 0xffffffff;

/// The 16-bit little-endian value stored at byte offset `i` of `s`.
pub open spec fn le16(s: Seq<u8>, i: int) -> u16 {
    (s[i] as int + s[i + 1] as int * 0x100) as u16
}

/// The 32-bit little-endian value stored at byte offset `i` of `s`.
pub open spec fn le32(s: Seq<u8>, i: int) -> u32 {
    (le16(s, i) as int + le16(s, i + 2) as int * 0x10000) as u32
}

/// The 64-bit little-endian value stored at byte offset `i` of `s`.
pub open spec fn le64(s: Seq<u8>, i: int) -> u64 {
    (le32(s, i) as int + le32(s, i + 4) as int * 0x100000000) as u64
}

/// Reads one byte at the cursor; past the end of the data the read fails
/// without moving the cursor.
pub fn read_u8(data: &Vec<u8>, pos: &mut u64) -> (r: ZipResult<u8>)
    ensures
        match r {
            Ok(v) => *old(pos) + 1 <= data@.len() && v == data@[*old(pos) as int]
                && *final(pos) == *old(pos) + 1,
            Err(e) => *old(pos) + 1 > data@.len() && e == ZipError::Io(IoError::UnexpectedEof)
                && *final(pos) == *old(pos),
        },
{
    let len: u64 = data.len() as u64;
    if *pos < len {
        let i = *pos as usize;
        let b = data[i];
        *pos = *pos + 1;
        Ok(b)
    } else {
        Err(ZipError::Io(IoError::UnexpectedEof))
    }
}

/// Reads a 16-bit little-endian value at the cursor; a truncated read fails
/// without moving the cursor.
pub fn read_u16(data: &Vec<u8>, pos: &mut u64) -> (r: ZipResult<u16>)
    ensures
        match r {
            Ok(v) => *old(pos) + 2 <= data@.len() && v == le16(data@, *old(pos) as int)
                && *final(pos) == *old(pos) + 2,
            Err(e) => *old(pos) + 2 > data@.len() && e == ZipError::Io(IoError::UnexpectedEof)
                && *final(pos) == *old(pos),
        },
{
    let len: u64 = data.len() as u64;
    if len >= 2 && *pos <= len - 2 {
        let i = *pos as usize;
        let b0 = data[i] as u16;
        let b1 = data[i + 1] as u16;
        *pos = *pos + 2;
        Ok(b0 + b1 * 0x100)
    } else {
        Err(ZipError::Io(IoError::UnexpectedEof))
    }
}

/// Reads a 32-bit little-endian value at the cursor; a truncated read fails
/// without moving the cursor.
pub fn read_u32(data: &Vec<u8>, pos: &mut u64) -> (r: ZipResult<u32>)
    ensures
        match r {
            Ok(v) => *old(pos) + 4 <= data@.len() && v == le32(data@, *old(pos) as int)
                && *final(pos) == *old(pos) + 4,
            Err(e) => *old(pos) + 4 > data@.len() && e == ZipError::Io(IoError::UnexpectedEof)
                && *final(pos) == *old(pos),
        },
{
    let len: u64 = data.len() as u64;
    if len >= 4 && *pos <= len - 4 {
        let i = *pos as usize;
        let b0 = data[i] as u32;
        let b1 = data[i + 1] as u32;
        let b2 = data[i + 2] as u32;
        let b3 = data[i + 3] as u32;
        *pos = *pos + 4;
        Ok(b0 + b1 * 0x100 + b2 * 0x10000 + b3 * 0x1000000)
    } else {
        Err(ZipError::Io(IoError::UnexpectedEof))
    }
}

/// Reads a 64-bit little-endian value at the cursor; a truncated read fails
/// without moving the cursor.
pub fn read_u64(data: &Vec<u8>, pos: &mut u64) -> (r: ZipResult<u64>)
    ensures
        match r {
            Ok(v) => *old(pos) + 8 <= data@.len() && v == le64(data@, *old(pos) as int)
                && *final(pos) == *old(pos) + 8,
            Err(e) => *old(pos) + 8 > data@.len() && e == ZipError::Io(IoError::UnexpectedEof)
                && *final(pos) == *old(pos),
        },
{
    let len: u64 = data.len() as u64;
    if len >= 8 && *pos <= len - 8 {
        let ghost p = *pos as int;
        let lo = read_u32(data, pos).unwrap();
        let hi = read_u32(data, pos).unwrap();
        assert(le64(data@, p) == le32(data@, p) as int + le32(data@, p + 4) as int
            * 0x100000000);
        Ok(lo as u64 + (hi as u64) * 0x100000000)
    } else {
        Err(ZipError::Io(IoError::UnexpectedEof))
    }
}

/// Copies `n` bytes starting at the cursor; a truncated read fails without
/// moving the cursor.
pub fn read_exact(data: &Vec<u8>, pos: &mut u64, n: u64) -> (r: ZipResult<Vec<u8>>)
    ensures
        match r {
            Ok(v) => *old(pos) + n <= data@.len()
                && v@ == data@.subrange(*old(pos) as int, *old(pos) + n)
                && *final(pos) == *old(pos) + n,
            Err(e) => *old(pos) + n > data@.len() && e == ZipError::Io(IoError::UnexpectedEof)
                && *final(pos) == *old(pos),
        },
{
    let dl: usize = data.len();
    let len: u64 = dl as u64;
    if n <= len && *pos <= len - n {
        let start: usize = *pos as usize;
        let cnt: usize = n as usize;
        let mut out: Vec<u8> = Vec::new();
        let mut k: usize = 0;
        while k < cnt
            invariant
                0 <= k <= cnt,
                start + cnt <= data@.len(),
                data@.len() <= usize::MAX,
                out@ == data@.subrange(start as int, start + k),
            decreases cnt - k,
        {
            out.push(data[start + k]);
            k = k + 1;
            assert(out@ =~= data@.subrange(start as int, start + k));
        }
        *pos = *pos + n;
        Ok(out)
    } else {
        Err(ZipError::Io(IoError::UnexpectedEof))
    }
}

} // verus!
