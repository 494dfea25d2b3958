//! Parsing of central directory headers, including the extra-field scan that
//! resolves ZIP64 promotions and AES markers.

use vstd::prelude::*;

use crate::result::{spec_same_error, IoError, ZipError, ZipResult};
use crate::text::{decode_text, spec_decode_text};
use crate::types::{
    spec_datetime_from_msdos, spec_method_from_u16, spec_system_from_u8, AesMode,
    AesVendorVersion, CompressionMethod, DateTime, System, ZipFileData,
};
use crate::wire::{
    le16, le32, le64, read_exact, read_u16, read_u32, read_u64, read_u8,
    CENTRAL_DIRECTORY_HEADER_SIGNATURE, ZIP64_BYTES_THR,
};

verus! {

/// The entry fields that the extra-field scan may rewrite.
pub struct ExtraState {
    pub uncompressed_size: u64,
    pub compressed_size: u64,
    pub header_start: u64,
    pub large_file: bool,
    pub compression_method: CompressionMethod,
    pub aes_mode: Option<(AesMode, AesVendorVersion)>,
}

/// The rewritable fields as an entry currently holds them.
pub open spec fn extra_state_of(f: ZipFileData) -> ExtraState {
    ExtraState {
        uncompressed_size: f.uncompressed_size,
        compressed_size: f.compressed_size,
        header_start: f.header_start,
        large_file: f.large_file,
        compression_method: f.compression_method,
        aes_mode: f.aes_mode,
    }
}

/// The entry with its rewritable fields replaced by `st`.
pub open spec fn apply_extra_state(f: ZipFileData, st: ExtraState) -> ZipFileData {
    ZipFileData {
        uncompressed_size: st.uncompressed_size,
        compressed_size: st.compressed_size,
        header_start: st.header_start,
        large_file: st.large_file,
        compression_method: st.compression_method,
        aes_mode: st.aes_mode,
        ..f
    }
}

/// `x`, cut off at `hi`.
pub open spec fn spec_clamp(x: int, hi: int) -> int {
    if x <= hi {
        x
    } else {
        hi
    }
}

/// One conditional 64-bit read of a ZIP64 extension: wanted only when the
/// 32-bit field carried the sentinel; reading past the end is an error.
pub open spec fn spec_zip64_pull(s: Seq<u8>, cursor: int, want: bool) -> (Option<u64>, int, bool) {
    if !want {
        (None, cursor, false)
    } else if cursor + 8 > s.len() {
        (None, cursor, true)
    } else {
        (Some(le64(s, cursor)), cursor + 8, false)
    }
}

/// One ZIP64 extended-information record whose payload starts at `body`:
/// the state after it, the cursor after it, and the error that stopped it.
/// Each sentinel-promoted field is read in turn, marking the entry as a
/// large file for the size fields; a read stopped by the end of the data
/// keeps what was read before it.
pub open spec fn spec_zip64_step(s: Seq<u8>, body: int, l: int, st: ExtraState) -> (
    ExtraState,
    int,
    Option<ZipError>,
) {
    let want_u = st.uncompressed_size == ZIP64_BYTES_THR;
    let pull_u = spec_zip64_pull(s, body, want_u);
    let stu = ExtraState {
        large_file: st.large_file || want_u,
        uncompressed_size: if pull_u.0 is Some {
            pull_u.0->Some_0
        } else {
            st.uncompressed_size
        },
        ..st
    };
    if pull_u.2 {
        (stu, body, Some(ZipError::Io(IoError::UnexpectedEof)))
    } else {
        let want_c = stu.compressed_size == ZIP64_BYTES_THR;
        let pull_c = spec_zip64_pull(s, pull_u.1, want_c);
        let stc = ExtraState {
            large_file: stu.large_file || want_c,
            compressed_size: if pull_c.0 is Some {
                pull_c.0->Some_0
            } else {
                stu.compressed_size
            },
            ..stu
        };
        if pull_c.2 {
            (stc, body, Some(ZipError::Io(IoError::UnexpectedEof)))
        } else {
            let want_h = stc.header_start == ZIP64_BYTES_THR;
            let pull_h = spec_zip64_pull(s, pull_c.1, want_h);
            let sth = ExtraState {
                header_start: if pull_h.0 is Some {
                    pull_h.0->Some_0
                } else {
                    stc.header_start
                },
                ..stc
            };
            if pull_h.2 {
                (sth, body, Some(ZipError::Io(IoError::UnexpectedEof)))
            } else {
                let consumed = pull_h.1 - body;
                let residual = if l - consumed > 0 {
                    l - consumed
                } else {
                    0
                };
                (sth, spec_clamp(pull_h.1 + residual, s.len() as int), None)
            }
        }
    }
}

/// One AES extra-data record whose payload starts at `body`: the record must
/// be exactly 7 well-formed bytes, and rewrites the entry's AES mode and its
/// true compression method.
pub open spec fn spec_aes_step(s: Seq<u8>, body: int, l: int, st: ExtraState) -> (
    ExtraState,
    int,
    Option<ZipError>,
) {
    if l != 7 {
        (
            st,
            body,
            Some(ZipError::UnsupportedArchive("AES extra data field has an unsupported length")),
        )
    } else if body + 7 > s.len() {
        (st, body, Some(ZipError::Io(IoError::UnexpectedEof)))
    } else {
        let vendor_version = le16(s, body);
        let vendor_id = le16(s, body + 2);
        let aes = s[body + 4];
        let cm = le16(s, body + 5);
        if vendor_id != 0x4541 {
            (st, body, Some(ZipError::InvalidArchive("Invalid AES vendor")))
        } else if vendor_version != 1 && vendor_version != 2 {
            (st, body, Some(ZipError::InvalidArchive("Invalid AES vendor version")))
        } else if aes != 1 && aes != 2 && aes != 3 {
            (st, body, Some(ZipError::InvalidArchive("Invalid AES encryption strength")))
        } else {
            let vv = if vendor_version == 1 {
                AesVendorVersion::Ae1
            } else {
                AesVendorVersion::Ae2
            };
            let mode = if aes == 1 {
                AesMode::Aes128
            } else if aes == 2 {
                AesMode::Aes192
            } else {
                AesMode::Aes256
            };
            let st2 = ExtraState {
                aes_mode: Some((mode, vv)),
                compression_method: spec_method_from_u16(cm),
                ..st
            };
            (st2, spec_clamp(body + 7, s.len() as int), None)
        }
    }
}

/// One extra-field record starting at `pos`: kind and length, then the
/// kind's own step; any other kind is skipped whole.
pub open spec fn spec_record_step(s: Seq<u8>, pos: int, st: ExtraState) -> (
    ExtraState,
    int,
    Option<ZipError>,
) {
    if pos + 4 > s.len() {
        (st, pos, Some(ZipError::Io(IoError::UnexpectedEof)))
    } else {
        let kind = le16(s, pos);
        let l = le16(s, pos + 2) as int;
        let body = pos + 4;
        if kind == 1 {
            spec_zip64_step(s, body, l, st)
        } else if kind == 0x9901 {
            spec_aes_step(s, body, l, st)
        } else {
            (st, spec_clamp(body + l, s.len() as int), None)
        }
    }
}

/// What the extra-field scan makes of the records of `s` from `pos` on,
/// starting from the entry state `st`: the state after the scan, and the
/// error that stopped it, if one did. After each record, the unread
/// residual of its declared length is skipped.
pub open spec fn spec_extra_scan(s: Seq<u8>, pos: int, st: ExtraState) -> (
    ExtraState,
    Option<ZipError>,
)
    decreases s.len() - pos,
{
    if pos < 0 || pos >= s.len() {
        (st, None)
    } else {
        let step = spec_record_step(s, pos, st);
        if step.2 is Some {
            (step.0, step.2)
        } else if step.1 <= pos || step.1 > s.len() {
            (step.0, None)
        } else {
            spec_extra_scan(s, step.1, step.0)
        }
    }
}

/// How one step of the scan model relates what a record parser did: on
/// success the cursor advanced and the scan's outcome is unchanged; on an
/// error the scan stops here with this state and this error.
pub open spec fn spec_step_result(
    extra: Seq<u8>,
    p0: int,
    st0: ExtraState,
    st_new: ExtraState,
    pos_new: int,
    r: ZipResult<()>,
) -> bool {
    match r {
        Ok(()) => p0 < pos_new <= extra.len() && spec_extra_scan(extra, p0, st0)
            == spec_extra_scan(extra, pos_new, st_new),
        Err(e) => {
            let scan = spec_extra_scan(extra, p0, st0);
            scan.0 == st_new && (scan.1 matches Some(e2) && spec_same_error(e, e2))
        },
    }
}

/// Consumes the ZIP64 extended-information record at the cursor.
#[verifier::rlimit(100)]
#[verifier::spinoff_prover]
fn parse_zip64_extra(file: &mut ZipFileData, pos: &mut u64, l: u16, Ghost(p0): Ghost<int>) -> (r:
    ZipResult<()>)
    requires
        0 <= p0,
        p0 + 4 <= old(file).extra_field@.len(),
        p0 < old(file).extra_field@.len(),
        *old(pos) == p0 + 4,
        le16(old(file).extra_field@, p0) == 1,
        le16(old(file).extra_field@, p0 + 2) == l,
    ensures
        final(file).extra_field@ == old(file).extra_field@,
        *final(file) == apply_extra_state(*old(file), extra_state_of(*final(file))),
        spec_step_result(
            old(file).extra_field@,
            p0,
            extra_state_of(*old(file)),
            extra_state_of(*final(file)),
            *final(pos) as int,
            r,
        ),
{
    let len: u64 = file.extra_field.len() as u64;
    let body = *pos;
    if file.uncompressed_size == ZIP64_BYTES_THR {
        file.large_file = true;
        file.uncompressed_size = match read_u64(&file.extra_field, pos) {
            Ok(v) => v,
            Err(e) => {
                return Err(e);
            },
        };
    }
    if file.compressed_size == ZIP64_BYTES_THR {
        file.large_file = true;
        file.compressed_size = match read_u64(&file.extra_field, pos) {
            Ok(v) => v,
            Err(e) => {
                return Err(e);
            },
        };
    }
    if file.header_start == ZIP64_BYTES_THR {
        file.header_start = match read_u64(&file.extra_field, pos) {
            Ok(v) => v,
            Err(e) => {
                return Err(e);
            },
        };
    }
    let consumed: u64 = *pos - body;
    if (l as u64) > consumed {
        let adv: u64 = l as u64 - consumed;
        *pos = if adv <= len - *pos {
            *pos + adv
        } else {
            len
        };
    }
    Ok(())
}

/// Consumes the AES extra-data record at the cursor.
#[verifier::rlimit(100)]
#[verifier::spinoff_prover]
fn parse_aes_extra(file: &mut ZipFileData, pos: &mut u64, l: u16, Ghost(p0): Ghost<int>) -> (r:
    ZipResult<()>)
    requires
        0 <= p0,
        p0 + 4 <= old(file).extra_field@.len(),
        p0 < old(file).extra_field@.len(),
        *old(pos) == p0 + 4,
        le16(old(file).extra_field@, p0) == 0x9901,
        le16(old(file).extra_field@, p0 + 2) == l,
    ensures
        final(file).extra_field@ == old(file).extra_field@,
        *final(file) == apply_extra_state(*old(file), extra_state_of(*final(file))),
        spec_step_result(
            old(file).extra_field@,
            p0,
            extra_state_of(*old(file)),
            extra_state_of(*final(file)),
            *final(pos) as int,
            r,
        ),
{
    if l != 7 {
        return Err(ZipError::UnsupportedArchive("AES extra data field has an unsupported length"));
    }
    let vendor_version = match read_u16(&file.extra_field, pos) {
        Ok(v) => v,
        Err(e) => {
            return Err(e);
        },
    };
    let vendor_id = match read_u16(&file.extra_field, pos) {
        Ok(v) => v,
        Err(e) => {
            return Err(e);
        },
    };
    let aes = match read_u8(&file.extra_field, pos) {
        Ok(v) => v,
        Err(e) => {
            return Err(e);
        },
    };
    let compression_method = match read_u16(&file.extra_field, pos) {
        Ok(v) => v,
        Err(e) => {
            return Err(e);
        },
    };
    if vendor_id != 0x4541 {
        return Err(ZipError::InvalidArchive("Invalid AES vendor"));
    }
    let vendor_version = match vendor_version {
        0x0001 => AesVendorVersion::Ae1,
        0x0002 => AesVendorVersion::Ae2,
        _ => {
            return Err(ZipError::InvalidArchive("Invalid AES vendor version"));
        },
    };
    match aes {
        0x01 => file.aes_mode = Some((AesMode::Aes128, vendor_version)),
        0x02 => file.aes_mode = Some((AesMode::Aes192, vendor_version)),
        0x03 => file.aes_mode = Some((AesMode::Aes256, vendor_version)),
        _ => {
            return Err(ZipError::InvalidArchive("Invalid AES encryption strength"));
        },
    };
    file.compression_method = CompressionMethod::from_u16(compression_method);
    Ok(())
}

/// Consumes one extra-field record at the cursor.
#[verifier::rlimit(100)]
#[verifier::spinoff_prover]
fn parse_extra_record(file: &mut ZipFileData, pos: &mut u64) -> (r: ZipResult<()>)
    requires
        *old(pos) < old(file).extra_field@.len(),
    ensures
        final(file).extra_field@ == old(file).extra_field@,
        *final(file) == apply_extra_state(*old(file), extra_state_of(*final(file))),
        spec_step_result(
            old(file).extra_field@,
            *old(pos) as int,
            extra_state_of(*old(file)),
            extra_state_of(*final(file)),
            *final(pos) as int,
            r,
        ),
{
    let len: u64 = file.extra_field.len() as u64;
    let ghost p0 = *pos as int;
    let kind = match read_u16(&file.extra_field, pos) {
        Ok(v) => v,
        Err(e) => {
            return Err(e);
        },
    };
    let l = match read_u16(&file.extra_field, pos) {
        Ok(v) => v,
        Err(e) => {
            return Err(e);
        },
    };
    if kind == 0x0001 {
        parse_zip64_extra(file, pos, l, Ghost(p0))
    } else if kind == 0x9901 {
        parse_aes_extra(file, pos, l, Ghost(p0))
    } else {
        let adv: u64 = l as u64;
        *pos = if adv <= len - *pos {
            *pos + adv
        } else {
            len
        };
        Ok(())
    }
}

/// A size field that carries the ZIP64 sentinel is promoted: a single
/// well-formed ZIP64 extended-information record holding the true 64-bit
/// uncompressed size is recovered by the scan, and the entry is marked as a
/// large file.
pub proof fn lemma_zip64_promotion(s: Seq<u8>, st: ExtraState)
    requires
        s.len() == 12,
        le16(s, 0) == 1,
        le16(s, 2) == 8,
        st.uncompressed_size == ZIP64_BYTES_THR,
        st.compressed_size != ZIP64_BYTES_THR,
        st.header_start != ZIP64_BYTES_THR,
    ensures
        spec_extra_scan(s, 0, st).1 is None,
        spec_extra_scan(s, 0, st).0.uncompressed_size == le64(s, 4),
        spec_extra_scan(s, 0, st).0.large_file,
        spec_extra_scan(s, 0, st).0.compressed_size == st.compressed_size,
        spec_extra_scan(s, 0, st).0.header_start == st.header_start,
{
    let step = spec_record_step(s, 0, st);
    assert(spec_extra_scan(s, 12, step.0) == (step.0, None::<ZipError>));
    assert(spec_extra_scan(s, 0, st) == (step.0, None::<ZipError>));
}

/// An error that stops the extra-field scan is always one of the source's
/// own, a malformed-structure error, or an unsupported-feature error.
pub proof fn lemma_extra_scan_error_shape(s: Seq<u8>, pos: int, st: ExtraState)
    ensures
        spec_extra_scan(s, pos, st).1 matches Some(e) ==> !(e is FileNotFound) && !(e
            is InvalidPassword),
    decreases s.len() - pos,
{
    if pos < 0 || pos >= s.len() {
    } else {
        let step = spec_record_step(s, pos, st);
        if step.2 is Some {
        } else if step.1 <= pos || step.1 > s.len() {
        } else {
            lemma_extra_scan_error_shape(s, step.1, step.0);
        }
    }
}

/// Walks the entry's extra field and rewrites the ZIP64-promoted sizes, the
/// header offset, and any AES compression override. A scan stopped by the
/// end of the data reports the source's error; the fields read up to that
/// point keep their new values.
#[verifier::rlimit(100)]
#[verifier::spinoff_prover]
pub fn parse_extra_field(file: &mut ZipFileData) -> (r: ZipResult<()>)
    ensures
        ({
            let scan = spec_extra_scan(old(file).extra_field@, 0, extra_state_of(*old(file)));
            &&& *final(file) == apply_extra_state(*old(file), scan.0)
            &&& match r {
                Ok(()) => scan.1 is None,
                Err(e) => scan.1 matches Some(e2) && spec_same_error(e, e2),
            }
        }),
{
    let mut pos: u64 = 0;
    while pos < file.extra_field.len() as u64
        invariant
            pos <= file.extra_field@.len(),
            file.extra_field@ == old(file).extra_field@,
            *file == apply_extra_state(*old(file), extra_state_of(*file)),
            spec_extra_scan(old(file).extra_field@, 0, extra_state_of(*old(file)))
                == spec_extra_scan(file.extra_field@, pos as int, extra_state_of(*file)),
        decreases file.extra_field@.len() - pos,
    {
        match parse_extra_record(file, &mut pos) {
            Ok(()) => {},
            Err(e) => {
                return Err(e);
            },
        }
    }
    Ok(())
}

/// The entry state that the fixed central-header fields at `p` give before
/// the extra field is scanned.
pub open spec fn spec_central_init_state(s: Seq<u8>, p: int) -> ExtraState {
    ExtraState {
        uncompressed_size: le32(s, p + 24) as u64,
        compressed_size: le32(s, p + 20) as u64,
        header_start: le32(s, p + 42) as u64,
        large_file: false,
        compression_method: spec_method_from_u16(le16(s, p + 10)),
        aes_mode: None,
    }
}

/// Whether `file` holds exactly what the central header at `p` declares,
/// with sizes and offset resolved through the extra-field scan and the
/// local-header offset shifted by the archive's base offset.
pub open spec fn spec_central_file_ok(
    s: Seq<u8>,
    p: int,
    archive_offset: u64,
    file: ZipFileData,
) -> bool {
    let flags = le16(s, p + 8);
    let nlen = le16(s, p + 28) as int;
    let elen = le16(s, p + 30) as int;
    let clen = le16(s, p + 32) as int;
    let name_raw = s.subrange(p + 46, p + 46 + nlen);
    let extra = s.subrange(p + 46 + nlen, p + 46 + nlen + elen);
    let comment_raw = s.subrange(p + 46 + nlen + elen, p + 46 + nlen + elen + clen);
    let is_utf8 = flags & 0x800 != 0;
    let scan = spec_extra_scan(extra, 0, spec_central_init_state(s, p));
    &&& p + 46 + nlen + elen + clen <= s.len()
    &&& le32(s, p) == CENTRAL_DIRECTORY_HEADER_SIGNATURE
    &&& (scan.1 matches Some(e2) ==> e2 is Io)
    &&& file.system == spec_system_from_u8((le16(s, p + 4) >> 8) as u8)
    &&& file.version_made_by == le16(s, p + 4) as u8
    &&& file.encrypted == (flags & 1 == 1)
    &&& file.using_data_descriptor == (flags & 8 != 0)
    &&& file.is_utf8 == is_utf8
    &&& file.compression_method == scan.0.compression_method
    &&& file.last_modified_time == spec_datetime_from_msdos(le16(s, p + 14), le16(s, p + 12))
    &&& file.crc32 == le32(s, p + 16)
    &&& file.compressed_size == scan.0.compressed_size
    &&& file.uncompressed_size == scan.0.uncompressed_size
    &&& file.file_name_raw@ == name_raw
    &&& file.file_name@ == spec_decode_text(name_raw, is_utf8)
    &&& file.extra_field@ == extra
    &&& file.file_comment@ == spec_decode_text(comment_raw, is_utf8)
    &&& file.central_header_start == p
    &&& !(scan.0.compression_method is Aes && scan.0.aes_mode is None)
    &&& scan.0.header_start + archive_offset <= u64::MAX
    &&& file.header_start == scan.0.header_start + archive_offset
    &&& file.data_start == 0
    &&& file.external_attributes == le32(s, p + 38)
    &&& file.large_file == scan.0.large_file
    &&& file.aes_mode == scan.0.aes_mode
}

/// The central header at `p` parses: its signature and bounds are sound,
/// its extra field scans cleanly or is merely truncated, an AES method comes
/// with its extra field, and the shifted offset fits.
pub open spec fn spec_central_parses(s: Seq<u8>, p: int, archive_offset: u64) -> bool {
    let nlen = le16(s, p + 28) as int;
    let elen = le16(s, p + 30) as int;
    let clen = le16(s, p + 32) as int;
    let extra = s.subrange(p + 46 + nlen, p + 46 + nlen + elen);
    let scan = spec_extra_scan(extra, 0, spec_central_init_state(s, p));
    &&& p + 4 <= s.len()
    &&& le32(s, p) == CENTRAL_DIRECTORY_HEADER_SIGNATURE
    &&& p + 46 <= s.len()
    &&& p + 46 + nlen + elen + clen <= s.len()
    &&& (scan.1 matches Some(e2) ==> e2 is Io)
    &&& !(scan.0.compression_method is Aes && scan.0.aes_mode is None)
    &&& scan.0.header_start + archive_offset <= u64::MAX
}

/// Which error parsing the central header at `p` gives, when it fails.
pub open spec fn spec_central_err(s: Seq<u8>, p: int, archive_offset: u64, e: ZipError) -> bool {
    if p + 4 > s.len() {
        e == ZipError::Io(IoError::UnexpectedEof)
    } else if le32(s, p) != CENTRAL_DIRECTORY_HEADER_SIGNATURE {
        e matches ZipError::InvalidArchive(m) && m@ == "Invalid Central Directory header"@
    } else if p + 46 > s.len() {
        e == ZipError::Io(IoError::UnexpectedEof)
    } else {
        let nlen = le16(s, p + 28) as int;
        let elen = le16(s, p + 30) as int;
        let clen = le16(s, p + 32) as int;
        if p + 46 + nlen + elen + clen > s.len() {
            e == ZipError::Io(IoError::UnexpectedEof)
        } else {
            let extra = s.subrange(p + 46 + nlen, p + 46 + nlen + elen);
            let scan = spec_extra_scan(extra, 0, spec_central_init_state(s, p));
            let structural = match scan.1 {
                Some(e2) => !(e2 is Io),
                None => false,
            };
            if structural {
                match scan.1 {
                    Some(e2) => spec_same_error(e, e2),
                    None => false,
                }
            } else if scan.0.compression_method is Aes && scan.0.aes_mode is None {
                e matches ZipError::InvalidArchive(m) && m@
                    == "AES encryption without AES extra data field"@
            } else if scan.0.header_start + archive_offset > u64::MAX {
                e matches ZipError::InvalidArchive(m) && m@ == "Archive header is too large"@
            } else {
                false
            }
        }
    }
}

/// Parses the central directory record whose signature stands at the cursor
/// and collects the entry's metadata.
pub fn central_header_to_zip_file(data: &Vec<u8>, pos: &mut u64, archive_offset: u64) -> (r:
    ZipResult<ZipFileData>)
    ensures
        spec_central_parses(data@, *old(pos) as int, archive_offset) ==> r is Ok,
        match r {
            Ok(file) => spec_central_file_ok(data@, *old(pos) as int, archive_offset, file)
                && *final(pos) == *old(pos) + 46 + le16(data@, *old(pos) + 28) + le16(
                data@,
                *old(pos) + 30,
            ) + le16(data@, *old(pos) + 32),
            Err(e) => spec_central_err(data@, *old(pos) as int, archive_offset, e),
        },
{
    let central_header_start = *pos;
    let signature = match read_u32(data, pos) {
        Ok(v) => v,
        Err(e) => {
            return Err(e);
        },
    };
    if signature != CENTRAL_DIRECTORY_HEADER_SIGNATURE {
        return Err(ZipError::InvalidArchive("Invalid Central Directory header"));
    }
    central_header_to_zip_file_inner(data, pos, archive_offset, central_header_start)
}

/// Parses the body of a central directory record, the cursor standing just
/// past its signature.
#[verifier::rlimit(100)]
#[verifier::spinoff_prover]
fn central_header_to_zip_file_inner(
    data: &Vec<u8>,
    pos: &mut u64,
    archive_offset: u64,
    central_header_start: u64,
) -> (r: ZipResult<ZipFileData>)
    requires
        *old(pos) == central_header_start + 4,
        central_header_start + 4 <= data@.len(),
        le32(data@, central_header_start as int) == CENTRAL_DIRECTORY_HEADER_SIGNATURE,
    ensures
        spec_central_parses(data@, central_header_start as int, archive_offset) ==> r is Ok,
        ({
            let p = central_header_start as int;
            match r {
                Ok(file) => spec_central_file_ok(data@, p, archive_offset, file) && *final(pos)
                    == p + 46 + le16(data@, p + 28) + le16(data@, p + 30) + le16(data@, p + 32),
                Err(e) => spec_central_err(data@, p, archive_offset, e),
            }
        }),
{
    let ghost p = central_header_start as int;
    let version_made_by = match read_u16(data, pos) {
        Ok(v) => v,
        Err(e) => {
            return Err(e);
        },
    };
    let _version_to_extract = match read_u16(data, pos) {
        Ok(v) => v,
        Err(e) => {
            return Err(e);
        },
    };
    let flags = match read_u16(data, pos) {
        Ok(v) => v,
        Err(e) => {
            return Err(e);
        },
    };
    let encrypted = flags & 1 == 1;
    let is_utf8 = flags & 0x800 != 0;
    let using_data_descriptor = flags & 8 != 0;
    let compression_method = match read_u16(data, pos) {
        Ok(v) => v,
        Err(e) => {
            return Err(e);
        },
    };
    let last_mod_time = match read_u16(data, pos) {
        Ok(v) => v,
        Err(e) => {
            return Err(e);
        },
    };
    let last_mod_date = match read_u16(data, pos) {
        Ok(v) => v,
        Err(e) => {
            return Err(e);
        },
    };
    let crc32 = match read_u32(data, pos) {
        Ok(v) => v,
        Err(e) => {
            return Err(e);
        },
    };
    let compressed_size = match read_u32(data, pos) {
        Ok(v) => v,
        Err(e) => {
            return Err(e);
        },
    };
    let uncompressed_size = match read_u32(data, pos) {
        Ok(v) => v,
        Err(e) => {
            return Err(e);
        },
    };
    let file_name_length = match read_u16(data, pos) {
        Ok(v) => v,
        Err(e) => {
            return Err(e);
        },
    };
    let extra_field_length = match read_u16(data, pos) {
        Ok(v) => v,
        Err(e) => {
            return Err(e);
        },
    };
    let file_comment_length = match read_u16(data, pos) {
        Ok(v) => v,
        Err(e) => {
            return Err(e);
        },
    };
    let _disk_number = match read_u16(data, pos) {
        Ok(v) => v,
        Err(e) => {
            return Err(e);
        },
    };
    let _internal_file_attributes = match read_u16(data, pos) {
        Ok(v) => v,
        Err(e) => {
            return Err(e);
        },
    };
    let external_file_attributes = match read_u32(data, pos) {
        Ok(v) => v,
        Err(e) => {
            return Err(e);
        },
    };
    let offset = match read_u32(data, pos) {
        Ok(v) => v,
        Err(e) => {
            return Err(e);
        },
    };
    let file_name_raw = match read_exact(data, pos, file_name_length as u64) {
        Ok(v) => v,
        Err(e) => {
            return Err(e);
        },
    };
    let extra_field = match read_exact(data, pos, extra_field_length as u64) {
        Ok(v) => v,
        Err(e) => {
            return Err(e);
        },
    };
    let file_comment_raw = match read_exact(data, pos, file_comment_length as u64) {
        Ok(v) => v,
        Err(e) => {
            return Err(e);
        },
    };
    let file_name = decode_text(&file_name_raw, is_utf8);
    let file_comment = decode_text(&file_comment_raw, is_utf8);

    proof {
        assert((version_made_by >> 8) <= 0xff) by (bit_vector);
    }
    let mut result = ZipFileData {
        system: System::from_u8((version_made_by >> 8) as u8),
        version_made_by: #[verifier::truncate] (version_made_by as u8),
        encrypted,
        using_data_descriptor,
        is_utf8,
        compression_method: CompressionMethod::from_u16(compression_method),
        last_modified_time: DateTime::from_msdos(last_mod_date, last_mod_time),
        crc32,
        compressed_size: compressed_size as u64,
        uncompressed_size: uncompressed_size as u64,
        file_name,
        file_name_raw,
        extra_field,
        file_comment,
        header_start: offset as u64,
        central_header_start,
        data_start: 0,
        external_attributes: external_file_attributes,
        large_file: false,
        aes_mode: None,
    };

    match parse_extra_field(&mut result) {
        Ok(()) => {},
        Err(ZipError::Io(_)) => {},
        Err(e) => {
            return Err(e);
        },
    }

    let is_aes = match result.compression_method {
        CompressionMethod::Aes => true,
        _ => false,
    };
    if is_aes && result.aes_mode.is_none() {
        return Err(ZipError::InvalidArchive("AES encryption without AES extra data field"));
    }

    if result.header_start > u64::MAX - archive_offset {
        return Err(ZipError::InvalidArchive("Archive header is too large"));
    }
    result.header_start = result.header_start + archive_offset;

    Ok(result)
}

} // verus!
