//! Metadata carried by each archive entry, and the small value types that
//! the central directory parser fills it from.

use vstd::prelude::*;
use vstd::string::StrSliceExecFns;

use crate::result::DateTimeRangeError;

verus! {

/// Host system recorded in the version-made-by field of a central header.
#[derive(Debug, Clone, Copy, PartialEq, Eq, Structural)]
pub enum System {
    Dos,
    Unix,
    Unknown,
}

/// Which host system a version-made-by high byte denotes.
pub open spec fn spec_system_from_u8(system: u8) -> System {
    if system == 0 {
        System::Dos
    } else if system == 3 {
        System::Unix
    } else {
        System::Unknown
    }
}

impl System {
    /// Decodes the high byte of the version-made-by field.
    pub fn from_u8(system: u8) -> (r: System)
        ensures
            r == spec_system_from_u8(system),
    {
        if system == 0 {
            System::Dos
        } else if system == 3 {
            System::Unix
        } else {
            System::Unknown
        }
    }
}

/// Compression applied to an entry's payload.
#[derive(Debug, Clone, Copy, PartialEq, Eq, Structural)]
pub enum CompressionMethod {
    /// The payload is stored without compression.
    Stored,
    /// The payload is a raw deflate stream.
    Deflated,
    /// The payload is AES-encrypted; the true method sits in the AES extra field.
    Aes,
    /// Any method tag this reader does not handle.
    Unsupported(u16),
}

/// Which compression method a wire-format tag denotes.
pub open spec fn spec_method_from_u16(val: u16) -> CompressionMethod {
    if val == 0 {
        CompressionMethod::Stored
    } else if val == 8 {
        CompressionMethod::Deflated
    } else if val == 99 {
        CompressionMethod::Aes
    } else {
        CompressionMethod::Unsupported(val)
    }
}

impl CompressionMethod {
    /// Decodes a wire-format compression method tag.
    pub fn from_u16(val: u16) -> (r: CompressionMethod)
        ensures
            r == spec_method_from_u16(val),
    {
        if val == 0 {
            CompressionMethod::Stored
        } else if val == 8 {
            CompressionMethod::Deflated
        } else if val == 99 {
            CompressionMethod::Aes
        } else {
            CompressionMethod::Unsupported(val)
        }
    }
}

/// AES key strength named by an AES extra data field.
#[derive(Debug, Clone, Copy, PartialEq, Eq, Structural)]
pub enum AesMode {
    Aes128,
    Aes192,
    Aes256,
}

/// Vendor version named by an AES extra data field.
#[derive(Debug, Clone, Copy, PartialEq, Eq, Structural)]
pub enum AesVendorVersion {
    Ae1,
    Ae2,
}

/// A modification timestamp decoded from the MS-DOS date and time fields.
#[derive(Debug, Clone, Copy, PartialEq, Eq, Structural)]
pub struct DateTime {
    pub year: u16,
    pub month: u8,
    pub day: u8,
    pub hour: u8,
    pub minute: u8,
    pub second: u8,
}

/// The timestamp that the MS-DOS date and time bitfields carry.
pub open spec fn spec_datetime_from_msdos(datepart: u16, timepart: u16) -> DateTime {
    DateTime {
        year: (1980 + (datepart >> 9)) as u16,
        month: ((datepart >> 5) & 0xf) as u8,
        day: (datepart & 0x1f) as u8,
        hour: (timepart >> 11) as u8,
        minute: ((timepart >> 5) & 0x3f) as u8,
        second: ((timepart & 0x1f) * 2) as u8,
    }
}

impl DateTime {
    /// Unpacks the MS-DOS date and time bitfields; out-of-range field values
    /// are kept as the bits give them.
    pub fn from_msdos(datepart: u16, timepart: u16) -> (r: DateTime)
        ensures
            r == spec_datetime_from_msdos(datepart, timepart),
    {
        proof {
            assert((timepart & 0x1f) <= 0x1f && ((timepart >> 5) & 0x3f) <= 0x3f && (timepart
                >> 11) <= 0x1f && (datepart & 0x1f) <= 0x1f && ((datepart >> 5) & 0xf) <= 0xf
                && (datepart >> 9) <= 0x7f) by (bit_vector);
        }
        let seconds = (timepart & 0x1f) * 2;
        let minutes = (timepart >> 5) & 0x3f;
        let hours = timepart >> 11;
        let days = datepart & 0x1f;
        let months = (datepart >> 5) & 0xf;
        let years = datepart >> 9;
        DateTime {
            year: 1980 + years,
            month: months as u8,
            day: days as u8,
            hour: hours as u8,
            minute: minutes as u8,
            second: seconds as u8,
        }
    }

    /// Builds a timestamp from calendar fields, rejecting values outside what
    /// the MS-DOS format can carry (years 1980 through 2107).
    pub fn from_date_and_time(
        year: u16,
        month: u8,
        day: u8,
        hour: u8,
        minute: u8,
        second: u8,
    ) -> (r: Result<DateTime, DateTimeRangeError>)
        ensures
            r is Ok <==> 1980 <= year <= 2107 && 1 <= month <= 12 && 1 <= day <= 31 && hour
                <= 23 && minute <= 59 && second <= 60,
            r matches Ok(d) ==> d == (DateTime { year, month, day, hour, minute, second }),
    {
        if 1980 <= year && year <= 2107 && 1 <= month && month <= 12 && 1 <= day && day <= 31
            && hour <= 23 && minute <= 59 && second <= 60 {
            Ok(DateTime { year, month, day, hour, minute, second })
        } else {
            Err(DateTimeRangeError)
        }
    }
}

/// Whether a decoded filename stays inside the extraction root: it holds no
/// NUL byte, is not absolute, and has no `..` segment.
pub open spec fn spec_is_enclosed(name: Seq<char>) -> bool {
    &&& !name.contains('\u{0}')
    &&& (name.len() == 0 || name[0] != '/')
    &&& !spec_has_dotdot(name)
}

/// Whether a `..` path segment starts at position `i` of `name`.
pub open spec fn spec_is_dotdot_at(name: Seq<char>, i: int) -> bool {
    &&& 0 <= i
    &&& i + 2 <= name.len()
    &&& name[i] == '.'
    &&& name[i + 1] == '.'
    &&& (i == 0 || name[i - 1] == '/')
    &&& (i + 2 == name.len() || name[i + 2] == '/')
}

/// Whether `..` occurs as a whole path segment of `name`.
pub open spec fn spec_has_dotdot(name: Seq<char>) -> bool {
    exists|i: int| spec_is_dotdot_at(name, i)
}

/// Metadata of one archive entry, as the central directory records it.
#[derive(Debug, Clone)]
pub struct ZipFileData {
    /// Host system from the version-made-by field.
    pub system: System,
    /// Low byte of the version-made-by field.
    pub version_made_by: u8,
    /// Bit 0 of the general purpose flags.
    pub encrypted: bool,
    /// Bit 3 of the general purpose flags: sizes and CRC follow the payload.
    pub using_data_descriptor: bool,
    /// Bit 11 of the general purpose flags: the filename is UTF-8.
    pub is_utf8: bool,
    /// Compression of the payload, after any AES extra field override.
    pub compression_method: CompressionMethod,
    /// Modification timestamp decoded from the MS-DOS fields.
    pub last_modified_time: DateTime,
    /// CRC-32 of the uncompressed payload as the directory declares it.
    pub crc32: u32,
    /// Compressed payload length in bytes.
    pub compressed_size: u64,
    /// Uncompressed payload length in bytes.
    pub uncompressed_size: u64,
    /// Decoded filename.
    pub file_name: String,
    /// Filename bytes exactly as stored.
    pub file_name_raw: Vec<u8>,
    /// Extra field bytes exactly as stored in the central record.
    pub extra_field: Vec<u8>,
    /// Decoded entry comment.
    pub file_comment: String,
    /// Absolute offset of the local header, already shifted by the base offset.
    pub header_start: u64,
    /// Absolute offset of this entry's central header.
    pub central_header_start: u64,
    /// Absolute offset of the payload; zero until the local header is parsed.
    pub data_start: u64,
    /// External attributes field.
    pub external_attributes: u32,
    /// Whether any size field needed ZIP64 promotion.
    pub large_file: bool,
    /// AES strength and vendor version, when an AES extra field is present.
    pub aes_mode: Option<(AesMode, AesVendorVersion)>,
}

impl ZipFileData {
    /// The fields of `self` and `other` agree, with buffers compared by contents.
    pub open spec fn congruent(self, other: ZipFileData) -> bool {
        &&& self.system == other.system
        &&& self.version_made_by == other.version_made_by
        &&& self.encrypted == other.encrypted
        &&& self.using_data_descriptor == other.using_data_descriptor
        &&& self.is_utf8 == other.is_utf8
        &&& self.compression_method == other.compression_method
        &&& self.last_modified_time == other.last_modified_time
        &&& self.crc32 == other.crc32
        &&& self.compressed_size == other.compressed_size
        &&& self.uncompressed_size == other.uncompressed_size
        &&& self.file_name@ == other.file_name@
        &&& self.file_name_raw@ == other.file_name_raw@
        &&& self.extra_field@ == other.extra_field@
        &&& self.file_comment@ == other.file_comment@
        &&& self.header_start == other.header_start
        &&& self.central_header_start == other.central_header_start
        &&& self.data_start == other.data_start
        &&& self.external_attributes == other.external_attributes
        &&& self.large_file == other.large_file
        &&& self.aes_mode == other.aes_mode
    }

    /// Copies the metadata; the copy agrees with the original field by field.
    pub fn duplicate(&self) -> (r: ZipFileData)
        ensures
            r.congruent(*self),
    {
        ZipFileData {
            system: self.system,
            version_made_by: self.version_made_by,
            encrypted: self.encrypted,
            using_data_descriptor: self.using_data_descriptor,
            is_utf8: self.is_utf8,
            compression_method: self.compression_method,
            last_modified_time: self.last_modified_time,
            crc32: self.crc32,
            compressed_size: self.compressed_size,
            uncompressed_size: self.uncompressed_size,
            file_name: clone_string(&self.file_name),
            file_name_raw: clone_bytes(&self.file_name_raw),
            extra_field: clone_bytes(&self.extra_field),
            file_comment: clone_string(&self.file_comment),
            header_start: self.header_start,
            central_header_start: self.central_header_start,
            data_start: self.data_start,
            external_attributes: self.external_attributes,
            large_file: self.large_file,
            aes_mode: self.aes_mode,
        }
    }

    /// The decoded filename as a relative path that cannot escape the
    /// extraction root, or `None` when the name is absolute, holds a NUL, or
    /// has a `..` segment.
    pub fn enclosed_name(&self) -> (r: Option<&str>)
        ensures
            r is Some <==> spec_is_enclosed(self.file_name@),
            r matches Some(p) ==> p@ == self.file_name@,
    {
        let name: &str = self.file_name.as_str();
        let n: usize = name.unicode_len();
        let mut i: usize = 0;
        let mut ok: bool = true;
        while i < n
            invariant
                0 <= i <= n,
                n == name@.len(),
                name@ == self.file_name@,
                ok <==> ((forall|j: int| 0 <= j < i ==> name@[j] != '\u{0}') && (i == 0
                    || name@[0] != '/') && (forall|j: int|
                    j < i ==> !spec_is_dotdot_at(name@, j))),
            decreases n - i,
        {
            let c = name.get_char(i);
            let dotdot = c == '.' && i + 1 < n && (i == 0 || name.get_char(i - 1) == '/')
                && name.get_char(i + 1) == '.' && (i + 2 == n || name.get_char(i + 2) == '/');
            assert(dotdot == spec_is_dotdot_at(name@, i as int));
            if c == '\u{0}' || (i == 0 && c == '/') || dotdot {
                ok = false;
            }
            i = i + 1;
        }
        if ok {
            proof {
                assert(!name@.contains('\u{0}')) by {
                    assert(forall|j: int| 0 <= j < name@.len() ==> name@[j] != '\u{0}');
                }
                assert(!spec_has_dotdot(name@)) by {
                    assert(forall|j: int| !spec_is_dotdot_at(name@, j));
                }
            }
            Some(name)
        } else {
            proof {
                assert(!spec_is_enclosed(self.file_name@)) by {
                    if forall|j: int| 0 <= j < name@.len() ==> name@[j] != '\u{0}' {
                        if !(name@.len() > 0 && name@[0] == '/') {
                            let j = choose|j: int|
                                !(j < n as int ==> !spec_is_dotdot_at(name@, j));
                            assert(spec_is_dotdot_at(name@, j));
                        }
                    } else {
                        let j = choose|j: int|
                            !(0 <= j < name@.len() ==> name@[j] != '\u{0}');
                        assert(name@[j] == '\u{0}');
                        assert(name@.contains('\u{0}'));
                    }
                };
            }
            None
        }
    }
}

/// Copies a byte buffer.
fn clone_bytes(v: &Vec<u8>) -> (r: Vec<u8>)
    ensures
        r@ == v@,
{
    let mut out: Vec<u8> = Vec::new();
    let mut i: usize = 0;
    while i < v.len()
        invariant
            0 <= i <= v@.len(),
            out@ == v@.subrange(0, i as int),
        decreases v@.len() - i,
    {
        out.push(v[i]);
        i = i + 1;
        assert(out@ =~= v@.subrange(0, i as int));
    }
    assert(out@ =~= v@);
    out
}

/// Copies a string.
fn clone_string(s: &String) -> (r: String)
    ensures
        r@ == s@,
{
    s.clone()
}

} // verus!
