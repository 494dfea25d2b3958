//! The archive trailer: the end-of-central-directory record, the ZIP64
//! locator, and the ZIP64 end-of-central-directory record.

use vstd::prelude::*;

use crate::result::{IoError, ZipError, ZipResult};
use crate::wire::{
    le16, le32, le64, read_u16, read_u32, read_u64, read_exact,
    CENTRAL_DIRECTORY_END_SIGNATURE, ZIP64_CENTRAL_DIRECTORY_END_LOCATOR_SIGNATURE,
    ZIP64_CENTRAL_DIRECTORY_END_SIGNATURE,
};

verus! {

/// The end-of-central-directory record.
pub struct CentralDirectoryEnd {
    pub disk_number: u16,
    pub disk_with_central_directory: u16,
    pub number_of_files_on_this_disk: u16,
    pub number_of_files: u16,
    pub central_directory_size: u32,
    pub central_directory_offset: u32,
    pub zip_file_comment: Vec<u8>,
}

/// Whether every numeric field of the record carries its ZIP64 sentinel:
/// the classic record was too small for the true values, which then live in
/// the ZIP64 record, and the disk fields here say nothing.
pub open spec fn spec_record_too_small(e: CentralDirectoryEnd) -> bool {
    &&& e.disk_number == 0xffff
    &&& e.disk_with_central_directory == 0xffff
    &&& e.number_of_files_on_this_disk == 0xffff
    &&& e.number_of_files == 0xffff
    &&& e.central_directory_size == 0xffffffff
    &&& e.central_directory_offset == 0xffffffff
}

/// Whether `e` holds exactly the field values of an end-of-central-directory
/// record whose signature stands at byte offset `p` of `s`, with the comment
/// clamped to the bytes the data still holds.
pub open spec fn spec_eocd_at(s: Seq<u8>, p: int, e: CentralDirectoryEnd) -> bool {
    &&& e.disk_number == le16(s, p + 4)
    &&& e.disk_with_central_directory == le16(s, p + 6)
    &&& e.number_of_files_on_this_disk == le16(s, p + 8)
    &&& e.number_of_files == le16(s, p + 10)
    &&& e.central_directory_size == le32(s, p + 12)
    &&& e.central_directory_offset == le32(s, p + 16)
    &&& e.zip_file_comment@ == s.subrange(
        p + 22,
        if p + 22 + le16(s, p + 20) <= s.len() {
            p + 22 + le16(s, p + 20)
        } else {
            s.len() as int
        },
    )
}

impl CentralDirectoryEnd {
    /// Whether every numeric field carries its ZIP64 sentinel.
    pub fn record_too_small(&self) -> (r: bool)
        ensures
            r == spec_record_too_small(*self),
    {
        self.disk_number == 0xffff && self.disk_with_central_directory == 0xffff
            && self.number_of_files_on_this_disk == 0xffff && self.number_of_files == 0xffff
            && self.central_directory_size == 0xffffffff && self.central_directory_offset
            == 0xffffffff
    }

    /// Scans the trailer backwards — the last 64 KiB plus the record's own 22
    /// bytes — for the record's signature, and parses the record found
    /// nearest the end.
    pub fn find_and_parse(data: &Vec<u8>) -> (r: ZipResult<(CentralDirectoryEnd, u64)>)
        ensures
            ({
                let s = data@;
                let top = s.len() - 22;
                let lower = if top >= 65536 {
                    top - 65536
                } else {
                    0
                };
                match r {
                    Ok((e, p)) => {
                        &&& s.len() >= 22
                        &&& lower <= p <= top
                        &&& le32(s, p as int) == CENTRAL_DIRECTORY_END_SIGNATURE
                        &&& (forall|q: int|
                            p < q <= top ==> le32(s, q) != CENTRAL_DIRECTORY_END_SIGNATURE)
                        &&& spec_eocd_at(s, p as int, e)
                    },
                    Err(e) => {
                        &&& (s.len() < 22 ==> (e matches ZipError::InvalidArchive(m) && m@
                            == "Invalid zip header"@))
                        &&& (s.len() >= 22 ==> ((forall|q: int|
                            lower <= q <= top ==> le32(s, q)
                                != CENTRAL_DIRECTORY_END_SIGNATURE) && (e
                            matches ZipError::InvalidArchive(m) && m@
                            == "Could not find central directory end"@)))
                    },
                }
            }),
    {
        let len: u64 = data.len() as u64;
        if len < 22 {
            return Err(ZipError::InvalidArchive("Invalid zip header"));
        }
        let top: u64 = len - 22;
        let lower: u64 = if top >= 65536 {
            top - 65536
        } else {
            0
        };
        let span: u64 = top - lower;
        let mut i: u64 = 0;
        while i <= span
            invariant
                0 <= i <= span + 1,
                span <= 65536,
                span == top - lower,
                top == data@.len() - 22,
                data@.len() >= 22,
                forall|q: int|
                    top - i < q <= top ==> le32(data@, q) != CENTRAL_DIRECTORY_END_SIGNATURE,
            decreases span + 1 - i,
        {
            let p: u64 = top - i;
            let mut cur: u64 = p;
            let sig = match read_u32(data, &mut cur) {
                Ok(v) => v,
                Err(_) => {
                    proof {
                        assert(false);
                    }
                    return Err(ZipError::InvalidArchive("Invalid zip header"));
                },
            };
            if sig == CENTRAL_DIRECTORY_END_SIGNATURE {
                let e = Self::parse_at(data, p);
                return Ok((e, p));
            }
            i = i + 1;
        }
        Err(ZipError::InvalidArchive("Could not find central directory end"))
    }

    /// Parses the record whose signature stands at `p`, clamping the comment
    /// to the bytes the data still holds.
    fn parse_at(data: &Vec<u8>, p: u64) -> (e: CentralDirectoryEnd)
        requires
            p + 22 <= data@.len(),
        ensures
            spec_eocd_at(data@, p as int, e),
    {
        let len: u64 = data.len() as u64;
        let mut cur: u64 = p + 4;
        let disk_number = read_u16(data, &mut cur).unwrap();
        let disk_with_central_directory = read_u16(data, &mut cur).unwrap();
        let number_of_files_on_this_disk = read_u16(data, &mut cur).unwrap();
        let number_of_files = read_u16(data, &mut cur).unwrap();
        let central_directory_size = read_u32(data, &mut cur).unwrap();
        let central_directory_offset = read_u32(data, &mut cur).unwrap();
        let comment_length = read_u16(data, &mut cur).unwrap() as u64;
        let avail: u64 = len - cur;
        let take: u64 = if comment_length <= avail {
            comment_length
        } else {
            avail
        };
        let zip_file_comment = read_exact(data, &mut cur, take).unwrap();
        CentralDirectoryEnd {
            disk_number,
            disk_with_central_directory,
            number_of_files_on_this_disk,
            number_of_files,
            central_directory_size,
            central_directory_offset,
            zip_file_comment,
        }
    }
}

/// The ZIP64 end-of-central-directory locator.
pub struct Zip64CentralDirectoryEndLocator {
    pub disk_with_central_directory: u32,
    pub end_of_central_directory_offset: u64,
    pub number_of_disks: u32,
}

/// Whether `l` holds exactly the field values of a ZIP64 locator whose
/// signature stands at byte offset `p` of `s`.
pub open spec fn spec_locator_at(s: Seq<u8>, p: int, l: Zip64CentralDirectoryEndLocator) -> bool {
    &&& l.disk_with_central_directory == le32(s, p + 4)
    &&& l.end_of_central_directory_offset == le64(s, p + 8)
    &&& l.number_of_disks == le32(s, p + 16)
}

impl Zip64CentralDirectoryEndLocator {
    /// Parses a ZIP64 locator at `p`; a missing signature is `InvalidArchive`
    /// (the archive is then simply not ZIP64), a short read fails as the
    /// source does.
    pub fn parse(data: &Vec<u8>, p: u64) -> (r: ZipResult<Zip64CentralDirectoryEndLocator>)
        ensures
            ({
                let s = data@;
                match r {
                    Ok(l) => p + 20 <= s.len() && le32(s, p as int)
                        == ZIP64_CENTRAL_DIRECTORY_END_LOCATOR_SIGNATURE && spec_locator_at(
                        s,
                        p as int,
                        l,
                    ),
                    Err(e) => {
                        &&& (e is Io ==> (p + 4 > s.len() || (le32(s, p as int)
                            == ZIP64_CENTRAL_DIRECTORY_END_LOCATOR_SIGNATURE && p + 20
                            > s.len())) && e == ZipError::Io(IoError::UnexpectedEof))
                        &&& (!(e is Io) ==> p + 4 <= s.len() && le32(s, p as int)
                            != ZIP64_CENTRAL_DIRECTORY_END_LOCATOR_SIGNATURE && (e
                            matches ZipError::InvalidArchive(m) && m@
                            == "Could not find ZIP64 locator"@))
                    },
                }
            }),
    {
        let mut cur: u64 = p;
        let sig = match read_u32(data, &mut cur) {
            Ok(v) => v,
            Err(e) => {
                return Err(e);
            },
        };
        if sig != ZIP64_CENTRAL_DIRECTORY_END_LOCATOR_SIGNATURE {
            return Err(ZipError::InvalidArchive("Could not find ZIP64 locator"));
        }
        let disk_with_central_directory = match read_u32(data, &mut cur) {
            Ok(v) => v,
            Err(e) => {
                return Err(e);
            },
        };
        let end_of_central_directory_offset = match read_u64(data, &mut cur) {
            Ok(v) => v,
            Err(e) => {
                return Err(e);
            },
        };
        let number_of_disks = match read_u32(data, &mut cur) {
            Ok(v) => v,
            Err(e) => {
                return Err(e);
            },
        };
        Ok(Zip64CentralDirectoryEndLocator {
            disk_with_central_directory,
            end_of_central_directory_offset,
            number_of_disks,
        })
    }
}

/// The ZIP64 end-of-central-directory record.
pub struct Zip64CentralDirectoryEnd {
    pub version_made_by: u16,
    pub version_needed_to_extract: u16,
    pub disk_number: u32,
    pub disk_with_central_directory: u32,
    pub number_of_files_on_this_disk: u64,
    pub number_of_files: u64,
    pub central_directory_size: u64,
    pub central_directory_offset: u64,
}

/// Whether `f` holds exactly the field values of a ZIP64
/// end-of-central-directory record whose signature stands at offset `q`.
pub open spec fn spec_zip64_eocd_at(s: Seq<u8>, q: int, f: Zip64CentralDirectoryEnd) -> bool {
    &&& f.version_made_by == le16(s, q + 12)
    &&& f.version_needed_to_extract == le16(s, q + 14)
    &&& f.disk_number == le32(s, q + 16)
    &&& f.disk_with_central_directory == le32(s, q + 20)
    &&& f.number_of_files_on_this_disk == le64(s, q + 24)
    &&& f.number_of_files == le64(s, q + 32)
    &&& f.central_directory_size == le64(s, q + 40)
    &&& f.central_directory_offset == le64(s, q + 48)
}

/// What a forward scan for the ZIP64 end-of-central-directory signature
/// finds, starting at `q` and giving up above `upper`: the offset of the
/// record, or `Err(true)` when the scan runs off the end of the data, or
/// `Err(false)` when every candidate position was readable and held no
/// signature.
pub open spec fn spec_scan_zip64(s: Seq<u8>, q: int, upper: int) -> Result<int, bool>
    decreases (if q <= upper {
        upper + 1 - q
    } else {
        0
    }),
{
    if q > upper {
        Err(false)
    } else if q + 4 > s.len() {
        Err(true)
    } else if le32(s, q) == ZIP64_CENTRAL_DIRECTORY_END_SIGNATURE {
        if q + 56 <= s.len() {
            Ok(q)
        } else {
            Err(true)
        }
    } else {
        spec_scan_zip64(s, q + 1, upper)
    }
}

impl Zip64CentralDirectoryEnd {
    /// Searches forward from the locator's nominal offset up to
    /// `search_upper_bound` for the ZIP64 record, and returns it together
    /// with the base-offset shift: how far beyond the nominal offset the
    /// record really stands.
    pub fn find_and_parse(data: &Vec<u8>, nominal_offset: u64, search_upper_bound: u64) -> (r:
        ZipResult<(Zip64CentralDirectoryEnd, u64)>)
        ensures
            ({
                let s = data@;
                match r {
                    Ok((f, shift)) => {
                        &&& spec_scan_zip64(s, nominal_offset as int, search_upper_bound as int)
                            == Ok::<int, bool>(nominal_offset + shift)
                        &&& spec_zip64_eocd_at(s, nominal_offset + shift, f)
                    },
                    Err(e) => {
                        &&& (spec_scan_zip64(s, nominal_offset as int, search_upper_bound as int)
                            == Err::<int, bool>(true) ==> e == ZipError::Io(
                            IoError::UnexpectedEof,
                        ))
                        &&& (spec_scan_zip64(s, nominal_offset as int, search_upper_bound as int)
                            == Err::<int, bool>(false) ==> (e matches ZipError::InvalidArchive(m)
                            && m@ == "Could not find ZIP64 central directory end"@))
                        &&& (spec_scan_zip64(s, nominal_offset as int, search_upper_bound as int)
                            is Ok ==> false)
                    },
                }
            }),
    {
        let len: u64 = data.len() as u64;
        if nominal_offset > search_upper_bound {
            return Err(ZipError::InvalidArchive("Could not find ZIP64 central directory end"));
        }
        let mut q: u64 = nominal_offset;
        while q <= search_upper_bound
            invariant
                nominal_offset <= q <= search_upper_bound,
                len == data@.len(),
                spec_scan_zip64(data@, nominal_offset as int, search_upper_bound as int)
                    == spec_scan_zip64(data@, q as int, search_upper_bound as int),
            decreases search_upper_bound - q,
        {
            let mut cur: u64 = q;
            let sig = match read_u32(data, &mut cur) {
                Ok(v) => v,
                Err(e) => {
                    return Err(e);
                },
            };
            if sig == ZIP64_CENTRAL_DIRECTORY_END_SIGNATURE {
                let _size = match read_u64(data, &mut cur) {
                    Ok(v) => v,
                    Err(e) => {
                        return Err(e);
                    },
                };
                let version_made_by = match read_u16(data, &mut cur) {
                    Ok(v) => v,
                    Err(e) => {
                        return Err(e);
                    },
                };
                let version_needed_to_extract = match read_u16(data, &mut cur) {
                    Ok(v) => v,
                    Err(e) => {
                        return Err(e);
                    },
                };
                let disk_number = match read_u32(data, &mut cur) {
                    Ok(v) => v,
                    Err(e) => {
                        return Err(e);
                    },
                };
                let disk_with_central_directory = match read_u32(data, &mut cur) {
                    Ok(v) => v,
                    Err(e) => {
                        return Err(e);
                    },
                };
                let number_of_files_on_this_disk = match read_u64(data, &mut cur) {
                    Ok(v) => v,
                    Err(e) => {
                        return Err(e);
                    },
                };
                let number_of_files = match read_u64(data, &mut cur) {
                    Ok(v) => v,
                    Err(e) => {
                        return Err(e);
                    },
                };
                let central_directory_size = match read_u64(data, &mut cur) {
                    Ok(v) => v,
                    Err(e) => {
                        return Err(e);
                    },
                };
                let central_directory_offset = match read_u64(data, &mut cur) {
                    Ok(v) => v,
                    Err(e) => {
                        return Err(e);
                    },
                };
                return Ok(
                    (
                        Zip64CentralDirectoryEnd {
                            version_made_by,
                            version_needed_to_extract,
                            disk_number,
                            disk_with_central_directory,
                            number_of_files_on_this_disk,
                            number_of_files,
                            central_directory_size,
                            central_directory_offset,
                        },
                        q - nominal_offset,
                    ),
                );
            }
            if q == search_upper_bound {
                proof {
                    assert(spec_scan_zip64(data@, q as int + 1, search_upper_bound as int)
                        == Err::<int, bool>(false));
                }
                return Err(
                    ZipError::InvalidArchive("Could not find ZIP64 central directory end"),
                );
            }
            q = q + 1;
        }
        proof {
            assert(false);
        }
        Err(ZipError::InvalidArchive("Could not find ZIP64 central directory end"))
    }
}

} // verus!
