//! The per-entry decompression pipeline: store/deflate readers composed with
//! a byte-limited window and a CRC-32 check at end-of-stream.

use vstd::prelude::*;
use vstd::pervasive::VecAdditionalExecFns;

use crate::central::{
    central_header_to_zip_file, lemma_extra_scan_error_shape, spec_central_err,
    spec_central_file_ok, spec_central_init_state, spec_central_parses, spec_extra_scan,
};
use crate::crc32::{crc32, crc32_of};
use crate::trailer::{
    spec_eocd_at, spec_record_too_small, spec_scan_zip64, CentralDirectoryEnd,
    Zip64CentralDirectoryEnd, Zip64CentralDirectoryEndLocator,
};
use crate::inflate::{inflate, inflate_of};
use crate::result::{spec_same_error, IoError, ZipError, ZipResult};
use crate::source::{Limiter, ZipSource};
use crate::name_index::{name_index_get, name_index_insert, name_index_view, name_index_with_capacity};
use crate::text::spec_decode_text;
use crate::types::{spec_is_enclosed, CompressionMethod, ZipFileData};
use crate::wire::{
    le16, le32, le64, read_u16, read_u32, CENTRAL_DIRECTORY_END_SIGNATURE,
    LOCAL_FILE_HEADER_SIGNATURE, ZIP64_CENTRAL_DIRECTORY_END_LOCATOR_SIGNATURE,
};

verus! {

/// A decoder over a byte-limited window of the source, reclaimable as that
/// window when the caller is done with it.
pub trait ReaderWrapper: Sized {
    /// Whether this reader kind decodes entries with `data`'s compression method.
    spec fn handles(data: ZipFileData) -> bool;

    /// The reader's internal consistency.
    spec fn wf(self) -> bool;

    /// Whether the reader holds a window that can be given back (the
    /// placeholder variant holds none).
    spec fn releasable(self) -> bool;

    /// The whole archive held by the source below the reader.
    spec fn source_data(self) -> Seq<u8>;

    /// The compressed window the reader draws from.
    spec fn window(self) -> Seq<u8>;

    /// The decoded stream this reader delivers: what the entry's compression
    /// method makes of the window.
    spec fn stream(self) -> Seq<u8>;

    /// Whether the compressed window decodes at all.
    spec fn decode_ok(self) -> bool;

    /// How many decoded bytes were already delivered.
    spec fn delivered(self) -> int;

    /// The CRC-32 that the decoded stream is checked against at end-of-stream.
    spec fn expected_crc(self) -> u32;

    /// Wraps the window in the decoder that the entry's compression method
    /// calls for: the reader will deliver exactly the method's decoding of
    /// the window.
    fn construct(data: &ZipFileData, s: Limiter) -> (r: Self)
        requires
            Self::handles(*data),
            s.wf(),
            s.delivered() == 0,
        ensures
            r.wf(),
            r.releasable(),
            r.source_data() == s.source_data(),
            r.window() == s.window(),
            r.stream() == spec_entry_stream(data.compression_method, s.window()),
            r.decode_ok() == spec_entry_decode_ok(data.compression_method, s.window()),
            r.delivered() == 0,
            r.expected_crc() == data.crc32,
    ;

    /// Unwraps the decoder back down to the window it was built over.
    fn into_inner(self) -> (r: Limiter)
        requires
            self.wf(),
            self.releasable(),
        ensures
            r.wf(),
            r.source_data() == self.source_data(),
            r.window() == self.window(),
    ;
}

/// The decoded stream that a window yields under a compression method:
/// `Stored` delivers the window itself, `Deflated` inflates it (an empty
/// stream when the window is not a deflate stream).
pub open spec fn spec_entry_stream(method: CompressionMethod, window: Seq<u8>) -> Seq<u8> {
    match method {
        CompressionMethod::Stored => window,
        CompressionMethod::Deflated => match inflate_of(window) {
            Some(s) => s,
            None => Seq::empty(),
        },
        _ => Seq::empty(),
    }
}

/// Whether a window decodes at all under a compression method.
pub open spec fn spec_entry_decode_ok(method: CompressionMethod, window: Seq<u8>) -> bool {
    match method {
        CompressionMethod::Stored => true,
        CompressionMethod::Deflated => inflate_of(window) is Some,
        _ => false,
    }
}

/// Reads a `Stored` entry: the window's bytes pass through unchanged, and at
/// end-of-stream the CRC-32 of everything delivered is checked.
pub struct StoredReader {
    /// The window over the source.
    pub inner: Limiter,
    /// The declared CRC-32 of the payload.
    pub crc_expected: u32,
    /// Everything delivered so far: the running CRC's input.
    pub collected: Vec<u8>,
}

impl StoredReader {
    /// Delivers up to `max` bytes of the stream; at end-of-stream an empty
    /// chunk comes back once the CRC-32 over the whole stream agrees with the
    /// declared one, and `InvalidArchive` otherwise.
    pub fn read(&mut self, max: usize) -> (r: ZipResult<Vec<u8>>)
        requires
            old(self).wf(),
            max >= 1,
        ensures
            final(self).wf(),
            final(self).stream() == old(self).stream(),
            final(self).source_data() == old(self).source_data(),
            final(self).expected_crc() == old(self).expected_crc(),
            match r {
                Ok(chunk) => if old(self).delivered() < old(self).stream().len() {
                    let k = if max as int <= old(self).stream().len() - old(self).delivered() {
                        max as int
                    } else {
                        old(self).stream().len() - old(self).delivered()
                    };
                    chunk@ == old(self).stream().subrange(
                        old(self).delivered(),
                        old(self).delivered() + k,
                    ) && final(self).delivered() == old(self).delivered() + k && chunk@.len() > 0
                } else {
                    chunk@.len() == 0 && final(self).delivered() == old(self).delivered()
                        && crc32_of(old(self).stream()) == old(self).expected_crc()
                },
                Err(e) => old(self).delivered() == old(self).stream().len() && crc32_of(
                    old(self).stream(),
                ) != old(self).expected_crc() && (e matches ZipError::InvalidArchive(m) && m@
                    == "CRC mismatch"@) && final(self).delivered() == old(self).delivered(),
            },
    {
        let rem = self.inner.remaining();
        if rem > 0 {
            let chunk = self.inner.read(max);
            let mut copy = clone_chunk(&chunk);
            self.collected.append(&mut copy);
            proof {
                assert(self.inner.window() == old(self).inner.window());
                assert(self.collected@ =~= self.inner.window().subrange(
                    0,
                    self.inner.delivered(),
                ));
            }
            Ok(chunk)
        } else {
            let actual = crc32(&self.collected);
            proof {
                assert(self.collected@ =~= self.stream());
            }
            if actual == self.crc_expected {
                Ok(Vec::new())
            } else {
                Err(ZipError::InvalidArchive("CRC mismatch"))
            }
        }
    }
}

impl ReaderWrapper for StoredReader {
    open spec fn handles(data: ZipFileData) -> bool {
        data.compression_method is Stored
    }

    open spec fn stream(self) -> Seq<u8> {
        self.inner.window()
    }

    open spec fn decode_ok(self) -> bool {
        true
    }

    open spec fn wf(self) -> bool {
        &&& self.inner.wf()
        &&& self.collected@ == self.inner.window().subrange(0, self.inner.delivered())
    }

    open spec fn releasable(self) -> bool {
        true
    }

    open spec fn source_data(self) -> Seq<u8> {
        self.inner.source_data()
    }

    open spec fn window(self) -> Seq<u8> {
        self.inner.window()
    }

    open spec fn delivered(self) -> int {
        self.inner.delivered()
    }

    open spec fn expected_crc(self) -> u32 {
        self.crc_expected
    }

    fn construct(data: &ZipFileData, s: Limiter) -> (r: Self) {
        proof {
            assert(s.window().subrange(0, 0) =~= Seq::<u8>::empty());
        }
        StoredReader { inner: s, crc_expected: data.crc32, collected: Vec::new() }
    }

    fn into_inner(self) -> (r: Limiter) {
        self.inner
    }
}

/// Reads a `Deflated` entry: the window is inflated and the decoded bytes are
/// delivered, with the CRC-32 over the decoded stream checked at its end.
pub struct DeflateReader {
    /// The window over the source, already drained into the decoder.
    pub inner: Limiter,
    /// The declared CRC-32 of the uncompressed payload.
    pub crc_expected: u32,
    /// The decoded bytes, or `None` when the window is not a deflate stream.
    pub out: Option<Vec<u8>>,
    /// How many decoded bytes were delivered.
    pub pos: usize,
}

impl DeflateReader {
    /// Delivers up to `max` bytes of the decoded stream. A window that is not
    /// a deflate stream fails as the source would; at end-of-stream an empty
    /// chunk comes back once the CRC-32 agrees, and `InvalidArchive` otherwise.
    pub fn read(&mut self, max: usize) -> (r: ZipResult<Vec<u8>>)
        requires
            old(self).wf(),
            max >= 1,
        ensures
            final(self).wf(),
            final(self).stream() == old(self).stream(),
            final(self).decode_ok() == old(self).decode_ok(),
            final(self).source_data() == old(self).source_data(),
            final(self).expected_crc() == old(self).expected_crc(),
            match r {
                Ok(chunk) => old(self).decode_ok() && (if old(self).delivered() < old(
                    self,
                ).stream().len() {
                    let k = if max as int <= old(self).stream().len() - old(self).delivered() {
                        max as int
                    } else {
                        old(self).stream().len() - old(self).delivered()
                    };
                    chunk@ == old(self).stream().subrange(
                        old(self).delivered(),
                        old(self).delivered() + k,
                    ) && final(self).delivered() == old(self).delivered() + k && chunk@.len() > 0
                } else {
                    chunk@.len() == 0 && final(self).delivered() == old(self).delivered()
                        && crc32_of(old(self).stream()) == old(self).expected_crc()
                }),
                Err(e) => final(self).delivered() == old(self).delivered() && (if !old(
                    self,
                ).decode_ok() {
                    e == ZipError::Io(IoError::InvalidData)
                } else {
                    old(self).delivered() == old(self).stream().len() && crc32_of(
                        old(self).stream(),
                    ) != old(self).expected_crc() && (e matches ZipError::InvalidArchive(m) && m@
                        == "CRC mismatch"@)
                }),
            },
    {
        match &self.out {
            None => Err(ZipError::Io(IoError::InvalidData)),
            Some(v) => {
                let vl = v.len();
                if self.pos < vl {
                    let k = if max <= vl - self.pos {
                        max
                    } else {
                        vl - self.pos
                    };
                    let mut chunk: Vec<u8> = Vec::new();
                    let mut i: usize = 0;
                    while i < k
                        invariant
                            0 <= i <= k,
                            self.pos + k <= v@.len(),
                            v@.len() <= usize::MAX,
                            chunk@ == v@.subrange(self.pos as int, self.pos + i),
                        decreases k - i,
                    {
                        chunk.push(v[self.pos + i]);
                        i = i + 1;
                        assert(chunk@ =~= v@.subrange(self.pos as int, self.pos + i));
                    }
                    self.pos = self.pos + k;
                    Ok(chunk)
                } else {
                    let actual = crc32(v);
                    if actual == self.crc_expected {
                        Ok(Vec::new())
                    } else {
                        Err(ZipError::InvalidArchive("CRC mismatch"))
                    }
                }
            },
        }
    }
}

impl ReaderWrapper for DeflateReader {
    open spec fn handles(data: ZipFileData) -> bool {
        data.compression_method is Deflated
    }

    open spec fn stream(self) -> Seq<u8> {
        spec_entry_stream(CompressionMethod::Deflated, self.inner.window())
    }

    open spec fn decode_ok(self) -> bool {
        inflate_of(self.inner.window()) is Some
    }

    open spec fn wf(self) -> bool {
        &&& self.inner.wf()
        &&& match inflate_of(self.inner.window()) {
            Some(s) => self.out matches Some(v) && v@ == s && self.pos <= s.len(),
            None => self.out is None && self.pos == 0,
        }
    }

    open spec fn releasable(self) -> bool {
        true
    }

    open spec fn source_data(self) -> Seq<u8> {
        self.inner.source_data()
    }

    open spec fn window(self) -> Seq<u8> {
        self.inner.window()
    }

    open spec fn delivered(self) -> int {
        self.pos as int
    }

    open spec fn expected_crc(self) -> u32 {
        self.crc_expected
    }

    fn construct(data: &ZipFileData, s: Limiter) -> (r: Self) {
        let mut s = s;
        let compressed = s.read_all();
        proof {
            assert(compressed@ =~= s.window());
        }
        let out = inflate(&compressed);
        DeflateReader { inner: s, crc_expected: data.crc32, out, pos: 0 }
    }

    fn into_inner(self) -> (r: Limiter) {
        self.inner
    }
}

/// The tagged per-entry pipeline: a placeholder, a store reader, or a deflate
/// reader. The placeholder exists only to destructure safely; reading from it
/// is an invariant violation.
pub enum ZipFileWrappedReader {
    NoOp,
    Stored(StoredReader),
    Deflated(DeflateReader),
}

impl Default for ZipFileWrappedReader {
    /// The placeholder variant.
    fn default() -> (r: Self)
        ensures
            r is NoOp,
    {
        Self::NoOp
    }
}

impl ZipFileWrappedReader {
    /// Delivers up to `max` decoded bytes, as the wrapped reader does.
    pub fn read(&mut self, max: usize) -> (r: ZipResult<Vec<u8>>)
        requires
            old(self).wf(),
            old(self).releasable(),
            max >= 1,
        ensures
            final(self).wf(),
            final(self).releasable(),
            final(self).stream() == old(self).stream(),
            final(self).source_data() == old(self).source_data(),
            final(self).expected_crc() == old(self).expected_crc(),
            final(self).decode_ok() == old(self).decode_ok(),
            match r {
                Ok(chunk) => old(self).decode_ok() && (if old(self).delivered() < old(
                    self,
                ).stream().len() {
                    let k = if max as int <= old(self).stream().len() - old(self).delivered() {
                        max as int
                    } else {
                        old(self).stream().len() - old(self).delivered()
                    };
                    chunk@ == old(self).stream().subrange(
                        old(self).delivered(),
                        old(self).delivered() + k,
                    ) && final(self).delivered() == old(self).delivered() + k && chunk@.len() > 0
                } else {
                    chunk@.len() == 0 && final(self).delivered() == old(self).delivered()
                        && crc32_of(old(self).stream()) == old(self).expected_crc()
                }),
                Err(e) => final(self).delivered() == old(self).delivered() && (if !old(
                    self,
                ).decode_ok() {
                    e == ZipError::Io(IoError::InvalidData)
                } else {
                    old(self).delivered() == old(self).stream().len() && crc32_of(
                        old(self).stream(),
                    ) != old(self).expected_crc() && (e matches ZipError::InvalidArchive(m) && m@
                        == "CRC mismatch"@)
                }),
            },
    {
        match self {
            ZipFileWrappedReader::NoOp => {
                proof {
                    assert(false);
                }
                Err(ZipError::FileNotFound)
            },
            ZipFileWrappedReader::Stored(r) => r.read(max),
            ZipFileWrappedReader::Deflated(r) => r.read(max),
        }
    }
}

impl ReaderWrapper for ZipFileWrappedReader {
    open spec fn handles(data: ZipFileData) -> bool {
        data.compression_method is Stored || data.compression_method is Deflated
    }

    open spec fn stream(self) -> Seq<u8> {
        match self {
            ZipFileWrappedReader::NoOp => Seq::empty(),
            ZipFileWrappedReader::Stored(r) => r.stream(),
            ZipFileWrappedReader::Deflated(r) => r.stream(),
        }
    }

    open spec fn decode_ok(self) -> bool {
        match self {
            ZipFileWrappedReader::NoOp => false,
            ZipFileWrappedReader::Stored(r) => r.decode_ok(),
            ZipFileWrappedReader::Deflated(r) => r.decode_ok(),
        }
    }

    open spec fn wf(self) -> bool {
        match self {
            ZipFileWrappedReader::NoOp => true,
            ZipFileWrappedReader::Stored(r) => r.wf(),
            ZipFileWrappedReader::Deflated(r) => r.wf(),
        }
    }

    open spec fn releasable(self) -> bool {
        !(self is NoOp)
    }

    open spec fn source_data(self) -> Seq<u8> {
        match self {
            ZipFileWrappedReader::NoOp => Seq::empty(),
            ZipFileWrappedReader::Stored(r) => r.source_data(),
            ZipFileWrappedReader::Deflated(r) => r.source_data(),
        }
    }

    open spec fn window(self) -> Seq<u8> {
        match self {
            ZipFileWrappedReader::NoOp => Seq::empty(),
            ZipFileWrappedReader::Stored(r) => r.window(),
            ZipFileWrappedReader::Deflated(r) => r.window(),
        }
    }

    open spec fn delivered(self) -> int {
        match self {
            ZipFileWrappedReader::NoOp => 0,
            ZipFileWrappedReader::Stored(r) => r.delivered(),
            ZipFileWrappedReader::Deflated(r) => r.delivered(),
        }
    }

    open spec fn expected_crc(self) -> u32 {
        match self {
            ZipFileWrappedReader::NoOp => 0,
            ZipFileWrappedReader::Stored(r) => r.expected_crc(),
            ZipFileWrappedReader::Deflated(r) => r.expected_crc(),
        }
    }

    fn construct(data: &ZipFileData, s: Limiter) -> (r: Self) {
        match data.compression_method {
            CompressionMethod::Stored => Self::Stored(StoredReader::construct(data, s)),
            CompressionMethod::Deflated => Self::Deflated(DeflateReader::construct(data, s)),
            _ => {
                proof {
                    assert(false);
                }
                Self::NoOp
            },
        }
    }

    fn into_inner(self) -> (r: Limiter) {
        match self {
            ZipFileWrappedReader::NoOp => {
                proof {
                    assert(false);
                }
                unreached()
            },
            ZipFileWrappedReader::Stored(r) => r.into_inner(),
            ZipFileWrappedReader::Deflated(r) => r.into_inner(),
        }
    }
}

/// The payload start recorded in an entry's local header: the fixed 30-byte
/// prefix plus the local (not central) name and extra field lengths.
pub open spec fn spec_data_start(s: Seq<u8>, h: int) -> int {
    h + 30 + le16(s, h + 26) + le16(s, h + 28)
}

/// The window of compressed payload bytes an entry occupies, clamped to the
/// end of the data.
pub open spec fn spec_entry_window(s: Seq<u8>, ds: int, size: u64) -> Seq<u8> {
    let lo = if ds <= s.len() {
        ds
    } else {
        s.len() as int
    };
    let hi = if ds + size <= s.len() {
        ds + size
    } else {
        s.len() as int
    };
    s.subrange(if lo <= hi { lo } else { hi }, hi)
}

/// Which error resolving an entry's local header gives, when it fails: a
/// read past the end of the data fails as the source does, and a wrong
/// signature or an overflowing payload start is a malformed archive.
pub open spec fn spec_find_content_err(s: Seq<u8>, h: int, e: ZipError) -> bool {
    &&& (e == ZipError::Io(IoError::UnexpectedEof) <==> (h + 4 > s.len() || (le32(s, h)
        == LOCAL_FILE_HEADER_SIGNATURE && h + 30 > s.len())))
    &&& (h + 4 <= s.len() && le32(s, h) != LOCAL_FILE_HEADER_SIGNATURE ==> (e
        matches ZipError::InvalidArchive(m) && m@ == "Invalid local file header"@))
    &&& (h + 30 <= s.len() && le32(s, h) == LOCAL_FILE_HEADER_SIGNATURE ==> (e
        matches ZipError::InvalidArchive(m) && m@ == "Archive header is too large"@
        && spec_data_start(s, h) > u64::MAX))
    &&& !(e is FileNotFound)
    &&& !(e is InvalidPassword)
    &&& !(e is UnsupportedArchive)
    &&& (e matches ZipError::Io(k) ==> k == IoError::UnexpectedEof)
}

/// Parses the entry's local header, records the payload start in the
/// metadata's data-start slot, and wraps the payload bytes in a window.
///
/// The local name and extra lengths are authoritative for the payload start:
/// the central record's values play no part here.
pub fn find_content(data: &mut ZipFileData, source: ZipSource) -> (r: ZipResult<Limiter>)
    ensures
        ({
            let s = source.data@;
            let h = old(data).header_start as int;
            match r {
                Ok(lim) => {
                    &&& h + 30 <= s.len()
                    &&& le32(s, h) == LOCAL_FILE_HEADER_SIGNATURE
                    &&& spec_data_start(s, h) <= u64::MAX
                    &&& *final(data) == (ZipFileData {
                        data_start: (spec_data_start(s, h) as u64),
                        ..*old(data)
                    })
                    &&& lim.wf()
                    &&& lim.delivered() == 0
                    &&& lim.source_data() == s
                    &&& lim.window() == spec_entry_window(
                        s,
                        spec_data_start(s, h),
                        old(data).compressed_size,
                    )
                },
                Err(e) => {
                    &&& *final(data) == *old(data)
                    &&& spec_find_content_err(s, h, e)
                    &&& !spec_local_header_ok(s, h)
                },
            }
        }),
{
    let len: u64 = source.data.len() as u64;
    let mut pos: u64 = data.header_start;

    let signature = match read_u32(&source.data, &mut pos) {
        Ok(v) => v,
        Err(e) => {
            return Err(e);
        },
    };
    if signature != LOCAL_FILE_HEADER_SIGNATURE {
        return Err(ZipError::InvalidArchive("Invalid local file header"));
    }
    if len - pos < 22 {
        return Err(ZipError::Io(IoError::UnexpectedEof));
    }
    pos = pos + 22;
    let file_name_length = match read_u16(&source.data, &mut pos) {
        Ok(v) => v as u64,
        Err(e) => {
            return Err(e);
        },
    };
    // The local extra field length may differ from the central record's; only
    // the local value determines where the payload starts.
    let extra_field_length = match read_u16(&source.data, &mut pos) {
        Ok(v) => v as u64,
        Err(e) => {
            return Err(e);
        },
    };
    let rest = file_name_length + extra_field_length;
    if pos > u64::MAX - rest {
        return Err(ZipError::InvalidArchive("Archive header is too large"));
    }
    let data_start = pos + rest;
    data.data_start = data_start;

    let mut source = source;
    source.pos = data_start;
    let lim = Limiter::take(data_start, source, data.compressed_size);
    proof {
        assert(lim.window() =~= spec_entry_window(
            source.data@,
            spec_data_start(source.data@, old(data).header_start as int),
            old(data).compressed_size,
        ));
    }
    Ok(lim)
}

/// Seeks the entry's payload and wraps it in the decoder its compression
/// method calls for; any method but store or deflate is refused at open time.
pub fn get_reader(data: &mut ZipFileData, source: ZipSource) -> (r: ZipResult<
    ZipFileWrappedReader,
>)
    ensures
        spec_local_header_ok(source.data@, old(data).header_start as int)
            && ZipFileWrappedReader::handles(*old(data)) ==> r is Ok,
        ({
            let s = source.data@;
            let h = old(data).header_start as int;
            match r {
                Ok(wr) => {
                    let window = spec_entry_window(s, spec_data_start(s, h), old(
                        data,
                    ).compressed_size);
                    &&& h + 30 <= s.len()
                    &&& le32(s, h) == LOCAL_FILE_HEADER_SIGNATURE
                    &&& spec_data_start(s, h) <= u64::MAX
                    &&& ZipFileWrappedReader::handles(*old(data))
                    &&& *final(data) == (ZipFileData {
                        data_start: (spec_data_start(s, h) as u64),
                        ..*old(data)
                    })
                    &&& wr.wf()
                    &&& wr.releasable()
                    &&& wr.source_data() == s
                    &&& wr.window() == window
                    &&& wr.stream() == spec_entry_stream(old(data).compression_method, window)
                    &&& wr.decode_ok() == spec_entry_decode_ok(
                        old(data).compression_method,
                        window,
                    )
                    &&& wr.delivered() == 0
                    &&& wr.expected_crc() == old(data).crc32
                },
                Err(e) => {
                    &&& (e matches ZipError::UnsupportedArchive(m) ==> (m@
                        == "Compression method not supported"@ && !ZipFileWrappedReader::handles(
                        *old(data),
                    )))
                    &&& (spec_local_header_ok(s, h) ==> (e matches ZipError::UnsupportedArchive(m2)
                        && m2@ == "Compression method not supported"@))
                    &&& (!spec_local_header_ok(s, h) ==> spec_find_content_err(s, h, e))
                    &&& (!(e matches ZipError::UnsupportedArchive(_)) ==> *final(data) == *old(
                        data,
                    ) && spec_find_content_err(s, h, e))
                    &&& !(e is FileNotFound)
                    &&& !(e is InvalidPassword)
                    &&& (e matches ZipError::Io(k) ==> k == IoError::UnexpectedEof)
                },
            }
        }),
{
    let limited_reader = match find_content(data, source) {
        Ok(lim) => lim,
        Err(e) => {
            return Err(e);
        },
    };
    match data.compression_method {
        CompressionMethod::Stored => Ok(ZipFileWrappedReader::Stored(
            StoredReader::construct(data, limited_reader),
        )),
        CompressionMethod::Deflated => Ok(ZipFileWrappedReader::Deflated(
            DeflateReader::construct(data, limited_reader),
        )),
        _ => Err(ZipError::UnsupportedArchive("Compression method not supported")),
    }
}

/// Copies a chunk of bytes.
fn clone_chunk(v: &Vec<u8>) -> (r: Vec<u8>)
    ensures
        r@ == v@,
{
    let mut out: Vec<u8> = Vec::new();
    let mut i: usize = 0;
    while i < v.len()
        invariant
            0 <= i <= v@.len(),
            out@ == v@.subrange(0, i as int),
        decreases v@.len() - i,
    {
        out.push(v[i]);
        i = i + 1;
        assert(out@ =~= v@.subrange(0, i as int));
    }
    assert(out@ =~= v@);
    out
}

/// The local header at `h` of `s` is well-formed: its signature is present
/// and its fixed fields are inside the data.
pub open spec fn spec_local_header_ok(s: Seq<u8>, h: int) -> bool {
    &&& h + 30 <= s.len()
    &&& le32(s, h) == LOCAL_FILE_HEADER_SIGNATURE
    &&& spec_data_start(s, h) <= u64::MAX
}

/// The immutable part of an open archive: its entries in central-directory
/// order, the name table over them, the base-offset shift, and the archive
/// comment.
pub struct Shared {
    /// Entry metadata, in central-directory order.
    pub files: Vec<ZipFileData>,
    /// Decoded filename to entry index.
    pub names: indexmap::IndexMap<String, usize>,
    /// The archive's base-offset shift: bytes prepended before the archive.
    pub offset: u64,
    /// The archive comment from the end-of-central-directory record.
    pub comment: Vec<u8>,
}

impl Shared {
    /// The name table is exactly the inverse of the entry order: every entry
    /// is found under its name, and every name leads back to its entry.
    pub open spec fn wf(self) -> bool {
        &&& forall|i: int|
            0 <= i < self.files@.len() ==> name_index_view(self.names).contains_key(
                #[trigger] self.files@[i].file_name@,
            ) && name_index_view(self.names)[self.files@[i].file_name@] == i
        &&& forall|n: Seq<char>|
            #[trigger] name_index_view(self.names).contains_key(n) ==> 0 <= name_index_view(
                self.names,
            )[n] < self.files@.len() && self.files@[name_index_view(self.names)[n] as int].file_name@
                == n
    }
}

/// One open entry: its metadata, its index, and the decoder pipeline that
/// owns the archive's byte source while the entry is being read.
pub struct ZipFile {
    /// The entry's metadata, with its data-start slot filled.
    pub data: ZipFileData,
    /// The entry's position in the central directory.
    pub index: usize,
    /// The decoder over the entry's payload window.
    pub wrapped_reader: ZipFileWrappedReader,
}

impl ZipFile {
    /// The entry's metadata.
    pub fn data(&self) -> (r: &ZipFileData)
        ensures
            r == self.data,
    {
        &self.data
    }

    /// The entry's decoded filename as a path that cannot escape the
    /// extraction root, or `InvalidArchive` for an absolute name, a name
    /// with a NUL, or a name with a `..` segment.
    pub fn name(&self) -> (r: ZipResult<&str>)
        ensures
            match r {
                Ok(p) => spec_is_enclosed(self.data.file_name@) && p@ == self.data.file_name@,
                Err(e) => !spec_is_enclosed(self.data.file_name@) && (e
                    matches ZipError::InvalidArchive(m) && m@ == "Invalid file path"@),
            },
    {
        match self.data.enclosed_name() {
            Some(p) => Ok(p),
            None => Err(ZipError::InvalidArchive("Invalid file path")),
        }
    }

    /// Delivers up to `max` decoded payload bytes, as the wrapped reader
    /// does.
    pub fn read(&mut self, max: usize) -> (r: ZipResult<Vec<u8>>)
        requires
            old(self).wrapped_reader.wf(),
            old(self).wrapped_reader.releasable(),
            max >= 1,
        ensures
            final(self).data == old(self).data,
            final(self).index == old(self).index,
            final(self).wrapped_reader.wf(),
            final(self).wrapped_reader.releasable(),
            final(self).wrapped_reader.stream() == old(self).wrapped_reader.stream(),
            final(self).wrapped_reader.source_data() == old(self).wrapped_reader.source_data(),
            final(self).wrapped_reader.expected_crc() == old(self).wrapped_reader.expected_crc(),
            final(self).wrapped_reader.decode_ok() == old(self).wrapped_reader.decode_ok(),
            match r {
                Ok(chunk) => old(self).wrapped_reader.decode_ok() && (if old(
                    self,
                ).wrapped_reader.delivered() < old(self).wrapped_reader.stream().len() {
                    let k = if max as int <= old(self).wrapped_reader.stream().len() - old(
                        self,
                    ).wrapped_reader.delivered() {
                        max as int
                    } else {
                        old(self).wrapped_reader.stream().len() - old(
                            self,
                        ).wrapped_reader.delivered()
                    };
                    chunk@ == old(self).wrapped_reader.stream().subrange(
                        old(self).wrapped_reader.delivered(),
                        old(self).wrapped_reader.delivered() + k,
                    ) && final(self).wrapped_reader.delivered() == old(
                        self,
                    ).wrapped_reader.delivered() + k && chunk@.len() > 0
                } else {
                    chunk@.len() == 0 && final(self).wrapped_reader.delivered() == old(
                        self,
                    ).wrapped_reader.delivered() && crc32_of(old(self).wrapped_reader.stream())
                        == old(self).wrapped_reader.expected_crc()
                }),
                Err(e) => final(self).wrapped_reader.delivered() == old(
                    self,
                ).wrapped_reader.delivered() && (if !old(self).wrapped_reader.decode_ok() {
                    e == ZipError::Io(IoError::InvalidData)
                } else {
                    old(self).wrapped_reader.delivered() == old(
                        self,
                    ).wrapped_reader.stream().len() && crc32_of(old(self).wrapped_reader.stream())
                        != old(self).wrapped_reader.expected_crc() && (e
                        matches ZipError::InvalidArchive(m) && m@ == "CRC mismatch"@)
                }),
            },
    {
        self.wrapped_reader.read(max)
    }

    /// Reads the whole entry to end-of-stream, validating the CRC-32 at the
    /// end, and hands the decoded payload back.
    pub fn read_to_end(&mut self) -> (r: ZipResult<Vec<u8>>)
        requires
            old(self).wrapped_reader.wf(),
            old(self).wrapped_reader.releasable(),
            old(self).wrapped_reader.delivered() == 0,
        ensures
            final(self).data == old(self).data,
            final(self).wrapped_reader.wf(),
            final(self).wrapped_reader.releasable(),
            final(self).wrapped_reader.source_data() == old(self).wrapped_reader.source_data(),
            match r {
                Ok(bytes) => old(self).wrapped_reader.decode_ok() && bytes@ == old(
                    self,
                ).wrapped_reader.stream() && crc32_of(old(self).wrapped_reader.stream()) == old(
                    self,
                ).wrapped_reader.expected_crc(),
                Err(e) => if !old(self).wrapped_reader.decode_ok() {
                    e == ZipError::Io(IoError::InvalidData)
                } else {
                    crc32_of(old(self).wrapped_reader.stream()) != old(
                        self,
                    ).wrapped_reader.expected_crc() && (e matches ZipError::InvalidArchive(m)
                        && m@ == "CRC mismatch"@)
                },
            },
    {
        let mut out: Vec<u8> = Vec::new();
        loop
            invariant
                self.wrapped_reader.wf(),
                self.wrapped_reader.releasable(),
                self.data == old(self).data,
                self.index == old(self).index,
                self.wrapped_reader.stream() == old(self).wrapped_reader.stream(),
                self.wrapped_reader.source_data() == old(self).wrapped_reader.source_data(),
                self.wrapped_reader.expected_crc() == old(self).wrapped_reader.expected_crc(),
                self.wrapped_reader.decode_ok() == old(self).wrapped_reader.decode_ok(),
                0 <= self.wrapped_reader.delivered() <= self.wrapped_reader.stream().len(),
                out@ == self.wrapped_reader.stream().subrange(0, self.wrapped_reader.delivered()),
            decreases self.wrapped_reader.stream().len() - self.wrapped_reader.delivered() + 1,
        {
            let chunk = match self.wrapped_reader.read(4096) {
                Ok(c) => c,
                Err(e) => {
                    return Err(e);
                },
            };
            if chunk.len() == 0 {
                proof {
                    assert(out@ =~= self.wrapped_reader.stream());
                }
                return Ok(out);
            }
            let mut c = chunk;
            out.append(&mut c);
            proof {
                assert(out@ =~= self.wrapped_reader.stream().subrange(
                    0,
                    self.wrapped_reader.delivered(),
                ));
            }
        }
    }
}

/// The archive facade: the parsed directory and the single-slot byte source
/// that entry readers borrow and give back.
pub struct ZipArchive {
    /// The source slot: empty exactly while an entry reader owns the source.
    pub reader: Option<ZipSource>,
    /// The parsed directory.
    pub shared: Shared,
    /// The archive bytes, as they stand in the source.
    pub source_bytes: Ghost<Seq<u8>>,
}

impl ZipArchive {
    /// The slot holds the source with the archive's bytes, and the directory
    /// is internally consistent.
    pub open spec fn wf(self) -> bool {
        &&& (self.reader matches Some(src) ==> src.data@ == self.source_bytes@)
        &&& self.shared.wf()
    }

    /// Whether the source is in its slot.
    pub open spec fn has_source(self) -> bool {
        self.reader is Some
    }

    /// Whether the source is in its slot, so an entry can be opened.
    pub fn source_available(&self) -> (r: bool)
        ensures
            r == self.has_source(),
    {
        self.reader.is_some()
    }

    /// How many entries the archive has.
    pub fn len(&self) -> (r: usize)
        ensures
            r == self.shared.files@.len(),
    {
        self.shared.files.len()
    }

    /// Whether the archive has no entries.
    pub fn is_empty(&self) -> (r: bool)
        ensures
            r == (self.shared.files@.len() == 0),
    {
        self.shared.files.len() == 0
    }

    /// The base-offset shift: how many bytes were prepended before the
    /// archive proper.
    pub fn offset(&self) -> (r: u64)
        ensures
            r == self.shared.offset,
    {
        self.shared.offset
    }

    /// The archive comment.
    pub fn comment(&self) -> (r: &Vec<u8>)
        ensures
            r@ == self.shared.comment@,
    {
        &self.shared.comment
    }

    /// The decoded filenames, in central-directory order.
    pub fn file_names(&self) -> (r: Vec<String>)
        ensures
            r@.len() == self.shared.files@.len(),
            forall|i: int|
                0 <= i < r@.len() ==> #[trigger] r@[i]@ == self.shared.files@[i].file_name@,
    {
        let mut out: Vec<String> = Vec::new();
        let mut i: usize = 0;
        while i < self.shared.files.len()
            invariant
                0 <= i <= self.shared.files@.len(),
                r_names_prefix(out@, self.shared.files@, i as int),
            decreases self.shared.files@.len() - i,
        {
            out.push(self.shared.files[i].file_name.clone());
            i = i + 1;
        }
        out
    }

    /// Reclaims the byte source; `None` while an entry reader still owns it.
    pub fn into_inner(self) -> (r: Option<ZipSource>)
        ensures
            r is Some <==> self.has_source(),
            self.wf() && self.has_source() ==> (r matches Some(src) && src.data@
                == self.source_bytes@),
    {
        self.reader
    }

    /// Takes the source out of the slot, opens the entry at `index`, and
    /// hands back its reader, which owns the source until the entry is
    /// closed. An index out of range is `FileNotFound`; an empty slot fails
    /// as the source does; a bad local header or an unhandled compression
    /// method leaves the archive without its source, as the source was
    /// consumed by the failed open.
    pub fn by_index(&mut self, index: usize) -> (r: ZipResult<ZipFile>)
        requires
            old(self).wf(),
        ensures
            final(self).wf(),
            final(self).shared.files@.len() == old(self).shared.files@.len(),
            final(self).shared.offset == old(self).shared.offset,
            final(self).shared.comment@ == old(self).shared.comment@,
            final(self).source_bytes@ == old(self).source_bytes@,
            index < old(self).shared.files@.len() && old(self).has_source()
                && spec_local_header_ok(
                old(self).source_bytes@,
                old(self).shared.files@[index as int].header_start as int,
            ) && ZipFileWrappedReader::handles(old(self).shared.files@[index as int]) ==> r is Ok,
            match r {
                Ok(f) => {
                    let d = old(self).shared.files@[index as int];
                    let s = old(self).source_bytes@;
                    let h = d.header_start as int;
                    let window = spec_entry_window(s, spec_data_start(s, h), d.compressed_size);
                    &&& index < old(self).shared.files@.len()
                    &&& old(self).has_source()
                    &&& !final(self).has_source()
                    &&& spec_local_header_ok(s, h)
                    &&& f.index == index
                    &&& f.data.congruent(
                        (ZipFileData { data_start: (spec_data_start(s, h) as u64), ..d }),
                    )
                    &&& (forall|j: int|
                        0 <= j < old(self).shared.files@.len() && j != index
                            ==> final(self).shared.files@[j] == old(self).shared.files@[j])
                    &&& final(self).shared.files@[index as int].congruent(f.data)
                    &&& f.wrapped_reader.wf()
                    &&& f.wrapped_reader.releasable()
                    &&& f.wrapped_reader.source_data() == s
                    &&& f.wrapped_reader.window() == window
                    &&& f.wrapped_reader.stream() == spec_entry_stream(
                        d.compression_method,
                        window,
                    )
                    &&& f.wrapped_reader.decode_ok() == spec_entry_decode_ok(
                        d.compression_method,
                        window,
                    )
                    &&& f.wrapped_reader.delivered() == 0
                    &&& f.wrapped_reader.expected_crc() == d.crc32
                },
                Err(e) => {
                    &&& final(self).shared.files@ == old(self).shared.files@
                    &&& final(self).shared.names == old(self).shared.names
                    &&& (e is FileNotFound ==> index >= old(self).shared.files@.len()
                        && *final(self) == *old(self))
                    &&& (e == ZipError::Io(IoError::SourceNotAvailable) ==> index < old(
                        self,
                    ).shared.files@.len() && !old(self).has_source() && *final(self) == *old(self))
                    &&& (!(e is FileNotFound) && e != ZipError::Io(IoError::SourceNotAvailable)
                        ==> {
                        let d = old(self).shared.files@[index as int];
                        let s = old(self).source_bytes@;
                        let h = d.header_start as int;
                        &&& index < old(self).shared.files@.len()
                        &&& old(self).has_source()
                        &&& !final(self).has_source()
                        &&& (spec_local_header_ok(s, h) ==> (e
                            matches ZipError::UnsupportedArchive(m) && m@
                            == "Compression method not supported"@
                            && !ZipFileWrappedReader::handles(d)))
                        &&& (!spec_local_header_ok(s, h) ==> spec_find_content_err(s, h, e))
                    })
                },
            },
    {
        if index >= self.shared.files.len() {
            return Err(ZipError::FileNotFound);
        }
        let source = match self.reader.take() {
            Some(s) => s,
            None => {
                return Err(ZipError::Io(IoError::SourceNotAvailable));
            },
        };
        let mut data = self.shared.files[index].duplicate();
        proof {
            assert(data.congruent(old(self).shared.files@[index as int]));
        }
        let wrapped_reader = match get_reader(&mut data, source) {
            Ok(w) => w,
            Err(e) => {
                return Err(e);
            },
        };
        let stored = data.duplicate();
        self.shared.files.set(index, stored);
        proof {
            let nv = name_index_view(self.shared.names);
            assert forall|i: int| 0 <= i < self.shared.files@.len() implies nv.contains_key(
                #[trigger] self.shared.files@[i].file_name@,
            ) && nv[self.shared.files@[i].file_name@] == i by {
                assert(self.shared.files@[i].file_name@ == old(self).shared.files@[i].file_name@);
            }
            assert forall|n: Seq<char>| #[trigger] nv.contains_key(n) implies 0 <= nv[n]
                < self.shared.files@.len() && self.shared.files@[nv[n] as int].file_name@ == n by {
                assert(self.shared.files@[nv[n] as int].file_name@ == old(
                    self,
                ).shared.files@[nv[n] as int].file_name@);
            }
        }
        proof {
            let d = old(self).shared.files@[index as int];
            let sb = old(self).source_bytes@;
            let h = d.header_start as int;
            let window = spec_entry_window(sb, spec_data_start(sb, h), d.compressed_size);
            assert(spec_local_header_ok(sb, h));
            assert(data.congruent(
                (ZipFileData { data_start: (spec_data_start(sb, h) as u64), ..d }),
            ));
            assert(self.shared.files@[index as int].congruent(data));
            assert(wrapped_reader.wf());
            assert(wrapped_reader.source_data() == sb);
            assert(wrapped_reader.window() == window);
            assert(wrapped_reader.stream() == spec_entry_stream(d.compression_method, window));
            assert(wrapped_reader.decode_ok() == spec_entry_decode_ok(
                d.compression_method,
                window,
            ));
            assert(wrapped_reader.expected_crc() == d.crc32);
        }
        Ok(ZipFile { data, index, wrapped_reader })
    }

    /// Opens the entry with the given decoded name; a miss is
    /// `FileNotFound`.
    pub fn by_name(&mut self, name: &str) -> (r: ZipResult<ZipFile>)
        requires
            old(self).wf(),
        ensures
            final(self).wf(),
            final(self).source_bytes@ == old(self).source_bytes@,
            final(self).shared.files@.len() == old(self).shared.files@.len(),
            ({
                let nv = name_index_view(old(self).shared.names);
                nv.contains_key(name@) && old(self).has_source() && spec_local_header_ok(
                    old(self).source_bytes@,
                    old(self).shared.files@[nv[name@] as int].header_start as int,
                ) && ZipFileWrappedReader::handles(old(self).shared.files@[nv[name@] as int])
                    ==> r is Ok
            }),
            match r {
                Ok(f) => {
                    let nv = name_index_view(old(self).shared.names);
                    let i = nv[name@] as int;
                    let d = old(self).shared.files@[i];
                    let s = old(self).source_bytes@;
                    let h = d.header_start as int;
                    &&& nv.contains_key(name@)
                    &&& 0 <= i < old(self).shared.files@.len()
                    &&& f.index == i
                    &&& f.data.file_name@ == name@
                    &&& f.data.congruent(
                        (ZipFileData { data_start: (spec_data_start(s, h) as u64), ..d }),
                    )
                    &&& spec_local_header_ok(s, h)
                    &&& old(self).has_source()
                    &&& !final(self).has_source()
                    &&& f.wrapped_reader.wf()
                    &&& f.wrapped_reader.releasable()
                    &&& f.wrapped_reader.delivered() == 0
                    &&& f.wrapped_reader.expected_crc() == d.crc32
                    &&& f.wrapped_reader.source_data() == s
                    &&& f.wrapped_reader.window() == spec_entry_window(
                        s,
                        spec_data_start(s, h),
                        d.compressed_size,
                    )
                    &&& f.wrapped_reader.stream() == spec_entry_stream(
                        d.compression_method,
                        f.wrapped_reader.window(),
                    )
                },
                Err(e) => {
                    &&& (e is FileNotFound ==> *final(self) == *old(self) && !exists|i: int|
                        0 <= i < old(self).shared.files@.len() && old(
                            self,
                        ).shared.files@[i].file_name@ == name@)
                    &&& (e == ZipError::Io(IoError::SourceNotAvailable) ==> *final(self) == *old(
                        self,
                    ) && !old(self).has_source())
                    &&& (!(e is FileNotFound) && e != ZipError::Io(IoError::SourceNotAvailable)
                        ==> {
                        let nv = name_index_view(old(self).shared.names);
                        let d = old(self).shared.files@[nv[name@] as int];
                        let s = old(self).source_bytes@;
                        let h = d.header_start as int;
                        &&& nv.contains_key(name@)
                        &&& old(self).has_source()
                        &&& !final(self).has_source()
                        &&& (spec_local_header_ok(s, h) ==> (e
                            matches ZipError::UnsupportedArchive(m) && m@
                            == "Compression method not supported"@
                            && !ZipFileWrappedReader::handles(d)))
                        &&& (!spec_local_header_ok(s, h) ==> spec_find_content_err(s, h, e))
                    })
                },
            },
    {
        let index = match name_index_get(&self.shared.names, name) {
            Some(i) => i,
            None => {
                proof {
                    if exists|i: int|
                        0 <= i < self.shared.files@.len() && self.shared.files@[i].file_name@
                            == name@ {
                        let i = choose|i: int|
                            0 <= i < self.shared.files@.len() && self.shared.files@[i].file_name@
                                == name@;
                        assert(name_index_view(self.shared.names).contains_key(
                            self.shared.files@[i].file_name@,
                        ));
                    }
                }
                return Err(ZipError::FileNotFound);
            },
        };
        self.by_index(index)
    }

    /// Puts the source back in the slot when an entry reader is done; the
    /// rest of the entry's payload, if any, is simply discarded.
    pub fn close_entry(&mut self, file: ZipFile)
        requires
            old(self).wf(),
            file.wrapped_reader.wf(),
            file.wrapped_reader.releasable(),
            file.wrapped_reader.source_data() == old(self).source_bytes@,
        ensures
            final(self).wf(),
            final(self).has_source(),
            final(self).shared == old(self).shared,
            final(self).source_bytes@ == old(self).source_bytes@,
    {
        let limiter = file.wrapped_reader.into_inner();
        let source = limiter.into_inner();
        self.reader = Some(source);
    }
}

/// The first `n` names of `files` are exactly `out`, in order.
pub open spec fn r_names_prefix(out: Seq<String>, files: Seq<ZipFileData>, n: int) -> bool {
    out.len() == n && forall|i: int| 0 <= i < n ==> #[trigger] out[i]@ == files[i].file_name@
}

/// The comment length the end-of-central-directory record at `p` yields:
/// the declared length, clamped to the bytes the data still holds.
pub open spec fn spec_comment_len(s: Seq<u8>, p: int) -> int {
    if p + 22 + le16(s, p + 20) <= s.len() {
        le16(s, p + 20) as int
    } else {
        s.len() - (p + 22)
    }
}

/// Whether the record at `p` carries the all-sentinel field values.
pub open spec fn spec_record_too_small_at(s: Seq<u8>, p: int) -> bool {
    &&& le16(s, p + 4) == 0xffff
    &&& le16(s, p + 6) == 0xffff
    &&& le16(s, p + 8) == 0xffff
    &&& le16(s, p + 10) == 0xffff
    &&& le32(s, p + 12) == 0xffffffff
    &&& le32(s, p + 16) == 0xffffffff
}

/// What resolving the trailer at `p` yields: the archive's base-offset
/// shift, the absolute start of the central directory, and the number of
/// entries — through the ZIP64 locator and record when the locator's
/// signature stands at its expected place, and the classic record alone
/// otherwise.
pub open spec fn spec_counts_at(s: Seq<u8>, p: int) -> Result<(u64, u64, u64), ZipError> {
    let clen = spec_comment_len(s, p);
    let lp = s.len() - 42 - clen;
    let has_locator = lp >= 0 && le32(s, lp) == ZIP64_CENTRAL_DIRECTORY_END_LOCATOR_SIGNATURE;
    if !has_locator {
        let shift = p - le32(s, p + 12) - le32(s, p + 16);
        if shift < 0 {
            Err(ZipError::InvalidArchive("Invalid central directory size or offset"))
        } else {
            Ok(((shift as u64), ((le32(s, p + 16) + shift) as u64), (le16(s, p + 8) as u64)))
        }
    } else {
        let nominal = le64(s, lp + 8);
        if !spec_record_too_small_at(s, p) && le16(s, p + 4) as u32 != le32(s, lp + 4) {
            Err(ZipError::UnsupportedArchive("Support for multi-disk files is not implemented"))
        } else if p < 60 {
            Err(ZipError::InvalidArchive("File cannot contain ZIP64 central directory end"))
        } else {
            match spec_scan_zip64(s, nominal as int, p - 60) {
                Err(io) => if io {
                    Err(ZipError::Io(IoError::UnexpectedEof))
                } else {
                    Err(ZipError::InvalidArchive("Could not find ZIP64 central directory end"))
                },
                Ok(q) => {
                    let shift = q - nominal;
                    if le32(s, q + 16) != le32(s, q + 20) {
                        Err(
                            ZipError::UnsupportedArchive(
                                "Support for multi-disk files is not implemented",
                            ),
                        )
                    } else if le64(s, q + 48) + shift > u64::MAX {
                        Err(ZipError::InvalidArchive("Invalid central directory size or offset"))
                    } else {
                        Ok(((shift as u64), ((le64(s, q + 48) + shift) as u64), le64(s, q + 32)))
                    }
                },
            }
        }
    }
}

/// Where the central header of entry `i` stands, when the directory starts
/// at `d`: each header follows the previous one's variable-length tail.
pub open spec fn spec_next_header(s: Seq<u8>, p: int) -> int {
    p + 46 + le16(s, p + 28) + le16(s, p + 30) + le16(s, p + 32)
}

/// The position of the `i`-th central header of a directory starting at `d`.
pub open spec fn spec_entry_pos(s: Seq<u8>, d: int, i: int) -> int
    decreases i,
{
    if i <= 0 {
        d
    } else {
        spec_next_header(s, spec_entry_pos(s, d, i - 1))
    }
}

/// Every one of the `n` entries parsed from the directory starting at `d`
/// holds exactly what its central header declares.
pub open spec fn spec_entries_ok(
    s: Seq<u8>,
    d: int,
    n: int,
    off: u64,
    files: Seq<ZipFileData>,
) -> bool {
    &&& files.len() == n
    &&& forall|i: int|
        0 <= i < n ==> spec_central_file_ok(s, spec_entry_pos(s, d, i), off, #[trigger] files[i])
}

/// The end-of-central-directory signature stands at `p`, inside the trailer
/// search window, and at no later position of the window: `p` is where the
/// backward scan stops.
pub open spec fn spec_eocd_found_at(s: Seq<u8>, p: int) -> bool {
    let top = s.len() - 22;
    let lower = if top >= 65536 {
        top - 65536
    } else {
        0
    };
    &&& s.len() >= 22
    &&& lower <= p <= top
    &&& le32(s, p) == CENTRAL_DIRECTORY_END_SIGNATURE
    &&& (forall|q: int| p < q <= top ==> le32(s, q) != CENTRAL_DIRECTORY_END_SIGNATURE)
}

/// The backward scan stops at one place only.
pub proof fn lemma_eocd_found_unique(s: Seq<u8>, p1: int, p2: int)
    requires
        spec_eocd_found_at(s, p1),
        spec_eocd_found_at(s, p2),
    ensures
        p1 == p2,
{
    if p1 < p2 {
        assert(le32(s, p2) != CENTRAL_DIRECTORY_END_SIGNATURE);
    }
    if p2 < p1 {
        assert(le32(s, p1) != CENTRAL_DIRECTORY_END_SIGNATURE);
    }
}

/// The record at `p` names two different disks without carrying the
/// all-sentinel marker: a multi-disk archive.
pub open spec fn spec_multi_disk_at(s: Seq<u8>, p: int) -> bool {
    !spec_record_too_small_at(s, p) && le16(s, p + 4) != le16(s, p + 6)
}

/// The decoded filename that the central header at `p` declares.
pub open spec fn spec_entry_name(s: Seq<u8>, p: int) -> Seq<char> {
    spec_decode_text(s.subrange(p + 46, p + 46 + le16(s, p + 28)), le16(s, p + 8) & 0x800 != 0)
}

/// The local-header offset the central header at `p` resolves to through its
/// extra field, before the base shift is added.
pub open spec fn spec_entry_raw_offset(s: Seq<u8>, p: int) -> u64 {
    let nlen = le16(s, p + 28) as int;
    let elen = le16(s, p + 30) as int;
    let extra = s.subrange(p + 46 + nlen, p + 46 + nlen + elen);
    spec_extra_scan(extra, 0, spec_central_init_state(s, p)).0.header_start
}

/// The base-offset shift the trailer at `p` resolves to.
pub open spec fn spec_open_off(s: Seq<u8>, p: int) -> u64 {
    spec_counts_at(s, p)->Ok_0.0
}

/// The directory start the trailer at `p` resolves to.
pub open spec fn spec_open_dir(s: Seq<u8>, p: int) -> int {
    spec_counts_at(s, p)->Ok_0.1 as int
}

/// The entry count the trailer at `p` resolves to.
pub open spec fn spec_open_count(s: Seq<u8>, p: int) -> int {
    spec_counts_at(s, p)->Ok_0.2 as int
}

/// Where the `i`-th central header stands under the trailer at `p`.
pub open spec fn spec_open_entry_pos(s: Seq<u8>, p: int, i: int) -> int {
    spec_entry_pos(s, spec_open_dir(s, p), i)
}

/// The bytes hold an archive that opens: a locatable single-disk trailer,
/// resolvable counts, every declared central header parses, and no two
/// entries share a decoded filename.
pub open spec fn spec_open_ok(s: Seq<u8>, p: int) -> bool {
    &&& spec_eocd_found_at(s, p)
    &&& !spec_multi_disk_at(s, p)
    &&& spec_counts_at(s, p) is Ok
    &&& (forall|i: int|
        0 <= i < spec_open_count(s, p) ==> spec_central_parses(
            s,
            #[trigger] spec_open_entry_pos(s, p, i),
            spec_open_off(s, p),
        ))
    &&& (forall|i: int, j: int|
        0 <= i < j < spec_open_count(s, p) ==> spec_entry_name(
            s,
            #[trigger] spec_open_entry_pos(s, p, i),
        ) != spec_entry_name(s, #[trigger] spec_open_entry_pos(s, p, j)))
}

/// The bytes hold an archive whose trailer and headers all resolve, but
/// whose central directory declares two entries with the same decoded
/// filename.
pub open spec fn spec_open_duplicate(s: Seq<u8>, p: int) -> bool {
    &&& spec_eocd_found_at(s, p)
    &&& !spec_multi_disk_at(s, p)
    &&& spec_counts_at(s, p) is Ok
    &&& (forall|i: int|
        0 <= i < spec_open_count(s, p) ==> spec_central_parses(
            s,
            #[trigger] spec_open_entry_pos(s, p, i),
            spec_open_off(s, p),
        ))
    &&& (exists|i: int, j: int|
        0 <= i < j < spec_open_count(s, p) && spec_entry_name(
            s,
            #[trigger] spec_open_entry_pos(s, p, i),
        ) == spec_entry_name(s, #[trigger] spec_open_entry_pos(s, p, j)))
}

/// Entry `ii` is the first declared central header that fails to parse
/// under the trailer at `p`: every earlier one parses, and no two earlier
/// ones share a decoded filename — so the parse stops exactly there.
pub open spec fn spec_open_first_bad_header(s: Seq<u8>, p: int, ii: int) -> bool {
    &&& spec_eocd_found_at(s, p)
    &&& !spec_multi_disk_at(s, p)
    &&& spec_counts_at(s, p) is Ok
    &&& 0 <= ii < spec_open_count(s, p)
    &&& !spec_central_parses(s, spec_open_entry_pos(s, p, ii), spec_open_off(s, p))
    &&& (forall|j: int|
        0 <= j < ii ==> spec_central_parses(
            s,
            #[trigger] spec_open_entry_pos(s, p, j),
            spec_open_off(s, p),
        ))
    &&& (forall|j1: int, j2: int|
        0 <= j1 < j2 < ii ==> spec_entry_name(
            s,
            #[trigger] spec_open_entry_pos(s, p, j1),
        ) != spec_entry_name(s, #[trigger] spec_open_entry_pos(s, p, j2)))
}

/// Whether `a` is the archive that the bytes `s` parse to, with the
/// end-of-central-directory record found at `p`: the record is the one
/// nearest the end of the trailer window, the trailer resolves to the
/// base-offset shift and directory start, and every entry matches its
/// central header.
pub open spec fn spec_archive_at(s: Seq<u8>, p: int, a: ZipArchive) -> bool {
    &&& spec_eocd_found_at(s, p)
    &&& !spec_multi_disk_at(s, p)
    &&& (spec_counts_at(s, p) matches Ok(t) && {
        &&& a.shared.offset == t.0
        &&& spec_entries_ok(s, t.1 as int, t.2 as int, t.0, a.shared.files@)
    })
    &&& a.shared.comment@ == s.subrange(p + 22, p + 22 + spec_comment_len(s, p))
}

/// An entry's parsed filename is the one its central header declares.
proof fn lemma_file_name_is_entry_name(s: Seq<u8>, p: int, off: u64, f: ZipFileData)
    requires
        spec_central_file_ok(s, p, off, f),
    ensures
        f.file_name@ == spec_entry_name(s, p),
{
}

/// A central header that parsed into an entry parses.
proof fn lemma_file_ok_parses(s: Seq<u8>, p: int, off: u64, f: ZipFileData)
    requires
        spec_central_file_ok(s, p, off, f),
    ensures
        spec_central_parses(s, p, off),
{
}

/// When the first `i` headers parse with the `i`-th failing, the one
/// position-and-index pair that fits the first-bad description is this one.
#[verifier::rlimit(100)]
#[verifier::spinoff_prover]
proof fn lemma_new_first_bad_is_here(
    s: Seq<u8>,
    cde: int,
    off: u64,
    dir: u64,
    n: u64,
    i: int,
    files: Seq<ZipFileData>,
)
    requires
        spec_eocd_found_at(s, cde),
        !spec_multi_disk_at(s, cde),
        spec_counts_at(s, cde) == Ok::<(u64, u64, u64), ZipError>((off, dir, n)),
        0 <= i < n,
        spec_entries_ok(s, dir as int, i, off, files),
        !spec_central_parses(s, spec_entry_pos(s, dir as int, i), off),
    ensures
        forall|pp: int, ii: int|
            spec_open_first_bad_header(s, pp, ii) ==> pp == cde && ii == i,
{
    assert forall|pp: int, ii: int|
        spec_open_first_bad_header(s, pp, ii) implies pp == cde && ii == i by {
        lemma_eocd_found_unique(s, pp, cde);
        assert(spec_counts_at(s, pp)->Ok_0 == (off, dir, n));
        assert(spec_open_entry_pos(s, pp, ii) == spec_entry_pos(s, dir as int, ii));
        if ii < i {
            assert(spec_central_file_ok(s, spec_entry_pos(s, dir as int, ii), off, files[ii]));
            lemma_file_ok_parses(s, spec_entry_pos(s, dir as int, ii), off, files[ii]);
        }
        if ii > i {
            assert(spec_open_entry_pos(s, pp, i) == spec_entry_pos(s, dir as int, i));
            assert(spec_central_parses(s, spec_open_entry_pos(s, pp, i), spec_open_off(s, pp)));
        }
    }
}

/// When one declared central header does not parse, no trailer position
/// satisfies the open-success or duplicate-name descriptions, and none is a
/// multi-disk trailer.
#[verifier::rlimit(100)]
#[verifier::spinoff_prover]
proof fn lemma_new_central_err_excludes(
    s: Seq<u8>,
    cde: int,
    off: u64,
    dir: u64,
    n: u64,
    i: int,
    p_i: int,
)
    requires
        spec_eocd_found_at(s, cde),
        !spec_multi_disk_at(s, cde),
        spec_counts_at(s, cde) == Ok::<(u64, u64, u64), ZipError>((off, dir, n)),
        0 <= i < n,
        p_i == spec_entry_pos(s, dir as int, i),
        !spec_central_parses(s, p_i, off),
    ensures
        forall|pp: int|
            !spec_open_ok(s, pp) && !spec_open_duplicate(s, pp) && !(spec_eocd_found_at(s, pp)
                && spec_multi_disk_at(s, pp)),
{
    assert forall|pp: int|
        !spec_open_ok(s, pp) && !spec_open_duplicate(s, pp) && !(spec_eocd_found_at(s, pp)
            && spec_multi_disk_at(s, pp)) by {
        if spec_eocd_found_at(s, pp) {
            lemma_eocd_found_unique(s, pp, cde);
            assert(spec_counts_at(s, pp)->Ok_0 == (off, dir, n));
            assert(spec_open_entry_pos(s, pp, i) == spec_entry_pos(s, dir as int, i));
            if spec_open_ok(s, pp) {
                assert(spec_central_parses(s, spec_open_entry_pos(s, pp, i), spec_open_off(
                    s,
                    pp,
                )));
            }
            if spec_open_duplicate(s, pp) {
                assert(spec_central_parses(s, spec_open_entry_pos(s, pp, i), spec_open_off(
                    s,
                    pp,
                )));
            }
        }
    }
}

/// When two declared central headers carry the same decoded filename, no
/// trailer position satisfies the open-success or first-bad-header
/// descriptions, and none is a multi-disk trailer.
#[verifier::rlimit(100)]
#[verifier::spinoff_prover]
proof fn lemma_new_duplicate_excludes(
    s: Seq<u8>,
    cde: int,
    off: u64,
    dir: u64,
    n: u64,
    i: int,
    j: int,
    files: Seq<ZipFileData>,
    f: ZipFileData,
)
    requires
        spec_eocd_found_at(s, cde),
        !spec_multi_disk_at(s, cde),
        spec_counts_at(s, cde) == Ok::<(u64, u64, u64), ZipError>((off, dir, n)),
        0 <= j < i < n,
        spec_entries_ok(s, dir as int, i, off, files),
        spec_central_file_ok(s, spec_entry_pos(s, dir as int, i), off, f),
        spec_entry_name(s, spec_entry_pos(s, dir as int, j)) == spec_entry_name(
            s,
            spec_entry_pos(s, dir as int, i),
        ),
    ensures
        forall|pp: int|
            !spec_open_ok(s, pp) && !(spec_eocd_found_at(s, pp) && spec_multi_disk_at(s, pp)),
        forall|pp: int, ii: int| !spec_open_first_bad_header(s, pp, ii),
{
    assert forall|pp: int|
        !spec_open_ok(s, pp) && !(spec_eocd_found_at(s, pp) && spec_multi_disk_at(s, pp)) by {
        if spec_eocd_found_at(s, pp) {
            lemma_eocd_found_unique(s, pp, cde);
            assert(spec_counts_at(s, pp)->Ok_0 == (off, dir, n));
            assert(spec_open_entry_pos(s, pp, i) == spec_entry_pos(s, dir as int, i));
            assert(spec_open_entry_pos(s, pp, j) == spec_entry_pos(s, dir as int, j));
            if spec_open_ok(s, pp) {
                assert(spec_entry_name(s, spec_open_entry_pos(s, pp, j)) != spec_entry_name(
                    s,
                    spec_open_entry_pos(s, pp, i),
                ));
            }
        }
    }
    assert forall|pp: int, ii: int| !spec_open_first_bad_header(s, pp, ii) by {
        if spec_open_first_bad_header(s, pp, ii) {
            lemma_eocd_found_unique(s, pp, cde);
            assert(spec_counts_at(s, pp)->Ok_0 == (off, dir, n));
            assert(spec_open_entry_pos(s, pp, ii) == spec_entry_pos(s, dir as int, ii));
            if ii <= i {
                if ii < i {
                    assert(spec_central_file_ok(
                        s,
                        spec_entry_pos(s, dir as int, ii),
                        off,
                        files[ii],
                    ));
                    lemma_file_ok_parses(s, spec_entry_pos(s, dir as int, ii), off, files[ii]);
                } else {
                    lemma_file_ok_parses(s, spec_entry_pos(s, dir as int, i), off, f);
                }
            } else {
                assert(spec_open_entry_pos(s, pp, i) == spec_entry_pos(s, dir as int, i));
                assert(spec_open_entry_pos(s, pp, j) == spec_entry_pos(s, dir as int, j));
                assert(spec_entry_name(s, spec_open_entry_pos(s, pp, j)) != spec_entry_name(
                    s,
                    spec_open_entry_pos(s, pp, i),
                ));
            }
        }
    }
}

impl ZipArchive {
    /// Resolves the trailer: probes for a ZIP64 locator just before the
    /// end-of-central-directory record, and computes the base-offset shift,
    /// the directory start, and the entry count from whichever record set is
    /// present.
    pub(crate) fn get_directory_counts(
        data: &Vec<u8>,
        footer: &CentralDirectoryEnd,
        cde_start_pos: u64,
    ) -> (r: ZipResult<(u64, u64, u64)>)
        requires
            spec_eocd_at(data@, cde_start_pos as int, *footer),
            cde_start_pos + 22 <= data@.len(),
        ensures
            match r {
                Ok(t) => spec_counts_at(data@, cde_start_pos as int) == Ok::<(u64, u64, u64),
                    ZipError>(t),
                Err(e) => spec_counts_at(data@, cde_start_pos as int) matches Err(e2)
                    && spec_same_error(e, e2),
            },
    {
        let len: u64 = data.len() as u64;
        let clen: u64 = footer.zip_file_comment.len() as u64;
        let zip64locator: Option<Zip64CentralDirectoryEndLocator> = if len >= 42 && len - 42
            >= clen {
            match Zip64CentralDirectoryEndLocator::parse(data, len - 42 - clen) {
                Ok(loc) => Some(loc),
                Err(ZipError::InvalidArchive(_)) => None,
                Err(e) => {
                    proof {
                        assert(false);
                    }
                    return Err(e);
                },
            }
        } else {
            None
        };
        match zip64locator {
            None => {
                let size = footer.central_directory_size as u64;
                let offt = footer.central_directory_offset as u64;
                if cde_start_pos < size || cde_start_pos - size < offt {
                    return Err(ZipError::InvalidArchive("Invalid central directory size or offset"));
                }
                let archive_offset = cde_start_pos - size - offt;
                let directory_start = offt + archive_offset;
                let number_of_files = footer.number_of_files_on_this_disk as u64;
                Ok((archive_offset, directory_start, number_of_files))
            },
            Some(locator64) => {
                if !footer.record_too_small() && footer.disk_number as u32
                    != locator64.disk_with_central_directory {
                    return Err(
                        ZipError::UnsupportedArchive(
                            "Support for multi-disk files is not implemented",
                        ),
                    );
                }
                if cde_start_pos < 60 {
                    return Err(
                        ZipError::InvalidArchive("File cannot contain ZIP64 central directory end"),
                    );
                }
                let search_upper_bound = cde_start_pos - 60;
                let (footer64, archive_offset) = match Zip64CentralDirectoryEnd::find_and_parse(
                    data,
                    locator64.end_of_central_directory_offset,
                    search_upper_bound,
                ) {
                    Ok(t) => t,
                    Err(e) => {
                        return Err(e);
                    },
                };
                if footer64.disk_number != footer64.disk_with_central_directory {
                    return Err(
                        ZipError::UnsupportedArchive(
                            "Support for multi-disk files is not implemented",
                        ),
                    );
                }
                if footer64.central_directory_offset > u64::MAX - archive_offset {
                    return Err(ZipError::InvalidArchive("Invalid central directory size or offset"));
                }
                let directory_start = footer64.central_directory_offset + archive_offset;
                Ok((archive_offset, directory_start, footer64.number_of_files))
            },
        }
    }

    /// Opens an archive: locates and parses the whole central directory,
    /// rejects duplicate filenames and multi-disk archives, and installs the
    /// source in the slot. Any byte buffer may be given: a malformed archive
    /// is an error, never a panic.
    #[verifier::rlimit(100)]
    #[verifier::spinoff_prover]
    pub fn new(source: ZipSource) -> (r: ZipResult<ZipArchive>)
        ensures
            (exists|p: int| spec_open_ok(source.data@, p)) ==> r is Ok,
            match r {
                Ok(a) => {
                    &&& a.wf()
                    &&& a.has_source()
                    &&& a.source_bytes@ == source.data@
                    &&& exists|p: int| spec_archive_at(source.data@, p, a)
                },
                Err(e) => {
                    &&& !(e is FileNotFound)
                    &&& !(e is InvalidPassword)
                    &&& (source.data@.len() < 22 ==> (e matches ZipError::InvalidArchive(m) && m@
                        == "Invalid zip header"@))
                    &&& ((exists|p: int|
                        spec_eocd_found_at(source.data@, p) && spec_multi_disk_at(
                            source.data@,
                            p,
                        )) ==> (e matches ZipError::UnsupportedArchive(m2) && m2@
                        == "Support for multi-disk files is not implemented"@))
                    &&& ((exists|p: int| spec_open_duplicate(source.data@, p)) ==> (e
                        matches ZipError::InvalidArchive(m3) && m3@ == "Duplicate filename"@))
                    &&& (forall|p: int, ii: int|
                        spec_open_first_bad_header(source.data@, p, ii) ==> spec_central_err(
                            source.data@,
                            spec_open_entry_pos(source.data@, p, ii),
                            spec_open_off(source.data@, p),
                            e,
                        ))
                },
            },
    {
        let (footer, cde_start_pos) = match CentralDirectoryEnd::find_and_parse(&source.data) {
            Ok(t) => t,
            Err(e) => {
                proof {
                    let s = source.data@;
                    assert forall|pp: int| !spec_eocd_found_at(s, pp) by {
                        if spec_eocd_found_at(s, pp) {
                            assert(le32(s, pp) != CENTRAL_DIRECTORY_END_SIGNATURE);
                        }
                    }
                }
                return Err(e);
            },
        };
        proof {
            let s = source.data@;
            assert(spec_eocd_found_at(s, cde_start_pos as int));
            assert(spec_record_too_small_at(s, cde_start_pos as int) == spec_record_too_small(
                footer,
            ));
        }
        if !footer.record_too_small() && footer.disk_number != footer.disk_with_central_directory {
            proof {
                let s = source.data@;
                assert(spec_multi_disk_at(s, cde_start_pos as int));
                assert forall|pp: int|
                    !spec_open_ok(s, pp) && !spec_open_duplicate(s, pp) by {
                    if spec_eocd_found_at(s, pp) {
                        lemma_eocd_found_unique(s, pp, cde_start_pos as int);
                    }
                }
                assert forall|pp: int, ii: int| !spec_open_first_bad_header(s, pp, ii) by {
                    if spec_open_first_bad_header(s, pp, ii) {
                        lemma_eocd_found_unique(s, pp, cde_start_pos as int);
                    }
                }
            }
            return Err(
                ZipError::UnsupportedArchive("Support for multi-disk files is not implemented"),
            );
        }
        proof {
            assert(!spec_multi_disk_at(source.data@, cde_start_pos as int));
        }
        let (archive_offset, directory_start, number_of_files) = match Self::get_directory_counts(
            &source.data,
            &footer,
            cde_start_pos,
        ) {
            Ok(t) => t,
            Err(e) => {
                proof {
                    let s = source.data@;
                    assert forall|pp: int|
                        !spec_open_ok(s, pp) && !spec_open_duplicate(s, pp) && !(
                        spec_eocd_found_at(s, pp) && spec_multi_disk_at(s, pp)) by {
                        if spec_eocd_found_at(s, pp) {
                            lemma_eocd_found_unique(s, pp, cde_start_pos as int);
                        }
                    }
                    assert forall|pp: int, ii: int|
                        !spec_open_first_bad_header(s, pp, ii) by {
                        if spec_open_first_bad_header(s, pp, ii) {
                            lemma_eocd_found_unique(s, pp, cde_start_pos as int);
                        }
                    }
                }
                return Err(e);
            },
        };

        let dl: usize = source.data.len();
        let file_capacity: usize = if number_of_files > cde_start_pos {
            0
        } else {
            proof {
                assert(number_of_files <= cde_start_pos <= dl);
            }
            number_of_files as usize
        };

        let mut files: Vec<ZipFileData> = Vec::with_capacity(file_capacity);
        let mut names = name_index_with_capacity(file_capacity);

        let mut pos: u64 = directory_start;
        let mut i: u64 = 0;
        while i < number_of_files
            invariant
                source.data@.len() >= 22,
                spec_eocd_found_at(source.data@, cde_start_pos as int),
                !spec_multi_disk_at(source.data@, cde_start_pos as int),
                spec_counts_at(source.data@, cde_start_pos as int) == Ok::<(u64, u64, u64),
                    ZipError>((archive_offset, directory_start, number_of_files)),
                i <= number_of_files,
                files@.len() == i,
                pos == spec_entry_pos(source.data@, directory_start as int, i as int),
                spec_entries_ok(
                    source.data@,
                    directory_start as int,
                    i as int,
                    archive_offset,
                    files@,
                ),
                forall|j: int|
                    0 <= j < files@.len() ==> name_index_view(names).contains_key(
                        #[trigger] files@[j].file_name@,
                    ) && name_index_view(names)[files@[j].file_name@] == j,
                forall|n: Seq<char>|
                    #[trigger] name_index_view(names).contains_key(n) ==> 0 <= name_index_view(
                        names,
                    )[n] < files@.len() && files@[name_index_view(names)[n] as int].file_name@
                        == n,
            decreases number_of_files - i,
        {
            let ghost p_i = pos as int;
            let file = match central_header_to_zip_file(&source.data, &mut pos, archive_offset) {
                Ok(f) => f,
                Err(e) => {
                    proof {
                        let s = source.data@;
                        let nlen = le16(s, p_i + 28) as int;
                        let elen = le16(s, p_i + 30) as int;
                        lemma_extra_scan_error_shape(
                            s.subrange(p_i + 46 + nlen, p_i + 46 + nlen + elen),
                            0,
                            spec_central_init_state(s, p_i),
                        );
                        assert(!spec_central_parses(s, p_i, archive_offset));
                        lemma_new_central_err_excludes(
                            s,
                            cde_start_pos as int,
                            archive_offset,
                            directory_start,
                            number_of_files,
                            i as int,
                            p_i,
                        );
                        lemma_new_first_bad_is_here(
                            s,
                            cde_start_pos as int,
                            archive_offset,
                            directory_start,
                            number_of_files,
                            i as int,
                            files@,
                        );
                        assert(spec_counts_at(s, cde_start_pos as int)->Ok_0 == (
                            archive_offset,
                            directory_start,
                            number_of_files,
                        ));
                        assert(spec_open_entry_pos(s, cde_start_pos as int, i as int) == p_i);
                        assert(spec_open_off(s, cde_start_pos as int) == archive_offset);
                    }
                    return Err(e);
                },
            };
            let old_value = name_index_insert(&mut names, file.file_name.clone(), files.len());
            if old_value.is_some() {
                proof {
                    let s = source.data@;
                    let j = old_value->Some_0 as int;
                    assert(0 <= j < files@.len() && files@[j].file_name@ == file.file_name@);
                    lemma_file_name_is_entry_name(
                        s,
                        spec_entry_pos(s, directory_start as int, j),
                        archive_offset,
                        files@[j],
                    );
                    lemma_file_name_is_entry_name(s, p_i, archive_offset, file);
                    assert(spec_entry_pos(s, directory_start as int, i as int) == p_i);
                    lemma_new_duplicate_excludes(
                        s,
                        cde_start_pos as int,
                        archive_offset,
                        directory_start,
                        number_of_files,
                        i as int,
                        j,
                        files@,
                        file,
                    );
                }
                return Err(ZipError::InvalidArchive("Duplicate filename"));
            }
            proof {
                assert(spec_entry_pos(source.data@, directory_start as int, i as int + 1)
                    == spec_next_header(
                    source.data@,
                    spec_entry_pos(source.data@, directory_start as int, i as int),
                ));
            }
            files.push(file);
            i = i + 1;
        }

        let comment = footer.zip_file_comment;
        let ghost source_view = source.data@;
        let archive = ZipArchive {
            reader: Some(source),
            shared: Shared { files, names, offset: archive_offset, comment },
            source_bytes: Ghost(source_view),
        };
        proof {
            assert(spec_archive_at(source_view, cde_start_pos as int, archive));
        }
        Ok(archive)
    }
}

} // verus!
