//! Archive-level laws: facts that relate whole parses to each other.

use vstd::prelude::*;

use crate::central::{
    spec_central_file_ok, spec_central_init_state, spec_extra_scan, ExtraState,
};
use crate::central::spec_central_parses;
use crate::result::ZipError;
use crate::read::{
    spec_archive_at, spec_comment_len, spec_counts_at, spec_data_start, spec_entries_ok,
    spec_entry_name, spec_entry_pos, spec_entry_raw_offset, spec_entry_stream,
    spec_entry_window, spec_eocd_found_at, spec_local_header_ok, spec_multi_disk_at,
    spec_next_header, spec_open_count, spec_open_entry_pos, spec_open_off, spec_open_ok,
    ZipArchive,
};
use crate::wire::CENTRAL_DIRECTORY_END_SIGNATURE;
use crate::types::ZipFileData;
use crate::wire::{le16, le32, le64, ZIP64_CENTRAL_DIRECTORY_END_LOCATOR_SIGNATURE};

verus! {

/// A 16-bit read shifts with its data: prepending bytes moves it whole.
proof fn lemma_le16_shift(junk: Seq<u8>, s: Seq<u8>, i: int)
    requires
        0 <= i,
        i + 2 <= s.len(),
    ensures
        le16(junk + s, junk.len() + i) == le16(s, i),
{
    assert((junk + s)[junk.len() + i] == s[i]);
    assert((junk + s)[junk.len() + i + 1] == s[i + 1]);
}

/// A 32-bit read shifts with its data.
proof fn lemma_le32_shift(junk: Seq<u8>, s: Seq<u8>, i: int)
    requires
        0 <= i,
        i + 4 <= s.len(),
    ensures
        le32(junk + s, junk.len() + i) == le32(s, i),
{
    lemma_le16_shift(junk, s, i);
    lemma_le16_shift(junk, s, i + 2);
}

/// A 64-bit read shifts with its data.
proof fn lemma_le64_shift(junk: Seq<u8>, s: Seq<u8>, i: int)
    requires
        0 <= i,
        i + 8 <= s.len(),
    ensures
        le64(junk + s, junk.len() + i) == le64(s, i),
{
    lemma_le32_shift(junk, s, i);
    lemma_le32_shift(junk, s, i + 4);
}

/// A byte run shifts with its data.
proof fn lemma_subrange_shift(junk: Seq<u8>, s: Seq<u8>, a: int, b: int)
    requires
        0 <= a <= b <= s.len(),
    ensures
        (junk + s).subrange(junk.len() + a, junk.len() + b) == s.subrange(a, b),
{
    assert((junk + s).subrange(junk.len() + a, junk.len() + b) =~= s.subrange(a, b));
}

/// An entry parsed at the shifted position of shifted data holds the same
/// declared values, with only its local-header offset moved by the shift.
proof fn lemma_central_shift(
    junk: Seq<u8>,
    s: Seq<u8>,
    pos: int,
    off: u64,
    off2: u64,
    f: ZipFileData,
    g: ZipFileData,
)
    requires
        0 <= pos,
        spec_central_file_ok(s, pos, off, f),
        spec_central_file_ok(junk + s, junk.len() + pos, off2, g),
        off2 == off + junk.len(),
    ensures
        g.file_name@ == f.file_name@,
        g.file_name_raw@ == f.file_name_raw@,
        g.file_comment@ == f.file_comment@,
        g.extra_field@ == f.extra_field@,
        g.crc32 == f.crc32,
        g.compressed_size == f.compressed_size,
        g.uncompressed_size == f.uncompressed_size,
        g.compression_method == f.compression_method,
        g.aes_mode == f.aes_mode,
        g.large_file == f.large_file,
        g.encrypted == f.encrypted,
        g.is_utf8 == f.is_utf8,
        g.last_modified_time == f.last_modified_time,
        g.external_attributes == f.external_attributes,
        g.header_start == f.header_start + junk.len(),
{
    let k = junk.len() as int;
    let s2 = junk + s;
    let nlen = le16(s, pos + 28) as int;
    let elen = le16(s, pos + 30) as int;
    let clen = le16(s, pos + 32) as int;
    lemma_le16_shift(junk, s, pos + 4);
    lemma_le16_shift(junk, s, pos + 8);
    lemma_le16_shift(junk, s, pos + 10);
    lemma_le16_shift(junk, s, pos + 12);
    lemma_le16_shift(junk, s, pos + 14);
    lemma_le32_shift(junk, s, pos + 16);
    lemma_le32_shift(junk, s, pos + 20);
    lemma_le32_shift(junk, s, pos + 24);
    lemma_le16_shift(junk, s, pos + 28);
    lemma_le16_shift(junk, s, pos + 30);
    lemma_le16_shift(junk, s, pos + 32);
    lemma_le32_shift(junk, s, pos + 38);
    lemma_le32_shift(junk, s, pos + 42);
    lemma_subrange_shift(junk, s, pos + 46, pos + 46 + nlen);
    lemma_subrange_shift(junk, s, pos + 46 + nlen, pos + 46 + nlen + elen);
    lemma_subrange_shift(junk, s, pos + 46 + nlen + elen, pos + 46 + nlen + elen + clen);
    assert(spec_central_init_state(s2, k + pos) == spec_central_init_state(s, pos));
}

/// The chain of entry header positions shifts whole with its data.
proof fn lemma_entry_pos_shift(
    junk: Seq<u8>,
    s: Seq<u8>,
    d: int,
    i: int,
    n: int,
    off: u64,
    files: Seq<ZipFileData>,
)
    requires
        0 <= d,
        0 <= i <= n,
        spec_entries_ok(s, d, n, off, files),
    ensures
        spec_entry_pos(junk + s, junk.len() + d, i) == junk.len() + spec_entry_pos(s, d, i),
        spec_entry_pos(s, d, i) >= d,
    decreases i,
{
    if i <= 0 {
    } else {
        lemma_entry_pos_shift(junk, s, d, i - 1, n, off, files);
        let p = spec_entry_pos(s, d, i - 1);
        assert(spec_central_file_ok(s, p, off, files[i - 1]));
        lemma_le16_shift(junk, s, p + 28);
        lemma_le16_shift(junk, s, p + 30);
        lemma_le16_shift(junk, s, p + 32);
        assert(spec_entry_pos(junk + s, junk.len() + d, i) == spec_next_header(
            junk + s,
            spec_entry_pos(junk + s, junk.len() + d, i - 1),
        ));
    }
}

/// An archive that opened holds no two entries with the same decoded
/// filename: the name table maps each name back to a single position.
pub proof fn lemma_duplicate_names_rejected(a: ZipArchive, i: int, j: int)
    requires
        a.wf(),
        0 <= i < j < a.shared.files@.len(),
    ensures
        a.shared.files@[i].file_name@ != a.shared.files@[j].file_name@,
{
    if a.shared.files@[i].file_name@ == a.shared.files@[j].file_name@ {
        assert(crate::name_index::name_index_view(a.shared.names)[a.shared.files@[i].file_name@]
            == i);
        assert(crate::name_index::name_index_view(a.shared.names)[a.shared.files@[j].file_name@]
            == j);
    }
}

/// Prepending junk bytes to an archive moves everything whole: the same
/// directory is parsed from the shifted bytes, every entry keeps its name,
/// its sizes, its CRC and its metadata, and only the base-offset shift and
/// each entry's recorded local-header offset grow by the junk's length.
///
/// Stated for archives that resolve their trailer without the ZIP64
/// locator and are long enough that the locator probe stays inside the
/// original bytes; junk in front of a shorter archive could spell a
/// locator signature of its own at the probe position and change the path
/// taken.
#[verifier::rlimit(100)]
#[verifier::spinoff_prover]
pub proof fn lemma_offset_shift(
    junk: Seq<u8>,
    s: Seq<u8>,
    p: int,
    a: ZipArchive,
    q: int,
    b: ZipArchive,
)
    requires
        spec_archive_at(s, p, a),
        spec_archive_at(junk + s, q, b),
        junk.len() + s.len() <= u64::MAX,
        s.len() >= 42 + spec_comment_len(s, p),
        le32(s, s.len() - 42 - spec_comment_len(s, p))
            != ZIP64_CENTRAL_DIRECTORY_END_LOCATOR_SIGNATURE,
    ensures
        q == junk.len() + p,
        b.shared.offset == a.shared.offset + junk.len(),
        b.shared.comment@ == a.shared.comment@,
        b.shared.files@.len() == a.shared.files@.len(),
        forall|i: int|
            0 <= i < a.shared.files@.len() ==> {
                let fa = #[trigger] a.shared.files@[i];
                let fb = b.shared.files@[i];
                fb.file_name@ == fa.file_name@ && fb.crc32 == fa.crc32 && fb.compressed_size
                    == fa.compressed_size && fb.uncompressed_size == fa.uncompressed_size
                    && fb.compression_method == fa.compression_method && fb.header_start
                    == fa.header_start + junk.len()
            },
{
    let k = junk.len() as int;
    let s2 = junk + s;
    let top1 = s.len() - 22;
    let top2 = s2.len() - 22;

    // The record found in the shifted bytes is the shifted record: the
    // genuine one is still there, and nothing later can carry the signature.
    lemma_le32_shift(junk, s, p);
    assert(le32(s2, k + p) == le32(s, p));
    assert(q >= k + p) by {
        if q < k + p {
            assert(k + p <= top2);
        }
    }
    assert(q <= k + p) by {
        if q > k + p {
            lemma_le32_shift(junk, s, q - k);
            assert(le32(s, q - k) == le32(s2, q));
        }
    }

    // The comment moves whole.
    lemma_le16_shift(junk, s, p + 20);
    assert(spec_comment_len(s2, q) == spec_comment_len(s, p));
    let clen = spec_comment_len(s, p);
    lemma_subrange_shift(junk, s, p + 22, p + 22 + clen);

    // Both parses resolve the trailer without the locator, and the shift
    // grows by exactly the junk's length.
    let lp = s.len() - 42 - clen;
    lemma_le32_shift(junk, s, lp);
    assert(s2.len() - 42 - spec_comment_len(s2, q) == k + lp);
    lemma_le32_shift(junk, s, p + 12);
    lemma_le32_shift(junk, s, p + 16);
    lemma_le16_shift(junk, s, p + 8);
    let t1 = spec_counts_at(s, p)->Ok_0;
    let t2 = spec_counts_at(s2, q)->Ok_0;
    assert(t2.0 == t1.0 + k && t2.1 == t1.1 + k && t2.2 == t1.2);

    // Entry by entry, the shifted parse declares the same values.
    assert forall|i: int| 0 <= i < a.shared.files@.len() implies {
        let fa = #[trigger] a.shared.files@[i];
        let fb = b.shared.files@[i];
        fb.file_name@ == fa.file_name@ && fb.crc32 == fa.crc32 && fb.compressed_size
            == fa.compressed_size && fb.uncompressed_size == fa.uncompressed_size
            && fb.compression_method == fa.compression_method && fb.header_start
            == fa.header_start + junk.len()
    } by {
        lemma_entry_pos_shift(junk, s, t1.1 as int, i, t1.2 as int, t1.0, a.shared.files@);
        let pos = spec_entry_pos(s, t1.1 as int, i);
        assert(spec_central_file_ok(s, pos, t1.0, a.shared.files@[i]));
        assert(spec_central_file_ok(s2, k + pos, t2.0, b.shared.files@[i]));
        lemma_central_shift(junk, s, pos, t1.0, t2.0, a.shared.files@[i], b.shared.files@[i]);
    }
}

/// When an entry's local header lies inside the original bytes, a prepend
/// moves its payload whole: the local header still resolves at the shifted
/// offset, the payload starts exactly the junk's length later, and the
/// payload window holds the same bytes — so reading the entry from the
/// shifted archive yields the same decoded stream. The length bound leaves
/// room for the longest possible local name and extra fields.
pub proof fn lemma_offset_shift_window(junk: Seq<u8>, s: Seq<u8>, h: int, csize: u64)
    requires
        0 <= h,
        spec_local_header_ok(s, h),
        junk.len() + s.len() + 131070 <= u64::MAX,
    ensures
        spec_local_header_ok(junk + s, junk.len() + h),
        spec_data_start(junk + s, junk.len() + h) == junk.len() + spec_data_start(s, h),
        spec_entry_window(junk + s, spec_data_start(junk + s, junk.len() + h), csize)
            == spec_entry_window(s, spec_data_start(s, h), csize),
{
    let k = junk.len() as int;
    let s2 = junk + s;
    lemma_le32_shift(junk, s, h);
    lemma_le16_shift(junk, s, h + 26);
    lemma_le16_shift(junk, s, h + 28);
    let ds = spec_data_start(s, h);
    let lo = if ds <= s.len() {
        ds
    } else {
        s.len() as int
    };
    let hi = if ds + csize <= s.len() {
        ds + csize
    } else {
        s.len() as int
    };
    lemma_subrange_shift(junk, s, lo, hi);
    assert(spec_entry_window(s2, k + ds, csize) == spec_entry_window(s, ds, csize));
}

/// Reading an entry of the shifted archive delivers exactly the bytes the
/// original delivers: whenever the entry's local header lies inside the
/// original bytes, its payload window and its decoded stream are unchanged
/// by the prepend.
pub proof fn lemma_offset_shift_streams(
    junk: Seq<u8>,
    s: Seq<u8>,
    p: int,
    a: ZipArchive,
    q: int,
    b: ZipArchive,
    i: int,
)
    requires
        spec_archive_at(s, p, a),
        spec_archive_at(junk + s, q, b),
        junk.len() + s.len() + 131070 <= u64::MAX,
        s.len() >= 42 + spec_comment_len(s, p),
        le32(s, s.len() - 42 - spec_comment_len(s, p))
            != ZIP64_CENTRAL_DIRECTORY_END_LOCATOR_SIGNATURE,
        0 <= i < a.shared.files@.len(),
        spec_local_header_ok(s, a.shared.files@[i].header_start as int),
    ensures
        ({
            let fa = a.shared.files@[i];
            let fb = b.shared.files@[i];
            let wa = spec_entry_window(
                s,
                spec_data_start(s, fa.header_start as int),
                fa.compressed_size,
            );
            let wb = spec_entry_window(
                junk + s,
                spec_data_start(junk + s, fb.header_start as int),
                fb.compressed_size,
            );
            &&& spec_local_header_ok(junk + s, fb.header_start as int)
            &&& wb == wa
            &&& spec_entry_stream(fb.compression_method, wb) == spec_entry_stream(
                fa.compression_method,
                wa,
            )
        }),
{
    lemma_offset_shift(junk, s, p, a, q, b);
    lemma_offset_shift_window(
        junk,
        s,
        a.shared.files@[i].header_start as int,
        a.shared.files@[i].compressed_size,
    );
}

/// A central header that parses still parses at its shifted position of the
/// shifted bytes, under the shifted base offset, and declares the same name.
#[verifier::rlimit(100)]
#[verifier::spinoff_prover]
proof fn lemma_central_parses_shift(junk: Seq<u8>, s: Seq<u8>, pos: int, off: u64, off2: u64)
    requires
        0 <= pos,
        spec_central_parses(s, pos, off),
        off2 == off + junk.len(),
        spec_entry_raw_offset(s, pos) + off2 <= u64::MAX,
    ensures
        spec_central_parses(junk + s, junk.len() + pos, off2),
        spec_entry_name(junk + s, junk.len() + pos) == spec_entry_name(s, pos),
{
    let k = junk.len() as int;
    let s2 = junk + s;
    let nlen = le16(s, pos + 28) as int;
    let elen = le16(s, pos + 30) as int;
    let clen = le16(s, pos + 32) as int;
    lemma_le32_shift(junk, s, pos);
    lemma_le16_shift(junk, s, pos + 8);
    lemma_le16_shift(junk, s, pos + 10);
    lemma_le32_shift(junk, s, pos + 20);
    lemma_le32_shift(junk, s, pos + 24);
    lemma_le16_shift(junk, s, pos + 28);
    lemma_le16_shift(junk, s, pos + 30);
    lemma_le16_shift(junk, s, pos + 32);
    lemma_le32_shift(junk, s, pos + 42);
    lemma_subrange_shift(junk, s, pos + 46, pos + 46 + nlen);
    lemma_subrange_shift(junk, s, pos + 46 + nlen, pos + 46 + nlen + elen);
    assert(spec_central_init_state(s2, k + pos) == spec_central_init_state(s, pos));
}

/// The chain of entry header positions shifts whole with its data, when
/// every header of the chain parses.
proof fn lemma_entry_pos_shift_parses(
    junk: Seq<u8>,
    s: Seq<u8>,
    d: int,
    i: int,
    n: int,
    off: u64,
)
    requires
        0 <= d,
        0 <= i <= n,
        forall|jj: int|
            0 <= jj < n ==> spec_central_parses(s, #[trigger] spec_entry_pos(s, d, jj), off),
    ensures
        spec_entry_pos(junk + s, junk.len() + d, i) == junk.len() + spec_entry_pos(s, d, i),
        spec_entry_pos(s, d, i) >= d,
    decreases i,
{
    if i <= 0 {
    } else {
        lemma_entry_pos_shift_parses(junk, s, d, i - 1, n, off);
        let p = spec_entry_pos(s, d, i - 1);
        assert(spec_central_parses(s, p, off));
        lemma_le16_shift(junk, s, p + 28);
        lemma_le16_shift(junk, s, p + 30);
        lemma_le16_shift(junk, s, p + 32);
        assert(spec_entry_pos(junk + s, junk.len() + d, i) == spec_next_header(
            junk + s,
            spec_entry_pos(junk + s, junk.len() + d, i - 1),
        ));
    }
}

/// Prepending junk bytes to an archive that opens leaves it openable: the
/// trailer is found at the shifted position and every header still parses,
/// with the same names. Stated under the same trailer conditions as the
/// shift law, plus room in the offset arithmetic for every entry's resolved
/// local-header offset to grow by the junk's length.
#[verifier::rlimit(100)]
#[verifier::spinoff_prover]
pub proof fn lemma_offset_shift_opens(junk: Seq<u8>, s: Seq<u8>, p: int)
    requires
        spec_open_ok(s, p),
        junk.len() + s.len() <= u64::MAX,
        s.len() >= 42 + spec_comment_len(s, p),
        le32(s, s.len() - 42 - spec_comment_len(s, p))
            != ZIP64_CENTRAL_DIRECTORY_END_LOCATOR_SIGNATURE,
        forall|i: int|
            0 <= i < spec_open_count(s, p) ==> spec_entry_raw_offset(
                s,
                #[trigger] spec_open_entry_pos(s, p, i),
            ) + spec_open_off(s, p) + junk.len() <= u64::MAX,
    ensures
        spec_open_ok(junk + s, junk.len() + p),
        spec_counts_at(junk + s, junk.len() + p)->Ok_0.0 == spec_open_off(s, p) + junk.len(),
{
    let k = junk.len() as int;
    let s2 = junk + s;
    let top1 = s.len() - 22;
    let top2 = s2.len() - 22;

    // The record is found at the shifted position.
    lemma_le32_shift(junk, s, p);
    assert forall|q: int|
        k + p < q <= top2 implies le32(s2, q) != CENTRAL_DIRECTORY_END_SIGNATURE by {
        lemma_le32_shift(junk, s, q - k);
    }
    assert(spec_eocd_found_at(s2, k + p));

    // Same single-disk record.
    lemma_le16_shift(junk, s, p + 4);
    lemma_le16_shift(junk, s, p + 6);
    lemma_le16_shift(junk, s, p + 8);
    lemma_le16_shift(junk, s, p + 10);
    lemma_le32_shift(junk, s, p + 12);
    lemma_le32_shift(junk, s, p + 16);
    assert(!spec_multi_disk_at(s2, k + p));

    // Same non-ZIP64 trailer, with the shift grown by the junk's length.
    lemma_le16_shift(junk, s, p + 20);
    assert(spec_comment_len(s2, k + p) == spec_comment_len(s, p));
    let clen = spec_comment_len(s, p);
    let lp = s.len() - 42 - clen;
    lemma_le32_shift(junk, s, lp);
    assert(s2.len() - 42 - spec_comment_len(s2, k + p) == k + lp);
    let t1 = spec_counts_at(s, p)->Ok_0;
    assert(spec_counts_at(s2, k + p) == Ok::<(u64, u64, u64), ZipError>(
        ((t1.0 + k) as u64, (t1.1 + k) as u64, t1.2),
    ));

    // The open-success facts of `s`, restated over the chained positions.
    assert forall|jj: int|
        0 <= jj < t1.2 implies spec_central_parses(
        s,
        #[trigger] spec_entry_pos(s, t1.1 as int, jj),
        t1.0,
    ) by {
        assert(spec_open_entry_pos(s, p, jj) == spec_entry_pos(s, t1.1 as int, jj));
        assert(spec_central_parses(s, spec_open_entry_pos(s, p, jj), spec_open_off(s, p)));
    }

    // Every header parses at its shifted position, with the same name.
    assert forall|i: int|
        0 <= i < spec_open_count(s2, k + p) implies spec_central_parses(
        s2,
        #[trigger] spec_open_entry_pos(s2, k + p, i),
        spec_open_off(s2, k + p),
    ) && spec_entry_name(s2, spec_open_entry_pos(s2, k + p, i)) == spec_entry_name(
        s,
        spec_open_entry_pos(s, p, i),
    ) by {
        lemma_entry_pos_shift_parses(junk, s, t1.1 as int, i, t1.2 as int, t1.0);
        let pos = spec_entry_pos(s, t1.1 as int, i);
        assert(spec_open_entry_pos(s, p, i) == pos);
        assert(spec_entry_raw_offset(s, pos) + t1.0 + k <= u64::MAX);
        lemma_central_parses_shift(junk, s, pos, t1.0, (t1.0 + k) as u64);
    }
    assert forall|i: int, j: int|
        0 <= i < j < spec_open_count(s2, k + p) implies spec_entry_name(
        s2,
        #[trigger] spec_open_entry_pos(s2, k + p, i),
    ) != spec_entry_name(s2, #[trigger] spec_open_entry_pos(s2, k + p, j)) by {
        assert(spec_entry_name(s2, spec_open_entry_pos(s2, k + p, i)) == spec_entry_name(
            s,
            spec_open_entry_pos(s, p, i),
        ));
        assert(spec_entry_name(s2, spec_open_entry_pos(s2, k + p, j)) == spec_entry_name(
            s,
            spec_open_entry_pos(s, p, j),
        ));
        assert(spec_entry_name(s, spec_open_entry_pos(s, p, i)) != spec_entry_name(
            s,
            spec_open_entry_pos(s, p, j),
        ));
    }
}

} // verus!
