use zip::{CompressionMethod, IoError, ZipArchive, ZipError, ZipSource};

fn p16(out: &mut Vec<u8>, v: u16) {
    out.push(v as u8);
    out.push((v >> 8) as u8);
}

fn p32(out: &mut Vec<u8>, v: u32) {
    out.push(v as u8);
    out.push((v >> 8) as u8);
    out.push((v >> 16) as u8);
    out.push((v >> 24) as u8);
}

fn p64(out: &mut Vec<u8>, v: u64) {
    p32(out, v as u32);
    p32(out, (v >> 32) as u32);
}

#[derive(Clone)]
struct TestEntry {
    name: Vec<u8>,
    data: Vec<u8>,
    method: u16,
    flags: u16,
    local_extra: Vec<u8>,
    central_extra: Vec<u8>,
    central_csize: Option<u32>,
    central_usize: Option<u32>,
}

impl TestEntry {
    fn stored(name: &str, data: &[u8]) -> TestEntry {
        TestEntry {
            name: name.as_bytes().to_vec(),
            data: data.to_vec(),
            method: 0,
            flags: 0,
            local_extra: Vec::new(),
            central_extra: Vec::new(),
            central_csize: None,
            central_usize: None,
        }
    }

    fn deflated(name: &str, data: &[u8]) -> TestEntry {
        TestEntry { method: 8, ..TestEntry::stored(name, data) }
    }

    fn payload(&self) -> Vec<u8> {
        if self.method == 8 {
            miniz_oxide::deflate::compress_to_vec(&self.data, 6)
        } else {
            self.data.clone()
        }
    }
}

fn build_archive(entries: &[TestEntry], junk: usize, comment: &[u8], zip64_trailer: bool) -> Vec<u8> {
    let mut out = vec![0x41u8; junk];
    let mut local_offsets = Vec::new();
    for e in entries {
        local_offsets.push((out.len() - junk) as u32);
        let comp = e.payload();
        let crc = crc32fast::hash(&e.data);
        p32(&mut out, 0x04034b50);
        p16(&mut out, 20);
        p16(&mut out, e.flags);
        p16(&mut out, e.method);
        p16(&mut out, 0);
        p16(&mut out, 0x21);
        p32(&mut out, crc);
        p32(&mut out, comp.len() as u32);
        p32(&mut out, e.data.len() as u32);
        p16(&mut out, e.name.len() as u16);
        p16(&mut out, e.local_extra.len() as u16);
        out.extend_from_slice(&e.name);
        out.extend_from_slice(&e.local_extra);
        out.extend_from_slice(&comp);
    }
    let cd_offset = (out.len() - junk) as u32;
    let central_start_abs = out.len();
    for (e, off) in entries.iter().zip(local_offsets.iter()) {
        let comp = e.payload();
        let crc = crc32fast::hash(&e.data);
        p32(&mut out, 0x02014b50);
        p16(&mut out, 20);
        p16(&mut out, 20);
        p16(&mut out, e.flags);
        p16(&mut out, e.method);
        p16(&mut out, 0);
        p16(&mut out, 0x21);
        p32(&mut out, crc);
        p32(&mut out, e.central_csize.unwrap_or(comp.len() as u32));
        p32(&mut out, e.central_usize.unwrap_or(e.data.len() as u32));
        p16(&mut out, e.name.len() as u16);
        p16(&mut out, e.central_extra.len() as u16);
        p16(&mut out, 0);
        p16(&mut out, 0);
        p16(&mut out, 0);
        p32(&mut out, 0);
        p32(&mut out, *off);
        out.extend_from_slice(&e.name);
        out.extend_from_slice(&e.central_extra);
    }
    let cd_size = (out.len() - central_start_abs) as u32;
    if zip64_trailer {
        let z64_pos = (out.len() - junk) as u64;
        p32(&mut out, 0x06064b50);
        p64(&mut out, 44);
        p16(&mut out, 45);
        p16(&mut out, 45);
        p32(&mut out, 0);
        p32(&mut out, 0);
        p64(&mut out, entries.len() as u64);
        p64(&mut out, entries.len() as u64);
        p64(&mut out, cd_size as u64);
        p64(&mut out, cd_offset as u64);
        p32(&mut out, 0x07064b50);
        p32(&mut out, 0);
        p64(&mut out, z64_pos);
        p32(&mut out, 1);
    }
    p32(&mut out, 0x06054b50);
    p16(&mut out, 0);
    p16(&mut out, 0);
    p16(&mut out, entries.len() as u16);
    p16(&mut out, entries.len() as u16);
    p32(&mut out, cd_size);
    p32(&mut out, cd_offset);
    p16(&mut out, comment.len() as u16);
    out.extend_from_slice(comment);
    out
}

fn open_archive(bytes: Vec<u8>) -> ZipArchive {
    ZipArchive::new(ZipSource::new(bytes)).expect("archive should open")
}

fn read_entry(archive: &mut ZipArchive, index: usize) -> Result<Vec<u8>, ZipError> {
    let mut f = archive.by_index(index)?;
    let r = f.read_to_end();
    archive.close_entry(f);
    r
}

#[test]
fn test_find_content() {
    let buf = build_archive(&[TestEntry::stored("a/b.txt", b"hello\n")], 0, b"", false);
    let mut f = open_archive(buf);
    assert_eq!(1, f.len());

    let entry = f.by_index(0).unwrap();
    let data = entry.data().clone();
    f.close_entry(entry);
    assert_eq!(b"a/b.txt", &data.file_name_raw[..]);

    let mut data = data;
    let mut limited = zip::find_content(&mut data, f.into_inner().unwrap()).unwrap();
    let bytes = limited.read_all();
    assert_eq!(&bytes, b"hello\n");

    let source = limited.into_inner();
    let mut limited = zip::find_content(&mut data, source).unwrap();
    let bytes = limited.read_all();
    assert_eq!(&bytes, b"hello\n");
}

#[test]
fn test_get_reader() {
    let buf = build_archive(&[TestEntry::deflated("a/b.txt", b"hello\n")], 0, b"", false);
    let mut f = open_archive(buf);
    assert_eq!(1, f.len());

    let entry = f.by_index(0).unwrap();
    let data = entry.data().clone();
    f.close_entry(entry);
    assert_eq!(data.crc32, 909783072);
    assert_eq!(b"a/b.txt", &data.file_name_raw[..]);

    let mut data = data;
    let mut reader = zip::get_reader(&mut data, f.into_inner().unwrap()).unwrap();
    let mut collected = Vec::new();
    loop {
        let chunk = reader.read(4096).unwrap();
        if chunk.is_empty() {
            break;
        }
        collected.extend_from_slice(&chunk);
    }
    assert_eq!(&collected, b"hello\n");
}

#[test]
fn s1_store_single_entry() {
    let buf = build_archive(&[TestEntry::stored("a/b.txt", b"hello\n")], 0, b"", false);
    let mut a = open_archive(buf);
    assert_eq!(a.len(), 1);
    let names = a.file_names();
    assert_eq!(names.len(), 1);
    assert_eq!(names[0], "a/b.txt");
    let mut f = a.by_index(0).unwrap();
    let stored_crc = f.data().crc32;
    let bytes = f.read_to_end().unwrap();
    assert_eq!(bytes, vec![0x68, 0x65, 0x6c, 0x6c, 0x6f, 0x0a]);
    assert_eq!(crc32fast::hash(&bytes), stored_crc);
    a.close_entry(f);
}

#[test]
fn s2_deflate_single_entry() {
    let buf = build_archive(&[TestEntry::deflated("a/b.txt", b"hello\n")], 0, b"", false);
    let mut a = open_archive(buf);
    let mut f = a.by_index(0).unwrap();
    assert_eq!(f.data().crc32, 909783072);
    let bytes = f.read_to_end().unwrap();
    assert_eq!(&bytes, b"hello\n");
    a.close_entry(f);
}

#[test]
fn s3_two_entries_bulk_contents() {
    let buf = build_archive(
        &[TestEntry::stored("a/b.txt", b"hello\n"), TestEntry::stored("a/c.txt", b"world")],
        0,
        b"",
        false,
    );
    let mut a = open_archive(buf);
    assert_eq!(a.len(), 2);
    assert_eq!(read_entry(&mut a, 0).unwrap(), b"hello\n");
    assert_eq!(read_entry(&mut a, 1).unwrap(), b"world");

    // The extraction registry creates `a` at most once: the second entry
    // under `a/` needs no new directories after the first wrote them.
    let mut paths = zip::CompletedPaths::new();
    let needed = paths.new_containing_dirs_needed("a/b.txt");
    assert_eq!(needed.len(), 1);
    assert_eq!(needed[0], "a");
    paths.write_dirs(needed);
    let needed_again = paths.new_containing_dirs_needed("a/c.txt");
    assert!(needed_again.is_empty());
}

#[test]
fn s4_prepended_junk() {
    let buf = build_archive(&[TestEntry::stored("a/b.txt", b"hello\n")], 100, b"", false);
    let mut a = open_archive(buf);
    assert_eq!(a.offset(), 100);
    assert_eq!(read_entry(&mut a, 0).unwrap(), b"hello\n");
}

#[test]
fn s5_missing_local_signature() {
    let mut buf = build_archive(&[TestEntry::stored("a/b.txt", b"hello\n")], 0, b"", false);
    buf[0] ^= 0xff;
    let mut a = open_archive(buf);
    match a.by_index(0) {
        Err(ZipError::InvalidArchive(m)) => assert_eq!(m, "Invalid local file header"),
        other => panic!("unexpected result: {:?}", other.map(|_| ())),
    }
}

#[test]
fn s6_crc_corruption() {
    let mut buf = build_archive(&[TestEntry::stored("a/b.txt", b"hello\n")], 0, b"", false);
    // The stored payload follows the 30-byte local header and the name.
    let payload_at = 30 + "a/b.txt".len();
    buf[payload_at] ^= 0xff;
    let mut a = open_archive(buf);
    let mut f = a.by_index(0).unwrap();
    match f.read_to_end() {
        Err(ZipError::InvalidArchive(m)) => assert_eq!(m, "CRC mismatch"),
        other => panic!("unexpected result: {:?}", other),
    }
    a.close_entry(f);
}

#[test]
fn round_trip_multiple_entries() {
    let entries = vec![
        TestEntry::stored("first.bin", &[0u8, 1, 2, 3, 255, 254]),
        TestEntry::deflated("dir/second.txt", b"some text that deflate will happily squeeze"),
        TestEntry::stored("third", b""),
    ];
    let buf = build_archive(&entries, 0, b"", false);
    let mut a = open_archive(buf);
    assert_eq!(a.len(), 3);
    let mut concatenated = Vec::new();
    let mut expected = Vec::new();
    for (i, e) in entries.iter().enumerate() {
        let mut f = a.by_index(i).unwrap();
        let declared = f.data().crc32;
        let bytes = f.read_to_end().unwrap();
        assert_eq!(crc32fast::hash(&bytes), declared);
        concatenated.extend_from_slice(&bytes);
        expected.extend_from_slice(&e.data);
        a.close_entry(f);
    }
    assert_eq!(concatenated, expected);
}

#[test]
fn offset_shift_same_directory() {
    let entries =
        vec![TestEntry::stored("a/b.txt", b"hello\n"), TestEntry::deflated("z.txt", b"zzz")];
    let plain = build_archive(&entries, 0, b"", false);
    let shifted = build_archive(&entries, 1000, b"", false);
    let mut a = open_archive(plain);
    let mut b = open_archive(shifted);
    assert_eq!(a.offset(), 0);
    assert_eq!(b.offset(), 1000);
    let an: Vec<String> = a.file_names();
    let bn: Vec<String> = b.file_names();
    assert_eq!(an, bn);
    for i in 0..2 {
        assert_eq!(read_entry(&mut a, i).unwrap(), read_entry(&mut b, i).unwrap());
    }
}

#[test]
fn zip64_promotion_extra_field() {
    let mut e = TestEntry::stored("big.txt", b"not actually big");
    let mut extra = Vec::new();
    p16(&mut extra, 0x0001);
    p16(&mut extra, 16);
    p64(&mut extra, e.data.len() as u64);
    p64(&mut extra, e.data.len() as u64);
    e.central_extra = extra;
    e.central_csize = Some(0xffffffff);
    e.central_usize = Some(0xffffffff);
    let buf = build_archive(&[e], 0, b"", false);
    let mut a = open_archive(buf);
    let mut f = a.by_index(0).unwrap();
    assert!(f.data().large_file);
    assert_eq!(f.data().uncompressed_size, 16);
    assert_eq!(f.data().compressed_size, 16);
    let bytes = f.read_to_end().unwrap();
    assert_eq!(&bytes, b"not actually big");
    a.close_entry(f);
}

#[test]
fn zip64_trailer_locator() {
    let buf = build_archive(&[TestEntry::stored("a.txt", b"alpha")], 0, b"", true);
    let mut a = open_archive(buf);
    assert_eq!(a.len(), 1);
    assert_eq!(a.offset(), 0);
    assert_eq!(read_entry(&mut a, 0).unwrap(), b"alpha");
}

#[test]
fn local_extra_length_differs() {
    let mut e = TestEntry::stored("a.txt", b"payload after local extra");
    // The local record carries an extra field the central record lacks; the
    // payload start must follow the local lengths alone.
    e.local_extra = vec![0x65, 0x43, 0x00, 0x00];
    let buf = build_archive(&[e], 0, b"", false);
    let mut a = open_archive(buf);
    assert_eq!(read_entry(&mut a, 0).unwrap(), b"payload after local extra");
}

#[test]
fn duplicate_names_rejected() {
    let buf = build_archive(
        &[TestEntry::stored("same.txt", b"one"), TestEntry::stored("same.txt", b"two")],
        0,
        b"",
        false,
    );
    match ZipArchive::new(ZipSource::new(buf)) {
        Err(ZipError::InvalidArchive(m)) => assert_eq!(m, "Duplicate filename"),
        _ => panic!("duplicate names must be rejected with InvalidArchive"),
    }
}

#[test]
fn source_reclaim_after_close() {
    let buf = build_archive(&[TestEntry::stored("a.txt", b"alpha")], 0, b"", false);
    let mut a = open_archive(buf);
    let mut f = a.by_index(0).unwrap();
    let _ = f.read_to_end().unwrap();
    a.close_entry(f);
    assert!(a.into_inner().is_some());
}

#[test]
fn source_busy_second_open() {
    let buf = build_archive(
        &[TestEntry::stored("a.txt", b"alpha"), TestEntry::stored("b.txt", b"beta")],
        0,
        b"",
        false,
    );
    let mut a = open_archive(buf);
    let f = a.by_index(0).unwrap();
    match a.by_index(1) {
        Err(ZipError::Io(IoError::SourceNotAvailable)) => {},
        _ => panic!("opening a second entry while one is outstanding must fail"),
    }
    a.close_entry(f);
    assert!(a.by_index(1).is_ok());
}

#[test]
fn path_safety_dotdot() {
    let buf = build_archive(&[TestEntry::stored("../escape", b"nope")], 0, b"", false);
    let mut a = open_archive(buf);
    let f = a.by_index(0).unwrap();
    match f.name() {
        Err(ZipError::InvalidArchive(m)) => assert_eq!(m, "Invalid file path"),
        other => panic!("a name with a .. segment must be rejected: {:?}", other.map(|_| ())),
    }
    a.close_entry(f);
}

#[test]
fn path_safety_good_names() {
    let buf = build_archive(
        &[TestEntry::stored("a/b.txt", b"x"), TestEntry::stored("plain", b"y")],
        0,
        b"",
        false,
    );
    let mut a = open_archive(buf);
    for i in 0..2 {
        let f = a.by_index(i).unwrap();
        assert!(f.name().is_ok());
        a.close_entry(f);
    }
}

#[test]
fn trailer_edge_cases() {
    // No data at all: an error, never a panic.
    assert!(ZipArchive::new(ZipSource::new(Vec::new())).is_err());

    // A bare end-of-central-directory record with no entries and no comment.
    let empty = build_archive(&[], 0, b"", false);
    assert_eq!(empty.len(), 22);
    let a = open_archive(empty);
    assert_eq!(a.len(), 0);
    assert!(a.is_empty());
    assert!(a.comment().is_empty());

    // Exactly at the boundary where a ZIP64 locator would begin at byte 0.
    let mut boundary = vec![0x41u8; 20];
    let eocd = build_archive(&[], 0, b"", false);
    boundary.extend_from_slice(&eocd);
    assert_eq!(boundary.len(), 42);
    match ZipArchive::new(ZipSource::new(boundary)) {
        Ok(a) => assert_eq!(a.len(), 0),
        Err(ZipError::InvalidArchive(_)) => {},
        Err(e) => panic!("boundary archive must open or be InvalidArchive, got {:?}", e),
    }

    // An archive with a comment on the trailer.
    let commented = build_archive(&[TestEntry::stored("a", b"z")], 0, b"note", false);
    let a = open_archive(commented);
    assert_eq!(a.comment().as_slice(), b"note");
}

#[test]
fn unsupported_method_at_open() {
    let mut e = TestEntry::stored("weird.bin", b"data");
    e.method = 7;
    let buf = build_archive(&[e], 0, b"", false);
    let mut a = open_archive(buf);
    match a.by_index(0) {
        Err(ZipError::UnsupportedArchive(m)) => {
            assert_eq!(m, "Compression method not supported")
        },
        _ => panic!("an unhandled compression method must fail at entry open"),
    }
}

#[test]
fn multi_disk_rejected() {
    let mut buf = build_archive(&[TestEntry::stored("a", b"z")], 0, b"", false);
    // The EOCD's disk-number field sits 4 bytes after its signature.
    let eocd_at = buf.len() - 22;
    buf[eocd_at + 4] = 1;
    match ZipArchive::new(ZipSource::new(buf)) {
        Err(ZipError::UnsupportedArchive(m)) => {
            assert_eq!(m, "Support for multi-disk files is not implemented")
        },
        _ => panic!("multi-disk archives must be rejected"),
    }
}

#[test]
fn aes_extra_field_parsed() {
    let mut e = TestEntry::stored("secret.bin", b"sealed");
    e.method = 99;
    let mut extra = Vec::new();
    p16(&mut extra, 0x9901);
    p16(&mut extra, 7);
    p16(&mut extra, 0x0002);
    p16(&mut extra, 0x4541);
    extra.push(0x03);
    p16(&mut extra, 0);
    e.central_extra = extra;
    let buf = build_archive(&[e], 0, b"", false);
    let mut a = open_archive(buf);
    let f = a.by_index(0).unwrap();
    assert_eq!(f.data().compression_method, CompressionMethod::Stored);
    assert_eq!(
        f.data().aes_mode,
        Some((zip::AesMode::Aes256, zip::AesVendorVersion::Ae2))
    );
    a.close_entry(f);
}

#[test]
fn aes_bad_length_rejected() {
    let mut e = TestEntry::stored("secret.bin", b"sealed");
    e.method = 99;
    let mut extra = Vec::new();
    p16(&mut extra, 0x9901);
    p16(&mut extra, 5);
    extra.extend_from_slice(&[0, 0, 0, 0, 0]);
    e.central_extra = extra;
    let buf = build_archive(&[e], 0, b"", false);
    match ZipArchive::new(ZipSource::new(buf)) {
        Err(ZipError::UnsupportedArchive(m)) => {
            assert_eq!(m, "AES extra data field has an unsupported length")
        },
        _ => panic!("an AES extra field of the wrong length must be rejected"),
    }
}

#[test]
fn by_name_lookup_and_miss() {
    let buf = build_archive(
        &[TestEntry::stored("a/b.txt", b"hello\n"), TestEntry::stored("c.txt", b"sea")],
        0,
        b"",
        false,
    );
    let mut a = open_archive(buf);
    let mut f = a.by_name("c.txt").unwrap();
    assert_eq!(f.read_to_end().unwrap(), b"sea");
    a.close_entry(f);
    match a.by_name("missing.txt") {
        Err(ZipError::FileNotFound) => {},
        _ => panic!("a missing name must be FileNotFound"),
    }
}

#[test]
fn utf8_flag_name_decoding() {
    let mut e = TestEntry::stored("x", b"data");
    e.name = "na\u{ef}ve.txt".as_bytes().to_vec();
    e.flags = 0x800;
    let buf = build_archive(&[e], 0, b"", false);
    let a = open_archive(buf);
    let names = a.file_names();
    assert_eq!(names[0], "na\u{ef}ve.txt");

    // The same bytes without the UTF-8 flag decode through code page 437.
    let mut e2 = TestEntry::stored("x", b"data");
    e2.name = "na\u{ef}ve.txt".as_bytes().to_vec();
    let buf2 = build_archive(&[e2], 0, b"", false);
    let b = open_archive(buf2);
    let names2 = b.file_names();
    assert_ne!(names2[0], "na\u{ef}ve.txt");
}

#[test]
fn truncated_entry_io_error() {
    let e = TestEntry::stored("a.txt", b"alpha");
    // Point the entry's local header past the end of the data.
    let buf = build_archive(&[e.clone()], 0, b"", false);
    let mut broken = buf.clone();
    // The central record's local-header offset field sits 42 bytes into the
    // central header, which begins right after the local record.
    let central_at = 30 + e.name.len() + e.data.len();
    let off_at = central_at + 42;
    broken[off_at] = 0xf0;
    broken[off_at + 1] = 0xff;
    let mut a = open_archive(broken);
    match a.by_index(0) {
        Err(ZipError::Io(IoError::UnexpectedEof)) => {},
        other => panic!("a header past the end must fail as the source does: {:?}", other.map(|_| ())),
    }
}
