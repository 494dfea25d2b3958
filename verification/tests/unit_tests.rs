use zip::cp437::{decode_byte, from_cp437};
use zip::extraction::CompletedPaths;
use zip::result::DateTimeRangeError;
use zip::types::{CompressionMethod, DateTime, System};
use zip::ZipError;

#[test]
fn completed_paths_idempotent() {
    let mut paths = CompletedPaths::new();
    let needed = paths.new_containing_dirs_needed("x/y/z.txt");
    let as_strs: Vec<&str> = needed.iter().map(|s| s.as_str()).collect();
    assert_eq!(as_strs, vec!["x", "x/y"]);
    paths.write_dirs(needed);
    assert!(paths.contains("x"));
    assert!(paths.contains("x/y"));
    assert!(!paths.contains("x/y/z.txt"));
    // Extracting the same entry a second time needs no new directories.
    assert!(paths.new_containing_dirs_needed("x/y/z.txt").is_empty());
}

#[test]
fn completed_paths_partial_overlap() {
    let mut paths = CompletedPaths::new();
    paths.write_dirs(vec![String::from("x")]);
    let needed = paths.new_containing_dirs_needed("x/y/z.txt");
    let as_strs: Vec<&str> = needed.iter().map(|s| s.as_str()).collect();
    assert_eq!(as_strs, vec!["x/y"]);
}

#[test]
fn cp437_decoding() {
    // Low bytes keep their ASCII meaning; high bytes map through the code page.
    assert_eq!(decode_byte(b'A'), 'A');
    assert_eq!(decode_byte(0x82), '\u{e9}');
    assert_eq!(decode_byte(0xe1), '\u{df}');
    assert_eq!(decode_byte(0xff), '\u{a0}');
    let decoded = from_cp437(&vec![b'n', 0x82, b'e']);
    let text: String = decoded.into_iter().collect();
    assert_eq!(text, "n\u{e9}e");
}

#[test]
fn datetime_from_msdos_exact() {
    let date: u16 = (5 << 9) | (6 << 5) | 7;
    let time: u16 = (13 << 11) | (59 << 5) | 15;
    let dt = DateTime::from_msdos(date, time);
    assert_eq!(dt.year, 1985);
    assert_eq!(dt.month, 6);
    assert_eq!(dt.day, 7);
    assert_eq!(dt.hour, 13);
    assert_eq!(dt.minute, 59);
    assert_eq!(dt.second, 30);
}

#[test]
fn datetime_range_error() {
    assert!(DateTime::from_date_and_time(1985, 6, 7, 13, 59, 30).is_ok());
    let err: DateTimeRangeError =
        DateTime::from_date_and_time(1979, 6, 7, 13, 59, 30).unwrap_err();
    assert!(err.message().contains("MS-DOS"));
    assert!(DateTime::from_date_and_time(2108, 1, 1, 0, 0, 0).is_err());
    assert!(DateTime::from_date_and_time(2000, 13, 1, 0, 0, 0).is_err());
}

#[test]
fn compression_method_tags() {
    assert_eq!(CompressionMethod::from_u16(0), CompressionMethod::Stored);
    assert_eq!(CompressionMethod::from_u16(8), CompressionMethod::Deflated);
    assert_eq!(CompressionMethod::from_u16(99), CompressionMethod::Aes);
    assert_eq!(CompressionMethod::from_u16(12), CompressionMethod::Unsupported(12));
    assert_eq!(System::from_u8(0), System::Dos);
    assert_eq!(System::from_u8(3), System::Unix);
    assert_eq!(System::from_u8(9), System::Unknown);
}

#[test]
fn error_messages() {
    assert_eq!(ZipError::FileNotFound.message(), "specified file not found in archive");
    assert_eq!(ZipError::InvalidArchive("CRC mismatch").message(), "CRC mismatch");
    assert_eq!(
        ZipError::UnsupportedArchive("Compression method not supported").message(),
        "Compression method not supported"
    );
}
