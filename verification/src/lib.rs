//! A ZIP archive reader: locates and parses the central directory of an
//! archive held in a seekable byte source, and streams per-entry bytes
//! through store/deflate decoders with CRC-32 validation.

pub mod central;
pub mod cp437;
pub mod crc32;
pub mod extraction;
pub mod inflate;
pub mod laws;
pub mod name_index;
pub mod read;
pub mod result;
pub mod source;
pub mod text;
pub mod trailer;
pub mod types;
pub mod wire;

pub use extraction::CompletedPaths;
pub use read::{
    find_content, get_reader, DeflateReader, ReaderWrapper, Shared, StoredReader, ZipArchive,
    ZipFile, ZipFileWrappedReader,
};
pub use result::{DateTimeRangeError, IoError, ZipError, ZipResult};
pub use source::{Limiter, ZipSource};
pub use types::{AesMode, AesVendorVersion, CompressionMethod, DateTime, System, ZipFileData};
