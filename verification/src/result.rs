//! Error types that the library's operations return.

use vstd::prelude::*;

verus! {

/// The failure conditions that an in-memory byte source can report.
///
/// The underlying source is a bounded buffer, so the only read failure it
/// can produce on its own is running past the end of the data.
#[derive(Debug, Clone, Copy, PartialEq, Eq, Structural)]
pub enum IoError {
    /// A read asked for more bytes than the source still holds.
    UnexpectedEof,
    /// The bytes handed to a decoder are not a well-formed compressed stream.
    InvalidData,
    /// The archive's byte source is not in its slot (an entry reader holds it).
    SourceNotAvailable,
}

/// Error type for all archive operations.
#[derive(Debug)]
pub enum ZipError {
    /// An error of the byte source itself.
    Io(IoError),
    /// The archive's structure is malformed.
    InvalidArchive(&'static str),
    /// The archive is well-formed but uses a feature this reader does not handle.
    UnsupportedArchive(&'static str),
    /// An entry lookup missed.
    FileNotFound,
    /// Reserved for encrypted payloads.
    InvalidPassword,
}

/// Generic result type with ZipError as its error variant.
pub type ZipResult<T> = Result<T, ZipError>;

/// The two errors are the same failure: same variant, same message.
pub open spec fn spec_same_error(a: ZipError, b: ZipError) -> bool {
    match (a, b) {
        (ZipError::Io(x), ZipError::Io(y)) => x == y,
        (ZipError::InvalidArchive(m), ZipError::InvalidArchive(n)) => m@ == n@,
        (ZipError::UnsupportedArchive(m), ZipError::UnsupportedArchive(n)) => m@ == n@,
        (ZipError::FileNotFound, ZipError::FileNotFound) => true,
        (ZipError::InvalidPassword, ZipError::InvalidPassword) => true,
        _ => false,
    }
}

/// Error type for time conversion: the given moment cannot be carried by the
/// MS-DOS date format.
#[derive(Debug, Clone, Copy, PartialEq, Eq, Structural)]
pub struct DateTimeRangeError;

impl DateTimeRangeError {
    /// What went wrong, in words.
    pub fn message(&self) -> (r: &'static str)
        ensures
            r@ == "a date could not be represented within the bounds the MS-DOS date range (1980-2107)"@,
    {
        "a date could not be represented within the bounds the MS-DOS date range (1980-2107)"
    }
}

impl ZipError {
    /// What went wrong, in words.
    pub fn message(&self) -> (r: &'static str)
        ensures
            match self {
                ZipError::Io(_) => r@ == "i/o error"@,
                ZipError::InvalidArchive(m) => r@ == m@,
                ZipError::UnsupportedArchive(m) => r@ == m@,
                ZipError::FileNotFound => r@ == "specified file not found in archive"@,
                ZipError::InvalidPassword => r@ == "invalid password for file in archive"@,
            },
    {
        match self {
            ZipError::Io(_) => "i/o error",
            ZipError::InvalidArchive(m) => m,
            ZipError::UnsupportedArchive(m) => m,
            ZipError::FileNotFound => "specified file not found in archive",
            ZipError::InvalidPassword => "invalid password for file in archive",
        }
    }
}

} // verus!
