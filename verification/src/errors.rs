//! The error taxonomy: every failure the library reports is a tagged
//! variant carrying the path or datum it concerns, and each variant falls
//! into exactly one class of the taxonomy.

use vstd::prelude::*;

verus! {

/// The classes of failure.
#[derive(Clone, Copy, Debug, PartialEq, Eq, Structural)]
pub enum ErrorKind {
    /// Bytes that were expected to be valid text are not.
    Encoding,
    /// A required datum is absent: a path without a filename component,
    /// or a head record that does not exist.
    MissingData,
    /// An underlying read, write or rename failed.
    Io,
    /// The invocation itself is malformed: an unrecognized action code,
    /// or no input line at all.
    Protocol,
}

/// One failure, tagged with the data it concerns.
#[derive(Debug, PartialEq, Eq)]
pub enum Error {
    /// Bytes that should have been valid text are not.
    InvalidText { context: Vec<u8> },
    /// `path` has no final filename component.
    NoFilename { path: Vec<u8> },
    /// The head record at `record_path` is absent or unreadable.
    HeadRecordMissing { record_path: Vec<u8> },
    /// A filesystem operation on `path` failed.
    Io { path: Vec<u8> },
    /// The action code `key` is not recognized.
    UnknownAction { key: Vec<u8> },
    /// The input stream yielded no line.
    NoInput,
}

impl Error {
    /// The class this error belongs to.
    pub open spec fn kind_spec(&self) -> ErrorKind {
        match self {
            Error::InvalidText { .. } => ErrorKind::Encoding,
            Error::NoFilename { .. } => ErrorKind::MissingData,
            Error::HeadRecordMissing { .. } => ErrorKind::MissingData,
            Error::Io { .. } => ErrorKind::Io,
            Error::UnknownAction { .. } => ErrorKind::Protocol,
            Error::NoInput => ErrorKind::Protocol,
        }
    }

    /// The class this error belongs to.
    pub fn kind(&self) -> (k: ErrorKind)
        ensures
            k == self.kind_spec(),
    {
        match self {
            Error::InvalidText { .. } => ErrorKind::Encoding,
            Error::NoFilename { .. } => ErrorKind::MissingData,
            Error::HeadRecordMissing { .. } => ErrorKind::MissingData,
            Error::Io { .. } => ErrorKind::Io,
            Error::UnknownAction { .. } => ErrorKind::Protocol,
            Error::NoInput => ErrorKind::Protocol,
        }
    }
}

} // verus!
