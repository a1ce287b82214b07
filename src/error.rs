//! Errors of the library.

use vstd::prelude::*;

verus! {

/// Why an operation failed. Every failure ends the operation: nothing is retried.
#[derive(Debug, Clone, PartialEq, Eq)]
pub enum Error {
    /// A chunk stream shorter than its 12-byte header.
    TooShort,
    /// A chunk stream that does not start with the `pbzx` marker.
    BadMagic,
    /// A chunk whose declared length runs past the end of the stream.
    TruncatedChunk,
    /// The XZ codec failed on a chunk.
    Codec,
    /// A chunk size of zero was asked for.
    InvalidChunkSize,
    /// The outer container holds no `Payload` entry.
    MissingPayload,
    /// The archive engine reported a failure, with its code and message.
    Archive { code: i32, message: String },
    /// An argument the archive engine cannot take (a path with a NUL byte, say).
    InvalidArgument(String),
}

/// Result of the library's operations.
pub type Result<T> = core::result::Result<T, Error>;

} // verus!
