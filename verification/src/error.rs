//! The ways in which decoding or encoding a movie can fail.

use vstd::prelude::*;

verus! {

/// Why a buffer could not be decoded, or a movie not encoded.  Every failure
/// of the codec is one of these; none of them is recovered from silently.
#[derive(Clone, Copy, Debug, PartialEq, Eq, Structural)]
pub enum M64Error {
    /// The buffer is shorter than the header.
    BufferTooSmall,
    /// A text field holds more bytes than its place in the header.
    FieldTooLong,
    /// A text field holds a byte outside ASCII, and ASCII was asked for.
    InvalidTextEncoding,
    /// None of the four low bits of the controller flags is set.
    NoActiveControllers,
    /// The bytes after the header do not make up whole sample records.
    TruncatedSampleData,
    /// The active controllers do not all hold the same number of samples,
    /// or a controller that is not active holds some.
    MismatchedControllerLengths,
}

} // verus!
