//! The error type of the decoder.
use vstd::prelude::*;

verus! {

/// Why a buffer could not be decoded as a QVM image.
///
/// Every error is a property of the input bytes alone: decoding the same
/// buffer again gives the same error.
#[derive(Debug, Clone, Copy, PartialEq, Eq, Structural)]
pub enum DecodeError {
    /// The first four bytes are not the signature of a QVM image.
    BadMagic,
    /// The signature names a revision of the format that is not decoded here.
    UnsupportedVersion,
    /// A code-segment byte (the first field) at a buffer offset (the second
    /// field) names no opcode.
    UnknownOpcode(u8, usize),
    /// Fewer bytes remain than a field, an operand or a segment needs.
    Truncated,
    /// The segments overlap or are out of order, a length is not a required
    /// multiple, or the code segment holds bytes beyond its instructions.
    InvalidLayout,
    /// Bytes follow the last segment.
    TrailingData,
}

} // verus!
