//! Error types for decoding, construction, queries and snapshot updates.

use vstd::prelude::*;

verus! {

/// Why a byte region was rejected as a serialized mask.
#[derive(Clone, Copy, Debug, PartialEq, Eq, Structural)]
pub enum MaskDecodeError {
    /// The region is too short to hold the length field.
    BufferLength { actual: usize, expected: usize },
    /// The region declares more payload bytes than it holds.
    DataLength { actual: usize, expected: usize },
}

/// Why a byte buffer was rejected as a sum2 message.
#[derive(Clone, Copy, Debug, PartialEq, Eq, Structural)]
pub enum DecodeError {
    /// The buffer is shorter than the fixed-length signature prefix.
    BufferLength { actual: usize, expected: usize },
    /// The bytes after the signature do not form a valid mask region.
    InvalidMask { cause: MaskDecodeError },
    /// The signature field could not be read back as a signature.
    /// A buffer that passed validation never produces this.
    InvalidSumSignature,
}

/// Why a service could not be constructed.
#[derive(Clone, Copy, Debug, PartialEq, Eq, Structural)]
pub enum InitError {
    /// A protocol threshold was zero.
    InvalidPetSettings,
    /// The configured mask length was zero or too large to encode.
    InvalidMaskSettings,
}

/// Why a per-key snapshot query failed.
#[derive(Clone, Copy, Debug, PartialEq, Eq, Structural)]
pub enum QueryError {
    /// No round has published the requested dictionary yet.
    NoRound,
    /// The dictionary holds no entry for the given key.
    UnknownKey,
}

/// Why a derived event could not be applied to the snapshot.
#[derive(Clone, Copy, Debug, PartialEq, Eq, Structural)]
pub enum UpdateError {
    /// A dictionary event held two entries with the same key.
    DuplicateKey,
}

/// Why the state machine rejected an inbound message.
#[derive(Clone, Copy, Debug, PartialEq, Eq, Structural)]
pub enum MessageError {
    /// The machine is not in a phase that accepts messages.
    UnexpectedPhase,
    /// The message bytes did not decode as a sum2 message.
    Decode(DecodeError),
    /// The decoded mask payload has a length other than the configured one.
    MaskLength { actual: usize, expected: usize },
}

} // verus!
