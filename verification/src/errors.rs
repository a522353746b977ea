//! Error values returned by the decoders and the signing entry points.

use vstd::prelude::*;

verus! {

/// Why a byte buffer failed to decode into a key or a DER structure.
///
/// Every variant is recoverable for the caller: the input is rejected and
/// nothing else happens.
#[derive(Debug, Clone, PartialEq, Eq, Structural)]
pub enum DecodingError {
    /// The buffer ends before the structure it should hold does.
    Truncated,
    /// A DER tag differs from the one the structure requires here.
    UnexpectedTag,
    /// A DER length field is malformed, non-minimal, or runs past the buffer.
    BadLength,
    /// The algorithm identifier is not the one this decoder accepts.
    UnexpectedOid,
    /// A BIT STRING carries a nonzero count of unused bits.
    UnusedBits,
    /// The provider rejected the key material itself.
    BadKeyMaterial,
    /// The algorithm tag of a key envelope is none of the known ones.
    UnknownAlgorithm(u8),
}

/// The underlying provider failed to produce a signature.
///
/// This is not expected under correct key material; callers treat it as a
/// fatal condition to report, not to retry.
#[derive(Debug, Clone, PartialEq, Eq, Structural)]
pub struct SigningError;

} // verus!
