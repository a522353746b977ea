//! The single entry point through which key generation draws randomness.

use vstd::prelude::*;

use rand::RngCore;

verus! {

/// Relies on rand::thread_rng / try_fill_bytes for key-generation entropy.
/// Nothing is assumed of the bytes that come back; failure reports that the
/// operating system could not supply randomness.
#[verifier::external_body]
pub(crate) fn random_bytes_32() -> (r: Result<[u8; 32], ()>) {
    let mut bytes = [0u8; 32];
    match rand::thread_rng().try_fill_bytes(&mut bytes) {
        Ok(()) => Ok(bytes),
        Err(_) => Err(()),
    }
}

} // verus!
