//! An Ed25519 public key.

use vstd::prelude::*;

use crate::ed25519::provider;
use crate::errors::DecodingError;
use crate::util::bytes_eq;
use vstd::slice::slice_to_vec;

verus! {

/// An Ed25519 public key: a 32-byte compressed curve point.
pub struct PublicKey {
    pub(crate) bytes: [u8; 32],
}

impl View for PublicKey {
    type V = Seq<u8>;

    closed spec fn view(&self) -> Seq<u8> {
        self.bytes@
    }
}

impl PublicKey {
    /// Wrap 32 already-validated public key bytes.
    pub(crate) fn from_array(bytes: [u8; 32]) -> (r: PublicKey)
        ensures
            r@ == bytes@,
    {
        PublicKey { bytes }
    }

    /// A well-formed public key's bytes decode as a curve point.
    pub open spec fn wf(&self) -> bool {
        provider::ed25519_pk_ok(self@) && self@.len() == 32
    }

    /// Verify an Ed25519 signature on a message using this public key.
    ///
    /// False for any malformed signature, never an error.
    pub fn verify(&self, msg: &[u8], sig: &[u8]) -> (r: bool)
        ensures
            r == provider::ed25519_verify_ok(self@, msg@, sig@),
    {
        provider::verify(&self.bytes, msg, sig)
    }

    /// The 32 public key bytes.
    pub fn to_bytes(&self) -> (r: Vec<u8>)
        ensures
            r@ == self@,
    {
        slice_to_vec(self.bytes.as_slice())
    }

    /// Decode a public key from its 32-byte encoding; rejects byte strings
    /// of any other length and encodings of no curve point.
    pub fn from_bytes(b: &[u8]) -> (r: Result<PublicKey, DecodingError>)
        ensures
            r is Ok <==> b@.len() == 32 && provider::ed25519_pk_ok(b@),
            r matches Ok(pk) ==> pk@ == b@ && pk.wf(),
    {
        if !provider::public_key_ok(b) {
            return Err(DecodingError::BadKeyMaterial);
        }
        Ok(PublicKey { bytes: crate::util::to_array_32(b) })
    }
}

impl Clone for PublicKey {
    fn clone(&self) -> (r: Self)
        ensures
            r == *self,
    {
        PublicKey { bytes: self.bytes }
    }
}

impl PartialEq for PublicKey {
    fn eq(&self, other: &Self) -> (r: bool) {
        bytes_eq(self.bytes.as_slice(), other.bytes.as_slice())
    }
}

impl Eq for PublicKey {

}

impl vstd::std_specs::cmp::PartialEqSpecImpl for PublicKey {
    open spec fn obeys_eq_spec() -> bool {
        true
    }

    open spec fn eq_spec(&self, other: &Self) -> bool {
        self@ == other@
    }
}

} // verus!
