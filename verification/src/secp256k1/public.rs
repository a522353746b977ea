//! A secp256k1 public key.

use vstd::prelude::*;

use crate::secp256k1::provider;
use crate::util::bytes_eq;

verus! {

/// A secp256k1 public key: a 33-byte SEC1-compressed curve point.
pub struct PublicKey {
    pub(crate) bytes: [u8; 33],
}

impl View for PublicKey {
    type V = Seq<u8>;

    closed spec fn view(&self) -> Seq<u8> {
        self.bytes@
    }
}

impl PublicKey {
    /// Wrap 33 already-validated compressed point bytes.
    pub(crate) fn from_array(bytes: [u8; 33]) -> (r: PublicKey)
        ensures
            r@ == bytes@,
    {
        PublicKey { bytes }
    }

    /// A well-formed public key's bytes decode as a compressed point.
    pub open spec fn wf(&self) -> bool {
        provider::secp_pk_ok(self@) && self@.len() == 33
    }

    /// Verify a DER-encoded ECDSA signature on a message: SHA-256 first,
    /// then verification over the digest.  False for any malformed
    /// signature, never an error.
    pub fn verify(&self, msg: &[u8], sig: &[u8]) -> (r: bool)
        ensures
            r == provider::secp_verify_der_ok(self@, crate::hash::sha256_of(msg@), sig@),
    {
        let digest: crate::hash::Hash<()> = crate::hash::Hash::do_hash(msg);
        let digest_vec = digest.to_vec();
        self.verify_hash(digest_vec.as_slice(), sig)
    }

    /// Verify a DER-encoded ECDSA signature over a raw 32-byte message.
    pub fn verify_hash(&self, msg: &[u8], sig: &[u8]) -> (r: bool)
        ensures
            r == provider::secp_verify_der_ok(self@, msg@, sig@),
    {
        provider::verify_der(&self.bytes, msg, sig)
    }

    /// Encode the public key in compressed form: the stored 33 bytes.
    pub fn encode(&self) -> (r: [u8; 33])
        ensures
            r@ == self@,
    {
        self.bytes
    }

    /// Encode the public key in uncompressed form, 65 bytes.  Succeeds
    /// exactly when the stored bytes decode as a point, which every
    /// well-formed key's do.
    pub fn encode_uncompressed(&self) -> (r: Result<[u8; 65], String>)
        ensures
            r is Ok <==> provider::secp_pk_ok(self@),
            r matches Ok(u) ==> u@ == provider::secp_uncompressed_of(self@),
            self.wf() ==> r is Ok,
    {
        match provider::uncompress_public(&self.bytes) {
            Ok(u) => Ok(u),
            Err(_) => Err("invalid secp256k1 public key".to_owned()),
        }
    }

    /// Decode a public key from its 33-byte compressed encoding; rejects
    /// buffers of any other length and encodings of no point.
    pub fn decode(k: &[u8]) -> (r: Result<PublicKey, String>)
        ensures
            r is Ok <==> k@.len() == 33 && provider::secp_pk_ok(k@),
            r matches Ok(pk) ==> pk@ == k@ && pk.wf(),
    {
        if !provider::public_key_ok(k) {
            return Err("invalid secp256k1 public key".to_owned());
        }
        let mut bytes: [u8; 33] = [0u8; 33];
        let mut i: usize = 0;
        while i < 33
            invariant
                k@.len() == 33,
                0 <= i <= 33,
                forall|j: int| 0 <= j < i ==> bytes@[j] == k@[j],
            decreases 33 - i,
    {
            bytes[i] = k[i];
            i = i + 1;
        }
        proof {
            assert(bytes@ =~= k@);
        }
        Ok(PublicKey { bytes })
    }
}

impl Clone for PublicKey {
    fn clone(&self) -> (r: Self)
        ensures
            r == *self,
    {
        PublicKey { bytes: self.bytes }
    }
}

impl PartialEq for PublicKey {
    fn eq(&self, other: &Self) -> (r: bool) {
        bytes_eq(self.bytes.as_slice(), other.bytes.as_slice())
    }
}

impl Eq for PublicKey {

}

impl vstd::std_specs::cmp::PartialEqSpecImpl for PublicKey {
    open spec fn obeys_eq_spec() -> bool {
        true
    }

    open spec fn eq_spec(&self, other: &Self) -> bool {
        self@ == other@
    }
}

} // verus!
