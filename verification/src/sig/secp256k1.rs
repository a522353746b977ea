//! The secp256k1 members of the dispatch layer.
//!
//! Signatures here travel in the 64-byte compact form, unlike the
//! DER-encoded ones of the standalone secp256k1 key module.

use vstd::prelude::*;

use crate::errors::DecodingError;
use crate::secp256k1::provider;
use crate::sig::traits::Signature;
use crate::util::bytes_eq;
use crate::util::to_array_32;
use vstd::slice::slice_to_vec;

verus! {

/// A secp256k1 public key of the dispatch layer: a 33-byte compressed
/// point.
pub struct SECP256K1PublicKey {
    pub(crate) bytes: [u8; 33],
}

impl View for SECP256K1PublicKey {
    type V = Seq<u8>;

    closed spec fn view(&self) -> Seq<u8> {
        self.bytes@
    }
}

impl SECP256K1PublicKey {
    /// A well-formed public key's bytes decode as a compressed point.
    pub open spec fn wf(&self) -> bool {
        provider::secp_pk_ok(self@) && self@.len() == 33
    }

    /// Wrap 33 already-validated compressed point bytes.
    pub(crate) fn from_array(bytes: [u8; 33]) -> (r: Self)
        ensures
            r@ == bytes@,
    {
        SECP256K1PublicKey { bytes }
    }

    /// The canonical 33-byte compressed encoding.
    pub fn to_bytes(&self) -> (r: Vec<u8>)
        ensures
            r@ == self@,
    {
        slice_to_vec(self.bytes.as_slice())
    }

    /// Decode a public key from its 33-byte compressed encoding.
    pub fn from_bytes(b: &[u8]) -> (r: Result<Self, DecodingError>)
        ensures
            r is Ok <==> (b@.len() == 33 && provider::secp_pk_ok(b@)),
            r matches Ok(pk) ==> pk@ == b@ && pk.wf(),
            r is Err ==> r == Err::<Self, DecodingError>(DecodingError::BadKeyMaterial),
    {
        if !provider::public_key_ok(b) {
            return Err(DecodingError::BadKeyMaterial);
        }
        let mut bytes: [u8; 33] = [0u8; 33];
        let mut i: usize = 0;
        while i < 33
            invariant
                b@.len() == 33,
                0 <= i <= 33,
                forall|j: int| 0 <= j < i ==> bytes@[j] == b@[j],
            decreases 33 - i,
        {
            bytes[i] = b[i];
            i = i + 1;
        }
        proof {
            assert(bytes@ =~= b@);
        }
        Ok(SECP256K1PublicKey { bytes })
    }

    /// Verify a compact signature over a digest: true exactly when the
    /// ECDSA verifier accepts the 64-byte signature over the 32 digest
    /// bytes.
    pub(crate) fn verify_cached<T>(&self, data_hash: &crate::hash::Hash<T>, sig: &Signature<T>) -> (r: Result<
        (),
        String,
    >)
        ensures
            r is Ok <==> provider::secp_verify_ok(self@, data_hash@, sig@),
    {
        if provider::verify_compact(&self.bytes, data_hash.as_bytes(), sig.as_bytes()) {
            Ok(())
        } else {
            Err("failed to verify secp256k1 signature".to_owned())
        }
    }
}

impl PartialEq for SECP256K1PublicKey {
    fn eq(&self, other: &Self) -> (r: bool) {
        bytes_eq(self.bytes.as_slice(), other.bytes.as_slice())
    }
}

impl Eq for SECP256K1PublicKey {

}

impl vstd::std_specs::cmp::PartialEqSpecImpl for SECP256K1PublicKey {
    open spec fn obeys_eq_spec() -> bool {
        true
    }

    open spec fn eq_spec(&self, other: &Self) -> bool {
        self@ == other@
    }
}

/// A secp256k1 private key of the dispatch layer: a valid 32-byte scalar.
pub struct SECP256K1PrivateKey {
    pub(crate) bytes: [u8; 32],
}

impl View for SECP256K1PrivateKey {
    type V = Seq<u8>;

    closed spec fn view(&self) -> Seq<u8> {
        self.bytes@
    }
}

impl SECP256K1PrivateKey {
    /// A well-formed private key holds a valid scalar.
    pub open spec fn wf(&self) -> bool {
        provider::secp_sk_ok(self@) && self@.len() == 32
    }

    /// Wrap 32 already-validated scalar bytes.
    pub(crate) fn from_array(bytes: [u8; 32]) -> (r: Self)
        ensures
            r@ == bytes@,
    {
        SECP256K1PrivateKey { bytes }
    }

    /// The canonical 32-byte encoding: the scalar itself.
    pub fn to_bytes(&self) -> (r: Vec<u8>)
        ensures
            r@ == self@,
    {
        slice_to_vec(self.bytes.as_slice())
    }

    /// Decode a private key from its 32 scalar bytes.
    pub fn from_bytes(b: &[u8]) -> (r: Result<Self, DecodingError>)
        ensures
            r is Ok <==> (b@.len() == 32 && provider::secp_sk_ok(b@)),
            r matches Ok(k) ==> k@ == b@ && k.wf(),
            r is Err ==> r == Err::<Self, DecodingError>(DecodingError::BadKeyMaterial),
    {
        if !provider::secret_key_ok(b) {
            return Err(DecodingError::BadKeyMaterial);
        }
        Ok(SECP256K1PrivateKey { bytes: to_array_32(b) })
    }

    /// The compressed public point of this key; succeeds exactly when the
    /// scalar is valid, which every constructed key's is.
    pub(crate) fn public(&self) -> (r: Result<SECP256K1PublicKey, String>)
        ensures
            r is Ok <==> provider::secp_sk_ok(self@),
            r matches Ok(pk) ==> pk@ == provider::secp_pub_of(self@) && pk.wf(),
    {
        match provider::derive_public(&self.bytes) {
            Ok(pk) => Ok(SECP256K1PublicKey { bytes: pk }),
            Err(_) => Err("invalid secp256k1 secret key".to_owned()),
        }
    }

    /// Sign a digest: the deterministic 64-byte compact ECDSA signature
    /// over the 32 digest bytes.  Succeeds exactly when the scalar is
    /// valid.
    pub(crate) fn sign_cached<T>(&self, data_hash: &crate::hash::Hash<T>) -> (r: Result<Signature<T>, String>)
        ensures
            r is Ok <==> provider::secp_sk_ok(self@),
            r matches Ok(s) ==> s@ == provider::secp_sig_of(self@, data_hash@),
    {
        match provider::sign_compact(&self.bytes, data_hash.as_bytes()) {
            Ok(s) => Ok(Signature::from_raw_buf(s)),
            Err(_) => Err("secp256k1 signing failed".to_owned()),
        }
    }
}

} // verus!
