//! The RSA members of the dispatch layer.

use vstd::prelude::*;

use crate::errors::DecodingError;
use crate::rsa::provider;
use crate::sig::traits::Signature;
use crate::util::bytes_eq;
use std::sync::Arc;
use vstd::slice::slice_to_vec;

verus! {

/// An RSA public key of the dispatch layer: DER-encoded PKCS#1
/// RSAPublicKey bytes, used directly as the verifier key.
pub struct RSAPublicKey(pub(crate) Vec<u8>);

impl View for RSAPublicKey {
    type V = Seq<u8>;

    closed spec fn view(&self) -> Seq<u8> {
        self.0@
    }
}

impl RSAPublicKey {
    /// Wrap PKCS#1 RSAPublicKey bytes; no validation happens here, the
    /// bytes are judged at verification time.
    pub fn from_vec(bytes: Vec<u8>) -> (r: Self)
        ensures
            r@ == bytes@,
    {
        RSAPublicKey(bytes)
    }

    /// The PKCS#1 bytes.
    pub fn to_bytes(&self) -> (r: Vec<u8>)
        ensures
            r@ == self@,
    {
        slice_to_vec(self.0.as_slice())
    }

    /// Verify a signature over a digest: true exactly when the RSA PKCS#1
    /// v1.5 SHA-256 verifier accepts the signature over the 32 digest
    /// bytes.
    pub(crate) fn verify_cached<T>(&self, data_hash: &crate::hash::Hash<T>, sig: &Signature<T>) -> (r: Result<
        (),
        String,
    >)
        ensures
            r is Ok <==> provider::rsa_verify_ok(self@, data_hash@, sig@),
    {
        if provider::verify(self.0.as_slice(), data_hash.as_bytes(), sig.as_bytes()) {
            Ok(())
        } else {
            Err("failed to verify RSA signature".to_owned())
        }
    }
}

impl PartialEq for RSAPublicKey {
    fn eq(&self, other: &Self) -> (r: bool) {
        bytes_eq(self.0.as_slice(), other.0.as_slice())
    }
}

impl Eq for RSAPublicKey {

}

impl vstd::std_specs::cmp::PartialEqSpecImpl for RSAPublicKey {
    open spec fn obeys_eq_spec() -> bool {
        true
    }

    open spec fn eq_spec(&self, other: &Self) -> bool {
        self@ == other@
    }
}

/// An RSA private key of the dispatch layer: the shared parsed handle and
/// the PKCS#1 RSAPrivateKey DER bytes it was parsed from.
pub struct RSAPrivateKey {
    pub(crate) key: Arc<ring::signature::RsaKeyPair>,
    pub(crate) der: Vec<u8>,
}

impl RSAPrivateKey {
    /// The stored DER bytes.
    pub closed spec fn spec_der(&self) -> Seq<u8> {
        self.der@
    }

    /// The source bytes the handle was parsed from.
    pub closed spec fn spec_src(&self) -> Seq<u8> {
        provider::rsa_keypair_src(self.key)
    }

    /// A well-formed RSA private key's stored bytes are a valid PKCS#1
    /// RSAPrivateKey and are what its handle was parsed from.
    pub open spec fn wf(&self) -> bool {
        &&& provider::rsa_der_ok(self.spec_der())
        &&& self.spec_src() == self.spec_der()
    }

    /// The canonical encoding: the stored DER bytes.
    pub fn to_bytes(&self) -> (r: Vec<u8>)
        ensures
            r@ == self.spec_der(),
    {
        slice_to_vec(self.der.as_slice())
    }

    /// Decode a private key from PKCS#1 RSAPrivateKey DER bytes.
    pub fn from_bytes(b: &[u8]) -> (r: Result<Self, DecodingError>)
        ensures
            r is Ok <==> provider::rsa_der_ok(b@),
            r matches Ok(k) ==> k.spec_der() == b@ && k.wf(),
            r is Err ==> r == Err::<Self, DecodingError>(DecodingError::BadKeyMaterial),
    {
        match provider::from_der(b) {
            Ok(key) => Ok(RSAPrivateKey { key, der: slice_to_vec(b) }),
            Err(_) => Err(DecodingError::BadKeyMaterial),
        }
    }

    /// The PKCS#1 public key bytes of the handle.
    pub(crate) fn public(&self) -> (r: RSAPublicKey)
        ensures
            r@ == provider::rsa_pub_of(self.spec_src()),
            r@.len() <= 600,
    {
        RSAPublicKey(provider::public_key_bytes(&self.key))
    }

    /// Sign a digest: the deterministic RSA PKCS#1 v1.5 SHA-256 signature
    /// over the 32 digest bytes, one modulus length long.  The provider
    /// reports failure only on its internal fault checks.
    pub(crate) fn sign_cached<T>(&self, data_hash: &crate::hash::Hash<T>) -> (r: Result<Signature<T>, String>)
        ensures
            r matches Ok(s) ==> {
                &&& s@ == provider::rsa_sig_of(self.spec_src(), data_hash@)
                &&& s@.len() == provider::rsa_modulus_len(self.spec_src())
            },
    {
        match provider::sign(&self.key, data_hash.as_bytes()) {
            Ok(s) => Ok(Signature::from_raw_buf(s)),
            Err(_) => Err("RSA signing failed".to_owned()),
        }
    }
}

impl Clone for RSAPrivateKey {
    fn clone(&self) -> (r: Self)
        ensures
            r.spec_der() == self.spec_der(),
            r.spec_src() == self.spec_src(),
    {
        RSAPrivateKey {
            key: provider::clone_handle(&self.key),
            der: slice_to_vec(self.der.as_slice()),
        }
    }
}

} // verus!
