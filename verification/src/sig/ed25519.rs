//! The Ed25519 members of the dispatch layer.

use vstd::prelude::*;

use crate::ed25519::provider;
use crate::errors::DecodingError;
use crate::sig::traits::Signature;
use crate::util::bytes_eq;
use crate::util::push_slice;
use crate::util::to_array_32;
use vstd::slice::slice_subrange;
use vstd::slice::slice_to_vec;

verus! {

/// An Ed25519 public key of the dispatch layer: a 32-byte point.
pub struct ED25519PublicKey {
    pub(crate) bytes: [u8; 32],
}

impl View for ED25519PublicKey {
    type V = Seq<u8>;

    closed spec fn view(&self) -> Seq<u8> {
        self.bytes@
    }
}

impl ED25519PublicKey {
    /// A well-formed public key's bytes decode as a curve point.
    pub open spec fn wf(&self) -> bool {
        provider::ed25519_pk_ok(self@) && self@.len() == 32
    }

    /// Wrap 32 already-validated public key bytes.
    pub(crate) fn from_array(bytes: [u8; 32]) -> (r: Self)
        ensures
            r@ == bytes@,
    {
        ED25519PublicKey { bytes }
    }

    /// The canonical 32-byte encoding.
    pub fn to_bytes(&self) -> (r: Vec<u8>)
        ensures
            r@ == self@,
    {
        slice_to_vec(self.bytes.as_slice())
    }

    /// Decode a public key from its 32-byte encoding.
    pub fn from_bytes(b: &[u8]) -> (r: Result<Self, DecodingError>)
        ensures
            r is Ok <==> (b@.len() == 32 && provider::ed25519_pk_ok(b@)),
            r matches Ok(pk) ==> pk@ == b@ && pk.wf(),
            r is Err ==> r == Err::<Self, DecodingError>(DecodingError::BadKeyMaterial),
    {
        if !provider::public_key_ok(b) {
            return Err(DecodingError::BadKeyMaterial);
        }
        Ok(ED25519PublicKey { bytes: to_array_32(b) })
    }

    /// Verify a signature over a digest: true exactly when the Ed25519
    /// verifier accepts the signature bytes over the 32 digest bytes.
    pub(crate) fn verify_cached<T>(&self, data_hash: &crate::hash::Hash<T>, sig: &Signature<T>) -> (r: Result<
        (),
        String,
    >)
        ensures
            r is Ok <==> provider::ed25519_verify_ok(self@, data_hash@, sig@),
    {
        if provider::verify(&self.bytes, data_hash.as_bytes(), sig.as_bytes()) {
            Ok(())
        } else {
            Err("failed to verify ed25519 signature".to_owned())
        }
    }
}

impl PartialEq for ED25519PublicKey {
    fn eq(&self, other: &Self) -> (r: bool) {
        bytes_eq(self.bytes.as_slice(), other.bytes.as_slice())
    }
}

impl Eq for ED25519PublicKey {

}

impl vstd::std_specs::cmp::PartialEqSpecImpl for ED25519PublicKey {
    open spec fn obeys_eq_spec() -> bool {
        true
    }

    open spec fn eq_spec(&self, other: &Self) -> bool {
        self@ == other@
    }
}

/// An Ed25519 private key of the dispatch layer: the seed and the stored
/// public key point.
pub struct ED25519PrivateKey {
    pub(crate) sk: [u8; 32],
    pub(crate) pk: [u8; 32],
}

impl ED25519PrivateKey {
    /// The seed bytes.
    pub closed spec fn sk_view(&self) -> Seq<u8> {
        self.sk@
    }

    /// The stored public key bytes.
    pub closed spec fn pk_view(&self) -> Seq<u8> {
        self.pk@
    }

    /// A well-formed private key stores a decodable public point.  The
    /// decoded form carries the point as it was given, so the pair is not
    /// forced to match; signing with a mismatched pair yields signatures
    /// that verify under no key.
    pub open spec fn wf(&self) -> bool {
        &&& provider::ed25519_pk_ok(self.pk_view())
        &&& self.sk_view().len() == 32
        &&& self.pk_view().len() == 32
    }

    /// Build a private key from a 32-byte seed, deriving its public key.
    pub fn from_seed(seed: &[u8; 32]) -> (r: Self)
        ensures
            r.sk_view() == seed@,
            r.pk_view() == provider::ed25519_pub_of(seed@),
            r.wf(),
    {
        let pk = provider::derive_public(seed);
        ED25519PrivateKey { sk: *seed, pk }
    }

    /// The canonical 64-byte encoding: seed bytes then public bytes.
    pub fn to_bytes(&self) -> (r: Vec<u8>)
        ensures
            r@ == self.sk_view() + self.pk_view(),
    {
        let mut out: Vec<u8> = Vec::new();
        push_slice(&mut out, self.sk.as_slice());
        push_slice(&mut out, self.pk.as_slice());
        proof {
            assert(out@ =~= self.sk_view() + self.pk_view());
        }
        out
    }

    /// Decode a private key from its 64-byte encoding.  The public half
    /// must decode as a point; it is not re-derived from the seed.
    pub fn from_bytes(b: &[u8]) -> (r: Result<Self, DecodingError>)
        ensures
            r is Ok <==> (b@.len() == 64 && provider::ed25519_pk_ok(b@.skip(32))),
            r matches Ok(k) ==> k.sk_view() == b@.take(32) && k.pk_view() == b@.skip(32) && k.wf(),
            b@.len() != 64 ==> r == Err::<Self, DecodingError>(DecodingError::Truncated),
            b@.len() == 64 && !provider::ed25519_pk_ok(b@.skip(32)) ==> r == Err::<
                Self,
                DecodingError,
            >(DecodingError::BadKeyMaterial),
    {
        if b.len() != 64 {
            return Err(DecodingError::Truncated);
        }
        let pk_part = slice_subrange(b, 32, 64);
        proof {
            assert(b@.subrange(32, 64) =~= b@.skip(32));
        }
        if !provider::public_key_ok(pk_part) {
            return Err(DecodingError::BadKeyMaterial);
        }
        let sk_part = slice_subrange(b, 0, 32);
        proof {
            assert(b@.subrange(0, 32) =~= b@.take(32));
        }
        Ok(ED25519PrivateKey { sk: to_array_32(sk_part), pk: to_array_32(pk_part) })
    }

    /// The stored public key.
    pub(crate) fn public(&self) -> (r: ED25519PublicKey)
        ensures
            r@ == self.pk_view(),
    {
        ED25519PublicKey { bytes: self.pk }
    }

    /// Sign a digest: the deterministic 64-byte Ed25519 signature over the
    /// 32 digest bytes.  Succeeds exactly when the stored point decodes.
    pub(crate) fn sign_cached<T>(&self, data_hash: &crate::hash::Hash<T>) -> (r: Result<Signature<T>, String>)
        ensures
            r is Ok <==> provider::ed25519_pk_ok(self.pk_view()),
            r matches Ok(s) ==> s@ == provider::ed25519_sig_of(
                self.sk_view(),
                self.pk_view(),
                data_hash@,
            ),
    {
        match provider::sign(&self.sk, &self.pk, data_hash.as_bytes()) {
            Ok(s) => Ok(Signature::from_raw_buf(s)),
            Err(_) => Err("invalid ed25519 public key material".to_owned()),
        }
    }
}

} // verus!
