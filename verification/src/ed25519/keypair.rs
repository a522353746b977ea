//! An Ed25519 keypair.

use vstd::prelude::*;

use crate::ed25519::provider;
use crate::ed25519::public::PublicKey;
use crate::ed25519::secret::SecretKey;
use crate::errors::DecodingError;
use crate::util::push_slice;
use crate::util::to_array_32;
use vstd::slice::slice_subrange;

verus! {

/// An Ed25519 keypair: a secret key and its public key.
pub struct Keypair {
    pub(crate) sk: SecretKey,
    pub(crate) pk: PublicKey,
}

impl Keypair {
    /// The secret key held by this keypair.
    pub closed spec fn spec_secret(&self) -> SecretKey {
        self.sk
    }

    /// The public key held by this keypair.
    pub closed spec fn spec_public(&self) -> PublicKey {
        self.pk
    }

    /// A well-formed keypair holds a well-formed secret key and the public
    /// key that belongs to it.
    pub open spec fn wf(&self) -> bool {
        &&& self.spec_secret().wf()
        &&& self.spec_public()@ == self.spec_secret().pk_view()
    }

    /// Generate a new Ed25519 keypair; fails only if the operating system
    /// cannot supply entropy.
    pub fn generate() -> (r: Result<Keypair, String>)
        ensures
            r matches Ok(kp) ==> kp.wf(),
    {
        match SecretKey::generate() {
            Ok(sk) => Ok(Self::from_secret(sk)),
            Err(e) => Err(e),
        }
    }

    /// Promote a secret key into a keypair; the stored public key bytes are
    /// taken from the secret key.
    pub fn from_secret(sk: SecretKey) -> (r: Keypair)
        ensures
            r.spec_secret() == sk,
            r.spec_public()@ == sk.pk_view(),
            sk.wf() ==> r.wf(),
    {
        let pk = PublicKey::from_array(sk.pk_array());
        Keypair { sk, pk }
    }

    /// Get the public key of this keypair.
    pub fn public(&self) -> (r: PublicKey)
        ensures
            r == self.spec_public(),
    {
        self.pk.clone()
    }

    /// Get the secret key of this keypair.
    pub fn secret(&self) -> (r: SecretKey)
        ensures
            r == self.spec_secret(),
    {
        self.sk.clone()
    }

    /// The canonical 64-byte encoding: seed bytes followed by public bytes.
    pub fn to_bytes(&self) -> (r: Vec<u8>)
        ensures
            r@ == self.spec_secret().sk_view() + self.spec_secret().pk_view(),
    {
        self.sk.to_bytes()
    }

    /// Decode a keypair from its 64-byte encoding.  The public half must
    /// decode as a curve point; it is not re-derived from the seed, so a
    /// mismatched pair is represented as it was given.
    pub fn from_bytes(b: &[u8]) -> (r: Result<Keypair, DecodingError>)
        ensures
            r is Ok <==> b@.len() == 64 && provider::ed25519_pk_ok(b@.skip(32)),
            r matches Ok(kp) ==> {
                &&& kp.spec_secret().sk_view() == b@.take(32)
                &&& kp.spec_secret().pk_view() == b@.skip(32)
                &&& kp.spec_public()@ == b@.skip(32)
            },
    {
        if b.len() != 64 {
            return Err(DecodingError::Truncated);
        }
        let pk_part = slice_subrange(b, 32, 64);
        if !provider::public_key_ok(pk_part) {
            proof {
                assert(b@.subrange(32, 64) =~= b@.skip(32));
            }
            return Err(DecodingError::BadKeyMaterial);
        }
        let sk_part = slice_subrange(b, 0, 32);
        let sk = SecretKey::from_parts(to_array_32(sk_part), to_array_32(pk_part));
        let pk = PublicKey::from_array(sk.pk_array());
        proof {
            assert(b@.subrange(0, 32) =~= b@.take(32));
            assert(b@.subrange(32, 64) =~= b@.skip(32));
        }
        Ok(Keypair { sk, pk })
    }
}

impl Clone for Keypair {
    fn clone(&self) -> (r: Self)
        ensures
            r == *self,
    {
        Keypair { sk: self.sk.clone(), pk: self.pk.clone() }
    }
}

/// Decoding the canonical encoding of a well-formed keypair reconstructs a
/// keypair with the same secret and public bytes: the Ed25519 round-trip
/// law at the byte level.
pub proof fn lemma_keypair_round_trip(kp: Keypair, b: Seq<u8>)
    requires
        kp.wf(),
        b == kp.spec_secret().sk_view() + kp.spec_secret().pk_view(),
    ensures
        b.len() == 64,
        provider::ed25519_pk_ok(b.skip(32)),
        b.take(32) == kp.spec_secret().sk_view(),
        b.skip(32) == kp.spec_secret().pk_view(),
{
    assert(b.take(32) =~= kp.spec_secret().sk_view());
    assert(b.skip(32) =~= kp.spec_secret().pk_view());
}

/// The other direction: a keypair decoded from 64 bytes re-encodes to the
/// very same bytes.  The hypothesis states exactly what `from_bytes`
/// ensures of its result.
pub proof fn lemma_keypair_decode_encode(b: Seq<u8>, kp: Keypair)
    ensures
        (b.len() == 64 && kp.spec_secret().sk_view() == b.take(32) && kp.spec_secret().pk_view()
            == b.skip(32)) ==> kp.spec_secret().sk_view() + kp.spec_secret().pk_view() == b,
{
    if b.len() == 64 && kp.spec_secret().sk_view() == b.take(32) && kp.spec_secret().pk_view()
        == b.skip(32) {
        assert(b.take(32) + b.skip(32) =~= b);
    }
}

} // verus!
