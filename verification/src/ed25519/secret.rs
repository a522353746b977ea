//! An Ed25519 secret key.

use vstd::prelude::*;

use crate::ed25519::provider;
use crate::entropy::random_bytes_32;
use crate::util::bytes_eq;

verus! {

/// An Ed25519 secret key: the 32-byte seed together with the 32-byte public
/// key point derived from it.
pub struct SecretKey {
    pub(crate) sk: [u8; 32],
    pub(crate) pk: [u8; 32],
}

impl SecretKey {
    /// The size in bytes of the secret seed.
    pub const SIZE: usize = 32;

    /// The seed bytes.
    pub closed spec fn sk_view(&self) -> Seq<u8> {
        self.sk@
    }

    /// The stored public key bytes.
    pub closed spec fn pk_view(&self) -> Seq<u8> {
        self.pk@
    }

    /// A well-formed secret key stores exactly the public key derived from
    /// its seed.
    pub open spec fn wf(&self) -> bool {
        &&& self.pk_view() == provider::ed25519_pub_of(self.sk_view())
        &&& provider::ed25519_pk_ok(self.pk_view())
        &&& self.sk_view().len() == 32
        &&& self.pk_view().len() == 32
    }

    /// Assemble a secret key from its stored parts.
    pub(crate) fn from_parts(sk: [u8; 32], pk: [u8; 32]) -> (r: SecretKey)
        ensures
            r.sk_view() == sk@,
            r.pk_view() == pk@,
    {
        SecretKey { sk, pk }
    }

    /// The stored public key bytes as an array.
    pub(crate) fn pk_array(&self) -> (r: [u8; 32])
        ensures
            r@ == self.pk_view(),
    {
        self.pk
    }

    /// Generate a new Ed25519 secret key; fails only if the operating
    /// system cannot supply entropy.
    pub fn generate() -> (r: Result<SecretKey, String>)
        ensures
            r matches Ok(k) ==> k.wf(),
    {
        match random_bytes_32() {
            Ok(bytes) => {
                let pk = provider::derive_public(&bytes);
                Ok(SecretKey { sk: bytes, pk })
            },
            Err(_) => Err("no entropy available".to_owned()),
        }
    }

    /// Build a secret key from a 32-byte seed, deriving its public key.
    pub fn from_seed(seed: &[u8; 32]) -> (r: SecretKey)
        ensures
            r.wf(),
            r.sk_view() == seed@,
    {
        let pk = provider::derive_public(seed);
        SecretKey { sk: *seed, pk }
    }

    /// Sign a message with this secret key: the 64-byte Ed25519 signature.
    ///
    /// Succeeds exactly when the stored public key bytes decode as a curve
    /// point, which every well-formed key's do.
    pub fn sign(&self, msg: &[u8]) -> (r: Result<Vec<u8>, String>)
        ensures
            r is Ok <==> provider::ed25519_pk_ok(self.pk_view()),
            r matches Ok(s) ==> s@ == provider::ed25519_sig_of(self.sk_view(), self.pk_view(), msg@)
                && s@.len() == 64,
            self.wf() ==> r is Ok,
    {
        match provider::sign(&self.sk, &self.pk, msg) {
            Ok(s) => Ok(s),
            Err(_) => Err("invalid public key material".to_owned()),
        }
    }

    /// The secret seed as a byte vector, together with the public bytes:
    /// the canonical 64-byte encoding seed || public.
    pub fn to_bytes(&self) -> (r: Vec<u8>)
        ensures
            r@ == self.sk_view() + self.pk_view(),
    {
        let mut out: Vec<u8> = Vec::new();
        crate::util::push_slice(&mut out, self.sk.as_slice());
        crate::util::push_slice(&mut out, self.pk.as_slice());
        proof {
            assert(out@ =~= self.sk_view() + self.pk_view());
        }
        out
    }
}

impl Clone for SecretKey {
    fn clone(&self) -> (r: Self)
        ensures
            r == *self,
    {
        SecretKey { sk: self.sk, pk: self.pk }
    }
}

impl PartialEq for SecretKey {
    fn eq(&self, other: &Self) -> (r: bool) {
        bytes_eq(self.sk.as_slice(), other.sk.as_slice()) && bytes_eq(
            self.pk.as_slice(),
            other.pk.as_slice(),
        )
    }
}

impl Eq for SecretKey {

}

impl vstd::std_specs::cmp::PartialEqSpecImpl for SecretKey {
    open spec fn obeys_eq_spec() -> bool {
        true
    }

    open spec fn eq_spec(&self, other: &Self) -> bool {
        self.sk_view() == other.sk_view() && self.pk_view() == other.pk_view()
    }
}

} // verus!
