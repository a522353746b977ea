//! A secp256k1 keypair.

use vstd::prelude::*;

use crate::secp256k1::provider;
use crate::secp256k1::public::PublicKey;
use crate::secp256k1::secret::SecretKey;
use vstd::pervasive::unreached;
use vstd::slice::slice_to_vec;

verus! {

/// A secp256k1 keypair: a secret scalar and the compressed point derived
/// from it.
pub struct Keypair {
    pub(crate) secret: SecretKey,
    pub(crate) public: PublicKey,
}

impl Keypair {
    /// The size in bytes of an encoded public key.
    pub const PK_SIZE: usize = 33;

    /// The size in bytes of an encoded secret key.
    pub const PVT_SIZE: usize = 32;

    /// The secret key held by this keypair.
    pub closed spec fn spec_secret(&self) -> SecretKey {
        self.secret
    }

    /// The public key held by this keypair.
    pub closed spec fn spec_public(&self) -> PublicKey {
        self.public
    }

    /// A well-formed keypair holds a valid scalar and exactly the
    /// compressed point derived from it.
    pub open spec fn wf(&self) -> bool {
        &&& self.spec_secret().wf()
        &&& self.spec_public()@ == provider::secp_pub_of(self.spec_secret()@)
        &&& self.spec_public().wf()
    }

    /// Generate a new secp256k1 keypair; fails only if the operating system
    /// cannot supply entropy.
    pub fn generate() -> (r: Result<Keypair, String>)
        ensures
            r matches Ok(kp) ==> kp.wf(),
    {
        let sk = match SecretKey::generate() {
            Ok(k) => k,
            Err(e) => {
                return Err(e);
            },
        };
        match Self::from_secret(sk) {
            Ok(kp) => Ok(kp),
            Err(_) => unreached(),
        }
    }

    /// Promote a secret key into a keypair, deriving the public point.
    /// Succeeds exactly when the scalar is valid, which every constructed
    /// secret key's is.
    pub fn from_secret(sk: SecretKey) -> (r: Result<Keypair, String>)
        ensures
            r is Ok <==> sk.wf(),
            r matches Ok(kp) ==> kp.spec_secret() == sk && kp.wf(),
    {
        let sk_bytes = sk.to_bytes();
        match provider::derive_public(&sk_bytes) {
            Ok(pk_bytes) => Ok(Keypair { secret: sk, public: PublicKey::from_array(pk_bytes) }),
            Err(_) => Err("invalid secp256k1 secret key".to_owned()),
        }
    }

    /// Get the public key of this keypair.
    pub fn public(&self) -> (r: &PublicKey)
        ensures
            *r == self.spec_public(),
    {
        &self.public
    }

    /// Get the secret key of this keypair.
    pub fn secret(&self) -> (r: &SecretKey)
        ensures
            *r == self.spec_secret(),
    {
        &self.secret
    }

    /// Serialize the keypair: the raw 32 bytes of its secret scalar.
    pub fn to_bytes(&self) -> (r: Vec<u8>)
        ensures
            r@ == self.spec_secret()@,
    {
        let arr = self.secret.to_bytes();
        slice_to_vec(arr.as_slice())
    }

    /// Deserialize a keypair from the raw 32 bytes of a secret scalar,
    /// re-deriving the public point.
    pub fn from_bytes(data: &[u8]) -> (r: Result<Self, String>)
        ensures
            r is Ok <==> data@.len() == 32 && provider::secp_sk_ok(data@),
            r matches Ok(kp) ==> kp.spec_secret()@ == data@ && kp.wf(),
    {
        let sk = match SecretKey::from_bytes(data) {
            Ok(k) => k,
            Err(e) => {
                return Err(e);
            },
        };
        match Self::from_secret(sk) {
            Ok(kp) => Ok(kp),
            Err(_) => unreached(),
        }
    }
}

impl Clone for Keypair {
    fn clone(&self) -> (r: Self)
        ensures
            r == *self,
    {
        Keypair { secret: self.secret.clone(), public: self.public.clone() }
    }
}

/// The secp256k1 round-trip law: the canonical encoding of a well-formed
/// keypair is its scalar, any keypair decoded from those bytes holds the
/// same scalar, and the derived public point — and so the whole keypair —
/// coincides.
pub proof fn lemma_keypair_round_trip(kp: Keypair, kp2: Keypair)
    requires
        kp.wf(),
        kp2.wf(),
        kp2.spec_secret()@ == kp.spec_secret()@,
    ensures
        kp2.spec_public()@ == kp.spec_public()@,
{
}

} // verus!
