//! An RSA keypair.

use vstd::prelude::*;

use crate::errors::DecodingError;
use crate::rsa::provider;
use crate::rsa::public::PublicKey;
use crate::rsa::secret::SecretKey;
use crate::util::bytes_eq;
use std::sync::Arc;
use vstd::slice::slice_to_vec;

verus! {

/// An RSA keypair: the shared parsed key handle together with the PKCS#8
/// DER bytes it was parsed from.
pub struct Keypair {
    pub(crate) key: Arc<ring::signature::RsaKeyPair>,
    pub(crate) bytes: Vec<u8>,
}

impl Keypair {
    /// The modulus size in bits of generated keys.
    pub const SEC_PARAM: u32 = 2048;

    /// The PKCS#8 DER bytes this keypair was parsed from.
    pub closed spec fn spec_der(&self) -> Seq<u8> {
        self.bytes@
    }

    /// The source bytes the shared handle was parsed from.
    pub closed spec fn spec_src(&self) -> Seq<u8> {
        provider::rsa_keypair_src(self.key)
    }

    /// A well-formed RSA keypair's stored bytes are valid PKCS#8 and are
    /// what its handle was parsed from.
    pub open spec fn wf(&self) -> bool {
        &&& provider::rsa_pkcs8_ok(self.spec_der())
        &&& self.spec_src() == self.spec_der()
    }

    /// Generate a new RSA keypair of `SEC_PARAM` bits; fails if the
    /// provider cannot generate or serialize a key.
    pub fn generate() -> (r: Result<Self, String>)
        ensures
            r matches Ok(kp) ==> kp.wf(),
    {
        let der = match provider::generate_pkcs8(2048) {
            Ok(d) => d,
            Err(_) => {
                return Err("RSA key generation failed".to_owned());
            },
        };
        match Self::from_pkcs8(der.as_slice()) {
            Ok(kp) => Ok(kp),
            Err(_) => Err("generated RSA key was rejected".to_owned()),
        }
    }

    /// Decode an RSA keypair from a DER-encoded private key in unencrypted
    /// PKCS#8 PrivateKeyInfo format (RFC 5208).
    pub fn from_pkcs8(der: &[u8]) -> (r: Result<Keypair, DecodingError>)
        ensures
            r is Ok <==> provider::rsa_pkcs8_ok(der@),
            r matches Ok(kp) ==> kp.spec_der() == der@ && kp.wf(),
    {
        match provider::from_pkcs8(der) {
            Ok(key) => Ok(Keypair { key, bytes: slice_to_vec(der) }),
            Err(_) => Err(DecodingError::BadKeyMaterial),
        }
    }

    /// Get the public key of this keypair: the PKCS#1 RSAPublicKey bytes of
    /// its handle.
    pub fn public(&self) -> (r: PublicKey)
        ensures
            r@ == provider::rsa_pub_of(self.spec_src()),
            r@.len() <= 600,
            self.wf() ==> r@ == provider::rsa_pub_of(self.spec_der()),
    {
        PublicKey::from_vec(provider::public_key_bytes(&self.key))
    }

    /// Get the secret key of this keypair, sharing the parsed handle.
    pub fn secret(&self) -> (r: SecretKey)
        ensures
            r.spec_src() == self.spec_src(),
    {
        SecretKey::from_handle(provider::clone_handle(&self.key))
    }

    /// The PKCS#8 DER bytes of this keypair, its canonical private
    /// encoding.
    pub fn to_bytes(&self) -> (r: Vec<u8>)
        ensures
            r@ == self.spec_der(),
    {
        slice_to_vec(self.bytes.as_slice())
    }
}

impl Clone for Keypair {
    fn clone(&self) -> (r: Self)
        ensures
            r.spec_der() == self.spec_der(),
            r.spec_src() == self.spec_src(),
    {
        Keypair {
            key: provider::clone_handle(&self.key),
            bytes: slice_to_vec(self.bytes.as_slice()),
        }
    }
}

impl PartialEq for Keypair {
    fn eq(&self, other: &Self) -> (r: bool) {
        bytes_eq(self.bytes.as_slice(), other.bytes.as_slice())
    }
}

impl Eq for Keypair {

}

impl vstd::std_specs::cmp::PartialEqSpecImpl for Keypair {
    open spec fn obeys_eq_spec() -> bool {
        true
    }

    open spec fn eq_spec(&self, other: &Self) -> bool {
        self.spec_der() == other.spec_der()
    }
}

/// The PKCS#8 round-trip law: re-parsing the canonical private encoding of
/// a well-formed RSA keypair succeeds and reconstructs a keypair with the
/// same source bytes, and so the same derived public key.
pub proof fn lemma_keypair_round_trip(kp: Keypair, kp2: Keypair)
    requires
        kp.wf(),
        kp2.wf(),
        kp2.spec_der() == kp.spec_der(),
    ensures
        provider::rsa_pkcs8_ok(kp.spec_der()),
        provider::rsa_pub_of(kp2.spec_src()) == provider::rsa_pub_of(kp.spec_src()),
{
}

} // verus!
