//! The identity keypair of a node: one tagged union over the three
//! supported signature schemes, routing every operation to the matching
//! per-algorithm key type.

use vstd::prelude::*;

use crate::ed25519;
use crate::errors::DecodingError;
use crate::hash::sha256_of;
use crate::rsa;
use crate::secp256k1;

verus! {

/// Identity keypair of a node.
pub enum Keypair {
    /// An Ed25519 keypair.
    Ed25519(ed25519::Keypair),
    /// An RSA keypair.
    Rsa(rsa::Keypair),
    /// A Secp256k1 keypair.
    Secp256k1(secp256k1::Keypair),
}

/// The secret half of an identity keypair.
pub enum SecretKey {
    /// An Ed25519 secret key.
    Ed25519(ed25519::SecretKey),
    /// An RSA secret key.
    Rsa(rsa::SecretKey),
    /// A Secp256k1 secret key.
    Secp256k1(secp256k1::SecretKey),
}

/// The public half of an identity keypair.
pub enum PublicKey {
    /// A public Ed25519 key.
    Ed25519(ed25519::PublicKey),
    /// A public RSA key.
    Rsa(rsa::PublicKey),
    /// A public Secp256k1 key.
    Secp256k1(secp256k1::PublicKey),
}

impl SecretKey {
    /// Sign a message using the private key of this keypair, producing a
    /// signature that can be verified using the corresponding public key.
    /// Each variant produces exactly its scheme's signature over the
    /// message; RSA may also fail on the provider's internal fault checks.
    pub fn sign(&self, msg: &[u8]) -> (r: Result<Vec<u8>, String>)
        ensures
            self matches SecretKey::Ed25519(key) ==> {
                &&& (r is Ok <==> ed25519::ed25519_pk_ok(key.pk_view()))
                &&& (r matches Ok(s) ==> s@ == ed25519::ed25519_sig_of(
                    key.sk_view(),
                    key.pk_view(),
                    msg@,
                ))
            },
            self matches SecretKey::Rsa(key) ==> (r matches Ok(s) ==> s@ == rsa::rsa_sig_of(
                key.spec_src(),
                msg@,
            )),
            self matches SecretKey::Secp256k1(key) ==> {
                &&& (r is Ok <==> key.wf())
                &&& (r matches Ok(s) ==> s@ == secp256k1::secp_sig_der_of(key@, sha256_of(msg@)))
            },
    {
        match self {
            SecretKey::Ed25519(key) => key.sign(msg),
            SecretKey::Rsa(key) => match key.sign(msg) {
                Ok(s) => Ok(s),
                Err(_) => Err("RSA signing failed".to_owned()),
            },
            SecretKey::Secp256k1(key) => key.sign(msg),
        }
    }
}

impl Keypair {
    /// Generate a new Ed25519 keypair.
    pub fn generate_ed25519() -> (r: Result<Keypair, String>)
        ensures
            r matches Ok(kp) ==> kp matches Keypair::Ed25519(inner) && inner.wf(),
    {
        match ed25519::Keypair::generate() {
            Ok(kp) => Ok(Keypair::Ed25519(kp)),
            Err(e) => Err(e),
        }
    }

    /// Generate a new Secp256k1 keypair.
    pub fn generate_secp256k1() -> (r: Result<Keypair, String>)
        ensures
            r matches Ok(kp) ==> kp matches Keypair::Secp256k1(inner) && inner.wf(),
    {
        match secp256k1::Keypair::generate() {
            Ok(kp) => Ok(Keypair::Secp256k1(kp)),
            Err(e) => Err(e),
        }
    }

    /// Decode a keypair from a DER-encoded secret key in PKCS#8
    /// PrivateKeyInfo format (i.e. unencrypted) as defined in RFC 5208.
    pub fn rsa_from_pkcs8(pkcs8_der: &[u8]) -> (r: Result<Keypair, DecodingError>)
        ensures
            r is Ok <==> rsa::rsa_pkcs8_ok(pkcs8_der@),
            r matches Ok(kp) ==> kp matches Keypair::Rsa(inner) && inner.wf() && inner.spec_der()
                == pkcs8_der@,
    {
        match rsa::Keypair::from_pkcs8(pkcs8_der) {
            Ok(kp) => Ok(Keypair::Rsa(kp)),
            Err(e) => Err(e),
        }
    }

    /// Decode a keypair from a DER-encoded Secp256k1 secret key in an
    /// ECPrivateKey structure as defined in RFC 5915.
    pub fn secp256k1_from_der(der: &[u8]) -> (r: Result<Keypair, String>)
        ensures
            r is Ok <==> (secp256k1::ec_private_key_scalar(der@) matches Some(s) && s.len()
                == 32 && secp256k1::secp_sk_ok(s)),
            r matches Ok(kp) ==> kp matches Keypair::Secp256k1(inner) && inner.wf()
                && inner.spec_secret()@ == secp256k1::ec_private_key_scalar(der@).unwrap(),
    {
        let sk = match secp256k1::SecretKey::from_der(der) {
            Ok(k) => k,
            Err(e) => {
                return Err(e);
            },
        };
        match secp256k1::Keypair::from_secret(sk) {
            Ok(kp) => Ok(Keypair::Secp256k1(kp)),
            Err(_) => Err("invalid secp256k1 secret key".to_owned()),
        }
    }

    /// Demote this keypair to its secret half.
    pub fn private(&self) -> (r: SecretKey)
        ensures
            self matches Keypair::Ed25519(kp) ==> (r matches SecretKey::Ed25519(sk) && sk
                == kp.spec_secret()),
            self matches Keypair::Rsa(kp) ==> (r matches SecretKey::Rsa(sk) && sk.spec_src()
                == kp.spec_src()),
            self matches Keypair::Secp256k1(kp) ==> (r matches SecretKey::Secp256k1(sk) && sk
                == kp.spec_secret()),
    {
        match self {
            Keypair::Ed25519(kp) => SecretKey::Ed25519(kp.secret()),
            Keypair::Rsa(kp) => SecretKey::Rsa(kp.secret()),
            Keypair::Secp256k1(kp) => SecretKey::Secp256k1(kp.secret().clone()),
        }
    }

    /// Get the public key of this keypair.
    pub fn public(&self) -> (r: PublicKey)
        ensures
            self matches Keypair::Ed25519(kp) ==> (r matches PublicKey::Ed25519(pk) && pk
                == kp.spec_public()),
            self matches Keypair::Rsa(kp) ==> (r matches PublicKey::Rsa(pk) && pk@
                == rsa::rsa_pub_of(kp.spec_src())),
            self matches Keypair::Secp256k1(kp) ==> (r matches PublicKey::Secp256k1(pk) && pk
                == kp.spec_public()),
    {
        match self {
            Keypair::Ed25519(kp) => PublicKey::Ed25519(kp.public()),
            Keypair::Rsa(kp) => PublicKey::Rsa(kp.public()),
            Keypair::Secp256k1(kp) => PublicKey::Secp256k1(kp.public().clone()),
        }
    }
}

/// For a well-formed keypair the public half is exactly the one derived
/// from the secret half, variant by variant: the key material `private()`
/// signs with is the material `public()` verifies against.
pub proof fn lemma_keypair_coherent(kp: Keypair)
    ensures
        kp matches Keypair::Ed25519(x) ==> (x.wf() ==> x.spec_public()@
            == ed25519::ed25519_pub_of(x.spec_secret().sk_view())),
        kp matches Keypair::Rsa(x) ==> (x.wf() ==> rsa::rsa_pub_of(x.spec_src())
            == rsa::rsa_pub_of(x.spec_der())),
        kp matches Keypair::Secp256k1(x) ==> (x.wf() ==> x.spec_public()@
            == secp256k1::secp_pub_of(x.spec_secret()@)),
{
}

impl PublicKey {
    /// Verify a signature for a message using this public key: check that
    /// the signature was produced by the corresponding private key and that
    /// the message has not been tampered with.  Each variant decides
    /// exactly as its scheme's verifier does; malformed signatures are
    /// false, never an error.
    pub fn verify(&self, msg: &[u8], sig: &[u8]) -> (r: bool)
        ensures
            self matches PublicKey::Ed25519(pk) ==> r == ed25519::ed25519_verify_ok(
                pk@,
                msg@,
                sig@,
            ),
            self matches PublicKey::Rsa(pk) ==> r == rsa::rsa_verify_ok(pk@, msg@, sig@),
            self matches PublicKey::Secp256k1(pk) ==> r == secp256k1::secp_verify_der_ok(
                pk@,
                sha256_of(msg@),
                sig@,
            ),
    {
        match self {
            PublicKey::Ed25519(pk) => pk.verify(msg, sig),
            PublicKey::Rsa(pk) => pk.verify(msg, sig),
            PublicKey::Secp256k1(pk) => pk.verify(msg, sig),
        }
    }
}

} // verus!
