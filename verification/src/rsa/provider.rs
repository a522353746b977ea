//! Trusted bindings to the RSA providers (ring for parsing, signing and
//! verification; openssl for key generation).
//!
//! A parsed key handle is expensive to build, so it is held behind an `Arc`
//! and shared; the handle is opaque here, and `rsa_keypair_src` names the
//! DER bytes it was parsed from.

use vstd::prelude::*;

use ring::signature::KeyPair;
use std::sync::Arc;

verus! {

/// The parsed RSA key-pair handle of ring.
#[verifier::external_type_specification]
#[verifier::external_body]
pub struct ExRsaKeyPair(ring::signature::RsaKeyPair);

/// The DER bytes a shared RSA key handle was parsed from.
pub uninterp spec fn rsa_keypair_src(kp: Arc<ring::signature::RsaKeyPair>) -> Seq<u8>;

/// Whether the bytes parse as an unencrypted PKCS#8 PrivateKeyInfo holding
/// an RSA key that ring accepts (2048 to 4096 bit modulus, two primes).
pub uninterp spec fn rsa_pkcs8_ok(der: Seq<u8>) -> bool;

/// Whether the bytes parse as a PKCS#1 RSAPrivateKey that ring accepts.
pub uninterp spec fn rsa_der_ok(der: Seq<u8>) -> bool;

/// The DER-encoded PKCS#1 RSAPublicKey of the key parsed from `src`.
pub uninterp spec fn rsa_pub_of(src: Seq<u8>) -> Seq<u8>;

/// The length in bytes of the public modulus of the key parsed from `src`;
/// every signature has exactly this length.
pub uninterp spec fn rsa_modulus_len(src: Seq<u8>) -> nat;

/// The RSA PKCS#1 v1.5 SHA-256 signature over `msg` by the key parsed from
/// `src`; the padding is deterministic, so the signature is a function of
/// the key and message alone.
pub uninterp spec fn rsa_sig_of(src: Seq<u8>, msg: Seq<u8>) -> Seq<u8>;

/// Whether `sig` is a valid RSA PKCS#1 v1.5 SHA-256 signature over `msg`
/// under the PKCS#1-encoded public key `pk`.
pub uninterp spec fn rsa_verify_ok(pk: Seq<u8>, msg: Seq<u8>, sig: Seq<u8>) -> bool;

/// Relies on ring::signature::RsaKeyPair::from_pkcs8: parses an unencrypted
/// PKCS#8 PrivateKeyInfo; success depends on the bytes alone.
#[verifier::external_body]
pub(crate) fn from_pkcs8(der: &[u8]) -> (r: Result<Arc<ring::signature::RsaKeyPair>, ()>)
    ensures
        r is Ok <==> rsa_pkcs8_ok(der@),
        r matches Ok(kp) ==> rsa_keypair_src(kp) == der@,
{
    match ring::signature::RsaKeyPair::from_pkcs8(der) {
        Ok(kp) => Ok(Arc::new(kp)),
        Err(_) => Err(()),
    }
}

/// Relies on ring::signature::RsaKeyPair::from_der: parses a PKCS#1
/// RSAPrivateKey; success depends on the bytes alone.
#[verifier::external_body]
pub(crate) fn from_der(der: &[u8]) -> (r: Result<Arc<ring::signature::RsaKeyPair>, ()>)
    ensures
        r is Ok <==> rsa_der_ok(der@),
        r matches Ok(kp) ==> rsa_keypair_src(kp) == der@,
{
    match ring::signature::RsaKeyPair::from_der(der) {
        Ok(kp) => Ok(Arc::new(kp)),
        Err(_) => Err(()),
    }
}

/// Relies on ring's KeyPair::public_key for RsaKeyPair: the DER-encoded
/// PKCS#1 RSAPublicKey, a function of the key alone; ring caps the modulus
/// at 4096 bits, so the encoding stays well under 600 bytes.
#[verifier::external_body]
pub(crate) fn public_key_bytes(kp: &Arc<ring::signature::RsaKeyPair>) -> (r: Vec<u8>)
    ensures
        r@ == rsa_pub_of(rsa_keypair_src(*kp)),
        r@.len() <= 600,
{
    kp.public_key().as_ref().to_vec()
}

/// Relies on Arc::clone: the same shared handle.
#[verifier::external_body]
pub(crate) fn clone_handle(kp: &Arc<ring::signature::RsaKeyPair>) -> (r: Arc<
    ring::signature::RsaKeyPair,
>)
    ensures
        rsa_keypair_src(r) == rsa_keypair_src(*kp),
{
    kp.clone()
}

/// Relies on ring::signature::RsaKeyPair::sign with RSA_PKCS1_SHA256: the
/// deterministic PKCS#1 v1.5 signature, exactly one modulus length long
/// (and ring caps the modulus at 4096 bits, 512 bytes).  ring reports
/// failure only on internal fault checks, so success is not promised.
#[verifier::external_body]
pub(crate) fn sign(kp: &Arc<ring::signature::RsaKeyPair>, msg: &[u8]) -> (r: Result<Vec<u8>, ()>)
    ensures
        r matches Ok(s) ==> {
            &&& s@ == rsa_sig_of(rsa_keypair_src(*kp), msg@)
            &&& s@.len() == rsa_modulus_len(rsa_keypair_src(*kp))
            &&& s@.len() <= 512
        },
{
    let mut sig = vec![0u8; kp.public_modulus_len()];
    let rng = ring::rand::SystemRandom::new();
    match kp.sign(&ring::signature::RSA_PKCS1_SHA256, &rng, msg, &mut sig) {
        Ok(()) => Ok(sig),
        Err(_) => Err(()),
    }
}

/// Relies on ring::signature::UnparsedPublicKey::verify with
/// RSA_PKCS1_2048_8192_SHA256: deterministic in the public key bytes, the
/// message and the signature; false for anything malformed.
#[verifier::external_body]
pub(crate) fn verify(pk: &[u8], msg: &[u8], sig: &[u8]) -> (r: bool)
    ensures
        r == rsa_verify_ok(pk@, msg@, sig@),
{
    let key = ring::signature::UnparsedPublicKey::new(
        &ring::signature::RSA_PKCS1_2048_8192_SHA256,
        pk,
    );
    key.verify(msg, sig).is_ok()
}

/// Relies on openssl::rsa::Rsa::generate and PKey::private_key_to_pkcs8: a
/// fresh RSA private key as PKCS#8 DER.  The key is random; nothing is
/// assumed of the bytes.
#[verifier::external_body]
pub(crate) fn generate_pkcs8(bits: u32) -> (r: Result<Vec<u8>, ()>) {
    let rsa = match openssl::rsa::Rsa::generate(bits) {
        Ok(k) => k,
        Err(_) => return Err(()),
    };
    let pkey = match openssl::pkey::PKey::from_rsa(rsa) {
        Ok(k) => k,
        Err(_) => return Err(()),
    };
    pkey.private_key_to_pkcs8().map_err(|_| ())
}

/// Relies on openssl::rsa::Rsa::generate and PKey::private_key_to_der: a
/// fresh RSA private key as PKCS#1 RSAPrivateKey DER.  The key is random;
/// nothing is assumed of the bytes.
#[verifier::external_body]
pub(crate) fn generate_der(bits: u32) -> (r: Result<Vec<u8>, ()>) {
    let rsa = match openssl::rsa::Rsa::generate(bits) {
        Ok(k) => k,
        Err(_) => return Err(()),
    };
    let pkey = match openssl::pkey::PKey::from_rsa(rsa) {
        Ok(k) => k,
        Err(_) => return Err(()),
    };
    pkey.private_key_to_der().map_err(|_| ())
}

} // verus!
