//! Trusted bindings to the Ed25519 provider (ed25519-dalek).
//!
//! Every result here is a deterministic function of the named inputs:
//! Ed25519 key derivation, signing and verification use no randomness.

use vstd::prelude::*;

verus! {

/// The 32-byte Ed25519 public key derived from a 32-byte secret key.
pub uninterp spec fn ed25519_pub_of(sk: Seq<u8>) -> Seq<u8>;

/// Whether 32 bytes decode as a valid Ed25519 public key point.
pub uninterp spec fn ed25519_pk_ok(pk: Seq<u8>) -> bool;

/// The 64-byte Ed25519 signature over `msg` under the secret key `sk` and
/// public key `pk`.
pub uninterp spec fn ed25519_sig_of(sk: Seq<u8>, pk: Seq<u8>, msg: Seq<u8>) -> Seq<u8>;

/// Whether `sig` parses as an Ed25519 signature and verifies over `msg`
/// under the public key bytes `pk`.
pub uninterp spec fn ed25519_verify_ok(pk: Seq<u8>, msg: Seq<u8>, sig: Seq<u8>) -> bool;

/// Relies on ed25519_dalek::SecretKey::from_bytes (which accepts any 32
/// bytes) and ed25519_dalek::PublicKey::from: derives the public key point
/// of a secret key.  The result depends on the secret bytes alone and is
/// itself a decodable point.
#[verifier::external_body]
pub(crate) fn derive_public(sk: &[u8; 32]) -> (r: [u8; 32])
    ensures
        r@ == ed25519_pub_of(sk@),
        ed25519_pk_ok(r@),
{
    let secret = ed25519_dalek::SecretKey::from_bytes(sk).unwrap();
    ed25519_dalek::PublicKey::from(&secret).to_bytes()
}

/// Relies on ed25519_dalek::PublicKey::from_bytes: it succeeds exactly on
/// 32-byte encodings of decompressible curve points.
#[verifier::external_body]
pub(crate) fn public_key_ok(pk: &[u8]) -> (r: bool)
    ensures
        r == (pk@.len() == 32 && ed25519_pk_ok(pk@)),
{
    ed25519_dalek::PublicKey::from_bytes(pk).is_ok()
}

/// Relies on ed25519_dalek::ExpandedSecretKey::sign: the 64-byte Ed25519
/// signature, deterministic in the key material and the message.  Fails
/// exactly when the public key bytes do not decode as a point.
#[verifier::external_body]
pub(crate) fn sign(sk: &[u8; 32], pk: &[u8; 32], msg: &[u8]) -> (r: Result<Vec<u8>, ()>)
    ensures
        r is Ok <==> ed25519_pk_ok(pk@),
        r matches Ok(s) ==> s@ == ed25519_sig_of(sk@, pk@, msg@) && s@.len() == 64,
{
    match ed25519_dalek::PublicKey::from_bytes(pk) {
        Err(_) => Err(()),
        Ok(public) => {
            let secret = ed25519_dalek::SecretKey::from_bytes(sk).unwrap();
            let expanded: ed25519_dalek::ExpandedSecretKey = (&secret).into();
            Ok(expanded.sign(msg, &public).to_bytes().to_vec())
        },
    }
}

/// Relies on ed25519_dalek::Signature::try_from and PublicKey::verify:
/// true exactly when the bytes decode as a point and a signature and the
/// signature verifies over `msg`; false for any malformed input.
#[verifier::external_body]
pub(crate) fn verify(pk: &[u8; 32], msg: &[u8], sig: &[u8]) -> (r: bool)
    ensures
        r == ed25519_verify_ok(pk@, msg@, sig@),
{
    match ed25519_dalek::PublicKey::from_bytes(pk) {
        Err(_) => false,
        Ok(public) => ed25519_dalek::Signature::try_from(sig)
            .and_then(|s| ed25519_dalek::Verifier::verify(&public, msg, &s))
            .is_ok(),
    }
}

} // verus!
