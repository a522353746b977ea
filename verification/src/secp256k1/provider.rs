//! Trusted bindings to the secp256k1 provider (libsecp256k1).
//!
//! Key derivation, signing (which draws its nonce deterministically from the
//! key and message) and verification are all deterministic functions of the
//! named inputs.

use vstd::prelude::*;

verus! {

/// Whether 32 bytes are a valid secp256k1 secret scalar: nonzero and below
/// the group order.
pub uninterp spec fn secp_sk_ok(sk: Seq<u8>) -> bool;

/// Whether 33 bytes decode as a SEC1-compressed secp256k1 curve point.
pub uninterp spec fn secp_pk_ok(pk: Seq<u8>) -> bool;

/// The 33-byte SEC1-compressed public key derived from a secret scalar.
pub uninterp spec fn secp_pub_of(sk: Seq<u8>) -> Seq<u8>;

/// The 65-byte uncompressed encoding of the point behind a compressed one.
pub uninterp spec fn secp_uncompressed_of(pk: Seq<u8>) -> Seq<u8>;

/// The 64-byte compact ECDSA signature over the 32-byte message `msg32`.
pub uninterp spec fn secp_sig_of(sk: Seq<u8>, msg32: Seq<u8>) -> Seq<u8>;

/// The DER-encoded ECDSA signature over the 32-byte message `msg32`.
pub uninterp spec fn secp_sig_der_of(sk: Seq<u8>, msg32: Seq<u8>) -> Seq<u8>;

/// Whether `sig` parses as a 64-byte compact ECDSA signature that verifies
/// over the 32-byte message `msg` under the compressed point `pk`.
pub uninterp spec fn secp_verify_ok(pk: Seq<u8>, msg: Seq<u8>, sig: Seq<u8>) -> bool;

/// Whether `sig` parses as a DER ECDSA signature that verifies over the
/// 32-byte message `msg` under the compressed point `pk`.
pub uninterp spec fn secp_verify_der_ok(pk: Seq<u8>, msg: Seq<u8>, sig: Seq<u8>) -> bool;

/// Relies on libsecp256k1::SecretKey::parse_slice: it succeeds exactly on
/// 32-byte buffers holding a nonzero scalar below the group order.
#[verifier::external_body]
pub(crate) fn secret_key_ok(b: &[u8]) -> (r: bool)
    ensures
        r == (b@.len() == 32 && secp_sk_ok(b@)),
{
    libsecp256k1::SecretKey::parse_slice(b).is_ok()
}

/// Relies on libsecp256k1::PublicKey::parse_slice with the compressed
/// format: it succeeds exactly on 33-byte compressed point encodings.
#[verifier::external_body]
pub(crate) fn public_key_ok(b: &[u8]) -> (r: bool)
    ensures
        r == (b@.len() == 33 && secp_pk_ok(b@)),
{
    libsecp256k1::PublicKey::parse_slice(b, Some(libsecp256k1::PublicKeyFormat::Compressed)).is_ok()
}

/// Relies on libsecp256k1::PublicKey::from_secret_key and
/// serialize_compressed: derives the compressed public point of a valid
/// secret scalar; the result is a function of the scalar alone and is
/// itself a decodable compressed point.
#[verifier::external_body]
pub(crate) fn derive_public(sk: &[u8; 32]) -> (r: Result<[u8; 33], ()>)
    ensures
        r is Ok <==> secp_sk_ok(sk@),
        r matches Ok(pk) ==> pk@ == secp_pub_of(sk@) && secp_pk_ok(pk@),
{
    match libsecp256k1::SecretKey::parse(sk) {
        Err(_) => Err(()),
        Ok(secret) => Ok(libsecp256k1::PublicKey::from_secret_key(&secret).serialize_compressed()),
    }
}

/// Relies on libsecp256k1::PublicKey::serialize: the 65-byte uncompressed
/// encoding of a compressed point; fails exactly when the input is not a
/// decodable compressed point.
#[verifier::external_body]
pub(crate) fn uncompress_public(pk: &[u8; 33]) -> (r: Result<[u8; 65], ()>)
    ensures
        r is Ok <==> secp_pk_ok(pk@),
        r matches Ok(u) ==> u@ == secp_uncompressed_of(pk@),
{
    match libsecp256k1::PublicKey::parse_compressed(pk) {
        Err(_) => Err(()),
        Ok(public) => Ok(public.serialize()),
    }
}

/// Relies on libsecp256k1::sign and Signature::serialize: the 64-byte
/// compact ECDSA signature, deterministic in the key and message (the nonce
/// is drawn from them by HMAC-DRBG).  Fails exactly when the scalar is
/// invalid or the message is not 32 bytes.
#[verifier::external_body]
pub(crate) fn sign_compact(sk: &[u8; 32], msg: &[u8]) -> (r: Result<Vec<u8>, ()>)
    ensures
        r is Ok <==> (secp_sk_ok(sk@) && msg@.len() == 32),
        r matches Ok(s) ==> s@ == secp_sig_of(sk@, msg@) && s@.len() == 64,
{
    match (libsecp256k1::SecretKey::parse(sk), libsecp256k1::Message::parse_slice(msg)) {
        (Ok(secret), Ok(message)) => {
            let (sig, _) = libsecp256k1::sign(&message, &secret);
            Ok(sig.serialize().to_vec())
        },
        _ => Err(()),
    }
}

/// Relies on libsecp256k1::sign and Signature::serialize_der: the
/// DER-encoded ECDSA signature, deterministic as above.  Fails exactly when
/// the scalar is invalid or the message is not 32 bytes.
#[verifier::external_body]
pub(crate) fn sign_der(sk: &[u8; 32], msg: &[u8]) -> (r: Result<Vec<u8>, ()>)
    ensures
        r is Ok <==> (secp_sk_ok(sk@) && msg@.len() == 32),
        r matches Ok(s) ==> s@ == secp_sig_der_of(sk@, msg@),
{
    match (libsecp256k1::SecretKey::parse(sk), libsecp256k1::Message::parse_slice(msg)) {
        (Ok(secret), Ok(message)) => {
            let (sig, _) = libsecp256k1::sign(&message, &secret);
            Ok(sig.serialize_der().as_ref().to_vec())
        },
        _ => Err(()),
    }
}

/// Relies on libsecp256k1::Signature::parse_standard_slice and verify:
/// true exactly when the message is 32 bytes, the signature parses in the
/// 64-byte compact form, the point decodes, and the signature verifies.
#[verifier::external_body]
pub(crate) fn verify_compact(pk: &[u8; 33], msg: &[u8], sig: &[u8]) -> (r: bool)
    ensures
        r == secp_verify_ok(pk@, msg@, sig@),
{
    match (
        libsecp256k1::PublicKey::parse_compressed(pk),
        libsecp256k1::Message::parse_slice(msg),
        libsecp256k1::Signature::parse_standard_slice(sig),
    ) {
        (Ok(public), Ok(message), Ok(signature)) => libsecp256k1::verify(
            &message,
            &signature,
            &public,
        ),
        _ => false,
    }
}

/// Relies on libsecp256k1::Signature::parse_der and verify: as above but
/// with the signature in DER form.
#[verifier::external_body]
pub(crate) fn verify_der(pk: &[u8; 33], msg: &[u8], sig: &[u8]) -> (r: bool)
    ensures
        r == secp_verify_der_ok(pk@, msg@, sig@),
{
    match (
        libsecp256k1::PublicKey::parse_compressed(pk),
        libsecp256k1::Message::parse_slice(msg),
        libsecp256k1::Signature::parse_der(sig),
    ) {
        (Ok(public), Ok(message), Ok(signature)) => libsecp256k1::verify(
            &message,
            &signature,
            &public,
        ),
        _ => false,
    }
}

} // verus!
