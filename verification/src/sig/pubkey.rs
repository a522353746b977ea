//! The public-key side of the algorithm dispatch layer.

use vstd::prelude::*;

use crate::ed25519::provider as ed_provider;
use crate::errors::DecodingError;
use crate::hash::sha256_of;
use crate::network_object::NetworkObject;
use crate::rsa::provider as rsa_provider;
use crate::secp256k1::provider as secp_provider;
use crate::sig::codec::decode_envelope;
use crate::sig::codec::encode_envelope;
use crate::sig::codec::envelope;
use crate::sig::codec::envelope_parse;
use crate::sig::codec::lemma_envelope_canonical;
use crate::sig::codec::lemma_envelope_round_trip;
use crate::sig::ed25519::ED25519PublicKey;
use crate::sig::rsa::RSAPublicKey;
use crate::sig::secp256k1::SECP256K1PublicKey;
use crate::sig::traits::Signature;

verus! {

/// Whether an envelope payload decodes as a public key of the tagged
/// algorithm.  RSA public bytes are carried as they are and judged only at
/// verification time.
pub open spec fn public_payload_ok(tag: u8, payload: Seq<u8>) -> bool {
    if tag == 0 {
        true
    } else if tag == 1 {
        payload.len() == 32 && ed_provider::ed25519_pk_ok(payload)
    } else if tag == 2 {
        payload.len() == 33 && secp_provider::secp_pk_ok(payload)
    } else {
        false
    }
}

/// A public key of exactly one of the three supported algorithms.
pub enum PublicKey {
    RSA(RSAPublicKey),
    ED25519(ED25519PublicKey),
    SECP256K1(SECP256K1PublicKey),
}

impl PublicKey {
    /// The algorithm tag byte of the canonical envelope.
    pub open spec fn spec_tag(&self) -> u8 {
        match self {
            PublicKey::RSA(_) => 0,
            PublicKey::ED25519(_) => 1,
            PublicKey::SECP256K1(_) => 2,
        }
    }

    /// The envelope payload: the scheme-specific canonical public bytes.
    pub open spec fn spec_payload(&self) -> Seq<u8> {
        match self {
            PublicKey::RSA(k) => k@,
            PublicKey::ED25519(k) => k@,
            PublicKey::SECP256K1(k) => k@,
        }
    }

    /// The canonical envelope encoding of this public key.
    pub open spec fn spec_to_bytes(&self) -> Seq<u8> {
        envelope(self.spec_tag(), self.spec_payload())
    }

    /// Encode this public key in the canonical tagged envelope.
    pub fn to_bytes(&self) -> (r: Vec<u8>)
        ensures
            r@ == self.spec_to_bytes(),
    {
        match self {
            PublicKey::RSA(k) => {
                let payload = k.to_bytes();
                encode_envelope(0, payload.as_slice())
            },
            PublicKey::ED25519(k) => {
                let payload = k.to_bytes();
                encode_envelope(1, payload.as_slice())
            },
            PublicKey::SECP256K1(k) => {
                let payload = k.to_bytes();
                encode_envelope(2, payload.as_slice())
            },
        }
    }

    /// Decode a public key from the canonical tagged envelope.  Fails with
    /// `UnknownAlgorithm` exactly when the envelope itself is sound but
    /// its tag is none of the known ones.
    pub fn from_bytes(data: &[u8]) -> (r: Result<PublicKey, DecodingError>)
        ensures
            r is Ok <==> (envelope_parse(data@) matches Some(p) && public_payload_ok(p.0, p.1)),
            r matches Ok(k) ==> {
                let p = envelope_parse(data@).unwrap();
                &&& (p.0 == 0 ==> (k matches PublicKey::RSA(x) && x@ == p.1))
                &&& (p.0 == 1 ==> (k matches PublicKey::ED25519(x) && x@ == p.1))
                &&& (p.0 == 2 ==> (k matches PublicKey::SECP256K1(x) && x@ == p.1))
            },
            (envelope_parse(data@) matches Some(p) && p.0 != 0 && p.0 != 1 && p.0 != 2) ==> r
                == Err::<PublicKey, DecodingError>(DecodingError::UnknownAlgorithm(
                envelope_parse(data@).unwrap().0,
            )),
            data@.len() < 9 ==> r == Err::<PublicKey, DecodingError>(DecodingError::Truncated),
            data@.len() >= 9 && envelope_parse(data@) is None ==> r == Err::<
                PublicKey,
                DecodingError,
            >(DecodingError::BadLength),
            (envelope_parse(data@) matches Some(p) && p.0 == 1 && !(p.1.len() == 32
                && ed_provider::ed25519_pk_ok(p.1))) ==> r == Err::<PublicKey, DecodingError>(
                DecodingError::BadKeyMaterial,
            ),
            (envelope_parse(data@) matches Some(p) && p.0 == 2 && !(p.1.len() == 33
                && secp_provider::secp_pk_ok(p.1))) ==> r == Err::<PublicKey, DecodingError>(
                DecodingError::BadKeyMaterial,
            ),
    {
        let (tag, payload) = match decode_envelope(data) {
            Ok(p) => p,
            Err(e) => {
                return Err(e);
            },
        };
        if tag == 0 {
            Ok(PublicKey::RSA(RSAPublicKey::from_vec(payload)))
        } else if tag == 1 {
            match ED25519PublicKey::from_bytes(payload.as_slice()) {
                Ok(k) => Ok(PublicKey::ED25519(k)),
                Err(e) => Err(e),
            }
        } else if tag == 2 {
            match SECP256K1PublicKey::from_bytes(payload.as_slice()) {
                Ok(k) => Ok(PublicKey::SECP256K1(k)),
                Err(e) => Err(e),
            }
        } else {
            Err(DecodingError::UnknownAlgorithm(tag))
        }
    }

    /// Verify a signature for an object: hash its canonical bytes, then
    /// verify the signature over the digest with this key's scheme.
    pub fn verify<T: NetworkObject>(&self, data: &T, sig: &Signature<T>) -> (r: Result<(), String>)
        ensures
            self matches PublicKey::RSA(k) ==> (r is Ok ==> rsa_provider::rsa_verify_ok(
                k@,
                sha256_of(data.canon()),
                sig@,
            )),
            self matches PublicKey::ED25519(k) ==> (r is Ok ==> ed_provider::ed25519_verify_ok(
                k@,
                sha256_of(data.canon()),
                sig@,
            )),
            self matches PublicKey::SECP256K1(k) ==> (r is Ok ==> secp_provider::secp_verify_ok(
                k@,
                sha256_of(data.canon()),
                sig@,
            )),
    {
        let hash: crate::hash::Hash<T> = match crate::hash::Hash::ser_and_hash(data) {
            Ok(h) => h,
            Err(e) => {
                return Err(e);
            },
        };
        self.verify_cached(&hash, sig)
    }

    /// Verify a signature over an already-computed digest with this key's
    /// scheme.
    pub fn verify_cached<T>(&self, hash: &crate::hash::Hash<T>, sig: &Signature<T>) -> (r: Result<(), String>)
        ensures
            self matches PublicKey::RSA(k) ==> (r is Ok <==> rsa_provider::rsa_verify_ok(
                k@,
                hash@,
                sig@,
            )),
            self matches PublicKey::ED25519(k) ==> (r is Ok <==> ed_provider::ed25519_verify_ok(
                k@,
                hash@,
                sig@,
            )),
            self matches PublicKey::SECP256K1(k) ==> (r is Ok <==> secp_provider::secp_verify_ok(
                k@,
                hash@,
                sig@,
            )),
    {
        match self {
            PublicKey::RSA(k) => k.verify_cached(hash, sig),
            PublicKey::ED25519(k) => k.verify_cached(hash, sig),
            PublicKey::SECP256K1(k) => k.verify_cached(hash, sig),
        }
    }
}

impl PartialEq for PublicKey {
    fn eq(&self, other: &Self) -> (r: bool) {
        match (self, other) {
            (PublicKey::RSA(a), PublicKey::RSA(b)) => a == b,
            (PublicKey::ED25519(a), PublicKey::ED25519(b)) => a == b,
            (PublicKey::SECP256K1(a), PublicKey::SECP256K1(b)) => a == b,
            _ => false,
        }
    }
}

impl Eq for PublicKey {

}

impl vstd::std_specs::cmp::PartialEqSpecImpl for PublicKey {
    open spec fn obeys_eq_spec() -> bool {
        true
    }

    open spec fn eq_spec(&self, other: &Self) -> bool {
        self.spec_tag() == other.spec_tag() && self.spec_payload() == other.spec_payload()
    }
}

/// The tagged-envelope round-trip law for public keys: the canonical
/// encoding of a valid public key parses back to its own tag and payload.
pub proof fn lemma_public_key_round_trip(k: PublicKey)
    ensures
        (public_payload_ok(k.spec_tag(), k.spec_payload()) && k.spec_payload().len()
            < 0x8000000000000000) ==> envelope_parse(k.spec_to_bytes()) == Some(
            (k.spec_tag(), k.spec_payload()),
        ),
{
    if public_payload_ok(k.spec_tag(), k.spec_payload()) && k.spec_payload().len()
        < 0x8000000000000000 {
        lemma_envelope_round_trip(k.spec_tag(), k.spec_payload());
    }
}

/// The other direction: a public key decoded from envelope bytes
/// re-encodes to the very same bytes.  The hypothesis states exactly what
/// `from_bytes` ensures of its result.
pub proof fn lemma_public_key_decode_encode(b: Seq<u8>, k: PublicKey)
    ensures
        (envelope_parse(b) matches Some(p) && {
            &&& (p.0 == 0 ==> (k matches PublicKey::RSA(x) && x@ == p.1))
            &&& (p.0 == 1 ==> (k matches PublicKey::ED25519(x) && x@ == p.1))
            &&& (p.0 == 2 ==> (k matches PublicKey::SECP256K1(x) && x@ == p.1))
            &&& (p.0 == 0 || p.0 == 1 || p.0 == 2)
        }) ==> k.spec_to_bytes() == b,
{
    if envelope_parse(b) is Some {
        let p = envelope_parse(b).unwrap();
        if (p.0 == 0 ==> (k matches PublicKey::RSA(x) && x@ == p.1)) && (p.0 == 1 ==> (k
            matches PublicKey::ED25519(x) && x@ == p.1)) && (p.0 == 2 ==> (k
            matches PublicKey::SECP256K1(x) && x@ == p.1)) && (p.0 == 0 || p.0 == 1 || p.0 == 2) {
            lemma_envelope_canonical(b);
        }
    }
}

} // verus!
