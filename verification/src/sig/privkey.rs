//! The private-key side of the algorithm dispatch layer.

use vstd::prelude::*;

use crate::ed25519::provider as ed_provider;
use crate::errors::DecodingError;
use crate::hash::sha256_of;
use crate::network_object::NetworkObject;
use crate::rsa::provider as rsa_provider;
use crate::secp256k1::provider as secp_provider;
use crate::sig::codec::decode_envelope;
use crate::sig::codec::encode_envelope;
use crate::sig::codec::envelope;
use crate::sig::codec::envelope_parse;
use crate::sig::codec::lemma_envelope_canonical;
use crate::sig::codec::lemma_envelope_round_trip;
use crate::sig::ed25519::ED25519PrivateKey;
use crate::sig::pubkey::PublicKey;
use crate::sig::rsa::RSAPrivateKey;
use crate::sig::secp256k1::SECP256K1PrivateKey;
use crate::sig::traits::Signature;

verus! {

/// Whether an envelope payload decodes as a private key of the tagged
/// algorithm.
pub open spec fn private_payload_ok(tag: u8, payload: Seq<u8>) -> bool {
    if tag == 0 {
        rsa_provider::rsa_der_ok(payload)
    } else if tag == 1 {
        payload.len() == 64 && ed_provider::ed25519_pk_ok(payload.skip(32))
    } else if tag == 2 {
        payload.len() == 32 && secp_provider::secp_sk_ok(payload)
    } else {
        false
    }
}

/// A private key of exactly one of the three supported algorithms.
pub enum PrivateKey {
    RSA(RSAPrivateKey),
    ED25519(ED25519PrivateKey),
    SECP256K1(SECP256K1PrivateKey),
}

impl PrivateKey {
    /// Every held key is well-formed in its scheme's sense.
    pub open spec fn wf(&self) -> bool {
        match self {
            PrivateKey::RSA(k) => k.wf(),
            PrivateKey::ED25519(k) => k.wf(),
            PrivateKey::SECP256K1(k) => k.wf(),
        }
    }

    /// The algorithm tag byte of the canonical envelope.
    pub open spec fn spec_tag(&self) -> u8 {
        match self {
            PrivateKey::RSA(_) => 0,
            PrivateKey::ED25519(_) => 1,
            PrivateKey::SECP256K1(_) => 2,
        }
    }

    /// The envelope payload: the scheme-specific canonical private bytes.
    pub open spec fn spec_payload(&self) -> Seq<u8> {
        match self {
            PrivateKey::RSA(k) => k.spec_der(),
            PrivateKey::ED25519(k) => k.sk_view() + k.pk_view(),
            PrivateKey::SECP256K1(k) => k@,
        }
    }

    /// The canonical envelope encoding of this private key.
    pub open spec fn spec_to_bytes(&self) -> Seq<u8> {
        envelope(self.spec_tag(), self.spec_payload())
    }

    /// Encode this private key in the canonical tagged envelope.
    pub fn to_bytes(&self) -> (r: Vec<u8>)
        ensures
            r@ == self.spec_to_bytes(),
    {
        match self {
            PrivateKey::RSA(k) => {
                let payload = k.to_bytes();
                encode_envelope(0, payload.as_slice())
            },
            PrivateKey::ED25519(k) => {
                let payload = k.to_bytes();
                encode_envelope(1, payload.as_slice())
            },
            PrivateKey::SECP256K1(k) => {
                let payload = k.to_bytes();
                encode_envelope(2, payload.as_slice())
            },
        }
    }

    /// Decode a private key from the canonical tagged envelope.  Fails
    /// with `UnknownAlgorithm` exactly when the envelope itself is sound
    /// but its tag is none of the known ones.
    pub fn from_bytes(data: &[u8]) -> (r: Result<PrivateKey, DecodingError>)
        ensures
            r is Ok <==> (envelope_parse(data@) matches Some(p) && private_payload_ok(p.0, p.1)),
            r matches Ok(k) ==> {
                let p = envelope_parse(data@).unwrap();
                &&& k.wf()
                &&& (p.0 == 0 ==> (k matches PrivateKey::RSA(x) && x.spec_der() == p.1))
                &&& (p.0 == 1 ==> (k matches PrivateKey::ED25519(x) && x.sk_view() == p.1.take(32)
                    && x.pk_view() == p.1.skip(32)))
                &&& (p.0 == 2 ==> (k matches PrivateKey::SECP256K1(x) && x@ == p.1))
            },
            (envelope_parse(data@) matches Some(p) && p.0 != 0 && p.0 != 1 && p.0 != 2) ==> r
                == Err::<PrivateKey, DecodingError>(DecodingError::UnknownAlgorithm(
                envelope_parse(data@).unwrap().0,
            )),
            data@.len() < 9 ==> r == Err::<PrivateKey, DecodingError>(DecodingError::Truncated),
            data@.len() >= 9 && envelope_parse(data@) is None ==> r == Err::<
                PrivateKey,
                DecodingError,
            >(DecodingError::BadLength),
            (envelope_parse(data@) matches Some(p) && p.0 == 0 && !rsa_provider::rsa_der_ok(p.1))
                ==> r == Err::<PrivateKey, DecodingError>(DecodingError::BadKeyMaterial),
            (envelope_parse(data@) matches Some(p) && p.0 == 1 && p.1.len() != 64) ==> r == Err::<
                PrivateKey,
                DecodingError,
            >(DecodingError::Truncated),
            (envelope_parse(data@) matches Some(p) && p.0 == 1 && p.1.len() == 64
                && !ed_provider::ed25519_pk_ok(p.1.skip(32))) ==> r == Err::<
                PrivateKey,
                DecodingError,
            >(DecodingError::BadKeyMaterial),
            (envelope_parse(data@) matches Some(p) && p.0 == 2 && !(p.1.len() == 32
                && secp_provider::secp_sk_ok(p.1))) ==> r == Err::<PrivateKey, DecodingError>(
                DecodingError::BadKeyMaterial,
            ),
    {
        let (tag, payload) = match decode_envelope(data) {
            Ok(p) => p,
            Err(e) => {
                return Err(e);
            },
        };
        if tag == 0 {
            match RSAPrivateKey::from_bytes(payload.as_slice()) {
                Ok(k) => Ok(PrivateKey::RSA(k)),
                Err(e) => Err(e),
            }
        } else if tag == 1 {
            match ED25519PrivateKey::from_bytes(payload.as_slice()) {
                Ok(k) => Ok(PrivateKey::ED25519(k)),
                Err(e) => Err(e),
            }
        } else if tag == 2 {
            match SECP256K1PrivateKey::from_bytes(payload.as_slice()) {
                Ok(k) => Ok(PrivateKey::SECP256K1(k)),
                Err(e) => Err(e),
            }
        } else {
            Err(DecodingError::UnknownAlgorithm(tag))
        }
    }

    /// Sign an object: hash its canonical bytes, then sign the digest with
    /// this key's scheme.
    pub fn sign<T: NetworkObject>(&self, data: &T) -> (r: Result<Signature<T>, String>)
        ensures
            self matches PrivateKey::RSA(k) ==> (r matches Ok(s) ==> s@ == rsa_provider::rsa_sig_of(
                k.spec_src(),
                sha256_of(data.canon()),
            )),
            self matches PrivateKey::ED25519(k) ==> (r matches Ok(s) ==> s@
                == ed_provider::ed25519_sig_of(k.sk_view(), k.pk_view(), sha256_of(data.canon()))),
            self matches PrivateKey::SECP256K1(k) ==> (r matches Ok(s) ==> s@
                == secp_provider::secp_sig_of(k@, sha256_of(data.canon()))),
    {
        let hash: crate::hash::Hash<T> = match crate::hash::Hash::ser_and_hash(data) {
            Ok(h) => h,
            Err(e) => {
                return Err(e);
            },
        };
        self.sign_cached(&hash)
    }

    /// Sign an already-computed digest with this key's scheme.
    pub fn sign_cached<T>(&self, data_hash: &crate::hash::Hash<T>) -> (r: Result<Signature<T>, String>)
        ensures
            self matches PrivateKey::RSA(k) ==> (r matches Ok(s) ==> s@ == rsa_provider::rsa_sig_of(
                k.spec_src(),
                data_hash@,
            )),
            self matches PrivateKey::ED25519(k) ==> {
                &&& (r is Ok <==> ed_provider::ed25519_pk_ok(k.pk_view()))
                &&& (r matches Ok(s) ==> s@ == ed_provider::ed25519_sig_of(
                    k.sk_view(),
                    k.pk_view(),
                    data_hash@,
                ))
            },
            self matches PrivateKey::SECP256K1(k) ==> {
                &&& (r is Ok <==> secp_provider::secp_sk_ok(k@))
                &&& (r matches Ok(s) ==> s@ == secp_provider::secp_sig_of(k@, data_hash@))
            },
    {
        match self {
            PrivateKey::RSA(k) => k.sign_cached(data_hash),
            PrivateKey::ED25519(k) => k.sign_cached(data_hash),
            PrivateKey::SECP256K1(k) => k.sign_cached(data_hash),
        }
    }

    /// The public key of this private key: deterministic, and stable over
    /// repeated calls.
    pub fn public(&self) -> (r: Result<PublicKey, String>)
        ensures
            self matches PrivateKey::RSA(k) ==> r is Ok && (r matches Ok(p) ==> p
                matches PublicKey::RSA(x) && x@ == rsa_provider::rsa_pub_of(k.spec_src())),
            self matches PrivateKey::ED25519(k) ==> r is Ok && (r matches Ok(p) ==> p
                matches PublicKey::ED25519(x) && x@ == k.pk_view()),
            self matches PrivateKey::SECP256K1(k) ==> {
                &&& (r is Ok <==> secp_provider::secp_sk_ok(k@))
                &&& (r matches Ok(p) ==> p matches PublicKey::SECP256K1(x) && x@
                    == secp_provider::secp_pub_of(k@))
            },
    {
        match self {
            PrivateKey::RSA(k) => Ok(PublicKey::RSA(k.public())),
            PrivateKey::ED25519(k) => Ok(PublicKey::ED25519(k.public())),
            PrivateKey::SECP256K1(k) => match k.public() {
                Ok(p) => Ok(PublicKey::SECP256K1(p)),
                Err(e) => Err(e),
            },
        }
    }
}

/// The tagged-envelope round-trip law for private keys: the canonical
/// encoding of a well-formed key parses back to its own tag and payload,
/// and the payload decodes as a key of that algorithm holding the same
/// bytes.
pub proof fn lemma_private_key_round_trip(k: PrivateKey)
    ensures
        (k.wf() && k.spec_payload().len() < 0x8000000000000000) ==> {
            let b = k.spec_to_bytes();
            &&& envelope_parse(b) == Some((k.spec_tag(), k.spec_payload()))
            &&& private_payload_ok(k.spec_tag(), k.spec_payload())
        },
{
    if k.wf() && k.spec_payload().len() < 0x8000000000000000 {
        lemma_envelope_round_trip(k.spec_tag(), k.spec_payload());
        match k {
            PrivateKey::RSA(x) => {
            },
            PrivateKey::ED25519(x) => {
                assert((x.sk_view() + x.pk_view()).skip(32) =~= x.pk_view());
            },
            PrivateKey::SECP256K1(x) => {
            },
        }
    }
}

/// The other direction: a key decoded from envelope bytes re-encodes to
/// the very same bytes, so the canonical private-key encoding is stable
/// under a decode and re-encode cycle.  The hypothesis states exactly what
/// `from_bytes` ensures of its result.
pub proof fn lemma_private_key_decode_encode(b: Seq<u8>, k: PrivateKey)
    ensures
        (envelope_parse(b) matches Some(p) && {
            &&& (p.0 == 0 ==> (k matches PrivateKey::RSA(x) && x.spec_der() == p.1))
            &&& (p.0 == 1 ==> (k matches PrivateKey::ED25519(x) && x.sk_view() == p.1.take(32)
                && x.pk_view() == p.1.skip(32) && p.1.len() == 64))
            &&& (p.0 == 2 ==> (k matches PrivateKey::SECP256K1(x) && x@ == p.1))
            &&& (p.0 == 0 || p.0 == 1 || p.0 == 2)
        }) ==> k.spec_to_bytes() == b,
{
    if envelope_parse(b) is Some {
        let p = envelope_parse(b).unwrap();
        if (p.0 == 0 ==> (k matches PrivateKey::RSA(x) && x.spec_der() == p.1)) && (p.0 == 1 ==> (k
            matches PrivateKey::ED25519(x) && x.sk_view() == p.1.take(32) && x.pk_view()
            == p.1.skip(32) && p.1.len() == 64)) && (p.0 == 2 ==> (k
            matches PrivateKey::SECP256K1(x) && x@ == p.1)) && (p.0 == 0 || p.0 == 1 || p.0 == 2) {
            lemma_envelope_canonical(b);
            if p.0 == 1 {
                assert(k.spec_payload() =~= p.1);
            }
        }
    }
}

} // verus!
