//! An RSA public key, and its X.509 SubjectPublicKeyInfo codec.

use vstd::prelude::*;

use crate::der::der_read_tlv;
use crate::der::der_tlv;
use crate::der::lemma_der_tlv_canonical;
use crate::der::lemma_der_tlv_roundtrip;
use crate::der::read_tlv;
use crate::der::write_tlv;
use crate::errors::DecodingError;
use crate::rsa::provider;
use crate::util::bytes_eq;
use crate::util::push_slice;
use vstd::slice::slice_subrange;
use vstd::slice::slice_to_vec;

verus! {

/// The DER value bytes of the object identifier 'rsaEncryption'.
pub open spec fn rsa_oid() -> Seq<u8> {
    seq![0x2Au8, 0x86u8, 0x48u8, 0x86u8, 0xF7u8, 0x0Du8, 0x01u8, 0x01u8, 0x01u8]
}

/// The DER-encoded AlgorithmIdentifier for 'rsaEncryption': a SEQUENCE of
/// the OID and a NULL, 15 bytes in all.
pub open spec fn rsa_alg_id() -> Seq<u8> {
    der_tlv(0x30, der_tlv(0x06, rsa_oid()) + der_tlv(0x05, seq![]))
}

/// The X.509 SubjectPublicKeyInfo structure wrapping PKCS#1 RSAPublicKey
/// bytes: SEQUENCE { AlgorithmIdentifier, BIT STRING with zero unused bits }.
pub open spec fn spki_der(pk: Seq<u8>) -> Seq<u8> {
    der_tlv(0x30, rsa_alg_id() + der_tlv(0x03, seq![0u8] + pk))
}

/// Parses an X.509 SubjectPublicKeyInfo: one SEQUENCE spanning the whole
/// buffer, whose content is exactly the rsaEncryption AlgorithmIdentifier
/// followed by one BIT STRING whose first content byte (the unused-bit
/// count) is zero.  Yields the PKCS#1 RSAPublicKey bytes.
pub open spec fn spki_parse(b: Seq<u8>) -> Option<Seq<u8>> {
    match der_read_tlv(b) {
        None => None,
        Some(outer) => {
            if outer.0 != 0x30 || outer.2 != b.len() {
                None
            } else if outer.1.len() < 15 || outer.1.take(15) != rsa_alg_id() {
                None
            } else {
                match der_read_tlv(outer.1.skip(15)) {
                    None => None,
                    Some(bits) => {
                        if bits.0 != 0x03 || bits.2 != outer.1.len() - 15 {
                            None
                        } else if bits.1.len() < 1 || bits.1[0] != 0 {
                            None
                        } else {
                            Some(bits.1.skip(1))
                        }
                    },
                }
            }
        },
    }
}

/// An RSA public key: the DER-encoded PKCS#1 RSAPublicKey bytes, used
/// directly as the verifier key.
pub struct PublicKey(pub(crate) Vec<u8>);

impl View for PublicKey {
    type V = Seq<u8>;

    closed spec fn view(&self) -> Seq<u8> {
        self.0@
    }
}

impl PublicKey {
    /// Wrap PKCS#1 RSAPublicKey bytes.
    pub(crate) fn from_vec(bytes: Vec<u8>) -> (r: PublicKey)
        ensures
            r@ == bytes@,
    {
        PublicKey(bytes)
    }

    /// Verify an RSA PKCS#1 v1.5 SHA-256 signature on a message using this
    /// public key.  False for any malformed signature, never an error.
    pub fn verify(&self, msg: &[u8], sig: &[u8]) -> (r: bool)
        ensures
            r == provider::rsa_verify_ok(self@, msg@, sig@),
    {
        provider::verify(self.0.as_slice(), msg, sig)
    }

    /// Encode the public key in DER as a PKCS#1 RSAPublicKey structure;
    /// this is the in-memory representation, so it is the bytes themselves.
    pub fn encode_pkcs1(&self) -> (r: Vec<u8>)
        ensures
            r@ == self@,
    {
        slice_to_vec(self.0.as_slice())
    }

    /// Encode the public key in DER as an X.509 SubjectPublicKeyInfo
    /// structure.
    pub fn encode_x509(&self) -> (r: Vec<u8>)
        requires
            self@.len() <= 60000,
        ensures
            r@ == spki_der(self@),
    {
        let oid: [u8; 9] = [0x2A, 0x86, 0x48, 0x86, 0xF7, 0x0D, 0x01, 0x01, 0x01];
        let empty: [u8; 0] = [];
        let mut alg_content: Vec<u8> = Vec::new();
        write_tlv(&mut alg_content, 0x06, oid.as_slice());
        write_tlv(&mut alg_content, 0x05, empty.as_slice());
        proof {
            assert(oid@ =~= rsa_oid());
            assert(alg_content@ =~= der_tlv(0x06, rsa_oid()) + der_tlv(0x05, seq![]));
        }
        let mut inner: Vec<u8> = Vec::new();
        write_tlv(&mut inner, 0x30, alg_content.as_slice());
        proof {
            assert(inner@ =~= rsa_alg_id());
        }
        let mut bit_string: Vec<u8> = Vec::new();
        bit_string.push(0u8);
        push_slice(&mut bit_string, self.0.as_slice());
        proof {
            assert(bit_string@ =~= seq![0u8] + self@);
        }
        write_tlv(&mut inner, 0x03, bit_string.as_slice());
        let mut out: Vec<u8> = Vec::new();
        write_tlv(&mut out, 0x30, inner.as_slice());
        proof {
            assert(out@ =~= spki_der(self@));
        }
        out
    }

    /// Decode an RSA public key from a DER-encoded X.509
    /// SubjectPublicKeyInfo structure.  See also `encode_x509`.
    pub fn decode_x509(pk: &[u8]) -> (r: Result<PublicKey, DecodingError>)
        ensures
            r is Ok <==> spki_parse(pk@) is Some,
            r matches Ok(k) ==> k@ == spki_parse(pk@).unwrap(),
            r matches Ok(k) ==> k@.len() < pk@.len(),
    {
        let outer = match read_tlv(pk) {
            Ok(t) => t,
            Err(e) => {
                return Err(e);
            },
        };
        if outer.0 != 0x30 {
            return Err(DecodingError::UnexpectedTag);
        }
        if outer.1 + outer.2 != pk.len() {
            return Err(DecodingError::BadLength);
        }
        let content = slice_subrange(pk, outer.1, outer.1 + outer.2);
        let ghost spec_outer = der_read_tlv(pk@).unwrap();
        if content.len() < 15 {
            return Err(DecodingError::Truncated);
        }
        let alg_expected: [u8; 15] = [
            0x30,
            0x0D,
            0x06,
            0x09,
            0x2A,
            0x86,
            0x48,
            0x86,
            0xF7,
            0x0D,
            0x01,
            0x01,
            0x01,
            0x05,
            0x00,
        ];
        proof {
            assert(alg_expected@ =~= rsa_alg_id());
        }
        let head = slice_subrange(content, 0, 15);
        if !bytes_eq(head, alg_expected.as_slice()) {
            proof {
                assert(head@ =~= spec_outer.1.take(15));
            }
            return Err(DecodingError::UnexpectedOid);
        }
        let rest = slice_subrange(content, 15, content.len());
        proof {
            assert(head@ =~= spec_outer.1.take(15));
            assert(rest@ =~= spec_outer.1.skip(15));
        }
        let bits = match read_tlv(rest) {
            Ok(t) => t,
            Err(e) => {
                return Err(e);
            },
        };
        if bits.0 != 0x03 {
            return Err(DecodingError::UnexpectedTag);
        }
        if bits.1 + bits.2 != rest.len() {
            return Err(DecodingError::BadLength);
        }
        if bits.2 == 0 {
            return Err(DecodingError::Truncated);
        }
        let bits_content = slice_subrange(rest, bits.1, bits.1 + bits.2);
        let ghost spec_bits = der_read_tlv(spec_outer.1.skip(15)).unwrap();
        if bits_content[0] != 0 {
            return Err(DecodingError::UnusedBits);
        }
        let key_bytes = slice_subrange(bits_content, 1, bits_content.len());
        proof {
            assert(key_bytes@ =~= spec_bits.1.skip(1));
        }
        Ok(PublicKey(slice_to_vec(key_bytes)))
    }
}

impl Clone for PublicKey {
    fn clone(&self) -> (r: Self)
        ensures
            r@ == self@,
    {
        PublicKey(slice_to_vec(self.0.as_slice()))
    }
}

impl PartialEq for PublicKey {
    fn eq(&self, other: &Self) -> (r: bool) {
        bytes_eq(self.0.as_slice(), other.0.as_slice())
    }
}

impl Eq for PublicKey {

}

impl vstd::std_specs::cmp::PartialEqSpecImpl for PublicKey {
    open spec fn obeys_eq_spec() -> bool {
        true
    }

    open spec fn eq_spec(&self, other: &Self) -> bool {
        self@ == other@
    }
}

/// The X.509 round-trip law: decoding an encoded SubjectPublicKeyInfo
/// yields exactly the PKCS#1 bytes that were encoded.
pub proof fn lemma_x509_round_trip(pk: Seq<u8>)
    requires
        pk.len() <= 60000,
    ensures
        spki_parse(spki_der(pk)) == Some(pk),
{
    let bits = der_tlv(0x03, seq![0u8] + pk);
    let content = rsa_alg_id() + bits;
    let b = spki_der(pk);
    lemma_der_tlv_roundtrip(0x30, content, seq![]);
    assert(der_tlv(0x30, content) + seq![] =~= b);
    let outer = der_read_tlv(b).unwrap();
    assert(outer.1 == content);
    assert(outer.2 == b.len());
    assert(content.take(15) =~= rsa_alg_id());
    assert(content.skip(15) =~= bits);
    lemma_der_tlv_roundtrip(0x03, seq![0u8] + pk, seq![]);
    assert(bits + seq![] =~= bits);
    let inner = der_read_tlv(bits).unwrap();
    assert(inner.1 == seq![0u8] + pk);
    assert(inner.2 == bits.len());
    assert((seq![0u8] + pk)[0] == 0);
    assert((seq![0u8] + pk).skip(1) =~= pk);
}

/// The other direction of the X.509 round-trip law: a buffer that parses
/// as a SubjectPublicKeyInfo is exactly the encoding of the key it yields,
/// so the encoding is canonical.
pub proof fn lemma_x509_canonical(b: Seq<u8>)
    requires
        spki_parse(b) is Some,
    ensures
        b == spki_der(spki_parse(b).unwrap()),
{
    let outer = der_read_tlv(b).unwrap();
    lemma_der_tlv_canonical(b);
    let content = outer.1;
    let rest = content.skip(15);
    let bits = der_read_tlv(rest).unwrap();
    lemma_der_tlv_canonical(rest);
    assert(content =~= rsa_alg_id() + rest);
    assert(bits.1 =~= seq![0u8] + bits.1.skip(1));
    assert(rest == der_tlv(0x03, seq![0u8] + bits.1.skip(1)));
}

} // verus!
