//! A secp256k1 secret key.

use vstd::prelude::*;

use crate::der::der_read_tlv;
use crate::der::read_tlv;
use crate::entropy::random_bytes_32;
use crate::secp256k1::provider;
use crate::util::bytes_eq;
use crate::util::to_array_32;
use vstd::slice::slice_subrange;

verus! {

/// The scalar inside an RFC 5915 ECPrivateKey structure: the whole buffer
/// must be one SEQUENCE whose second element is an OCTET STRING holding the
/// scalar bytes.  Elements after the second are ignored, as are the
/// contents of the first.
pub open spec fn ec_private_key_scalar(b: Seq<u8>) -> Option<Seq<u8>> {
    match der_read_tlv(b) {
        None => None,
        Some(outer) => {
            if outer.0 != 0x30 || outer.2 != b.len() {
                None
            } else {
                match der_read_tlv(outer.1) {
                    None => None,
                    Some(first) => {
                        match der_read_tlv(outer.1.skip(first.2 as int)) {
                            None => None,
                            Some(second) => {
                                if second.0 == 0x04 {
                                    Some(second.1)
                                } else {
                                    None
                                }
                            },
                        }
                    },
                }
            }
        },
    }
}

/// A secp256k1 secret key: a valid 32-byte scalar.
pub struct SecretKey {
    pub(crate) bytes: [u8; 32],
}

impl View for SecretKey {
    type V = Seq<u8>;

    closed spec fn view(&self) -> Seq<u8> {
        self.bytes@
    }
}

impl SecretKey {
    /// A well-formed secret key holds a valid scalar.
    pub open spec fn wf(&self) -> bool {
        provider::secp_sk_ok(self@) && self@.len() == 32
    }

    /// Generate a new secp256k1 secret key, redrawing whenever the bytes do
    /// not form a valid scalar.  Fails only if the operating system cannot
    /// supply entropy, or against all odds no draw yields a valid scalar.
    pub fn generate() -> (r: Result<SecretKey, String>)
        ensures
            r matches Ok(k) ==> k.wf(),
    {
        let mut attempts: usize = 64;
        while attempts > 0
            invariant
                true,
            decreases attempts,
        {
            match random_bytes_32() {
                Ok(b) => {
                    if provider::secret_key_ok(b.as_slice()) {
                        return Ok(SecretKey { bytes: b });
                    }
                },
                Err(_) => {
                    return Err("no entropy available".to_owned());
                },
            }
            attempts = attempts - 1;
        }
        Err("no valid secp256k1 scalar drawn".to_owned())
    }

    /// Create a secret key from a byte slice.  Succeeds exactly on 32-byte
    /// buffers holding a valid scalar.
    pub fn from_bytes(sk: &[u8]) -> (r: Result<SecretKey, String>)
        ensures
            r is Ok <==> sk@.len() == 32 && provider::secp_sk_ok(sk@),
            r matches Ok(k) ==> k@ == sk@ && k.wf(),
    {
        if !provider::secret_key_ok(sk) {
            return Err("invalid secp256k1 secret key".to_owned());
        }
        Ok(SecretKey { bytes: to_array_32(sk) })
    }

    /// Decode a DER-encoded secret key in an RFC 5915 ECPrivateKey
    /// structure: the scalar is the second element of the sequence, and
    /// must itself be a valid 32-byte scalar.
    pub fn from_der(der: &[u8]) -> (r: Result<SecretKey, String>)
        ensures
            r is Ok <==> (ec_private_key_scalar(der@) matches Some(s) && s.len() == 32
                && provider::secp_sk_ok(s)),
            r matches Ok(k) ==> k@ == ec_private_key_scalar(der@).unwrap() && k.wf(),
    {
        let outer = match read_tlv(der) {
            Ok(t) => t,
            Err(_) => {
                return Err("malformed ECPrivateKey".to_owned());
            },
        };
        if outer.0 != 0x30 || outer.1 + outer.2 != der.len() {
            return Err("malformed ECPrivateKey".to_owned());
        }
        let ghost spec_outer = der_read_tlv(der@).unwrap();
        let content = slice_subrange(der, outer.1, outer.1 + outer.2);
        let first = match read_tlv(content) {
            Ok(t) => t,
            Err(_) => {
                return Err("malformed ECPrivateKey".to_owned());
            },
        };
        let ghost spec_first = der_read_tlv(spec_outer.1).unwrap();
        let rest = slice_subrange(content, first.1 + first.2, content.len());
        proof {
            assert(rest@ =~= spec_outer.1.skip(spec_first.2 as int));
        }
        let second = match read_tlv(rest) {
            Ok(t) => t,
            Err(_) => {
                return Err("malformed ECPrivateKey".to_owned());
            },
        };
        if second.0 != 0x04 {
            return Err("malformed ECPrivateKey".to_owned());
        }
        let scalar = slice_subrange(rest, second.1, second.1 + second.2);
        match Self::from_bytes(scalar) {
            Ok(k) => Ok(k),
            Err(_) => Err("invalid secp256k1 secret key".to_owned()),
        }
    }

    /// Sign a message: SHA-256 first, then a DER-encoded ECDSA signature
    /// over the digest.
    pub fn sign(&self, msg: &[u8]) -> (r: Result<Vec<u8>, String>)
        ensures
            r is Ok <==> self.wf(),
            r matches Ok(s) ==> s@ == provider::secp_sig_der_of(
                self@,
                crate::hash::sha256_of(msg@),
            ),
    {
        let digest: crate::hash::Hash<()> = crate::hash::Hash::do_hash(msg);
        let digest_vec = digest.to_vec();
        self.sign_hash(digest_vec.as_slice())
    }

    /// Sign a raw 32-byte message directly, producing a DER-encoded ECDSA
    /// signature.  Succeeds exactly when the key holds a valid scalar and
    /// the message is 32 bytes.
    pub fn sign_hash(&self, msg: &[u8]) -> (r: Result<Vec<u8>, String>)
        ensures
            r is Ok <==> provider::secp_sk_ok(self@) && msg@.len() == 32,
            r matches Ok(s) ==> s@ == provider::secp_sig_der_of(self@, msg@),
    {
        match provider::sign_der(&self.bytes, msg) {
            Ok(s) => Ok(s),
            Err(_) => Err("secp256k1 signing failed".to_owned()),
        }
    }

    /// The raw 32 bytes of the secret scalar.
    pub fn to_bytes(&self) -> (r: [u8; 32])
        ensures
            r@ == self@,
    {
        self.bytes
    }
}

impl Clone for SecretKey {
    fn clone(&self) -> (r: Self)
        ensures
            r == *self,
    {
        SecretKey { bytes: self.bytes }
    }
}

impl PartialEq for SecretKey {
    fn eq(&self, other: &Self) -> (r: bool) {
        bytes_eq(self.bytes.as_slice(), other.bytes.as_slice())
    }
}

impl Eq for SecretKey {

}

impl vstd::std_specs::cmp::PartialEqSpecImpl for SecretKey {
    open spec fn obeys_eq_spec() -> bool {
        true
    }

    open spec fn eq_spec(&self, other: &Self) -> bool {
        self@ == other@
    }
}

} // verus!
