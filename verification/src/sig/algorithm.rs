//! The algorithm selector of the dispatch layer.

use vstd::prelude::*;

use crate::entropy::random_bytes_32;
use crate::rsa::provider as rsa_provider;
use crate::secp256k1::provider as secp_provider;
use crate::sig::ed25519::ED25519PrivateKey;
use crate::sig::privkey::PrivateKey;
use crate::sig::rsa::RSAPrivateKey;
use crate::sig::secp256k1::SECP256K1PrivateKey;
use crate::util::bytes_eq;

verus! {

/// One of the three supported signature schemes, with the fixed key-size
/// constants the wire formats use.
#[derive(Debug, Clone, PartialEq, Eq, Structural)]
#[non_exhaustive]
pub enum Algorithm {
    RSA,
    ED25519,
    SECP256K1,
}

impl Algorithm {
    /// All supported algorithms, in tag order.
    pub fn values() -> (r: [Algorithm; 3])
        ensures
            r@ == seq![Algorithm::RSA, Algorithm::ED25519, Algorithm::SECP256K1],
    {
        let vs = [Algorithm::RSA, Algorithm::ED25519, Algorithm::SECP256K1];
        proof {
            assert(vs@ =~= seq![Algorithm::RSA, Algorithm::ED25519, Algorithm::SECP256K1]);
        }
        vs
    }

    /// The fixed public-key size constant of this algorithm.
    pub open spec fn spec_public_key_size(&self) -> usize {
        match self {
            Algorithm::RSA => 64,
            Algorithm::ED25519 => 32,
            Algorithm::SECP256K1 => 33,
        }
    }

    /// The fixed private-key size constant of this algorithm.
    pub open spec fn spec_private_key_size(&self) -> usize {
        match self {
            Algorithm::RSA => 64,
            Algorithm::ED25519 => 64,
            Algorithm::SECP256K1 => 32,
        }
    }

    /// The public-key byte-length constant used for allocation and
    /// validation.
    pub fn public_key_size(&self) -> (r: usize)
        ensures
            r == self.spec_public_key_size(),
    {
        match self {
            Algorithm::RSA => 64,
            Algorithm::ED25519 => 32,
            Algorithm::SECP256K1 => 33,
        }
    }

    /// The private-key byte-length constant used for allocation and
    /// validation.
    pub fn private_key_size(&self) -> (r: usize)
        ensures
            r == self.spec_private_key_size(),
    {
        match self {
            Algorithm::RSA => 64,
            Algorithm::ED25519 => 64,
            Algorithm::SECP256K1 => 32,
        }
    }

    /// Generate a fresh private key of this algorithm.  Fails only on a
    /// provider or entropy failure.
    pub fn generate(&self) -> (r: Result<PrivateKey, String>)
        ensures
            r matches Ok(k) ==> k.wf(),
            self matches Algorithm::RSA ==> (r matches Ok(k) ==> k is RSA),
            self matches Algorithm::ED25519 ==> (r matches Ok(k) ==> k is ED25519),
            self matches Algorithm::SECP256K1 ==> (r matches Ok(k) ==> k is SECP256K1),
    {
        match self {
            Algorithm::RSA => {
                let der = match rsa_provider::generate_der(2048) {
                    Ok(d) => d,
                    Err(_) => {
                        return Err("failed to generate RSA keys".to_owned());
                    },
                };
                match RSAPrivateKey::from_bytes(der.as_slice()) {
                    Ok(k) => Ok(PrivateKey::RSA(k)),
                    Err(_) => Err("failed to create an RSA private key".to_owned()),
                }
            },
            Algorithm::ED25519 => {
                match random_bytes_32() {
                    Ok(seed) => Ok(PrivateKey::ED25519(ED25519PrivateKey::from_seed(&seed))),
                    Err(_) => Err("no entropy available".to_owned()),
                }
            },
            Algorithm::SECP256K1 => {
                let mut attempts: usize = 64;
                while attempts > 0
                    invariant
                        self is SECP256K1,
                    decreases attempts,
                {
                    match random_bytes_32() {
                        Ok(b) => {
                            if secp_provider::secret_key_ok(b.as_slice()) {
                                return Ok(
                                    PrivateKey::SECP256K1(SECP256K1PrivateKey::from_array(b)),
                                );
                            }
                        },
                        Err(_) => {
                            return Err("no entropy available".to_owned());
                        },
                    }
                    attempts = attempts - 1;
                }
                Err("no valid secp256k1 scalar drawn".to_owned())
            },
        }
    }
}

impl core::str::FromStr for Algorithm {
    type Err = &'static str;

    fn from_str(s: &str) -> Result<Self, Self::Err> {
        let rsa: [u8; 3] = ['R' as u8, 'S' as u8, 'A' as u8];
        let ed: [u8; 7] = ['E' as u8, 'D' as u8, '2' as u8, '5' as u8, '5' as u8, '1' as u8, '9' as u8];
        let secp: [u8; 9] = [
            'S' as u8,
            'E' as u8,
            'C' as u8,
            'P' as u8,
            '2' as u8,
            '5' as u8,
            '6' as u8,
            'K' as u8,
            '1' as u8,
        ];
        if bytes_eq(s.as_bytes(), rsa.as_slice()) {
            Ok(Algorithm::RSA)
        } else if bytes_eq(s.as_bytes(), ed.as_slice()) {
            Ok(Algorithm::ED25519)
        } else if bytes_eq(s.as_bytes(), secp.as_slice()) {
            Ok(Algorithm::SECP256K1)
        } else {
            Err("no match")
        }
    }
}

} // verus!
