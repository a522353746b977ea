//! The closed set of supported signature algorithms.

use vstd::prelude::*;

use crate::util::bytes_eq;

verus! {

/// One of the three supported signature schemes.
#[derive(Debug, Clone, PartialEq, Eq, Structural)]
pub enum Algorithm {
    RSA,
    ED25519,
    SECP256K1,
}

impl core::str::FromStr for Algorithm {
    type Err = &'static str;

    fn from_str(s: &str) -> Result<Self, Self::Err> {
        let rsa: [u8; 3] = ['R' as u8, 'S' as u8, 'A' as u8];
        let ed: [u8; 7] = ['E' as u8, 'D' as u8, '2' as u8, '5' as u8, '5' as u8, '1' as u8, '9' as u8];
        let secp: [u8; 9] = [
            'S' as u8,
            'E' as u8,
            'C' as u8,
            'P' as u8,
            '2' as u8,
            '5' as u8,
            '6' as u8,
            'K' as u8,
            '1' as u8,
        ];
        if bytes_eq(s.as_bytes(), rsa.as_slice()) {
            Ok(Algorithm::RSA)
        } else if bytes_eq(s.as_bytes(), ed.as_slice()) {
            Ok(Algorithm::ED25519)
        } else if bytes_eq(s.as_bytes(), secp.as_slice()) {
            Ok(Algorithm::SECP256K1)
        } else {
            Err("no match")
        }
    }
}

} // verus!
