//! An RSA secret key.

use vstd::prelude::*;

use crate::errors::SigningError;
use crate::rsa::provider;
use std::sync::Arc;

verus! {

/// An RSA secret key: a shared reference to the parsed key handle.
pub struct SecretKey(pub(crate) Arc<ring::signature::RsaKeyPair>);

impl SecretKey {
    /// The source bytes the shared handle was parsed from.
    pub closed spec fn spec_src(&self) -> Seq<u8> {
        provider::rsa_keypair_src(self.0)
    }

    /// Wrap a shared handle.
    pub(crate) fn from_handle(key: Arc<ring::signature::RsaKeyPair>) -> (r: SecretKey)
        ensures
            r.spec_src() == provider::rsa_keypair_src(key),
    {
        SecretKey(key)
    }

    /// Sign a message with this key: the deterministic RSA PKCS#1 v1.5
    /// SHA-256 signature, exactly one modulus length long.  The provider
    /// reports failure only on its internal fault checks.
    pub fn sign(&self, data: &[u8]) -> (r: Result<Vec<u8>, SigningError>)
        ensures
            r matches Ok(s) ==> {
                &&& s@ == provider::rsa_sig_of(self.spec_src(), data@)
                &&& s@.len() == provider::rsa_modulus_len(self.spec_src())
                &&& s@.len() <= 512
            },
    {
        match provider::sign(&self.0, data) {
            Ok(s) => Ok(s),
            Err(_) => Err(SigningError),
        }
    }
}

impl Clone for SecretKey {
    fn clone(&self) -> (r: Self)
        ensures
            r.spec_src() == self.spec_src(),
    {
        SecretKey(provider::clone_handle(&self.0))
    }
}

} // verus!
