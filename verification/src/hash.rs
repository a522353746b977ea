//! Type-tagged SHA-256 digests of canonical byte sequences.

use vstd::prelude::*;

use core::marker::PhantomData;
use sha2::Digest;
use vstd::slice::slice_to_vec;

use crate::network_object::NetworkObject;
use crate::util::bytes_eq;

verus! {

/// The SHA-256 digest of a byte sequence, 32 bytes.
pub uninterp spec fn sha256_of(data: Seq<u8>) -> Seq<u8>;

/// Relies on sha2::Sha256::digest: the SHA-256 digest of the input, always
/// 32 bytes and a function of the input bytes alone.
#[verifier::external_body]
fn sha256(data: &[u8]) -> (r: [u8; 32])
    ensures
        r@ == sha256_of(data@),
        r@.len() == 32,
{
    sha2::Sha256::digest(data).into()
}

/// A 32-byte digest carrying a type-level tag `T`.
///
/// The tag binds the digest to the object type it was derived from; it is not
/// part of the byte representation.  Two digests are equal exactly when their
/// 32 bytes are equal.
#[derive(Debug, Hash, PartialOrd, Ord)]
pub struct Hash<T> {
    inner: [u8; 32],
    _x: PhantomData<T>,
}

impl<T> Clone for Hash<T> {
    fn clone(&self) -> (r: Self)
        ensures
            r@ == self@,
    {
        Hash { inner: self.inner, _x: PhantomData }
    }
}

impl<T> View for Hash<T> {
    type V = Seq<u8>;

    closed spec fn view(&self) -> Seq<u8> {
        self.inner@
    }
}

impl<T> Hash<T> {
    /// Creates a hash from already-serialized canonical bytes.
    ///
    /// The caller is responsible for passing bytes that truly correspond to
    /// type `T`; this is the performance path that avoids re-serializing.
    pub fn do_hash(serialized: &[u8]) -> (r: Self)
        ensures
            r@ == sha256_of(serialized@),
            r@.len() == 32,
    {
        Hash { inner: sha256(serialized), _x: PhantomData }
    }

    /// The digest as a fresh byte vector.
    pub fn to_vec(&self) -> (r: Vec<u8>)
        ensures
            r@ == self@,
            r@.len() == 32,
    {
        slice_to_vec(self.inner.as_slice())
    }

    /// The digest as a byte slice.
    pub fn as_bytes(&self) -> (r: &[u8])
        ensures
            r@ == self@,
            r@.len() == 32,
    {
        self.inner.as_slice()
    }
}

impl<T: NetworkObject> Hash<T> {
    /// Hash of the canonical serialization of `data`.
    pub fn ser_and_hash(data: &T) -> (r: Result<Self, String>)
        ensures
            r matches Ok(h) ==> h@ == sha256_of(data.canon()) && h@.len() == 32,
    {
        match data.to_bytes() {
            Ok(bytes) => Ok(Self::do_hash(bytes.as_slice())),
            Err(e) => Err(e),
        }
    }
}

impl<T> PartialEq for Hash<T> {
    fn eq(&self, other: &Self) -> (r: bool) {
        bytes_eq(self.inner.as_slice(), other.inner.as_slice())
    }
}

impl<T> Eq for Hash<T> {

}

impl<T> vstd::std_specs::cmp::PartialEqSpecImpl for Hash<T> {
    open spec fn obeys_eq_spec() -> bool {
        true
    }

    open spec fn eq_spec(&self, other: &Self) -> bool {
        self@ == other@
    }
}

/// Digest determinism: hashing equal canonical byte sequences yields
/// byte-identical digests.
pub proof fn lemma_hash_deterministic(b1: Seq<u8>, b2: Seq<u8>)
    requires
        b1 == b2,
    ensures
        sha256_of(b1) == sha256_of(b2),
{
}

} // verus!
