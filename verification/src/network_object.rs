//! The canonical-serialization contract that signable objects satisfy.

use vstd::prelude::*;

use vstd::slice::slice_to_vec;

verus! {

/// An object that knows how to serialize itself deterministically and to
/// reconstruct itself from those bytes.
///
/// Two logically equal values share one canonical byte sequence, and decoding
/// the canonical bytes of a value yields a value with the same canonical
/// bytes.  This is the only coupling between the signing layer and arbitrary
/// domain objects.
pub trait NetworkObject: Sized {
    /// The canonical byte sequence of this value.
    spec fn canon(&self) -> Seq<u8>;

    /// Serialize; on success the bytes are exactly the canonical sequence.
    fn to_bytes(&self) -> (r: Result<Vec<u8>, String>)
        ensures
            r matches Ok(b) ==> b@ == self.canon(),
    ;

    /// Deserialize; on success the value's canonical bytes are the input.
    fn from_bytes(data: &[u8]) -> (r: Result<Self, String>)
        ensures
            r matches Ok(v) ==> v.canon() == data@,
    ;
}

/// A plain byte buffer is its own canonical encoding.
impl NetworkObject for Vec<u8> {
    open spec fn canon(&self) -> Seq<u8> {
        self@
    }

    fn to_bytes(&self) -> (r: Result<Vec<u8>, String>) {
        Ok(slice_to_vec(self.as_slice()))
    }

    fn from_bytes(data: &[u8]) -> (r: Result<Self, String>) {
        Ok(slice_to_vec(data))
    }
}

} // verus!
