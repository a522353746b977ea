//! The type-aware signature wrapper.

use vstd::prelude::*;

use core::marker::PhantomData;
use vstd::slice::slice_to_vec;

verus! {

/// A signature over a value of type `D`.
///
/// The tag prevents signing one type and verifying against another; it is
/// not part of the byte representation.  No validity is checked at
/// construction: the bytes are judged only at verification time, because
/// each scheme has its own notion of a well-formed signature.
#[derive(Debug)]
pub struct Signature<D> {
    _tp: PhantomData<D>,
    data: Vec<u8>,
}

impl<D> View for Signature<D> {
    type V = Seq<u8>;

    closed spec fn view(&self) -> Seq<u8> {
        self.data@
    }
}

impl<D> Signature<D> {
    /// Wrap raw signature bytes; the tag is asserted by the caller's
    /// context, not verified here.
    pub fn from_raw_buf(buf: Vec<u8>) -> (r: Self)
        ensures
            r@ == buf@,
    {
        Signature { data: buf, _tp: PhantomData }
    }

    /// The signature bytes.
    pub fn as_bytes(&self) -> (r: &[u8])
        ensures
            r@ == self@,
    {
        self.data.as_slice()
    }

    /// The signature bytes as a fresh vector.
    pub fn to_vec(&self) -> (r: Vec<u8>)
        ensures
            r@ == self@,
    {
        slice_to_vec(self.data.as_slice())
    }
}

impl<D> Clone for Signature<D> {
    fn clone(&self) -> (r: Self)
        ensures
            r@ == self@,
    {
        Signature { data: slice_to_vec(self.data.as_slice()), _tp: PhantomData }
    }
}

} // verus!
