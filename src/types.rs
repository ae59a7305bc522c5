use vstd::prelude::*;
use vstd::slice::slice_to_vec;

verus! {

/// An owned, fixed run of bytes: the body of a response.
#[derive(Debug, Clone)]
pub struct BoxedBytes {
    bytes: Vec<u8>,
}

impl View for BoxedBytes {
    type V = Seq<u8>;

    closed spec fn view(&self) -> Seq<u8> {
        self.bytes@
    }
}

impl BoxedBytes {
    /// Takes ownership of a boxed slice.
    pub fn new(bytes: Box<[u8]>) -> (r: Self)
        ensures
            r@ == bytes@,
    {
        BoxedBytes { bytes: bytes.into_vec() }
    }

    /// Copies the bytes of a slice.
    pub fn from_slice(s: &[u8]) -> (r: Self)
        ensures
            r@ == s@,
    {
        BoxedBytes { bytes: slice_to_vec(s) }
    }

    /// Copies the bytes of an array.
    pub fn from_array<const N: usize>(arr: [u8; N]) -> (r: Self)
        ensures
            r@ == arr@,
    {
        BoxedBytes { bytes: slice_to_vec(arr.as_slice()) }
    }

    /// Takes ownership of a vector's bytes.
    pub fn from_vec(v: Vec<u8>) -> (r: Self)
        ensures
            r@ == v@,
    {
        BoxedBytes { bytes: v }
    }

    /// The bytes, in order.
    pub fn as_slice(&self) -> (r: &[u8])
        ensures
            r@ == self@,
    {
        self.bytes.as_slice()
    }

    pub fn len(&self) -> (r: usize)
        ensures
            r as int == self@.len(),
    {
        self.bytes.len()
    }

    pub fn is_empty(&self) -> (r: bool)
        ensures
            r == (self@.len() == 0),
    {
        self.bytes.len() == 0
    }

    /// Gives the bytes back as a vector.
    pub fn into_vec(self) -> (r: Vec<u8>)
        ensures
            r@ == self@,
    {
        self.bytes
    }
}

} // verus!
