//! The configuration payload: the bytes of a bitstream file, uninterpreted.
use vstd::prelude::*;
use vstd::slice::slice_to_vec;

verus! {

/// A bitstream, held as its raw bytes.
pub struct Bitstream {
    data: Vec<u8>,
}

impl View for Bitstream {
    type V = Seq<u8>;

    closed spec fn view(&self) -> Seq<u8> {
        self.data@
    }
}

impl Bitstream {
    /// A bitstream holding a copy of `data`.
    pub fn from_data(data: &[u8]) -> (r: Self)
        ensures
            r@ == data@,
    {
        Self::new(slice_to_vec(data))
    }

    /// A bitstream holding `data`.
    pub fn new(data: Vec<u8>) -> (r: Self)
        ensures
            r@ == data@,
    {
        Self { data }
    }

    /// The bytes of the bitstream.
    pub fn data(&self) -> (r: &[u8])
        ensures
            r@ == self@,
    {
        self.data.as_slice()
    }
}

} // verus!
