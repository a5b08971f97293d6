//! Working-RAM stub, present for interface symmetry with the hardware.

use vstd::prelude::*;

verus! {

pub const RAM_SIZE: usize = 8192;

pub struct RAM {
    data: Vec<u8>,
}

impl View for RAM {
    type V = Seq<u8>;

    closed spec fn view(&self) -> Seq<u8> {
        self.data@
    }
}

impl RAM {
    pub fn new() -> (r: RAM)
        ensures
            r@ == Seq::new(RAM_SIZE as nat, |i: int| 0u8),
    {
        RAM { data: crate::zeroed_bytes(RAM_SIZE) }
    }
}

} // verus!
