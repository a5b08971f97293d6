//! Video unit stub: a fixed-size video-RAM buffer, not driven by the
//! CPU core.

use vstd::prelude::*;

verus! {

pub const VRAM_SIZE: usize = 8192;

pub struct GPU {
    data: Vec<u8>,
}

impl View for GPU {
    type V = Seq<u8>;

    closed spec fn view(&self) -> Seq<u8> {
        self.data@
    }
}

impl GPU {
    pub fn new() -> (r: GPU)
        ensures
            r@ == Seq::new(VRAM_SIZE as nat, |i: int| 0u8),
    {
        GPU { data: crate::zeroed_bytes(VRAM_SIZE) }
    }
}

} // verus!
