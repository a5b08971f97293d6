//! Instruction-level core of a Sharp LR35902-family 8-bit processor:
//! the register file with its packed flag byte, the memory-management
//! unit routing a 16-bit address space to cartridge ROM or working
//! memory, and the fetch/decode/execute loop of the CPU itself.
//!
//! Every executable function is verified against a mathematical model
//! of the machine state; `isa` holds that model and `laws` states the
//! general properties proved of it.

pub mod cpu;
pub mod cpu_registers;
pub mod emulation;
pub mod gpu;
pub mod isa;
pub mod laws;
pub mod mbc;
pub mod mmu;
pub mod ram;

use vstd::prelude::*;

verus! {

/// A byte vector of the given length with every element zero.
pub(crate) fn zeroed_bytes(len: usize) -> (v: Vec<u8>)
    ensures
        v@ == Seq::new(len as nat, |i: int| 0u8),
{
    let mut v: Vec<u8> = Vec::new();
    while v.len() < len
        invariant
            v@.len() <= len as nat,
            forall|i: int| 0 <= i < v@.len() ==> v@[i] == 0u8,
        decreases len - v.len(),
    {
        v.push(0);
    }
    proof {
        assert(v@ =~= Seq::new(len as nat, |i: int| 0u8));
    }
    v
}

} // verus!
