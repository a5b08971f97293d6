//! The emulation shell: owns a CPU and the ROM image it was built
//! from. The interactive step loop lives with the host program; the
//! shell only establishes the starting state.

use vstd::prelude::*;
use crate::cpu::CPU;
use crate::cpu_registers::regs_initial;
use crate::isa::CpuV;
use crate::mbc::{rom_selected, ADDR_CARTRIDGE_TYPE};
use crate::mmu::mem_zeroed;

verus! {

pub struct Emulation {
    rom_data: Vec<u8>,
    pub cpu: CPU,
}

impl View for Emulation {
    type V = CpuV;

    closed spec fn view(&self) -> CpuV {
        self.cpu@
    }
}

impl Emulation {
    pub closed spec fn wf(&self) -> bool {
        self.cpu.wf()
    }

    /// A fresh emulation: a newly built CPU with the ROM image loaded,
    /// registers at their power-on values.
    pub fn from_rom(rom: Vec<u8>) -> (r: Emulation)
        requires
            ADDR_CARTRIDGE_TYPE < rom@.len() <= u32::MAX,
        ensures
            r.wf(),
            r@ == (CpuV { regs: regs_initial(), mem: mem_zeroed(), rom: rom_selected(rom@) }),
    {
        let mut emulation = Emulation { rom_data: rom, cpu: CPU::new() };
        emulation.cpu.read_rom(&emulation.rom_data);
        emulation
    }
}

} // verus!
