//! The memory-management unit: routes 16-bit addresses either to the
//! cartridge controller (the ROM region) or to a flat 64 KiB backing
//! array that stands for working memory and the memory-mapped regions.

use vstd::prelude::*;
use crate::mbc::{rom_selected, MBCBuilder, MbcType, ADDR_CARTRIDGE_TYPE, MBC};
use crate::ram;

verus! {

/// Size of the flat backing array: the whole 16-bit address space.
pub const MEMORY_SIZE: usize = 0x10000;

/// First address past the region routed to the cartridge controller.
pub const ROM_REGION_END: u16 = 0x4000;

/// A memory access fault. Both are fatal to emulation: `NoMbc` when
/// the ROM region is read with no controller installed, `BusFault`
/// when the controller is asked for a byte outside its ROM image.
#[derive(Clone, Copy, Debug, PartialEq, Eq, Structural)]
pub enum MemError {
    NoMbc,
    BusFault,
}

/// Model of the MMU: the ROM image served by the controller, if one
/// is installed, and the flat backing array.
#[verifier::ext_equal]
pub ghost struct MmuV {
    pub rom: Option<Seq<u8>>,
    pub mem: Seq<u8>,
}

/// What a read of `addr` returns: the ROM region goes to the
/// controller and faults without one or past the image's end; every
/// other address reads the backing array.
pub open spec fn read_mem(rom: Option<Seq<u8>>, mem: Seq<u8>, addr: u16) -> Result<u8, MemError> {
    if addr < ROM_REGION_END {
        match rom {
            Option::Some(r) => if (addr as int) < r.len() {
                Result::Ok(r[addr as int])
            } else {
                Result::Err(MemError::BusFault)
            },
            Option::None => Result::Err(MemError::NoMbc),
        }
    } else {
        Result::Ok(mem[addr as int])
    }
}

/// The backing array with every byte zero.
pub open spec fn mem_zeroed() -> Seq<u8> {
    Seq::new(MEMORY_SIZE as nat, |i: int| 0u8)
}

pub struct MMU {
    mbc: Option<MbcType>,
    ram: ram::RAM,
    mmap: Vec<u8>,
}

impl View for MMU {
    type V = MmuV;

    closed spec fn view(&self) -> MmuV {
        MmuV {
            rom: match self.mbc {
                Option::Some(m) => Option::Some(m.contents()),
                Option::None => Option::None,
            },
            mem: self.mmap@,
        }
    }
}

impl MMU {
    /// The backing array spans the whole address space and the
    /// installed controller, if any, is internally consistent.
    pub closed spec fn wf(&self) -> bool {
        self.mmap@.len() == MEMORY_SIZE && (self.mbc matches Option::Some(m) ==> m.wf())
    }

    pub fn new() -> (r: MMU)
        ensures
            r.wf(),
            r@ == (MmuV { rom: Option::None, mem: mem_zeroed() }),
    {
        MMU { mbc: Option::None, ram: ram::RAM::new(), mmap: crate::zeroed_bytes(MEMORY_SIZE) }
    }

    /// Builds and installs a controller for the ROM image; the backing
    /// array is untouched. When no controller variant matches the
    /// cartridge-type byte, none is installed.
    pub fn read_rom(&mut self, rom: &Vec<u8>)
        requires
            old(self).wf(),
            ADDR_CARTRIDGE_TYPE < rom@.len() <= u32::MAX,
        ensures
            final(self).wf(),
            final(self)@ == (MmuV { rom: rom_selected(rom@), mem: old(self)@.mem }),
    {
        self.mbc = MBCBuilder::from_rom(rom);
    }

    /// Clears the backing array; the controller stays as it is.
    pub fn reset(&mut self)
        requires
            old(self).wf(),
        ensures
            final(self).wf(),
            final(self)@ == (MmuV { rom: old(self)@.rom, mem: mem_zeroed() }),
    {
        self.mmap = crate::zeroed_bytes(MEMORY_SIZE);
    }

    /// Reads the byte at `addr`, routed as `read_mem` says.
    pub fn rb(&self, addr: u16) -> (r: Result<u8, MemError>)
        requires
            self.wf(),
        ensures
            r == read_mem(self@.rom, self@.mem, addr),
    {
        if addr < ROM_REGION_END {
            match &self.mbc {
                Option::Some(mbc) => mbc.read(addr),
                Option::None => Result::Err(MemError::NoMbc),
            }
        } else {
            Result::Ok(self.mmap[addr as usize])
        }
    }

    /// Writes `value` into the backing array at `addr` and returns it.
    /// Writes into the ROM region land in the backing array too; the
    /// read path never sees them there.
    pub fn wb(&mut self, addr: u16, value: u8) -> (r: u8)
        requires
            old(self).wf(),
        ensures
            final(self).wf(),
            final(self)@ == (MmuV {
                rom: old(self)@.rom,
                mem: old(self)@.mem.update(addr as int, value),
            }),
            r == value,
    {
        self.mmap.set(addr as usize, value);
        value
    }
}

impl Default for MMU {
    fn default() -> (r: MMU)
        ensures
            r.wf(),
            r@ == (MmuV { rom: Option::None, mem: mem_zeroed() }),
    {
        MMU::new()
    }
}

} // verus!
