//! The trivial cartridge controller: a plain copy of the ROM image
//! with no banking at all.

use vstd::prelude::*;
use crate::mbc::MBC;
use crate::mmu::MemError;

verus! {

pub struct MBC0 {
    data: Vec<u8>,
    rom_size: u32,
}

impl MBC for MBC0 {
    closed spec fn contents(&self) -> Seq<u8> {
        self.data@
    }

    closed spec fn wf(&self) -> bool {
        self.rom_size as int == self.data@.len()
    }

    open spec fn variant_name(&self) -> Seq<char> {
        "MBC0 (ROM only)"@
    }

    fn read(&self, addr: u16) -> (r: Result<u8, MemError>) {
        if (addr as u32) >= self.rom_size {
            Result::Err(MemError::BusFault)
        } else {
            Result::Ok(self.data[addr as usize])
        }
    }

    fn write(&mut self, addr: u16, byte: u8) -> (r: Result<(), MemError>) {
        Result::Err(MemError::BusFault)
    }

    fn get_type(&self) -> (s: &str) {
        "MBC0 (ROM only)"
    }
}

impl MBC0 {
    pub fn new() -> (r: MBC0)
        ensures
            r.wf(),
            r.contents() == Seq::<u8>::empty(),
    {
        let r = MBC0 { data: Vec::new(), rom_size: 0 };
        proof {
            assert(r.contents() =~= Seq::<u8>::empty());
        }
        r
    }

    /// A controller holding its own copy of the ROM image; the recorded
    /// size is the image's length.
    pub fn from_rom(rom: &Vec<u8>) -> (r: MBC0)
        requires
            rom@.len() <= u32::MAX,
        ensures
            r.wf(),
            r.contents() == rom@,
    {
        MBC0 { data: rom.clone(), rom_size: rom.len() as u32 }
    }
}

} // verus!
