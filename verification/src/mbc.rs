//! Cartridge-side memory bank controllers. Only the trivial
//! "no bank controller" variant is supported; the cartridge-type byte
//! at ROM offset 0x0147 selects the variant.

pub mod mbc0;

use vstd::prelude::*;
use crate::mmu::MemError;
use mbc0::MBC0;

verus! {

pub const ADDR_CARTRIDGE_TYPE: u16 = 0x0147;
pub const C_TYPE_MBC0: u8 = 0x00;

/// A cartridge memory controller: serves bytes of the ROM image it
/// holds, and faults on any access outside it.
pub trait MBC: Sized {
    /// The ROM bytes the controller serves.
    spec fn contents(&self) -> Seq<u8>;

    /// The controller's recorded ROM size agrees with its stored bytes.
    spec fn wf(&self) -> bool;

    /// The human-readable name of the controller variant.
    spec fn variant_name(&self) -> Seq<char>;

    /// The byte at `addr`, or a bus fault outside the ROM image.
    fn read(&self, addr: u16) -> (r: Result<u8, MemError>)
        requires
            self.wf(),
        ensures
            (addr as int) < self.contents().len() ==> r == Result::<u8, MemError>::Ok(
                self.contents()[addr as int],
            ),
            (addr as int) >= self.contents().len() ==> r == Result::<u8, MemError>::Err(
                MemError::BusFault,
            ),
    ;

    /// Rejects the write with a bus fault and leaves the image as it
    /// is, at every address: the ROM is read-only.
    fn write(&mut self, addr: u16, byte: u8) -> (r: Result<(), MemError>)
        requires
            old(self).wf(),
        ensures
            final(self).wf(),
            final(self).contents() == old(self).contents(),
            r == Result::<(), MemError>::Err(MemError::BusFault),
    ;

    fn get_type(&self) -> (s: &str)
        ensures
            s@ == self.variant_name(),
    ;
}

/// The set of supported controller variants.
pub enum MbcType {
    MBC0(MBC0),
}

impl MBC for MbcType {
    open spec fn contents(&self) -> Seq<u8> {
        match self {
            MbcType::MBC0(mbc0) => mbc0.contents(),
        }
    }

    open spec fn wf(&self) -> bool {
        match self {
            MbcType::MBC0(mbc0) => mbc0.wf(),
        }
    }

    open spec fn variant_name(&self) -> Seq<char> {
        match self {
            MbcType::MBC0(mbc0) => mbc0.variant_name(),
        }
    }

    fn read(&self, addr: u16) -> (r: Result<u8, MemError>) {
        match self {
            MbcType::MBC0(mbc0) => mbc0.read(addr),
        }
    }

    fn write(&mut self, addr: u16, byte: u8) -> (r: Result<(), MemError>) {
        match self {
            MbcType::MBC0(mbc0) => mbc0.write(addr, byte),
        }
    }

    fn get_type(&self) -> (s: &str) {
        match self {
            MbcType::MBC0(mbc0) => mbc0.get_type(),
        }
    }
}

/// The controller a ROM image selects, if any.
pub open spec fn rom_selected(rom: Seq<u8>) -> Option<Seq<u8>> {
    if rom[ADDR_CARTRIDGE_TYPE as int] == C_TYPE_MBC0 {
        Option::Some(rom)
    } else {
        Option::None
    }
}

pub struct MBCBuilder {}

impl MBCBuilder {
    /// Inspects the cartridge-type byte of the ROM image and builds the
    /// matching controller; no controller matches any byte other than
    /// the trivial variant's.
    pub fn from_rom(rom: &Vec<u8>) -> (r: Option<MbcType>)
        requires
            ADDR_CARTRIDGE_TYPE < rom@.len() <= u32::MAX,
        ensures
            rom@[ADDR_CARTRIDGE_TYPE as int] == C_TYPE_MBC0 ==> (r matches Option::Some(m)
                && m.wf() && m.contents() == rom@),
            rom@[ADDR_CARTRIDGE_TYPE as int] != C_TYPE_MBC0 ==> r is None,
    {
        let cart_type_byte: u8 = rom[ADDR_CARTRIDGE_TYPE as usize];
        match cart_type_byte {
            C_TYPE_MBC0 => Option::Some(MbcType::MBC0(MBC0::from_rom(rom))),
            _ => Option::None,
        }
    }
}

} // verus!
