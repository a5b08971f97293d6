//! The CPU core: fetch/decode/execute over the register file and the
//! MMU. Every step is proved equal to the `isa` model: `exec_inst`
//! performs exactly the transition `spec_step` describes, fault cases
//! included.

use vstd::prelude::*;
use crate::cpu_registers::{pair_value, wrap_dec16, wrap_inc16, CPURegisters};
use crate::gpu;
use crate::isa::{
    alu16_sum, alu8_rot, alu8_rot_carry, alu8_sum, hl_of, spec_decode, spec_decode_0x,
    spec_decode_1x, spec_decode_2x, spec_decode_3x, spec_decode_8x, spec_decode_cx,
    spec_decode_ex, spec_decode_fx, spec_fetch, spec_fetchw, spec_ld_r_r, spec_step, with_flags,
    with_hl, CpuV,
};
use crate::mbc::{rom_selected, ADDR_CARTRIDGE_TYPE};
use crate::mmu::{mem_zeroed, MemError, MMU};

verus! {

/// The 16-bit value with `upper_byte` high and `lower_byte` low.
fn merge_bytes(upper_byte: u8, lower_byte: u8) -> (r: u16)
    ensures
        r == pair_value(upper_byte, lower_byte),
{
    (upper_byte as u16) << 8 | (lower_byte as u16)
}

pub struct CPU {
    gpu: gpu::GPU,
    pub mmu: MMU,
    pub registers: CPURegisters,
}

impl View for CPU {
    type V = CpuV;

    closed spec fn view(&self) -> CpuV {
        CpuV { regs: self.registers@, mem: self.mmu@.mem, rom: self.mmu@.rom }
    }
}

impl CPU {
    pub closed spec fn wf(&self) -> bool {
        self.mmu.wf()
    }

    pub fn new() -> (r: CPU)
        ensures
            r.wf(),
            r@ == (CpuV {
                regs: crate::cpu_registers::regs_initial(),
                mem: mem_zeroed(),
                rom: Option::None,
            }),
    {
        CPU { gpu: gpu::GPU::new(), mmu: MMU::new(), registers: CPURegisters::new() }
    }

    /// Executes the instruction at PC: fetches the opcode byte
    /// (advancing PC), decodes and performs it, and returns its
    /// machine-cycle count, or the memory fault that stopped it.
    pub fn exec_inst(&mut self) -> (r: Result<u8, MemError>)
        requires
            old(self).wf(),
        ensures
            final(self).wf(),
            r == spec_step(old(self)@).0,
            final(self)@ == spec_step(old(self)@).1,
    {
        match self.nextb() {
            Result::Err(e) => Result::Err(e),
            Result::Ok(next_inst) => self.decode_inst(next_inst),
        }
    }

    /// Clears memory, then builds and installs the cartridge
    /// controller the ROM image selects; the registers are untouched.
    pub fn read_rom(&mut self, rom: &Vec<u8>)
        requires
            old(self).wf(),
            ADDR_CARTRIDGE_TYPE < rom@.len() <= u32::MAX,
        ensures
            final(self).wf(),
            final(self)@ == (CpuV {
                regs: old(self)@.regs,
                mem: mem_zeroed(),
                rom: rom_selected(rom@),
            }),
    {
        self.mmu.reset();
        self.mmu.read_rom(rom);
    }

    /// The byte at PC; PC advances only when the read succeeds.
    fn nextb(&mut self) -> (r: Result<u8, MemError>)
        requires
            old(self).wf(),
        ensures
            final(self).wf(),
            r == spec_fetch(old(self)@).0,
            final(self)@ == spec_fetch(old(self)@).1,
    {
        match self.mmu.rb(self.registers.get_pc()) {
            Result::Ok(next_byte) => {
                self.registers.inc_pc();
                Result::Ok(next_byte)
            },
            Result::Err(e) => Result::Err(e),
        }
    }

    /// A 16-bit immediate: low byte first, high byte second.
    fn nextw(&mut self) -> (r: Result<u16, MemError>)
        requires
            old(self).wf(),
        ensures
            final(self).wf(),
            r == spec_fetchw(old(self)@).0,
            final(self)@ == spec_fetchw(old(self)@).1,
    {
        match self.nextb() {
            Result::Err(e) => Result::Err(e),
            Result::Ok(lsb) => match self.nextb() {
                Result::Err(e) => Result::Err(e),
                Result::Ok(msb) => Result::Ok(merge_bytes(msb, lsb)),
            },
        }
    }

    fn dec_hl(&mut self) -> (r: u16)
        requires
            old(self).wf(),
        ensures
            final(self).wf(),
            final(self)@ == with_hl(old(self)@, wrap_dec16(hl_of(old(self)@))),
            r == wrap_dec16(hl_of(old(self)@)),
    {
        let hl: u16 = self.registers.get_hl();
        self.registers.set_hl(hl.wrapping_sub(1))
    }

    fn inc_hl(&mut self) -> (r: u16)
        requires
            old(self).wf(),
        ensures
            final(self).wf(),
            final(self)@ == with_hl(old(self)@, wrap_inc16(hl_of(old(self)@))),
            r == wrap_inc16(hl_of(old(self)@)),
    {
        let hl: u16 = self.registers.get_hl();
        self.registers.set_hl(hl.wrapping_add(1))
    }

    /// 16-bit add with configurable carry and half-carry masks; only
    /// the flags of the register file change.
    fn alu16_add_with_carry(
        &mut self,
        a: u16,
        n: u16,
        carry: u16,
        half_carry: u16,
        set_zero: bool,
    ) -> (r: u16)
        requires
            old(self).wf(),
        ensures
            final(self).wf(),
            r == alu16_sum(a, n, set_zero, carry, half_carry, old(self)@.regs.flg).0,
            final(self)@ == with_flags(
                old(self)@,
                alu16_sum(a, n, set_zero, carry, half_carry, old(self)@.regs.flg).1,
            ),
    {
        let result: u16 = ((a as u32 + n as u32) % 0x10000) as u16;
        let flg = self.registers.get_flg();
        if set_zero {
            flg.set_flg_zero(result == 0);
        }
        flg.set_flg_sub(false);
        flg.set_flg_half_carry(
            (a & half_carry) as u32 + (n & half_carry) as u32 > half_carry as u32,
        );
        flg.set_flg_carry((a & carry) as u32 + (n & carry) as u32 > carry as u32);
        result
    }

    /// 16-bit add with the masks of ADD HL,rr.
    fn alu16_add(&mut self, a: u16, n: u16, set_zero: bool) -> (r: u16)
        requires
            old(self).wf(),
        ensures
            final(self).wf(),
            r == alu16_sum(a, n, set_zero, 0xFFFF, 0x0FFF, old(self)@.regs.flg).0,
            final(self)@ == with_flags(
                old(self)@,
                alu16_sum(a, n, set_zero, 0xFFFF, 0x0FFF, old(self)@.regs.flg).1,
            ),
    {
        self.alu16_add_with_carry(a, n, 0xFFFF, 0x0FFF, set_zero)
    }

    /// 8-bit add with configurable masks and no carry-in; only the
    /// flags of the register file change.
    fn alu8_add_with_carry(
        &mut self,
        a: u8,
        n: u8,
        set_zero: bool,
        carry: u8,
        half_carry: u8,
    ) -> (r: u8)
        requires
            old(self).wf(),
        ensures
            final(self).wf(),
            r == alu8_sum(a, n, 0, set_zero, carry, half_carry, old(self)@.regs.flg).0,
            final(self)@ == with_flags(
                old(self)@,
                alu8_sum(a, n, 0, set_zero, carry, half_carry, old(self)@.regs.flg).1,
            ),
    {
        let result: u8 = ((a as u16 + n as u16) % 0x100) as u8;
        let flg = self.registers.get_flg();
        if set_zero {
            flg.set_flg_zero(result == 0);
        }
        flg.set_flg_sub(false);
        flg.set_flg_half_carry(
            (a & half_carry) as u16 + (n & half_carry) as u16 > half_carry as u16,
        );
        flg.set_flg_carry((a & carry) as u16 + (n & carry) as u16 > carry as u16);
        result
    }

    /// 8-bit add with the standard masks.
    fn alu8_add(&mut self, a: u8, n: u8, set_zero: bool) -> (r: u8)
        requires
            old(self).wf(),
        ensures
            final(self).wf(),
            r == alu8_sum(a, n, 0, set_zero, 0xFF, 0xF, old(self)@.regs.flg).0,
            final(self)@ == with_flags(
                old(self)@,
                alu8_sum(a, n, 0, set_zero, 0xFF, 0xF, old(self)@.regs.flg).1,
            ),
    {
        self.alu8_add_with_carry(a, n, set_zero, 0xFF, 0xF)
    }

    /// 8-bit add with carry-in and configurable masks.
    fn alu8_adc_with_carry(
        &mut self,
        a: u8,
        n: u8,
        carry_enabled: bool,
        set_zero: bool,
        carry_mask: u8,
        half_carry_mask: u8,
    ) -> (r: u8)
        requires
            old(self).wf(),
        ensures
            final(self).wf(),
            r == alu8_sum(
                a,
                n,
                (if carry_enabled {
                    1u8
                } else {
                    0u8
                }),
                set_zero,
                carry_mask,
                half_carry_mask,
                old(self)@.regs.flg,
            ).0,
            final(self)@ == with_flags(
                old(self)@,
                alu8_sum(
                    a,
                    n,
                    (if carry_enabled {
                        1u8
                    } else {
                        0u8
                    }),
                    set_zero,
                    carry_mask,
                    half_carry_mask,
                    old(self)@.regs.flg,
                ).1,
            ),
    {
        let c: u8 = if carry_enabled {
            1
        } else {
            0
        };
        let result: u8 = ((a as u16 + n as u16 + c as u16) % 0x100) as u8;
        let flg = self.registers.get_flg();
        if set_zero {
            flg.set_flg_zero(result == 0);
        }
        flg.set_flg_sub(false);
        flg.set_flg_half_carry(
            (a & half_carry_mask) as u16 + (n & half_carry_mask) as u16 + c as u16
                > half_carry_mask as u16,
        );
        flg.set_flg_carry(
            (a & carry_mask) as u16 + (n & carry_mask) as u16 + c as u16 > carry_mask as u16,
        );
        result
    }

    /// 8-bit add with carry-in and the standard masks.
    fn alu8_adc(&mut self, a: u8, n: u8, carry_enabled: bool, set_zero: bool) -> (r: u8)
        requires
            old(self).wf(),
        ensures
            final(self).wf(),
            r == alu8_sum(
                a,
                n,
                (if carry_enabled {
                    1u8
                } else {
                    0u8
                }),
                set_zero,
                0xFF,
                0xF,
                old(self)@.regs.flg,
            ).0,
            final(self)@ == with_flags(
                old(self)@,
                alu8_sum(
                    a,
                    n,
                    (if carry_enabled {
                        1u8
                    } else {
                        0u8
                    }),
                    set_zero,
                    0xFF,
                    0xF,
                    old(self)@.regs.flg,
                ).1,
            ),
    {
        self.alu8_adc_with_carry(a, n, carry_enabled, set_zero, 0xFF, 0xF)
    }

    /// One-bit rotate, not through carry; the flag byte is rebuilt
    /// from the outgoing bit and the result.
    fn alu8_r(&mut self, value: u8, right: bool) -> (r: u8)
        requires
            old(self).wf(),
        ensures
            final(self).wf(),
            r == alu8_rot(value, right).0,
            final(self)@ == with_flags(old(self)@, alu8_rot(value, right).1),
    {
        let rotated_bit: u8 = if right {
            value & 1
        } else {
            (value & 0x80) >> 7
        };
        let rotated: u8 = if right {
            (value >> 1) | ((value & 1) << 7)
        } else {
            ((value & 0x7F) << 1) | ((value & 0x80) >> 7)
        };
        let flg = self.registers.get_flg();
        flg.set_flg_zero(rotated == 0);
        flg.set_flg_sub(false);
        flg.set_flg_half_carry(false);
        flg.set_flg_carry(rotated_bit == 1);
        rotated
    }

    /// One-bit rotate through the Carry flag.
    fn alu8_rc(&mut self, value: u8, right: bool) -> (r: u8)
        requires
            old(self).wf(),
        ensures
            final(self).wf(),
            r == alu8_rot_carry(value, right, old(self)@.regs.flg.carry).0,
            final(self)@ == with_flags(
                old(self)@,
                alu8_rot_carry(value, right, old(self)@.regs.flg.carry).1,
            ),
    {
        let rotated_bit: u8 = if right {
            value & 1
        } else {
            (value & 0x80) >> 7
        };
        let flg = self.registers.get_flg();
        let carry: bool = flg.get_flg_carry();
        let rotated: u8 = if right {
            (value >> 1) | (if carry {
                0x80u8
            } else {
                0u8
            })
        } else {
            ((value & 0x7F) << 1) | (if carry {
                1u8
            } else {
                0u8
            })
        };
        flg.set_flg_zero(rotated == 0);
        flg.set_flg_sub(false);
        flg.set_flg_half_carry(false);
        flg.set_flg_carry(rotated_bit == 1);
        rotated
    }

    /// Opcodes 0x00..0x0F.
    fn decode_0x(&mut self, byte: u8) -> (r: Result<u8, MemError>)
        requires
            old(self).wf(),
            byte < 0x10,
        ensures
            final(self).wf(),
            r == spec_decode_0x(old(self)@, byte).0,
            final(self)@ == spec_decode_0x(old(self)@, byte).1,
    {
        match byte {
            0x00 /* NOP */ => Result::Ok(1),
            0x01 /* LD BC,nn */ => match self.nextb() {
                Result::Err(e) => Result::Err(e),
                Result::Ok(value_lo) => match self.nextb() {
                    Result::Err(e) => Result::Err(e),
                    Result::Ok(value_hi) => {
                        self.registers.set_b(value_hi);
                        self.registers.set_c(value_lo);
                        Result::Ok(3)
                    },
                },
            },
            0x02 /* LD (BC),A */ => {
                let value: u8 = self.registers.get_a();
                let addr: u16 = self.registers.get_bc();
                self.mmu.wb(addr, value);
                Result::Ok(2)
            },
            0x03 /* INC BC */ => {
                let value: u16 = self.registers.get_bc();
                self.registers.set_bc(value.wrapping_add(1));
                Result::Ok(2)
            },
            0x04 /* INC B */ => {
                let value: u8 = self.registers.get_b();
                let inc: u8 = value.wrapping_add(1);
                self.registers.set_b(inc);
                let flg = self.registers.get_flg();
                flg.set_flg_sub(false);
                flg.set_flg_half_carry((value & 0xF) as u16 + 1 > 0xF);
                flg.set_flg_zero(inc == 0);
                Result::Ok(1)
            },
            0x05 /* DEC B */ => {
                let value: u8 = self.registers.get_b();
                let dec: u8 = value.wrapping_sub(1);
                self.registers.set_b(dec);
                let flg = self.registers.get_flg();
                flg.set_flg_sub(true);
                flg.set_flg_half_carry(value & 0xF == 0);
                flg.set_flg_zero(dec == 0);
                Result::Ok(1)
            },
            0x06 /* LD B,n */ => match self.nextb() {
                Result::Err(e) => Result::Err(e),
                Result::Ok(value) => {
                    self.registers.set_b(value);
                    Result::Ok(2)
                },
            },
            0x07 /* RLCA */ => {
                let value: u8 = self.registers.get_a();
                let rotated: u8 = self.alu8_r(value, false);
                self.registers.set_a(rotated);
                Result::Ok(1)
            },
            0x08 /* LD (nn),SP */ => match self.nextw() {
                Result::Err(e) => Result::Err(e),
                Result::Ok(value) => {
                    let sp: u16 = self.registers.get_sp();
                    self.mmu.wb(value, (sp & 0x00FF) as u8);
                    self.mmu.wb(value.wrapping_add(1), (sp >> 8) as u8);
                    Result::Ok(5)
                },
            },
            0x09 /* ADD HL,BC */ => {
                let value: u16 = self.registers.get_bc();
                let hl: u16 = self.registers.get_hl();
                let sum: u16 = self.alu16_add(hl, value, false);
                self.registers.set_hl(sum);
                Result::Ok(2)
            },
            0x0A /* LD A,(BC) */ => {
                let bc: u16 = self.registers.get_bc();
                match self.mmu.rb(bc) {
                    Result::Err(e) => Result::Err(e),
                    Result::Ok(value) => {
                        self.registers.set_a(value);
                        Result::Ok(2)
                    },
                }
            },
            0x0B /* DEC BC */ => {
                let value: u16 = self.registers.get_bc();
                self.registers.set_bc(value.wrapping_sub(1));
                Result::Ok(2)
            },
            0x0C /* INC C */ => {
                let value: u8 = self.registers.get_c();
                let inc: u8 = value.wrapping_add(1);
                self.registers.set_c(inc);
                let flg = self.registers.get_flg();
                flg.set_flg_sub(false);
                flg.set_flg_half_carry((value & 0xF) as u16 + 1 > 0xF);
                flg.set_flg_zero(inc == 0);
                Result::Ok(1)
            },
            0x0D /* DEC C */ => {
                let value: u8 = self.registers.get_c();
                let dec: u8 = value.wrapping_sub(1);
                self.registers.set_c(dec);
                let flg = self.registers.get_flg();
                flg.set_flg_sub(true);
                flg.set_flg_half_carry(value & 0xF == 0);
                flg.set_flg_zero(dec == 0);
                Result::Ok(1)
            },
            0x0E /* LD C,n */ => match self.nextb() {
                Result::Err(e) => Result::Err(e),
                Result::Ok(value) => {
                    self.registers.set_c(value);
                    Result::Ok(2)
                },
            },
            0x0F /* RRCA */ => {
                let value: u8 = self.registers.get_a();
                let rotated: u8 = self.alu8_r(value, true);
                self.registers.set_a(rotated);
                Result::Ok(1)
            },
            _ => Result::Ok(0),
        }
    }

    /// Opcodes 0x10..0x1F.
    fn decode_1x(&mut self, byte: u8) -> (r: Result<u8, MemError>)
        requires
            old(self).wf(),
            0x10 <= byte < 0x20,
        ensures
            final(self).wf(),
            r == spec_decode_1x(old(self)@, byte).0,
            final(self)@ == spec_decode_1x(old(self)@, byte).1,
    {
        match byte {
            0x11 /* LD DE,nn */ => match self.nextb() {
                Result::Err(e) => Result::Err(e),
                Result::Ok(value_lo) => match self.nextb() {
                    Result::Err(e) => Result::Err(e),
                    Result::Ok(value_hi) => {
                        self.registers.set_d(value_hi);
                        self.registers.set_e(value_lo);
                        Result::Ok(3)
                    },
                },
            },
            0x12 /* LD (DE),A */ => {
                let value: u8 = self.registers.get_a();
                let addr: u16 = self.registers.get_de();
                self.mmu.wb(addr, value);
                Result::Ok(2)
            },
            0x13 /* INC DE */ => {
                let value: u16 = self.registers.get_de();
                self.registers.set_de(value.wrapping_add(1));
                Result::Ok(2)
            },
            0x14 /* INC D */ => {
                let value: u8 = self.registers.get_d();
                let inc: u8 = value.wrapping_add(1);
                self.registers.set_d(inc);
                let flg = self.registers.get_flg();
                flg.set_flg_sub(false);
                flg.set_flg_half_carry((value & 0xF) as u16 + 1 > 0xF);
                flg.set_flg_zero(inc == 0);
                Result::Ok(1)
            },
            0x15 /* DEC D */ => {
                let value: u8 = self.registers.get_d();
                let dec: u8 = value.wrapping_sub(1);
                self.registers.set_d(dec);
                let flg = self.registers.get_flg();
                flg.set_flg_sub(true);
                flg.set_flg_half_carry(value & 0xF == 0);
                flg.set_flg_zero(dec == 0);
                Result::Ok(1)
            },
            0x16 /* LD D,n */ => match self.nextb() {
                Result::Err(e) => Result::Err(e),
                Result::Ok(value) => {
                    self.registers.set_d(value);
                    Result::Ok(2)
                },
            },
            0x17 /* RLA */ => {
                let value: u8 = self.registers.get_a();
                let rotated: u8 = self.alu8_rc(value, false);
                self.registers.set_a(rotated);
                Result::Ok(1)
            },
            0x19 /* ADD HL,DE */ => {
                let value: u16 = self.registers.get_de();
                let hl: u16 = self.registers.get_hl();
                let sum: u16 = self.alu16_add(hl, value, false);
                self.registers.set_hl(sum);
                Result::Ok(2)
            },
            0x1A /* LD A,(DE) */ => {
                let de: u16 = self.registers.get_de();
                match self.mmu.rb(de) {
                    Result::Err(e) => Result::Err(e),
                    Result::Ok(value) => {
                        self.registers.set_a(value);
                        Result::Ok(2)
                    },
                }
            },
            0x1B /* DEC DE */ => {
                let value: u16 = self.registers.get_de();
                self.registers.set_de(value.wrapping_sub(1));
                Result::Ok(2)
            },
            0x1C /* INC E */ => {
                let value: u8 = self.registers.get_e();
                let inc: u8 = value.wrapping_add(1);
                self.registers.set_e(inc);
                let flg = self.registers.get_flg();
                flg.set_flg_sub(false);
                flg.set_flg_half_carry((value & 0xF) as u16 + 1 > 0xF);
                flg.set_flg_zero(inc == 0);
                Result::Ok(1)
            },
            0x1D /* DEC E */ => {
                let value: u8 = self.registers.get_e();
                let dec: u8 = value.wrapping_sub(1);
                self.registers.set_e(dec);
                let flg = self.registers.get_flg();
                flg.set_flg_sub(true);
                flg.set_flg_half_carry(value & 0xF == 0);
                flg.set_flg_zero(dec == 0);
                Result::Ok(1)
            },
            0x1E /* LD E,n */ => match self.nextb() {
                Result::Err(e) => Result::Err(e),
                Result::Ok(value) => {
                    self.registers.set_e(value);
                    Result::Ok(2)
                },
            },
            0x1F /* RRA */ => {
                let value: u8 = self.registers.get_a();
                let rotated: u8 = self.alu8_rc(value, true);
                self.registers.set_a(rotated);
                Result::Ok(1)
            },
            _ => Result::Ok(0),
        }
    }

    /// Opcodes 0x20..0x2F.
    fn decode_2x(&mut self, byte: u8) -> (r: Result<u8, MemError>)
        requires
            old(self).wf(),
            0x20 <= byte < 0x30,
        ensures
            final(self).wf(),
            r == spec_decode_2x(old(self)@, byte).0,
            final(self)@ == spec_decode_2x(old(self)@, byte).1,
    {
        match byte {
            0x21 /* LD HL,nn */ => match self.nextb() {
                Result::Err(e) => Result::Err(e),
                Result::Ok(value_lo) => match self.nextb() {
                    Result::Err(e) => Result::Err(e),
                    Result::Ok(value_hi) => {
                        self.registers.set_h(value_hi);
                        self.registers.set_l(value_lo);
                        Result::Ok(3)
                    },
                },
            },
            0x22 /* LD (HL+),A */ => {
                let addr: u16 = self.registers.get_hl();
                let value: u8 = self.registers.get_a();
                self.mmu.wb(addr, value);
                self.inc_hl();
                Result::Ok(2)
            },
            0x23 /* INC HL */ => {
                let value: u16 = self.registers.get_hl();
                self.registers.set_hl(value.wrapping_add(1));
                Result::Ok(2)
            },
            0x24 /* INC H */ => {
                let value: u8 = self.registers.get_h();
                let inc: u8 = value.wrapping_add(1);
                self.registers.set_h(inc);
                let flg = self.registers.get_flg();
                flg.set_flg_sub(false);
                flg.set_flg_half_carry((value & 0xF) as u16 + 1 > 0xF);
                flg.set_flg_zero(inc == 0);
                Result::Ok(1)
            },
            0x25 /* DEC H */ => {
                let value: u8 = self.registers.get_h();
                let dec: u8 = value.wrapping_sub(1);
                self.registers.set_h(dec);
                let flg = self.registers.get_flg();
                flg.set_flg_sub(true);
                flg.set_flg_half_carry(value & 0xF == 0);
                flg.set_flg_zero(dec == 0);
                Result::Ok(1)
            },
            0x26 /* LD H,n */ => match self.nextb() {
                Result::Err(e) => Result::Err(e),
                Result::Ok(value) => {
                    self.registers.set_h(value);
                    Result::Ok(2)
                },
            },
            0x29 /* ADD HL,HL */ => {
                let hl: u16 = self.registers.get_hl();
                let sum: u16 = self.alu16_add(hl, hl, false);
                self.registers.set_hl(sum);
                Result::Ok(2)
            },
            0x2A /* LD A,(HL+) */ => {
                let addr: u16 = self.registers.get_hl();
                match self.mmu.rb(addr) {
                    Result::Err(e) => Result::Err(e),
                    Result::Ok(value) => {
                        self.registers.set_a(value);
                        self.inc_hl();
                        Result::Ok(2)
                    },
                }
            },
            0x2B /* DEC HL */ => {
                let value: u16 = self.registers.get_hl();
                self.registers.set_hl(value.wrapping_sub(1));
                Result::Ok(2)
            },
            0x2C /* INC L */ => {
                let value: u8 = self.registers.get_l();
                let inc: u8 = value.wrapping_add(1);
                self.registers.set_l(inc);
                let flg = self.registers.get_flg();
                flg.set_flg_sub(false);
                flg.set_flg_half_carry((value & 0xF) as u16 + 1 > 0xF);
                flg.set_flg_zero(inc == 0);
                Result::Ok(1)
            },
            0x2D /* DEC L */ => {
                let value: u8 = self.registers.get_l();
                let dec: u8 = value.wrapping_sub(1);
                self.registers.set_l(dec);
                let flg = self.registers.get_flg();
                flg.set_flg_sub(true);
                flg.set_flg_half_carry(value & 0xF == 0);
                flg.set_flg_zero(dec == 0);
                Result::Ok(1)
            },
            0x2E /* LD L,n */ => match self.nextb() {
                Result::Err(e) => Result::Err(e),
                Result::Ok(value) => {
                    self.registers.set_l(value);
                    Result::Ok(2)
                },
            },
            _ => Result::Ok(0),
        }
    }

    /// Opcodes 0x30..0x3F.
    fn decode_3x(&mut self, byte: u8) -> (r: Result<u8, MemError>)
        requires
            old(self).wf(),
            0x30 <= byte < 0x40,
        ensures
            final(self).wf(),
            r == spec_decode_3x(old(self)@, byte).0,
            final(self)@ == spec_decode_3x(old(self)@, byte).1,
    {
        match byte {
            0x31 /* LD SP,nn */ => match self.nextw() {
                Result::Err(e) => Result::Err(e),
                Result::Ok(value) => {
                    self.registers.set_sp(value);
                    Result::Ok(3)
                },
            },
            0x32 /* LD (HL-),A */ => {
                let a: u8 = self.registers.get_a();
                let hl: u16 = self.registers.get_hl();
                self.mmu.wb(hl, a);
                self.dec_hl();
                Result::Ok(2)
            },
            0x33 /* INC SP */ => {
                let value: u16 = self.registers.get_sp();
                self.registers.set_sp(value.wrapping_add(1));
                Result::Ok(2)
            },
            0x34 /* INC (HL) */ => {
                let hl: u16 = self.registers.get_hl();
                match self.mmu.rb(hl) {
                    Result::Err(e) => Result::Err(e),
                    Result::Ok(value) => {
                        let inc: u8 = value.wrapping_add(1);
                        self.mmu.wb(hl, inc);
                        let flg = self.registers.get_flg();
                        flg.set_flg_sub(false);
                        flg.set_flg_half_carry((value & 0xF) as u16 + 1 > 0xF);
                        flg.set_flg_zero(inc == 0);
                        Result::Ok(3)
                    },
                }
            },
            0x35 /* DEC (HL) */ => {
                let hl: u16 = self.registers.get_hl();
                match self.mmu.rb(hl) {
                    Result::Err(e) => Result::Err(e),
                    Result::Ok(value) => {
                        let dec: u8 = value.wrapping_sub(1);
                        self.mmu.wb(hl, dec);
                        let flg = self.registers.get_flg();
                        flg.set_flg_sub(true);
                        flg.set_flg_half_carry(value & 0xF == 0);
                        flg.set_flg_zero(dec == 0);
                        Result::Ok(3)
                    },
                }
            },
            0x36 /* LD (HL),n */ => match self.nextb() {
                Result::Err(e) => Result::Err(e),
                Result::Ok(next_byte) => {
                    let hl: u16 = self.registers.get_hl();
                    self.mmu.wb(hl, next_byte);
                    Result::Ok(3)
                },
            },
            0x39 /* ADD HL,SP */ => {
                let value: u16 = self.registers.get_sp();
                let hl: u16 = self.registers.get_hl();
                let sum: u16 = self.alu16_add(hl, value, false);
                self.registers.set_hl(sum);
                Result::Ok(2)
            },
            0x3A /* LD A,(HL-) */ => {
                let hl: u16 = self.registers.get_hl();
                match self.mmu.rb(hl) {
                    Result::Err(e) => Result::Err(e),
                    Result::Ok(value) => {
                        self.registers.set_a(value);
                        self.dec_hl();
                        Result::Ok(2)
                    },
                }
            },
            0x3B /* DEC SP */ => {
                let value: u16 = self.registers.get_sp();
                self.registers.set_sp(value.wrapping_sub(1));
                Result::Ok(2)
            },
            0x3C /* INC A */ => {
                let value: u8 = self.registers.get_a();
                let inc: u8 = value.wrapping_add(1);
                self.registers.set_a(inc);
                let flg = self.registers.get_flg();
                flg.set_flg_sub(false);
                flg.set_flg_half_carry((value & 0xF) as u16 + 1 > 0xF);
                flg.set_flg_zero(inc == 0);
                Result::Ok(1)
            },
            0x3D /* DEC A */ => {
                let value: u8 = self.registers.get_a();
                let dec: u8 = value.wrapping_sub(1);
                self.registers.set_a(dec);
                let flg = self.registers.get_flg();
                flg.set_flg_sub(true);
                flg.set_flg_half_carry(value & 0xF == 0);
                flg.set_flg_zero(dec == 0);
                Result::Ok(1)
            },
            0x3E /* LD A,n */ => match self.nextb() {
                Result::Err(e) => Result::Err(e),
                Result::Ok(value) => {
                    self.registers.set_a(value);
                    Result::Ok(2)
                },
            },
            _ => Result::Ok(0),
        }
    }

    /// Register-to-register loads, 0x40..0x7F except HALT (0x76).
    fn decode_ld(&mut self, byte: u8) -> (r: Result<u8, MemError>)
        requires
            old(self).wf(),
            0x40 <= byte < 0x80,
            byte != 0x76,
        ensures
            final(self).wf(),
            r == spec_ld_r_r(old(self)@, byte).0,
            final(self)@ == spec_ld_r_r(old(self)@, byte).1,
    {
        match byte {
            0x40 /* LD B,B */ => Result::Ok(1),
            0x41 /* LD B,C */ => {
                let v: u8 = self.registers.get_c();
                self.registers.set_b(v);
                Result::Ok(1)
            },
            0x42 /* LD B,D */ => {
                let v: u8 = self.registers.get_d();
                self.registers.set_b(v);
                Result::Ok(1)
            },
            0x43 /* LD B,E */ => {
                let v: u8 = self.registers.get_e();
                self.registers.set_b(v);
                Result::Ok(1)
            },
            0x44 /* LD B,H */ => {
                let v: u8 = self.registers.get_h();
                self.registers.set_b(v);
                Result::Ok(1)
            },
            0x45 /* LD B,L */ => {
                let v: u8 = self.registers.get_l();
                self.registers.set_b(v);
                Result::Ok(1)
            },
            0x46 /* LD B,(HL) */ => {
                let hl: u16 = self.registers.get_hl();
                match self.mmu.rb(hl) {
                    Result::Err(e) => Result::Err(e),
                    Result::Ok(v) => {
                        self.registers.set_b(v);
                        Result::Ok(2)
                    },
                }
            },
            0x47 /* LD B,A */ => {
                let v: u8 = self.registers.get_a();
                self.registers.set_b(v);
                Result::Ok(1)
            },
            0x48 /* LD C,B */ => {
                let v: u8 = self.registers.get_b();
                self.registers.set_c(v);
                Result::Ok(1)
            },
            0x49 /* LD C,C */ => Result::Ok(1),
            0x4A /* LD C,D */ => {
                let v: u8 = self.registers.get_d();
                self.registers.set_c(v);
                Result::Ok(1)
            },
            0x4B /* LD C,E */ => {
                let v: u8 = self.registers.get_e();
                self.registers.set_c(v);
                Result::Ok(1)
            },
            0x4C /* LD C,H */ => {
                let v: u8 = self.registers.get_h();
                self.registers.set_c(v);
                Result::Ok(1)
            },
            0x4D /* LD C,L */ => {
                let v: u8 = self.registers.get_l();
                self.registers.set_c(v);
                Result::Ok(1)
            },
            0x4E /* LD C,(HL) */ => {
                let hl: u16 = self.registers.get_hl();
                match self.mmu.rb(hl) {
                    Result::Err(e) => Result::Err(e),
                    Result::Ok(v) => {
                        self.registers.set_c(v);
                        Result::Ok(2)
                    },
                }
            },
            0x4F /* LD C,A */ => {
                let v: u8 = self.registers.get_a();
                self.registers.set_c(v);
                Result::Ok(1)
            },
            0x50 /* LD D,B */ => {
                let v: u8 = self.registers.get_b();
                self.registers.set_d(v);
                Result::Ok(1)
            },
            0x51 /* LD D,C */ => {
                let v: u8 = self.registers.get_c();
                self.registers.set_d(v);
                Result::Ok(1)
            },
            0x52 /* LD D,D */ => Result::Ok(1),
            0x53 /* LD D,E */ => {
                let v: u8 = self.registers.get_e();
                self.registers.set_d(v);
                Result::Ok(1)
            },
            0x54 /* LD D,H */ => {
                let v: u8 = self.registers.get_h();
                self.registers.set_d(v);
                Result::Ok(1)
            },
            0x55 /* LD D,L */ => {
                let v: u8 = self.registers.get_l();
                self.registers.set_d(v);
                Result::Ok(1)
            },
            0x56 /* LD D,(HL) */ => {
                let hl: u16 = self.registers.get_hl();
                match self.mmu.rb(hl) {
                    Result::Err(e) => Result::Err(e),
                    Result::Ok(v) => {
                        self.registers.set_d(v);
                        Result::Ok(2)
                    },
                }
            },
            0x57 /* LD D,A */ => {
                let v: u8 = self.registers.get_a();
                self.registers.set_d(v);
                Result::Ok(1)
            },
            0x58 /* LD E,B */ => {
                let v: u8 = self.registers.get_b();
                self.registers.set_e(v);
                Result::Ok(1)
            },
            0x59 /* LD E,C */ => {
                let v: u8 = self.registers.get_c();
                self.registers.set_e(v);
                Result::Ok(1)
            },
            0x5A /* LD E,D */ => {
                let v: u8 = self.registers.get_d();
                self.registers.set_e(v);
                Result::Ok(1)
            },
            0x5B /* LD E,E */ => Result::Ok(1),
            0x5C /* LD E,H */ => {
                let v: u8 = self.registers.get_h();
                self.registers.set_e(v);
                Result::Ok(1)
            },
            0x5D /* LD E,L */ => {
                let v: u8 = self.registers.get_l();
                self.registers.set_e(v);
                Result::Ok(1)
            },
            0x5E /* LD E,(HL) */ => {
                let hl: u16 = self.registers.get_hl();
                match self.mmu.rb(hl) {
                    Result::Err(e) => Result::Err(e),
                    Result::Ok(v) => {
                        self.registers.set_e(v);
                        Result::Ok(2)
                    },
                }
            },
            0x5F /* LD E,A */ => {
                let v: u8 = self.registers.get_a();
                self.registers.set_e(v);
                Result::Ok(1)
            },
            0x60 /* LD H,B */ => {
                let v: u8 = self.registers.get_b();
                self.registers.set_h(v);
                Result::Ok(1)
            },
            0x61 /* LD H,C */ => {
                let v: u8 = self.registers.get_c();
                self.registers.set_h(v);
                Result::Ok(1)
            },
            0x62 /* LD H,D */ => {
                let v: u8 = self.registers.get_d();
                self.registers.set_h(v);
                Result::Ok(1)
            },
            0x63 /* LD H,E */ => {
                let v: u8 = self.registers.get_e();
                self.registers.set_h(v);
                Result::Ok(1)
            },
            0x64 /* LD H,H */ => Result::Ok(1),
            0x65 /* LD H,L */ => {
                let v: u8 = self.registers.get_l();
                self.registers.set_h(v);
                Result::Ok(1)
            },
            0x66 /* LD H,(HL) */ => {
                let hl: u16 = self.registers.get_hl();
                match self.mmu.rb(hl) {
                    Result::Err(e) => Result::Err(e),
                    Result::Ok(v) => {
                        self.registers.set_h(v);
                        Result::Ok(2)
                    },
                }
            },
            0x67 /* LD H,A */ => {
                let v: u8 = self.registers.get_a();
                self.registers.set_h(v);
                Result::Ok(1)
            },
            0x68 /* LD L,B */ => {
                let v: u8 = self.registers.get_b();
                self.registers.set_l(v);
                Result::Ok(1)
            },
            0x69 /* LD L,C */ => {
                let v: u8 = self.registers.get_c();
                self.registers.set_l(v);
                Result::Ok(1)
            },
            0x6A /* LD L,D */ => {
                let v: u8 = self.registers.get_d();
                self.registers.set_l(v);
                Result::Ok(1)
            },
            0x6B /* LD L,E */ => {
                let v: u8 = self.registers.get_e();
                self.registers.set_l(v);
                Result::Ok(1)
            },
            0x6C /* LD L,H */ => {
                let v: u8 = self.registers.get_h();
                self.registers.set_l(v);
                Result::Ok(1)
            },
            0x6D /* LD L,L */ => Result::Ok(1),
            0x6E /* LD L,(HL) */ => {
                let hl: u16 = self.registers.get_hl();
                match self.mmu.rb(hl) {
                    Result::Err(e) => Result::Err(e),
                    Result::Ok(v) => {
                        self.registers.set_l(v);
                        Result::Ok(2)
                    },
                }
            },
            0x6F /* LD L,A */ => {
                let v: u8 = self.registers.get_a();
                self.registers.set_l(v);
                Result::Ok(1)
            },
            0x70 /* LD (HL),B */ => {
                let hl: u16 = self.registers.get_hl();
                let v: u8 = self.registers.get_b();
                self.mmu.wb(hl, v);
                Result::Ok(2)
            },
            0x71 /* LD (HL),C */ => {
                let hl: u16 = self.registers.get_hl();
                let v: u8 = self.registers.get_c();
                self.mmu.wb(hl, v);
                Result::Ok(2)
            },
            0x72 /* LD (HL),D */ => {
                let hl: u16 = self.registers.get_hl();
                let v: u8 = self.registers.get_d();
                self.mmu.wb(hl, v);
                Result::Ok(2)
            },
            0x73 /* LD (HL),E */ => {
                let hl: u16 = self.registers.get_hl();
                let v: u8 = self.registers.get_e();
                self.mmu.wb(hl, v);
                Result::Ok(2)
            },
            0x74 /* LD (HL),H */ => {
                let hl: u16 = self.registers.get_hl();
                let v: u8 = self.registers.get_h();
                self.mmu.wb(hl, v);
                Result::Ok(2)
            },
            0x75 /* LD (HL),L */ => {
                let hl: u16 = self.registers.get_hl();
                let v: u8 = self.registers.get_l();
                self.mmu.wb(hl, v);
                Result::Ok(2)
            },
            0x77 /* LD (HL),A */ => {
                let hl: u16 = self.registers.get_hl();
                let v: u8 = self.registers.get_a();
                self.mmu.wb(hl, v);
                Result::Ok(2)
            },
            0x78 /* LD A,B */ => {
                let v: u8 = self.registers.get_b();
                self.registers.set_a(v);
                Result::Ok(1)
            },
            0x79 /* LD A,C */ => {
                let v: u8 = self.registers.get_c();
                self.registers.set_a(v);
                Result::Ok(1)
            },
            0x7A /* LD A,D */ => {
                let v: u8 = self.registers.get_d();
                self.registers.set_a(v);
                Result::Ok(1)
            },
            0x7B /* LD A,E */ => {
                let v: u8 = self.registers.get_e();
                self.registers.set_a(v);
                Result::Ok(1)
            },
            0x7C /* LD A,H */ => {
                let v: u8 = self.registers.get_h();
                self.registers.set_a(v);
                Result::Ok(1)
            },
            0x7D /* LD A,L */ => {
                let v: u8 = self.registers.get_l();
                self.registers.set_a(v);
                Result::Ok(1)
            },
            0x7E /* LD A,(HL) */ => {
                let hl: u16 = self.registers.get_hl();
                match self.mmu.rb(hl) {
                    Result::Err(e) => Result::Err(e),
                    Result::Ok(v) => {
                        self.registers.set_a(v);
                        Result::Ok(2)
                    },
                }
            },
            _ /* LD A,A */ => Result::Ok(1),
        }
    }

    /// ADD A,r (0x80..0x87) and ADC A,r (0x88..0x8F).
    fn decode_8x(&mut self, byte: u8) -> (r: Result<u8, MemError>)
        requires
            old(self).wf(),
            0x80 <= byte < 0x90,
        ensures
            final(self).wf(),
            r == spec_decode_8x(old(self)@, byte).0,
            final(self)@ == spec_decode_8x(old(self)@, byte).1,
    {
        match byte {
            0x80 /* ADD A,B */ => {
                let a: u8 = self.registers.get_a();
                let n: u8 = self.registers.get_b();
                let result: u8 = self.alu8_add(a, n, true);
                self.registers.set_a(result);
                Result::Ok(1)
            },
            0x81 /* ADD A,C */ => {
                let a: u8 = self.registers.get_a();
                let n: u8 = self.registers.get_c();
                let result: u8 = self.alu8_add(a, n, true);
                self.registers.set_a(result);
                Result::Ok(1)
            },
            0x82 /* ADD A,D */ => {
                let a: u8 = self.registers.get_a();
                let n: u8 = self.registers.get_d();
                let result: u8 = self.alu8_add(a, n, true);
                self.registers.set_a(result);
                Result::Ok(1)
            },
            0x83 /* ADD A,E */ => {
                let a: u8 = self.registers.get_a();
                let n: u8 = self.registers.get_e();
                let result: u8 = self.alu8_add(a, n, true);
                self.registers.set_a(result);
                Result::Ok(1)
            },
            0x84 /* ADD A,H */ => {
                let a: u8 = self.registers.get_a();
                let n: u8 = self.registers.get_h();
                let result: u8 = self.alu8_add(a, n, true);
                self.registers.set_a(result);
                Result::Ok(1)
            },
            0x85 /* ADD A,L */ => {
                let a: u8 = self.registers.get_a();
                let n: u8 = self.registers.get_l();
                let result: u8 = self.alu8_add(a, n, true);
                self.registers.set_a(result);
                Result::Ok(1)
            },
            0x86 /* ADD A,(HL) */ => {
                let hl: u16 = self.registers.get_hl();
                match self.mmu.rb(hl) {
                    Result::Err(e) => Result::Err(e),
                    Result::Ok(content) => {
                        let a: u8 = self.registers.get_a();
                        let result: u8 = self.alu8_add(a, content, true);
                        self.registers.set_a(result);
                        Result::Ok(2)
                    },
                }
            },
            0x87 /* ADD A,A */ => {
                let value: u8 = self.registers.get_a();
                let result: u8 = self.alu8_add(value, value, true);
                self.registers.set_a(result);
                Result::Ok(1)
            },
            0x88 /* ADC A,B */ => {
                let carry: bool = self.registers.get_flg().get_flg_carry();
                let a: u8 = self.registers.get_a();
                let n: u8 = self.registers.get_b();
                let result: u8 = self.alu8_adc(a, n, carry, true);
                self.registers.set_a(result);
                Result::Ok(1)
            },
            0x89 /* ADC A,C */ => {
                let carry: bool = self.registers.get_flg().get_flg_carry();
                let a: u8 = self.registers.get_a();
                let n: u8 = self.registers.get_c();
                let result: u8 = self.alu8_adc(a, n, carry, true);
                self.registers.set_a(result);
                Result::Ok(1)
            },
            0x8A /* ADC A,D */ => {
                let carry: bool = self.registers.get_flg().get_flg_carry();
                let a: u8 = self.registers.get_a();
                let n: u8 = self.registers.get_d();
                let result: u8 = self.alu8_adc(a, n, carry, true);
                self.registers.set_a(result);
                Result::Ok(1)
            },
            0x8B /* ADC A,E */ => {
                let carry: bool = self.registers.get_flg().get_flg_carry();
                let a: u8 = self.registers.get_a();
                let n: u8 = self.registers.get_e();
                let result: u8 = self.alu8_adc(a, n, carry, true);
                self.registers.set_a(result);
                Result::Ok(1)
            },
            0x8C /* ADC A,H */ => {
                let carry: bool = self.registers.get_flg().get_flg_carry();
                let a: u8 = self.registers.get_a();
                let n: u8 = self.registers.get_h();
                let result: u8 = self.alu8_adc(a, n, carry, true);
                self.registers.set_a(result);
                Result::Ok(1)
            },
            0x8D /* ADC A,L */ => {
                let carry: bool = self.registers.get_flg().get_flg_carry();
                let a: u8 = self.registers.get_a();
                let n: u8 = self.registers.get_l();
                let result: u8 = self.alu8_adc(a, n, carry, true);
                self.registers.set_a(result);
                Result::Ok(1)
            },
            0x8E /* ADC A,(HL) */ => {
                let hl: u16 = self.registers.get_hl();
                match self.mmu.rb(hl) {
                    Result::Err(e) => Result::Err(e),
                    Result::Ok(content) => {
                        let carry: bool = self.registers.get_flg().get_flg_carry();
                        let a: u8 = self.registers.get_a();
                        let result: u8 = self.alu8_adc(a, content, carry, true);
                        self.registers.set_a(result);
                        Result::Ok(2)
                    },
                }
            },
            _ /* ADC A,A */ => {
                let carry: bool = self.registers.get_flg().get_flg_carry();
                let value: u8 = self.registers.get_a();
                let result: u8 = self.alu8_adc(value, value, carry, true);
                self.registers.set_a(result);
                Result::Ok(1)
            },
        }
    }

    /// ADD A,n (0xC6) and ADC A,n (0xCE).
    fn decode_cx(&mut self, byte: u8) -> (r: Result<u8, MemError>)
        requires
            old(self).wf(),
            0xC0 <= byte < 0xD0,
        ensures
            final(self).wf(),
            r == spec_decode_cx(old(self)@, byte).0,
            final(self)@ == spec_decode_cx(old(self)@, byte).1,
    {
        match byte {
            0xC6 /* ADD A,n */ => match self.nextb() {
                Result::Err(e) => Result::Err(e),
                Result::Ok(value) => {
                    let a: u8 = self.registers.get_a();
                    let result: u8 = self.alu8_add(a, value, true);
                    self.registers.set_a(result);
                    Result::Ok(2)
                },
            },
            0xCE /* ADC A,n */ => match self.nextb() {
                Result::Err(e) => Result::Err(e),
                Result::Ok(value) => {
                    let carry: bool = self.registers.get_flg().get_flg_carry();
                    let a: u8 = self.registers.get_a();
                    let result: u8 = self.alu8_adc(a, value, carry, true);
                    self.registers.set_a(result);
                    Result::Ok(2)
                },
            },
            _ => Result::Ok(0),
        }
    }

    /// Opcodes 0xE0..0xEF.
    fn decode_ex(&mut self, byte: u8) -> (r: Result<u8, MemError>)
        requires
            old(self).wf(),
            0xE0 <= byte < 0xF0,
        ensures
            final(self).wf(),
            r == spec_decode_ex(old(self)@, byte).0,
            final(self)@ == spec_decode_ex(old(self)@, byte).1,
    {
        match byte {
            0xE0 /* LDH (n),A */ => match self.nextb() {
                Result::Err(e) => Result::Err(e),
                Result::Ok(addr_offset) => {
                    let value: u8 = self.registers.get_a();
                    self.mmu.wb(0xFF00 + addr_offset as u16, value);
                    Result::Ok(3)
                },
            },
            0xE2 /* LD (0xFF00+C),A */ => {
                let c: u8 = self.registers.get_c();
                let addr: u16 = 0xFF00 + c as u16;
                let value: u8 = self.registers.get_a();
                self.mmu.wb(addr, value);
                Result::Ok(2)
            },
            0xEA /* LD (nn),A */ => match self.nextw() {
                Result::Err(e) => Result::Err(e),
                Result::Ok(addr) => {
                    let value: u8 = self.registers.get_a();
                    self.mmu.wb(addr, value);
                    Result::Ok(4)
                },
            },
            _ => Result::Ok(0),
        }
    }

    /// Opcodes 0xF0..0xFF.
    fn decode_fx(&mut self, byte: u8) -> (r: Result<u8, MemError>)
        requires
            old(self).wf(),
            byte >= 0xF0,
        ensures
            final(self).wf(),
            r == spec_decode_fx(old(self)@, byte).0,
            final(self)@ == spec_decode_fx(old(self)@, byte).1,
    {
        match byte {
            0xF0 /* LDH A,(n) */ => match self.nextb() {
                Result::Err(e) => Result::Err(e),
                Result::Ok(addr_offset) => {
                    let addr: u16 = 0xFF00 + addr_offset as u16;
                    match self.mmu.rb(addr) {
                        Result::Err(e) => Result::Err(e),
                        Result::Ok(value) => {
                            self.registers.set_a(value);
                            Result::Ok(3)
                        },
                    }
                },
            },
            0xF2 /* LD A,(0xFF00+C) */ => {
                let c: u8 = self.registers.get_c();
                match self.mmu.rb(0xFF00 + c as u16) {
                    Result::Err(e) => Result::Err(e),
                    Result::Ok(value) => {
                        self.registers.set_a(value);
                        Result::Ok(2)
                    },
                }
            },
            0xF8 /* LD HL,SP+n */ => match self.nextb() {
                Result::Err(e) => Result::Err(e),
                Result::Ok(n) => {
                    let n16: u16 = if n < 0x80 {
                        n as u16
                    } else {
                        0xFF00 + n as u16
                    };
                    let sp: u16 = self.registers.get_sp();
                    self.registers.get_flg().set_flg_zero(false);
                    let result: u16 = self.alu16_add_with_carry(sp, n16, 0xFF, 0xF, false);
                    self.registers.set_hl(result);
                    Result::Ok(3)
                },
            },
            0xF9 /* LD SP,HL */ => {
                let hl: u16 = self.registers.get_hl();
                self.registers.set_sp(hl);
                Result::Ok(2)
            },
            0xFA /* LD A,(nn) */ => match self.nextw() {
                Result::Err(e) => Result::Err(e),
                Result::Ok(addr) => match self.mmu.rb(addr) {
                    Result::Err(e) => Result::Err(e),
                    Result::Ok(value) => {
                        self.registers.set_a(value);
                        Result::Ok(4)
                    },
                },
            },
            _ => Result::Ok(0),
        }
    }

    /// Dispatch over the opcode byte, already fetched by `exec_inst`.
    /// An opcode with no handler costs zero cycles and leaves the
    /// state as it is.
    pub fn decode_inst(&mut self, byte: u8) -> (r: Result<u8, MemError>)
        requires
            old(self).wf(),
        ensures
            final(self).wf(),
            r == spec_decode(old(self)@, byte).0,
            final(self)@ == spec_decode(old(self)@, byte).1,
    {
        if byte < 0x10 {
            self.decode_0x(byte)
        } else if byte < 0x20 {
            self.decode_1x(byte)
        } else if byte < 0x30 {
            self.decode_2x(byte)
        } else if byte < 0x40 {
            self.decode_3x(byte)
        } else if byte == 0x76 {
            Result::Ok(0)
        } else if byte < 0x80 {
            self.decode_ld(byte)
        } else if byte < 0x90 {
            self.decode_8x(byte)
        } else if 0xC0 <= byte && byte < 0xD0 {
            self.decode_cx(byte)
        } else if 0xE0 <= byte && byte < 0xF0 {
            self.decode_ex(byte)
        } else if byte >= 0xF0 {
            self.decode_fx(byte)
        } else {
            Result::Ok(0)
        }
    }
}

} // verus!
