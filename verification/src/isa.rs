//! Mathematical model of the instruction set: the machine state the
//! CPU core acts on, and one transition function per opcode group.
//! `spec_step` is the contract of `CPU::exec_inst`: it fetches the
//! opcode byte at PC, advances PC, and dispatches exactly as the
//! executable decoder does, returning the instruction's machine-cycle
//! count or the memory fault that stopped it.

use vstd::prelude::*;
use crate::cpu_registers::{
    high_byte, low_byte, pair_value, wrap_dec16, wrap_inc16, FlagsV, RegsV,
};
use crate::mmu::{read_mem, MemError};

verus! {

/// The whole machine state the CPU core acts on: the register file,
/// the flat backing array, and the ROM image behind the cartridge
/// controller (absent when none is installed).
#[verifier::ext_equal]
pub ghost struct CpuV {
    pub regs: RegsV,
    pub mem: Seq<u8>,
    pub rom: Option<Seq<u8>>,
}

/// A read through the MMU, in terms of the model.
pub open spec fn spec_rb(s: CpuV, addr: u16) -> Result<u8, MemError> {
    read_mem(s.rom, s.mem, addr)
}

pub open spec fn with_mem(s: CpuV, addr: u16, v: u8) -> CpuV {
    CpuV { mem: s.mem.update(addr as int, v), ..s }
}

pub open spec fn with_a(s: CpuV, v: u8) -> CpuV {
    CpuV { regs: RegsV { a: v, ..s.regs }, ..s }
}

pub open spec fn with_b(s: CpuV, v: u8) -> CpuV {
    CpuV { regs: RegsV { b: v, ..s.regs }, ..s }
}

pub open spec fn with_c(s: CpuV, v: u8) -> CpuV {
    CpuV { regs: RegsV { c: v, ..s.regs }, ..s }
}

pub open spec fn with_d(s: CpuV, v: u8) -> CpuV {
    CpuV { regs: RegsV { d: v, ..s.regs }, ..s }
}

pub open spec fn with_e(s: CpuV, v: u8) -> CpuV {
    CpuV { regs: RegsV { e: v, ..s.regs }, ..s }
}

pub open spec fn with_h(s: CpuV, v: u8) -> CpuV {
    CpuV { regs: RegsV { h: v, ..s.regs }, ..s }
}

pub open spec fn with_l(s: CpuV, v: u8) -> CpuV {
    CpuV { regs: RegsV { l: v, ..s.regs }, ..s }
}

pub open spec fn with_sp(s: CpuV, v: u16) -> CpuV {
    CpuV { regs: RegsV { sp: v, ..s.regs }, ..s }
}

pub open spec fn with_pc(s: CpuV, v: u16) -> CpuV {
    CpuV { regs: RegsV { pc: v, ..s.regs }, ..s }
}

pub open spec fn with_flags(s: CpuV, f: FlagsV) -> CpuV {
    CpuV { regs: RegsV { flg: f, ..s.regs }, ..s }
}

/// Writing a pair splits the value into its constituent registers.
pub open spec fn with_bc(s: CpuV, v: u16) -> CpuV {
    CpuV { regs: RegsV { b: high_byte(v), c: low_byte(v), ..s.regs }, ..s }
}

pub open spec fn with_de(s: CpuV, v: u16) -> CpuV {
    CpuV { regs: RegsV { d: high_byte(v), e: low_byte(v), ..s.regs }, ..s }
}

pub open spec fn with_hl(s: CpuV, v: u16) -> CpuV {
    CpuV { regs: RegsV { h: high_byte(v), l: low_byte(v), ..s.regs }, ..s }
}

pub open spec fn bc_of(s: CpuV) -> u16 {
    pair_value(s.regs.b, s.regs.c)
}

pub open spec fn de_of(s: CpuV) -> u16 {
    pair_value(s.regs.d, s.regs.e)
}

pub open spec fn hl_of(s: CpuV) -> u16 {
    pair_value(s.regs.h, s.regs.l)
}

/// Fetching one byte: a read at PC; PC advances only when the read
/// succeeds.
pub open spec fn spec_fetch(s: CpuV) -> (Result<u8, MemError>, CpuV) {
    match spec_rb(s, s.regs.pc) {
        Result::Ok(b) => (Result::Ok(b), with_pc(s, wrap_inc16(s.regs.pc))),
        Result::Err(e) => (Result::Err(e), s),
    }
}

/// Fetching a 16-bit immediate: low byte first, high byte second.
pub open spec fn spec_fetchw(s: CpuV) -> (Result<u16, MemError>, CpuV) {
    let (lo_r, s1) = spec_fetch(s);
    match lo_r {
        Result::Err(e) => (Result::Err(e), s1),
        Result::Ok(lo) => {
            let (hi_r, s2) = spec_fetch(s1);
            match hi_r {
                Result::Err(e) => (Result::Err(e), s2),
                Result::Ok(hi) => (Result::Ok(pair_value(hi, lo)), s2),
            }
        },
    }
}

/// 8-bit add with carry-in and configurable masks: the result wraps
/// modulo 256; Subtract clears; Half-Carry and Carry compare the
/// masked sums against their masks; Zero follows the result only when
/// `set_zero` is on.
pub open spec fn alu8_sum(
    a: u8,
    n: u8,
    ci: u8,
    set_zero: bool,
    carry_mask: u8,
    half_carry_mask: u8,
    f: FlagsV,
) -> (u8, FlagsV) {
    let result: u8 = ((a + n + ci) % 256) as u8;
    (
        result,
        FlagsV {
            zero: if set_zero {
                result == 0
            } else {
                f.zero
            },
            sub: false,
            hcarry: (a & half_carry_mask) + (n & half_carry_mask) + ci > half_carry_mask,
            carry: (a & carry_mask) + (n & carry_mask) + ci > carry_mask,
        },
    )
}

/// 16-bit add with configurable masks; no carry-in variants exist.
pub open spec fn alu16_sum(
    a: u16,
    n: u16,
    set_zero: bool,
    carry_mask: u16,
    half_carry_mask: u16,
    f: FlagsV,
) -> (u16, FlagsV) {
    let result: u16 = ((a + n) % 0x10000) as u16;
    (
        result,
        FlagsV {
            zero: if set_zero {
                result == 0
            } else {
                f.zero
            },
            sub: false,
            hcarry: (a & half_carry_mask) + (n & half_carry_mask) > half_carry_mask,
            carry: (a & carry_mask) + (n & carry_mask) > carry_mask,
        },
    )
}

/// 8-bit increment: Carry is preserved; Half-Carry is the carry out of
/// bit 3.
pub open spec fn alu8_inc(v: u8, f: FlagsV) -> (u8, FlagsV) {
    let result: u8 = if v == 0xFF {
        0
    } else {
        (v + 1) as u8
    };
    (
        result,
        FlagsV { zero: result == 0, sub: false, hcarry: (v & 0xF) + 1 > 0xF, carry: f.carry },
    )
}

/// 8-bit decrement: Carry is preserved; Half-Carry is the borrow out
/// of bit 4.
pub open spec fn alu8_dec(v: u8, f: FlagsV) -> (u8, FlagsV) {
    let result: u8 = if v == 0 {
        0xFF
    } else {
        (v - 1) as u8
    };
    (result, FlagsV { zero: result == 0, sub: true, hcarry: v & 0xF == 0, carry: f.carry })
}

/// One-bit rotate, not through carry: the bit shifted out lands both
/// in the Carry flag and in the wrapped-in position; all other flags
/// clear. Zero follows the result here; hardware documentation for
/// the rotate-A opcodes instead clears Zero unconditionally, and this
/// core deliberately keeps the result-driven form.
pub open spec fn alu8_rot(v: u8, right: bool) -> (u8, FlagsV) {
    let bit: u8 = if right {
        v & 1
    } else {
        (v & 0x80) >> 7
    };
    let rotated: u8 = if right {
        (v >> 1) | ((v & 1) << 7)
    } else {
        ((v & 0x7F) << 1) | ((v & 0x80) >> 7)
    };
    (rotated, FlagsV { zero: rotated == 0, sub: false, hcarry: false, carry: bit == 1 })
}

/// One-bit rotate through carry: the incoming bit is the old Carry
/// flag and the outgoing bit becomes the new one; all other flags
/// clear, Zero follows the result.
pub open spec fn alu8_rot_carry(v: u8, right: bool, carry: bool) -> (u8, FlagsV) {
    let bit: u8 = if right {
        v & 1
    } else {
        (v & 0x80) >> 7
    };
    let rotated: u8 = if right {
        (v >> 1) | (if carry {
            0x80u8
        } else {
            0u8
        })
    } else {
        ((v & 0x7F) << 1) | (if carry {
            1u8
        } else {
            0u8
        })
    };
    (rotated, FlagsV { zero: rotated == 0, sub: false, hcarry: false, carry: bit == 1 })
}

/// The 8-bit immediate sign-extended to 16 bits.
pub open spec fn sign_extend(n: u8) -> u16 {
    if n < 0x80 {
        n as u16
    } else {
        (0xFF00 + n) as u16
    }
}

/// The 8-bit operand with the hardware encoding index
/// B, C, D, E, H, L, (HL), A; index 6 reads memory at HL.
pub open spec fn reg8_read(s: CpuV, idx: int) -> Result<u8, MemError> {
    if idx == 0 {
        Result::Ok(s.regs.b)
    } else if idx == 1 {
        Result::Ok(s.regs.c)
    } else if idx == 2 {
        Result::Ok(s.regs.d)
    } else if idx == 3 {
        Result::Ok(s.regs.e)
    } else if idx == 4 {
        Result::Ok(s.regs.h)
    } else if idx == 5 {
        Result::Ok(s.regs.l)
    } else if idx == 6 {
        spec_rb(s, hl_of(s))
    } else {
        Result::Ok(s.regs.a)
    }
}

/// Writing the 8-bit operand with the same encoding; index 6 writes
/// memory at HL.
pub open spec fn reg8_write(s: CpuV, idx: int, v: u8) -> CpuV {
    if idx == 0 {
        with_b(s, v)
    } else if idx == 1 {
        with_c(s, v)
    } else if idx == 2 {
        with_d(s, v)
    } else if idx == 3 {
        with_e(s, v)
    } else if idx == 4 {
        with_h(s, v)
    } else if idx == 5 {
        with_l(s, v)
    } else if idx == 6 {
        with_mem(s, hl_of(s), v)
    } else {
        with_a(s, v)
    }
}

/// Register-to-register loads (0x40..0x7F except HALT): destination
/// and source follow the `xx yyy zzz` field encoding; a memory operand
/// on either side costs the extra cycle.
pub open spec fn spec_ld_r_r(s: CpuV, op: u8) -> (Result<u8, MemError>, CpuV) {
    let dst: int = (op - 0x40) / 8;
    let src: int = (op as int) % 8;
    match reg8_read(s, src) {
        Result::Err(e) => (Result::Err(e), s),
        Result::Ok(v) => (
            Result::Ok(
                if dst == 6 || src == 6 {
                    2
                } else {
                    1
                },
            ),
            reg8_write(s, dst, v),
        ),
    }
}

/// ADD A,r (0x80..0x87) and ADC A,r (0x88..0x8F).
pub open spec fn spec_decode_8x(s: CpuV, op: u8) -> (Result<u8, MemError>, CpuV) {
    let src: int = (op as int) % 8;
    match reg8_read(s, src) {
        Result::Err(e) => (Result::Err(e), s),
        Result::Ok(x) => {
            let ci: u8 = if op >= 0x88 && s.regs.flg.carry {
                1
            } else {
                0
            };
            let (r, f) = alu8_sum(s.regs.a, x, ci, true, 0xFF, 0xF, s.regs.flg);
            (
                Result::Ok(
                    if src == 6 {
                        2
                    } else {
                        1
                    },
                ),
                with_flags(with_a(s, r), f),
            )
        },
    }
}

/// Opcodes 0x00..0x0F.
pub open spec fn spec_decode_0x(s: CpuV, op: u8) -> (Result<u8, MemError>, CpuV) {
    if op == 0x00 {  // NOP
        (Result::Ok(1), s)
    } else if op == 0x01 {  // LD BC,nn
        let (lo_r, s1) = spec_fetch(s);
        match lo_r {
            Result::Err(e) => (Result::Err(e), s1),
            Result::Ok(lo) => {
                let (hi_r, s2) = spec_fetch(s1);
                match hi_r {
                    Result::Err(e) => (Result::Err(e), s2),
                    Result::Ok(hi) => (Result::Ok(3), with_c(with_b(s2, hi), lo)),
                }
            },
        }
    } else if op == 0x02 {  // LD (BC),A
        (Result::Ok(2), with_mem(s, bc_of(s), s.regs.a))
    } else if op == 0x03 {  // INC BC
        (Result::Ok(2), with_bc(s, wrap_inc16(bc_of(s))))
    } else if op == 0x04 {  // INC B
        let (v, f) = alu8_inc(s.regs.b, s.regs.flg);
        (Result::Ok(1), with_flags(with_b(s, v), f))
    } else if op == 0x05 {  // DEC B
        let (v, f) = alu8_dec(s.regs.b, s.regs.flg);
        (Result::Ok(1), with_flags(with_b(s, v), f))
    } else if op == 0x06 {  // LD B,n
        let (n_r, s1) = spec_fetch(s);
        match n_r {
            Result::Err(e) => (Result::Err(e), s1),
            Result::Ok(n) => (Result::Ok(2), with_b(s1, n)),
        }
    } else if op == 0x07 {  // RLCA
        let (v, f) = alu8_rot(s.regs.a, false);
        (Result::Ok(1), with_flags(with_a(s, v), f))
    } else if op == 0x08 {  // LD (nn),SP
        let (nn_r, s1) = spec_fetchw(s);
        match nn_r {
            Result::Err(e) => (Result::Err(e), s1),
            Result::Ok(nn) => (
                Result::Ok(5),
                with_mem(
                    with_mem(s1, nn, low_byte(s1.regs.sp)),
                    wrap_inc16(nn),
                    high_byte(s1.regs.sp),
                ),
            ),
        }
    } else if op == 0x09 {  // ADD HL,BC
        let (v, f) = alu16_sum(hl_of(s), bc_of(s), false, 0xFFFF, 0x0FFF, s.regs.flg);
        (Result::Ok(2), with_hl(with_flags(s, f), v))
    } else if op == 0x0A {  // LD A,(BC)
        match spec_rb(s, bc_of(s)) {
            Result::Err(e) => (Result::Err(e), s),
            Result::Ok(v) => (Result::Ok(2), with_a(s, v)),
        }
    } else if op == 0x0B {  // DEC BC
        (Result::Ok(2), with_bc(s, wrap_dec16(bc_of(s))))
    } else if op == 0x0C {  // INC C
        let (v, f) = alu8_inc(s.regs.c, s.regs.flg);
        (Result::Ok(1), with_flags(with_c(s, v), f))
    } else if op == 0x0D {  // DEC C
        let (v, f) = alu8_dec(s.regs.c, s.regs.flg);
        (Result::Ok(1), with_flags(with_c(s, v), f))
    } else if op == 0x0E {  // LD C,n
        let (n_r, s1) = spec_fetch(s);
        match n_r {
            Result::Err(e) => (Result::Err(e), s1),
            Result::Ok(n) => (Result::Ok(2), with_c(s1, n)),
        }
    } else if op == 0x0F {  // RRCA
        let (v, f) = alu8_rot(s.regs.a, true);
        (Result::Ok(1), with_flags(with_a(s, v), f))
    } else {
        (Result::Ok(0), s)
    }
}

/// Opcodes 0x10..0x1F.
pub open spec fn spec_decode_1x(s: CpuV, op: u8) -> (Result<u8, MemError>, CpuV) {
    if op == 0x11 {  // LD DE,nn
        let (lo_r, s1) = spec_fetch(s);
        match lo_r {
            Result::Err(e) => (Result::Err(e), s1),
            Result::Ok(lo) => {
                let (hi_r, s2) = spec_fetch(s1);
                match hi_r {
                    Result::Err(e) => (Result::Err(e), s2),
                    Result::Ok(hi) => (Result::Ok(3), with_e(with_d(s2, hi), lo)),
                }
            },
        }
    } else if op == 0x12 {  // LD (DE),A
        (Result::Ok(2), with_mem(s, de_of(s), s.regs.a))
    } else if op == 0x13 {  // INC DE
        (Result::Ok(2), with_de(s, wrap_inc16(de_of(s))))
    } else if op == 0x14 {  // INC D
        let (v, f) = alu8_inc(s.regs.d, s.regs.flg);
        (Result::Ok(1), with_flags(with_d(s, v), f))
    } else if op == 0x15 {  // DEC D
        let (v, f) = alu8_dec(s.regs.d, s.regs.flg);
        (Result::Ok(1), with_flags(with_d(s, v), f))
    } else if op == 0x16 {  // LD D,n
        let (n_r, s1) = spec_fetch(s);
        match n_r {
            Result::Err(e) => (Result::Err(e), s1),
            Result::Ok(n) => (Result::Ok(2), with_d(s1, n)),
        }
    } else if op == 0x17 {  // RLA
        let (v, f) = alu8_rot_carry(s.regs.a, false, s.regs.flg.carry);
        (Result::Ok(1), with_flags(with_a(s, v), f))
    } else if op == 0x19 {  // ADD HL,DE
        let (v, f) = alu16_sum(hl_of(s), de_of(s), false, 0xFFFF, 0x0FFF, s.regs.flg);
        (Result::Ok(2), with_hl(with_flags(s, f), v))
    } else if op == 0x1A {  // LD A,(DE)
        match spec_rb(s, de_of(s)) {
            Result::Err(e) => (Result::Err(e), s),
            Result::Ok(v) => (Result::Ok(2), with_a(s, v)),
        }
    } else if op == 0x1B {  // DEC DE
        (Result::Ok(2), with_de(s, wrap_dec16(de_of(s))))
    } else if op == 0x1C {  // INC E
        let (v, f) = alu8_inc(s.regs.e, s.regs.flg);
        (Result::Ok(1), with_flags(with_e(s, v), f))
    } else if op == 0x1D {  // DEC E
        let (v, f) = alu8_dec(s.regs.e, s.regs.flg);
        (Result::Ok(1), with_flags(with_e(s, v), f))
    } else if op == 0x1E {  // LD E,n
        let (n_r, s1) = spec_fetch(s);
        match n_r {
            Result::Err(e) => (Result::Err(e), s1),
            Result::Ok(n) => (Result::Ok(2), with_e(s1, n)),
        }
    } else if op == 0x1F {  // RRA
        let (v, f) = alu8_rot_carry(s.regs.a, true, s.regs.flg.carry);
        (Result::Ok(1), with_flags(with_a(s, v), f))
    } else {
        (Result::Ok(0), s)
    }
}

/// Opcodes 0x20..0x2F.
pub open spec fn spec_decode_2x(s: CpuV, op: u8) -> (Result<u8, MemError>, CpuV) {
    if op == 0x21 {  // LD HL,nn
        let (lo_r, s1) = spec_fetch(s);
        match lo_r {
            Result::Err(e) => (Result::Err(e), s1),
            Result::Ok(lo) => {
                let (hi_r, s2) = spec_fetch(s1);
                match hi_r {
                    Result::Err(e) => (Result::Err(e), s2),
                    Result::Ok(hi) => (Result::Ok(3), with_l(with_h(s2, hi), lo)),
                }
            },
        }
    } else if op == 0x22 {  // LD (HL+),A
        (Result::Ok(2), with_hl(with_mem(s, hl_of(s), s.regs.a), wrap_inc16(hl_of(s))))
    } else if op == 0x23 {  // INC HL
        (Result::Ok(2), with_hl(s, wrap_inc16(hl_of(s))))
    } else if op == 0x24 {  // INC H
        let (v, f) = alu8_inc(s.regs.h, s.regs.flg);
        (Result::Ok(1), with_flags(with_h(s, v), f))
    } else if op == 0x25 {  // DEC H
        let (v, f) = alu8_dec(s.regs.h, s.regs.flg);
        (Result::Ok(1), with_flags(with_h(s, v), f))
    } else if op == 0x26 {  // LD H,n
        let (n_r, s1) = spec_fetch(s);
        match n_r {
            Result::Err(e) => (Result::Err(e), s1),
            Result::Ok(n) => (Result::Ok(2), with_h(s1, n)),
        }
    } else if op == 0x29 {  // ADD HL,HL
        let (v, f) = alu16_sum(hl_of(s), hl_of(s), false, 0xFFFF, 0x0FFF, s.regs.flg);
        (Result::Ok(2), with_hl(with_flags(s, f), v))
    } else if op == 0x2A {  // LD A,(HL+)
        match spec_rb(s, hl_of(s)) {
            Result::Err(e) => (Result::Err(e), s),
            Result::Ok(v) => (Result::Ok(2), with_hl(with_a(s, v), wrap_inc16(hl_of(s)))),
        }
    } else if op == 0x2B {  // DEC HL
        (Result::Ok(2), with_hl(s, wrap_dec16(hl_of(s))))
    } else if op == 0x2C {  // INC L
        let (v, f) = alu8_inc(s.regs.l, s.regs.flg);
        (Result::Ok(1), with_flags(with_l(s, v), f))
    } else if op == 0x2D {  // DEC L
        let (v, f) = alu8_dec(s.regs.l, s.regs.flg);
        (Result::Ok(1), with_flags(with_l(s, v), f))
    } else if op == 0x2E {  // LD L,n
        let (n_r, s1) = spec_fetch(s);
        match n_r {
            Result::Err(e) => (Result::Err(e), s1),
            Result::Ok(n) => (Result::Ok(2), with_l(s1, n)),
        }
    } else {
        (Result::Ok(0), s)
    }
}

/// Opcodes 0x30..0x3F.
pub open spec fn spec_decode_3x(s: CpuV, op: u8) -> (Result<u8, MemError>, CpuV) {
    if op == 0x31 {  // LD SP,nn
        let (nn_r, s1) = spec_fetchw(s);
        match nn_r {
            Result::Err(e) => (Result::Err(e), s1),
            Result::Ok(nn) => (Result::Ok(3), with_sp(s1, nn)),
        }
    } else if op == 0x32 {  // LD (HL-),A
        (Result::Ok(2), with_hl(with_mem(s, hl_of(s), s.regs.a), wrap_dec16(hl_of(s))))
    } else if op == 0x33 {  // INC SP
        (Result::Ok(2), with_sp(s, wrap_inc16(s.regs.sp)))
    } else if op == 0x34 {  // INC (HL)
        match spec_rb(s, hl_of(s)) {
            Result::Err(e) => (Result::Err(e), s),
            Result::Ok(v) => {
                let (inc, f) = alu8_inc(v, s.regs.flg);
                (Result::Ok(3), with_flags(with_mem(s, hl_of(s), inc), f))
            },
        }
    } else if op == 0x35 {  // DEC (HL)
        match spec_rb(s, hl_of(s)) {
            Result::Err(e) => (Result::Err(e), s),
            Result::Ok(v) => {
                let (dec, f) = alu8_dec(v, s.regs.flg);
                (Result::Ok(3), with_flags(with_mem(s, hl_of(s), dec), f))
            },
        }
    } else if op == 0x36 {  // LD (HL),n
        let (n_r, s1) = spec_fetch(s);
        match n_r {
            Result::Err(e) => (Result::Err(e), s1),
            Result::Ok(n) => (Result::Ok(3), with_mem(s1, hl_of(s1), n)),
        }
    } else if op == 0x39 {  // ADD HL,SP
        let (v, f) = alu16_sum(hl_of(s), s.regs.sp, false, 0xFFFF, 0x0FFF, s.regs.flg);
        (Result::Ok(2), with_hl(with_flags(s, f), v))
    } else if op == 0x3A {  // LD A,(HL-)
        match spec_rb(s, hl_of(s)) {
            Result::Err(e) => (Result::Err(e), s),
            Result::Ok(v) => (Result::Ok(2), with_hl(with_a(s, v), wrap_dec16(hl_of(s)))),
        }
    } else if op == 0x3B {  // DEC SP
        (Result::Ok(2), with_sp(s, wrap_dec16(s.regs.sp)))
    } else if op == 0x3C {  // INC A
        let (v, f) = alu8_inc(s.regs.a, s.regs.flg);
        (Result::Ok(1), with_flags(with_a(s, v), f))
    } else if op == 0x3D {  // DEC A
        let (v, f) = alu8_dec(s.regs.a, s.regs.flg);
        (Result::Ok(1), with_flags(with_a(s, v), f))
    } else if op == 0x3E {  // LD A,n
        let (n_r, s1) = spec_fetch(s);
        match n_r {
            Result::Err(e) => (Result::Err(e), s1),
            Result::Ok(n) => (Result::Ok(2), with_a(s1, n)),
        }
    } else {
        (Result::Ok(0), s)
    }
}

/// ADD A,n (0xC6) and ADC A,n (0xCE); every other opcode of
/// 0xC0..0xCF has no handler.
pub open spec fn spec_decode_cx(s: CpuV, op: u8) -> (Result<u8, MemError>, CpuV) {
    if op == 0xC6 {
        let (n_r, s1) = spec_fetch(s);
        match n_r {
            Result::Err(e) => (Result::Err(e), s1),
            Result::Ok(n) => {
                let (r, f) = alu8_sum(s1.regs.a, n, 0, true, 0xFF, 0xF, s1.regs.flg);
                (Result::Ok(2), with_flags(with_a(s1, r), f))
            },
        }
    } else if op == 0xCE {
        let (n_r, s1) = spec_fetch(s);
        match n_r {
            Result::Err(e) => (Result::Err(e), s1),
            Result::Ok(n) => {
                let ci: u8 = if s1.regs.flg.carry {
                    1
                } else {
                    0
                };
                let (r, f) = alu8_sum(s1.regs.a, n, ci, true, 0xFF, 0xF, s1.regs.flg);
                (Result::Ok(2), with_flags(with_a(s1, r), f))
            },
        }
    } else {
        (Result::Ok(0), s)
    }
}

/// Opcodes 0xE0..0xEF.
pub open spec fn spec_decode_ex(s: CpuV, op: u8) -> (Result<u8, MemError>, CpuV) {
    if op == 0xE0 {  // LDH (n),A
        let (n_r, s1) = spec_fetch(s);
        match n_r {
            Result::Err(e) => (Result::Err(e), s1),
            Result::Ok(n) => (
                Result::Ok(3),
                with_mem(s1, (0xFF00 + n as u16) as u16, s1.regs.a),
            ),
        }
    } else if op == 0xE2 {  // LD (0xFF00+C),A
        (Result::Ok(2), with_mem(s, (0xFF00 + s.regs.c as u16) as u16, s.regs.a))
    } else if op == 0xEA {  // LD (nn),A
        let (nn_r, s1) = spec_fetchw(s);
        match nn_r {
            Result::Err(e) => (Result::Err(e), s1),
            Result::Ok(nn) => (Result::Ok(4), with_mem(s1, nn, s1.regs.a)),
        }
    } else {
        (Result::Ok(0), s)
    }
}

/// Opcodes 0xF0..0xFF.
pub open spec fn spec_decode_fx(s: CpuV, op: u8) -> (Result<u8, MemError>, CpuV) {
    if op == 0xF0 {  // LDH A,(n)
        let (n_r, s1) = spec_fetch(s);
        match n_r {
            Result::Err(e) => (Result::Err(e), s1),
            Result::Ok(n) => match spec_rb(s1, (0xFF00 + n as u16) as u16) {
                Result::Err(e) => (Result::Err(e), s1),
                Result::Ok(v) => (Result::Ok(3), with_a(s1, v)),
            },
        }
    } else if op == 0xF2 {  // LD A,(0xFF00+C)
        match spec_rb(s, (0xFF00 + s.regs.c as u16) as u16) {
            Result::Err(e) => (Result::Err(e), s),
            Result::Ok(v) => (Result::Ok(2), with_a(s, v)),
        }
    } else if op == 0xF8 {  // LD HL,SP+n
        let (n_r, s1) = spec_fetch(s);
        match n_r {
            Result::Err(e) => (Result::Err(e), s1),
            Result::Ok(n) => {
                let cleared = FlagsV { zero: false, ..s1.regs.flg };
                let (v, f) = alu16_sum(s1.regs.sp, sign_extend(n), false, 0xFF, 0xF, cleared);
                (Result::Ok(3), with_hl(with_flags(s1, f), v))
            },
        }
    } else if op == 0xF9 {  // LD SP,HL
        (Result::Ok(2), with_sp(s, hl_of(s)))
    } else if op == 0xFA {  // LD A,(nn)
        let (nn_r, s1) = spec_fetchw(s);
        match nn_r {
            Result::Err(e) => (Result::Err(e), s1),
            Result::Ok(nn) => match spec_rb(s1, nn) {
                Result::Err(e) => (Result::Err(e), s1),
                Result::Ok(v) => (Result::Ok(4), with_a(s1, v)),
            },
        }
    } else {
        (Result::Ok(0), s)
    }
}

/// Dispatch over the opcode byte, already fetched. An opcode with no
/// handler costs zero cycles and leaves the state as it is.
pub open spec fn spec_decode(s: CpuV, op: u8) -> (Result<u8, MemError>, CpuV) {
    if op < 0x10 {
        spec_decode_0x(s, op)
    } else if op < 0x20 {
        spec_decode_1x(s, op)
    } else if op < 0x30 {
        spec_decode_2x(s, op)
    } else if op < 0x40 {
        spec_decode_3x(s, op)
    } else if op == 0x76 {
        (Result::Ok(0), s)
    } else if op < 0x80 {
        spec_ld_r_r(s, op)
    } else if op < 0x90 {
        spec_decode_8x(s, op)
    } else if 0xC0 <= op && op < 0xD0 {
        spec_decode_cx(s, op)
    } else if 0xE0 <= op && op < 0xF0 {
        spec_decode_ex(s, op)
    } else if op >= 0xF0 {
        spec_decode_fx(s, op)
    } else {
        (Result::Ok(0), s)
    }
}

/// One whole instruction: fetch the opcode byte at PC (PC advances
/// when the fetch succeeds), then decode and execute.
pub open spec fn spec_step(s: CpuV) -> (Result<u8, MemError>, CpuV) {
    let (op_r, s1) = spec_fetch(s);
    match op_r {
        Result::Err(e) => (Result::Err(e), s1),
        Result::Ok(op) => spec_decode(s1, op),
    }
}

} // verus!
