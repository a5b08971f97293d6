//! General properties of the core, stated over the `isa` model and
//! the register-file views, and proved once and for all inputs.

use vstd::prelude::*;
use crate::cpu_registers::{
    flags_from_byte, flags_to_byte, high_byte, low_byte, pair_value, wrap_inc16, FlagsV,
};
use crate::isa::{alu8_sum, hl_of, reg8_read, spec_decode, spec_rb, spec_step, CpuV};
use crate::mmu::MemError;

verus! {

/// Law: splitting a 16-bit value into its high and low bytes and
/// recombining them restores the value, and the two bytes are the
/// value's upper and lower halves. So a pair write followed by a pair
/// read returns what was written.
pub proof fn lemma_pair_round_trip(w: u16)
    ensures
        pair_value(high_byte(w), low_byte(w)) == w,
        high_byte(w) == w >> 8,
        low_byte(w) == w & 0xFF,
{
    assert((((w >> 8) as u8) as u16) << 8 | (((w & 0x00FF) as u8) as u16) == w
        && ((w >> 8) as u8) == w >> 8 && ((w & 0x00FF) as u8) == w & 0xFF) by (bit_vector);
}

/// Law: combining a high and a low byte and taking the halves of the
/// result gives the two bytes back. So LD HL,nn leaves nn's upper
/// half in H and its lower half in L.
pub proof fn lemma_pair_bytes(hi: u8, lo: u8)
    ensures
        high_byte(pair_value(hi, lo)) == hi,
        low_byte(pair_value(hi, lo)) == lo,
{
    assert(((((hi as u16) << 8 | (lo as u16)) >> 8) as u8) == hi
        && ((((hi as u16) << 8 | (lo as u16)) & 0x00FF) as u8) == lo) by (bit_vector);
}

/// Law: installing a byte in the flag register and reading the packed
/// byte back gives the byte with its low nibble cleared.
pub proof fn lemma_flag_byte_round_trip(b: u8)
    ensures
        flags_to_byte(flags_from_byte(b)) == b & 0xF0,
{
    assert((if b & 0x80 > 0 {
        0x80u8
    } else {
        0u8
    }) | (if b & 0x40 > 0 {
        0x40u8
    } else {
        0u8
    }) | (if b & 0x20 > 0 {
        0x20u8
    } else {
        0u8
    }) | (if b & 0x10 > 0 {
        0x10u8
    } else {
        0u8
    }) == b & 0xF0) by (bit_vector);
}

/// Law: the packed flag byte's low nibble is zero in every state.
pub proof fn lemma_flag_byte_low_nibble(f: FlagsV)
    ensures
        flags_to_byte(f) & 0x0F == 0,
{
    let z: bool = f.zero;
    let n: bool = f.sub;
    let h: bool = f.hcarry;
    let c: bool = f.carry;
    assert(((if z {
        0x80u8
    } else {
        0u8
    }) | (if n {
        0x40u8
    } else {
        0u8
    }) | (if h {
        0x20u8
    } else {
        0u8
    }) | (if c {
        0x10u8
    } else {
        0u8
    })) & 0x0F == 0) by (bit_vector);
}

/// The number of bytes an opcode occupies: the opcode byte itself and
/// its immediate operands.
pub open spec fn instr_len(op: u8) -> int {
    if op == 0x01 || op == 0x11 || op == 0x21 || op == 0x31 || op == 0x08 || op == 0xEA
        || op == 0xFA {
        3
    } else if op == 0x06 || op == 0x0E || op == 0x16 || op == 0x1E || op == 0x26 || op == 0x2E
        || op == 0x36 || op == 0x3E || op == 0xC6 || op == 0xCE || op == 0xE0 || op == 0xF0
        || op == 0xF8 {
        2
    } else {
        1
    }
}

/// Addition on the program counter, modulo 2^16.
pub open spec fn wrap_add16(x: u16, k: int) -> u16 {
    ((x + k) % 0x10000) as u16
}

/// Law: a step that executes an opcode advances PC by exactly the
/// instruction's length, modulo 2^16, relative to PC at the start of
/// the step.
#[verifier::rlimit(80)]
#[verifier::spinoff_prover]
pub proof fn lemma_pc_advance(s: CpuV)
    requires
        spec_step(s).0 is Ok,
    ensures
        spec_step(s).1.regs.pc == wrap_add16(
            s.regs.pc,
            instr_len(spec_rb(s, s.regs.pc)->Ok_0),
        ),
{
    let op = spec_rb(s, s.regs.pc)->Ok_0;
    if op < 0x10 {
        assert(spec_step(s).1.regs.pc == wrap_add16(s.regs.pc, instr_len(op)));
    } else if op < 0x20 {
        assert(spec_step(s).1.regs.pc == wrap_add16(s.regs.pc, instr_len(op)));
    } else if op < 0x30 {
        assert(spec_step(s).1.regs.pc == wrap_add16(s.regs.pc, instr_len(op)));
    } else if op < 0x40 {
        assert(spec_step(s).1.regs.pc == wrap_add16(s.regs.pc, instr_len(op)));
    } else if op < 0x80 {
        assert(spec_step(s).1.regs.pc == wrap_add16(s.regs.pc, instr_len(op)));
    } else if op < 0x90 {
        assert(spec_step(s).1.regs.pc == wrap_add16(s.regs.pc, instr_len(op)));
    } else if op < 0xE0 {
        assert(spec_step(s).1.regs.pc == wrap_add16(s.regs.pc, instr_len(op)));
    } else if op < 0xF0 {
        assert(spec_step(s).1.regs.pc == wrap_add16(s.regs.pc, instr_len(op)));
    } else {
        assert(spec_step(s).1.regs.pc == wrap_add16(s.regs.pc, instr_len(op)));
    }
}

/// Law: 8-bit INC, on a register or on the byte at HL, keeps Carry,
/// clears Subtract, sets Zero exactly when the new value is zero, and
/// sets Half-Carry exactly when the old low nibble overflows.
pub proof fn lemma_inc_r_flags(s: CpuV, op: u8)
    requires
        op == 0x04 || op == 0x0C || op == 0x14 || op == 0x1C || op == 0x24 || op == 0x2C || op
            == 0x34 || op == 0x3C,
        reg8_read(s, (op - 4) / 8) is Ok,
    ensures
        ({
            let v = reg8_read(s, (op - 4) / 8)->Ok_0;
            let st = spec_decode(s, op).1;
            st.regs.flg.carry == s.regs.flg.carry && !st.regs.flg.sub && st.regs.flg.zero == ((v
                + 1) % 256 == 0) && st.regs.flg.hcarry == ((v & 0xF) + 1 > 0xF)
        }),
{
}

/// Law: 8-bit DEC, on a register or on the byte at HL, keeps Carry,
/// sets Subtract, sets Zero exactly when the new value is zero, and
/// sets Half-Carry exactly when the old low nibble borrows.
pub proof fn lemma_dec_r_flags(s: CpuV, op: u8)
    requires
        op == 0x05 || op == 0x0D || op == 0x15 || op == 0x1D || op == 0x25 || op == 0x2D || op
            == 0x35 || op == 0x3D,
        reg8_read(s, (op - 5) / 8) is Ok,
    ensures
        ({
            let v = reg8_read(s, (op - 5) / 8)->Ok_0;
            let st = spec_decode(s, op).1;
            st.regs.flg.carry == s.regs.flg.carry && st.regs.flg.sub && st.regs.flg.zero == ((v
                + 255) % 256 == 0) && st.regs.flg.hcarry == (v & 0xF == 0)
        }),
{
}

/// Law: INC and DEC on a 16-bit pair or SP leave the flag byte
/// bit-for-bit unchanged.
pub proof fn lemma_inc_dec16_flags(s: CpuV, op: u8)
    requires
        op == 0x03 || op == 0x13 || op == 0x23 || op == 0x33 || op == 0x0B || op == 0x1B || op
            == 0x2B || op == 0x3B,
    ensures
        spec_decode(s, op).1.regs.flg == s.regs.flg,
{
}

/// Law: ADD A,r and ADC A,r set A to (A + x + carry_in) mod 256,
/// with Carry and Half-Carry computed on the full and low-nibble sums
/// (carry-in included), Subtract cleared and Zero following the
/// result; ADD has carry-in zero.
pub proof fn lemma_add_adc_r(s: CpuV, op: u8)
    requires
        0x80 <= op < 0x90,
        reg8_read(s, (op as int) % 8) is Ok,
    ensures
        ({
            let x = reg8_read(s, (op as int) % 8)->Ok_0;
            let ci: int = if op >= 0x88 && s.regs.flg.carry {
                1
            } else {
                0
            };
            let st = spec_decode(s, op).1;
            st.regs.a == (s.regs.a + x + ci) % 256 && st.regs.flg.carry == (s.regs.a + x + ci
                > 255) && st.regs.flg.hcarry == ((s.regs.a & 0xF) + (x & 0xF) + ci > 0xF)
                && !st.regs.flg.sub && st.regs.flg.zero == (st.regs.a == 0)
        }),
{
    let a = s.regs.a;
    let x = reg8_read(s, (op as int) % 8)->Ok_0;
    assert(a & 0xFF == a && x & 0xFF == x) by (bit_vector);
}

/// Law: LD r,n leaves the immediate byte in the destination register,
/// so reading the register afterwards returns the immediate.
pub proof fn lemma_ld_r_n(s: CpuV, op: u8)
    requires
        op == 0x06 || op == 0x0E || op == 0x16 || op == 0x1E || op == 0x26 || op == 0x2E || op
            == 0x3E,
        spec_decode(s, op).0 is Ok,
    ensures
        ({
            let n = spec_rb(s, s.regs.pc)->Ok_0;
            let st = spec_decode(s, op).1;
            (op == 0x06 ==> st.regs.b == n) && (op == 0x0E ==> st.regs.c == n) && (op == 0x16
                ==> st.regs.d == n) && (op == 0x1E ==> st.regs.e == n) && (op == 0x26
                ==> st.regs.h == n) && (op == 0x2E ==> st.regs.l == n) && (op == 0x3E
                ==> st.regs.a == n)
        }),
{
}

/// Law: LD HL,nn leaves nn's high byte in H and its low byte in L,
/// and the HL pair then reads back as nn.
pub proof fn lemma_ld_hl_nn(s: CpuV)
    requires
        spec_decode(s, 0x21).0 is Ok,
    ensures
        ({
            let lo = spec_rb(s, s.regs.pc)->Ok_0;
            let hi = spec_rb(s, wrap_inc16(s.regs.pc))->Ok_0;
            let nn = pair_value(hi, lo);
            let st = spec_decode(s, 0x21).1;
            st.regs.h == high_byte(nn) && st.regs.l == low_byte(nn) && pair_value(
                st.regs.h,
                st.regs.l,
            ) == nn
        }),
{
    let lo = spec_rb(s, s.regs.pc)->Ok_0;
    let hi = spec_rb(s, wrap_inc16(s.regs.pc))->Ok_0;
    lemma_pair_bytes(hi, lo);
}

/// Law: a store of A through HL followed by a load of A from the same
/// address restores A, when HL points at writable memory. The store
/// must not overwrite the load's own opcode byte; an HL equal to the
/// address of the following instruction breaks the sequence.
pub proof fn lemma_store_load_round_trip(s: CpuV)
    requires
        s.mem.len() == 0x10000,
        spec_rb(s, s.regs.pc) == Result::<u8, MemError>::Ok(0x77u8),
        spec_rb(s, wrap_inc16(s.regs.pc)) == Result::<u8, MemError>::Ok(0x7Eu8),
        hl_of(s) >= 0x4000,
        hl_of(s) != wrap_inc16(s.regs.pc),
    ensures
        spec_step(s).0 is Ok,
        spec_step(spec_step(s).1).0 is Ok,
        spec_step(spec_step(s).1).1.regs.a == s.regs.a,
{
}

/// Law: a store of A at an absolute address followed by a load of A
/// from the same address restores A and leaves the stored byte in
/// memory, when the address is in writable memory. The store must not
/// overwrite the load instruction's own three bytes; an address
/// inside them breaks the sequence.
pub proof fn lemma_absolute_store_load_round_trip(s: CpuV, lo: u8, hi: u8)
    requires
        s.mem.len() == 0x10000,
        spec_rb(s, s.regs.pc) == Result::<u8, MemError>::Ok(0xEAu8),
        spec_rb(s, wrap_add16(s.regs.pc, 1)) == Result::<u8, MemError>::Ok(lo),
        spec_rb(s, wrap_add16(s.regs.pc, 2)) == Result::<u8, MemError>::Ok(hi),
        spec_rb(s, wrap_add16(s.regs.pc, 3)) == Result::<u8, MemError>::Ok(0xFAu8),
        spec_rb(s, wrap_add16(s.regs.pc, 4)) == Result::<u8, MemError>::Ok(lo),
        spec_rb(s, wrap_add16(s.regs.pc, 5)) == Result::<u8, MemError>::Ok(hi),
        pair_value(hi, lo) >= 0x4000,
        pair_value(hi, lo) != wrap_add16(s.regs.pc, 3),
        pair_value(hi, lo) != wrap_add16(s.regs.pc, 4),
        pair_value(hi, lo) != wrap_add16(s.regs.pc, 5),
    ensures
        spec_step(s).0 is Ok,
        spec_step(spec_step(s).1).0 is Ok,
        spec_step(spec_step(s).1).1.regs.a == s.regs.a,
        spec_step(spec_step(s).1).1.mem[pair_value(hi, lo) as int] == s.regs.a,
{
    let p0 = s.regs.pc;
    assert(wrap_inc16(p0) == wrap_add16(p0, 1));
    assert(wrap_inc16(wrap_add16(p0, 1)) == wrap_add16(p0, 2));
    assert(wrap_inc16(wrap_add16(p0, 2)) == wrap_add16(p0, 3));
    assert(wrap_inc16(wrap_add16(p0, 3)) == wrap_add16(p0, 4));
    assert(wrap_inc16(wrap_add16(p0, 4)) == wrap_add16(p0, 5));
}

/// Law: the 8-bit add primitive computes (a + n + ci) mod 256 and
/// reports Carry and Half-Carry of the widened sums; with the
/// standard masks Carry is exactly "the sum exceeds 255".
pub proof fn lemma_alu8_sum_add(a: u8, n: u8, ci: u8, f: FlagsV)
    requires
        ci <= 1,
    ensures
        alu8_sum(a, n, ci, true, 0xFF, 0xF, f).0 == (a + n + ci) % 256,
        alu8_sum(a, n, ci, true, 0xFF, 0xF, f).1.carry == (a + n + ci > 255),
        alu8_sum(a, n, ci, true, 0xFF, 0xF, f).1.hcarry == ((a & 0xF) + (n & 0xF) + ci > 0xF),
        !alu8_sum(a, n, ci, true, 0xFF, 0xF, f).1.sub,
        alu8_sum(a, n, ci, true, 0xFF, 0xF, f).1.zero == ((a + n + ci) % 256 == 0),
{
    assert(a & 0xFF == a && n & 0xFF == n) by (bit_vector);
}

} // verus!
