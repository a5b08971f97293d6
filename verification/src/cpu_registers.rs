//! The register file: eight 8-bit registers, the 16-bit stack pointer
//! and program counter, and the flag register with its four flags at
//! fixed bit positions (low nibble always zero).

use vstd::prelude::*;

verus! {

pub const FLG_ZERO: u8 = 0b1000_0000;
pub const FLG_SUB: u8 = 0b0100_0000;
pub const FLG_HCARRY: u8 = 0b0010_0000;
pub const FLG_CARRY: u8 = 0b0001_0000;

pub const SP_INITIAL_VALUE: u16 = 0xFFFE;
pub const PC_INITIAL_VALUE: u16 = 0x0100;

/// Model of the flag register: one boolean per flag. The packed byte
/// is recovered by `flags_to_byte`, so its low nibble is zero by
/// construction.
#[verifier::ext_equal]
pub ghost struct FlagsV {
    pub zero: bool,
    pub sub: bool,
    pub hcarry: bool,
    pub carry: bool,
}

pub open spec fn flags_clear() -> FlagsV {
    FlagsV { zero: false, sub: false, hcarry: false, carry: false }
}

/// The packed flag byte: Zero at bit 7, Subtract at bit 6, Half-Carry
/// at bit 5, Carry at bit 4; bits 0..3 are zero.
pub open spec fn flags_to_byte(f: FlagsV) -> u8 {
    (if f.zero { FLG_ZERO } else { 0 }) | (if f.sub { FLG_SUB } else { 0 })
        | (if f.hcarry { FLG_HCARRY } else { 0 }) | (if f.carry { FLG_CARRY } else { 0 })
}

/// The flags encoded in a byte; the low nibble is ignored.
pub open spec fn flags_from_byte(b: u8) -> FlagsV {
    FlagsV {
        zero: b & FLG_ZERO > 0,
        sub: b & FLG_SUB > 0,
        hcarry: b & FLG_HCARRY > 0,
        carry: b & FLG_CARRY > 0,
    }
}

/// The flag register. Stored as four booleans; the externally
/// observable packed byte keeps the hardware bit layout.
pub struct CPUFlags {
    zero: bool,
    sub: bool,
    hcarry: bool,
    carry: bool,
}

impl View for CPUFlags {
    type V = FlagsV;

    closed spec fn view(&self) -> FlagsV {
        FlagsV { zero: self.zero, sub: self.sub, hcarry: self.hcarry, carry: self.carry }
    }
}

impl CPUFlags {
    pub fn new() -> (r: CPUFlags)
        ensures
            r@ == flags_clear(),
    {
        CPUFlags { zero: false, sub: false, hcarry: false, carry: false }
    }

    pub fn from_value(value: u8) -> (r: CPUFlags)
        ensures
            r@ == flags_from_byte(value),
    {
        CPUFlags {
            zero: value & FLG_ZERO > 0,
            sub: value & FLG_SUB > 0,
            hcarry: value & FLG_HCARRY > 0,
            carry: value & FLG_CARRY > 0,
        }
    }

    /// Installs the upper nibble of `value`; the low nibble is masked off.
    pub fn set_value(&mut self, value: u8)
        ensures
            final(self)@ == flags_from_byte(value),
    {
        self.zero = value & FLG_ZERO > 0;
        self.sub = value & FLG_SUB > 0;
        self.hcarry = value & FLG_HCARRY > 0;
        self.carry = value & FLG_CARRY > 0;
    }

    /// The packed flag byte; its low nibble is always zero.
    pub fn get_value(&self) -> (r: u8)
        ensures
            r == flags_to_byte(self@),
    {
        (if self.zero { FLG_ZERO } else { 0 }) | (if self.sub { FLG_SUB } else { 0 })
            | (if self.hcarry { FLG_HCARRY } else { 0 }) | (if self.carry { FLG_CARRY } else { 0 })
    }

    pub fn get_flg_zero(&self) -> (r: bool)
        ensures
            r == self@.zero,
    {
        self.zero
    }

    pub fn set_flg_zero(&mut self, value: bool) -> (r: u8)
        ensures
            final(self)@ == (FlagsV { zero: value, ..old(self)@ }),
            r == flags_to_byte(final(self)@),
    {
        self.zero = value;
        self.get_value()
    }

    pub fn get_flg_sub(&self) -> (r: bool)
        ensures
            r == self@.sub,
    {
        self.sub
    }

    pub fn set_flg_sub(&mut self, value: bool) -> (r: u8)
        ensures
            final(self)@ == (FlagsV { sub: value, ..old(self)@ }),
            r == flags_to_byte(final(self)@),
    {
        self.sub = value;
        self.get_value()
    }

    pub fn get_flg_half_carry(&self) -> (r: bool)
        ensures
            r == self@.hcarry,
    {
        self.hcarry
    }

    pub fn set_flg_half_carry(&mut self, value: bool) -> (r: u8)
        ensures
            final(self)@ == (FlagsV { hcarry: value, ..old(self)@ }),
            r == flags_to_byte(final(self)@),
    {
        self.hcarry = value;
        self.get_value()
    }

    pub fn get_flg_carry(&self) -> (r: bool)
        ensures
            r == self@.carry,
    {
        self.carry
    }

    pub fn set_flg_carry(&mut self, value: bool) -> (r: u8)
        ensures
            final(self)@ == (FlagsV { carry: value, ..old(self)@ }),
            r == flags_to_byte(final(self)@),
    {
        self.carry = value;
        self.get_value()
    }
}

/// Model of the register file.
#[verifier::ext_equal]
pub ghost struct RegsV {
    pub a: u8,
    pub f: u8,
    pub b: u8,
    pub c: u8,
    pub d: u8,
    pub e: u8,
    pub h: u8,
    pub l: u8,
    pub sp: u16,
    pub pc: u16,
    pub flg: FlagsV,
}

/// Register state at power-on.
pub open spec fn regs_initial() -> RegsV {
    RegsV {
        a: 0,
        f: 0,
        b: 0,
        c: 0,
        d: 0,
        e: 0,
        h: 0,
        l: 0,
        sp: SP_INITIAL_VALUE,
        pc: PC_INITIAL_VALUE,
        flg: flags_clear(),
    }
}

/// The 16-bit value made of a high and a low byte.
pub open spec fn pair_value(hi: u8, lo: u8) -> u16 {
    (hi as u16) << 8 | lo as u16
}

/// The high byte of a 16-bit value.
pub open spec fn high_byte(w: u16) -> u8 {
    (w >> 8) as u8
}

/// The low byte of a 16-bit value.
pub open spec fn low_byte(w: u16) -> u8 {
    (w & 0x00FF) as u8
}

/// Increment modulo 2^16.
pub open spec fn wrap_inc16(x: u16) -> u16 {
    if x == 0xFFFF {
        0
    } else {
        (x + 1) as u16
    }
}

/// Decrement modulo 2^16.
pub open spec fn wrap_dec16(x: u16) -> u16 {
    if x == 0 {
        0xFFFF
    } else {
        (x - 1) as u16
    }
}

pub struct CPURegisters {
    a: u8,
    f: u8,
    b: u8,
    c: u8,
    d: u8,
    e: u8,
    h: u8,
    l: u8,
    sp: u16,
    pc: u16,
    flg: CPUFlags,
}

impl View for CPURegisters {
    type V = RegsV;

    closed spec fn view(&self) -> RegsV {
        RegsV {
            a: self.a,
            f: self.f,
            b: self.b,
            c: self.c,
            d: self.d,
            e: self.e,
            h: self.h,
            l: self.l,
            sp: self.sp,
            pc: self.pc,
            flg: self.flg@,
        }
    }
}

impl CPURegisters {
    pub fn new() -> (r: CPURegisters)
        ensures
            r@ == regs_initial(),
    {
        CPURegisters {
            a: 0,
            f: 0,
            b: 0,
            c: 0,
            d: 0,
            e: 0,
            h: 0,
            l: 0,
            sp: SP_INITIAL_VALUE,
            pc: PC_INITIAL_VALUE,
            flg: CPUFlags::new(),
        }
    }

    pub fn get_a(&self) -> (r: u8)
        ensures
            r == self@.a,
    {
        self.a
    }

    pub fn get_f(&self) -> (r: u8)
        ensures
            r == self@.f,
    {
        self.f
    }

    pub fn get_b(&self) -> (r: u8)
        ensures
            r == self@.b,
    {
        self.b
    }

    pub fn get_c(&self) -> (r: u8)
        ensures
            r == self@.c,
    {
        self.c
    }

    pub fn get_d(&self) -> (r: u8)
        ensures
            r == self@.d,
    {
        self.d
    }

    pub fn get_e(&self) -> (r: u8)
        ensures
            r == self@.e,
    {
        self.e
    }

    pub fn get_h(&self) -> (r: u8)
        ensures
            r == self@.h,
    {
        self.h
    }

    pub fn get_l(&self) -> (r: u8)
        ensures
            r == self@.l,
    {
        self.l
    }

    pub fn get_sp(&self) -> (r: u16)
        ensures
            r == self@.sp,
    {
        self.sp
    }

    pub fn get_pc(&self) -> (r: u16)
        ensures
            r == self@.pc,
    {
        self.pc
    }

    /// A mutable view of the flag register.
    pub fn get_flg(&mut self) -> (r: &mut CPUFlags)
        ensures
            (*r)@ == old(self)@.flg,
            final(self)@ == (RegsV { flg: (*final(r))@, ..old(self)@ }),
    {
        &mut self.flg
    }

    pub fn set_a(&mut self, value: u8)
        ensures
            final(self)@ == (RegsV { a: value, ..old(self)@ }),
    {
        self.a = value
    }

    pub fn set_f(&mut self, value: u8)
        ensures
            final(self)@ == (RegsV { f: value, ..old(self)@ }),
    {
        self.f = value
    }

    pub fn set_b(&mut self, value: u8)
        ensures
            final(self)@ == (RegsV { b: value, ..old(self)@ }),
    {
        self.b = value
    }

    pub fn set_c(&mut self, value: u8)
        ensures
            final(self)@ == (RegsV { c: value, ..old(self)@ }),
    {
        self.c = value
    }

    pub fn set_d(&mut self, value: u8)
        ensures
            final(self)@ == (RegsV { d: value, ..old(self)@ }),
    {
        self.d = value
    }

    pub fn set_e(&mut self, value: u8)
        ensures
            final(self)@ == (RegsV { e: value, ..old(self)@ }),
    {
        self.e = value
    }

    pub fn set_h(&mut self, value: u8)
        ensures
            final(self)@ == (RegsV { h: value, ..old(self)@ }),
    {
        self.h = value
    }

    pub fn set_l(&mut self, value: u8)
        ensures
            final(self)@ == (RegsV { l: value, ..old(self)@ }),
    {
        self.l = value
    }

    pub fn set_sp(&mut self, value: u16)
        ensures
            final(self)@ == (RegsV { sp: value, ..old(self)@ }),
    {
        self.sp = value
    }

    pub fn set_pc(&mut self, value: u16)
        ensures
            final(self)@ == (RegsV { pc: value, ..old(self)@ }),
    {
        self.pc = value
    }

    /// Advances the program counter by one, wrapping modulo 2^16, and
    /// returns the new value.
    pub fn inc_pc(&mut self) -> (r: u16)
        ensures
            final(self)@ == (RegsV { pc: wrap_inc16(old(self)@.pc), ..old(self)@ }),
            r == final(self)@.pc,
    {
        self.pc = self.pc.wrapping_add(1);
        self.pc
    }

    /// Moves the program counter back by one, wrapping modulo 2^16, and
    /// returns the new value.
    pub fn dec_pc(&mut self) -> (r: u16)
        ensures
            final(self)@ == (RegsV { pc: wrap_dec16(old(self)@.pc), ..old(self)@ }),
            r == final(self)@.pc,
    {
        self.pc = self.pc.wrapping_sub(1);
        self.pc
    }

    pub fn get_hl(&self) -> (r: u16)
        ensures
            r == pair_value(self@.h, self@.l),
    {
        (self.h as u16) << 8 | self.l as u16
    }

    pub fn set_hl(&mut self, value: u16) -> (r: u16)
        ensures
            final(self)@ == (RegsV { h: high_byte(value), l: low_byte(value), ..old(self)@ }),
            r == value,
    {
        self.h = (value >> 8) as u8;
        self.l = (value & 0x00FF) as u8;
        value
    }

    pub fn get_bc(&self) -> (r: u16)
        ensures
            r == pair_value(self@.b, self@.c),
    {
        (self.b as u16) << 8 | self.c as u16
    }

    pub fn set_bc(&mut self, value: u16) -> (r: u16)
        ensures
            final(self)@ == (RegsV { b: high_byte(value), c: low_byte(value), ..old(self)@ }),
            r == value,
    {
        self.b = (value >> 8) as u8;
        self.c = (value & 0x00FF) as u8;
        value
    }

    pub fn get_de(&self) -> (r: u16)
        ensures
            r == pair_value(self@.d, self@.e),
    {
        (self.d as u16) << 8 | self.e as u16
    }

    pub fn set_de(&mut self, value: u16) -> (r: u16)
        ensures
            final(self)@ == (RegsV { d: high_byte(value), e: low_byte(value), ..old(self)@ }),
            r == value,
    {
        self.d = (value >> 8) as u8;
        self.e = (value & 0x00FF) as u8;
        value
    }
}

} // verus!
