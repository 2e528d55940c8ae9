//! The CPU register file: six 16-bit registers addressable as pairs or as
//! 8-bit halves, and the flag bits that live in the low byte of AF.
use vstd::prelude::*;

verus! {

/// Low byte of a 16-bit register value.
pub open spec fn lo16(w: u16) -> u8 {
    (w % 0x100) as u8
}

/// High byte of a 16-bit register value.
pub open spec fn hi16(w: u16) -> u8 {
    (w / 0x100) as u8
}

/// `w` with its low byte replaced by `v`.
pub open spec fn with_lo16(w: u16, v: u8) -> u16 {
    (w / 0x100 * 0x100 + v) as u16
}

/// `w` with its high byte replaced by `v`.
pub open spec fn with_hi16(w: u16, v: u8) -> u16 {
    (v * 0x100 + w % 0x100) as u16
}

/// Z (bit 7 of F): the last operation produced zero.
pub open spec fn zero_flag(f: u8) -> bool {
    f & 0x80 == 0x80
}

/// N (bit 6 of F): the last operation was a subtraction.
pub open spec fn n_flag(f: u8) -> bool {
    f & 0x40 == 0x40
}

/// H (bit 5 of F): carry out of bit 3 (8-bit) or bit 11 (16-bit).
pub open spec fn half_carry_flag(f: u8) -> bool {
    f & 0x20 == 0x20
}

/// C (bit 4 of F): carry out of bit 7 (8-bit) or bit 15 (16-bit).
pub open spec fn carry_flag(f: u8) -> bool {
    f & 0x10 == 0x10
}

/// One 16-bit register, also addressable as two 8-bit halves.
#[derive(Debug, Clone, Copy, PartialEq, Eq, Structural)]
pub struct Register(pub u16);

impl Register {
    pub fn set_from_u16(&mut self, value: u16)
        ensures
            final(self).0 == value,
    {
        self.0 = value;
    }

    pub fn as_u16(&self) -> (r: u16)
        ensures
            r == self.0,
    {
        self.0
    }

    pub fn low(&self) -> (r: u8)
        ensures
            r == lo16(self.0),
    {
        (self.0 % 0x100) as u8
    }

    pub fn high(&self) -> (r: u8)
        ensures
            r == hi16(self.0),
    {
        (self.0 / 0x100) as u8
    }

    pub fn set_low(&mut self, value: u8)
        ensures
            final(self).0 == with_lo16(old(self).0, value),
            lo16(final(self).0) == value,
            hi16(final(self).0) == hi16(old(self).0),
    {
        self.0 = self.0 / 0x100 * 0x100 + value as u16;
    }

    pub fn set_high(&mut self, value: u8)
        ensures
            final(self).0 == with_hi16(old(self).0, value),
            hi16(final(self).0) == value,
            lo16(final(self).0) == lo16(old(self).0),
    {
        self.0 = (value as u16) * 0x100 + self.0 % 0x100;
    }
}

#[allow(non_snake_case)]
pub struct Registers {
    pub BC: Register,
    pub DE: Register,
    pub HL: Register,
    pub AF: Register,
    /// Program counter.
    pub PC: Register,
    /// Stack pointer.
    pub SP: Register,
}

// 3-bit register opcode indices for the 8-bit registers.
pub const OPCODE_REGISTER_B_INDEX: u8 = 0;

pub const OPCODE_REGISTER_C_INDEX: u8 = 1;

pub const OPCODE_REGISTER_D_INDEX: u8 = 2;

pub const OPCODE_REGISTER_E_INDEX: u8 = 3;

pub const OPCODE_REGISTER_H_INDEX: u8 = 4;

pub const OPCODE_REGISTER_L_INDEX: u8 = 5;

/// Index 6 stands for "memory at HL", not for a register.
pub const OPCODE_REGISTER_HL_INDEX: u8 = 6;

pub const OPCODE_REGISTER_A_INDEX: u8 = 7;

// 2-bit register opcode indices for the 16-bit register pairs.
pub const OPCODE_REGISTER_PAIR_BC_INDEX: u8 = 0;

pub const OPCODE_REGISTER_PAIR_DE_INDEX: u8 = 1;

pub const OPCODE_REGISTER_PAIR_HL_INDEX: u8 = 2;

pub const OPCODE_REGISTER_PAIR_SP_INDEX: u8 = 3;

/// The 8-bit register selected by a 3-bit opcode index
/// (B, C, D, E, H, L, -, A).
pub open spec fn reg8(r: Registers, idx: u8) -> u8 {
    if idx == 0 {
        hi16(r.BC.0)
    } else if idx == 1 {
        lo16(r.BC.0)
    } else if idx == 2 {
        hi16(r.DE.0)
    } else if idx == 3 {
        lo16(r.DE.0)
    } else if idx == 4 {
        hi16(r.HL.0)
    } else if idx == 5 {
        lo16(r.HL.0)
    } else {
        hi16(r.AF.0)
    }
}

/// The register file after storing `v` in the 8-bit register selected by
/// `idx`.
pub open spec fn spec_set_reg8(r: Registers, idx: u8, v: u8) -> Registers {
    if idx == 0 {
        Registers { BC: Register(with_hi16(r.BC.0, v)), ..r }
    } else if idx == 1 {
        Registers { BC: Register(with_lo16(r.BC.0, v)), ..r }
    } else if idx == 2 {
        Registers { DE: Register(with_hi16(r.DE.0, v)), ..r }
    } else if idx == 3 {
        Registers { DE: Register(with_lo16(r.DE.0, v)), ..r }
    } else if idx == 4 {
        Registers { HL: Register(with_hi16(r.HL.0, v)), ..r }
    } else if idx == 5 {
        Registers { HL: Register(with_lo16(r.HL.0, v)), ..r }
    } else {
        Registers { AF: Register(with_hi16(r.AF.0, v)), ..r }
    }
}

/// The 16-bit register pair selected by a 2-bit opcode index
/// (BC, DE, HL, SP).
pub open spec fn reg_pair(r: Registers, idx: u8) -> u16 {
    if idx == 0 {
        r.BC.0
    } else if idx == 1 {
        r.DE.0
    } else if idx == 2 {
        r.HL.0
    } else {
        r.SP.0
    }
}

/// The register file after storing `v` in the register pair selected by
/// `idx`.
pub open spec fn spec_set_reg_pair(r: Registers, idx: u8, v: u16) -> Registers {
    if idx == 0 {
        Registers { BC: Register(v), ..r }
    } else if idx == 1 {
        Registers { DE: Register(v), ..r }
    } else if idx == 2 {
        Registers { HL: Register(v), ..r }
    } else {
        Registers { SP: Register(v), ..r }
    }
}

pub fn set_register_value_from_opcode_index(registers: &mut Registers, opcode_index: u8, value: u8)
    requires
        opcode_index <= 7,
        opcode_index != OPCODE_REGISTER_HL_INDEX,
    ensures
        *final(registers) == spec_set_reg8(*old(registers), opcode_index, value),
{
    if opcode_index == OPCODE_REGISTER_B_INDEX {
        registers.BC.set_high(value);
    } else if opcode_index == OPCODE_REGISTER_C_INDEX {
        registers.BC.set_low(value);
    } else if opcode_index == OPCODE_REGISTER_D_INDEX {
        registers.DE.set_high(value);
    } else if opcode_index == OPCODE_REGISTER_E_INDEX {
        registers.DE.set_low(value);
    } else if opcode_index == OPCODE_REGISTER_H_INDEX {
        registers.HL.set_high(value);
    } else if opcode_index == OPCODE_REGISTER_L_INDEX {
        registers.HL.set_low(value);
    } else {
        registers.AF.set_high(value);
    }
}

pub fn get_register_value_from_opcode_index(registers: &Registers, opcode_index: u8) -> (r: u8)
    requires
        opcode_index <= 7,
        opcode_index != OPCODE_REGISTER_HL_INDEX,
    ensures
        r == reg8(*registers, opcode_index),
{
    if opcode_index == OPCODE_REGISTER_B_INDEX {
        registers.BC.high()
    } else if opcode_index == OPCODE_REGISTER_C_INDEX {
        registers.BC.low()
    } else if opcode_index == OPCODE_REGISTER_D_INDEX {
        registers.DE.high()
    } else if opcode_index == OPCODE_REGISTER_E_INDEX {
        registers.DE.low()
    } else if opcode_index == OPCODE_REGISTER_H_INDEX {
        registers.HL.high()
    } else if opcode_index == OPCODE_REGISTER_L_INDEX {
        registers.HL.low()
    } else {
        registers.AF.high()
    }
}

pub fn get_register_pair_value_from_opcode_index(registers: &Registers, register_pair_index: u8) -> (r:
    u16)
    requires
        register_pair_index <= 3,
    ensures
        r == reg_pair(*registers, register_pair_index),
{
    if register_pair_index == OPCODE_REGISTER_PAIR_BC_INDEX {
        registers.BC.as_u16()
    } else if register_pair_index == OPCODE_REGISTER_PAIR_DE_INDEX {
        registers.DE.as_u16()
    } else if register_pair_index == OPCODE_REGISTER_PAIR_HL_INDEX {
        registers.HL.as_u16()
    } else {
        registers.SP.as_u16()
    }
}

pub fn set_register_pair_value_from_opcode_index(
    registers: &mut Registers,
    register_pair_index: u8,
    value: u16,
)
    requires
        register_pair_index <= 3,
    ensures
        *final(registers) == spec_set_reg_pair(*old(registers), register_pair_index, value),
{
    if register_pair_index == OPCODE_REGISTER_PAIR_BC_INDEX {
        registers.BC.set_from_u16(value);
    } else if register_pair_index == OPCODE_REGISTER_PAIR_DE_INDEX {
        registers.DE.set_from_u16(value);
    } else if register_pair_index == OPCODE_REGISTER_PAIR_HL_INDEX {
        registers.HL.set_from_u16(value);
    } else {
        registers.SP.set_from_u16(value);
    }
}

/// What every flag setter leaves untouched: all registers but AF, and AF's
/// high byte (the accumulator).
pub open spec fn flags_only_changed(r_old: Registers, r_new: Registers) -> bool {
    &&& r_new.BC == r_old.BC
    &&& r_new.DE == r_old.DE
    &&& r_new.HL == r_old.HL
    &&& r_new.PC == r_old.PC
    &&& r_new.SP == r_old.SP
    &&& hi16(r_new.AF.0) == hi16(r_old.AF.0)
}

pub fn set_zero_flag(registers: &mut Registers, is_set: bool)
    ensures
        flags_only_changed(*old(registers), *final(registers)),
        zero_flag(lo16(final(registers).AF.0)) == is_set,
        n_flag(lo16(final(registers).AF.0)) == n_flag(lo16(old(registers).AF.0)),
        half_carry_flag(lo16(final(registers).AF.0)) == half_carry_flag(lo16(old(registers).AF.0)),
        carry_flag(lo16(final(registers).AF.0)) == carry_flag(lo16(old(registers).AF.0)),
        lo16(final(registers).AF.0) & 0x0F == lo16(old(registers).AF.0) & 0x0F,
{
    let f = registers.AF.low();
    if is_set {
        proof {
            assert((f | 0x80) & 0x80 == 0x80 && (f | 0x80) & 0x40 == f & 0x40 && (f | 0x80) & 0x20
                == f & 0x20 && (f | 0x80) & 0x10 == f & 0x10 && (f | 0x80) & 0x0F == f
                & 0x0F) by (bit_vector);
        }
        registers.AF.set_low(f | 0x80);
    } else {
        proof {
            assert((f & 0x7F) & 0x80 != 0x80 && (f & 0x7F) & 0x40 == f & 0x40 && (f & 0x7F) & 0x20
                == f & 0x20 && (f & 0x7F) & 0x10 == f & 0x10 && (f & 0x7F) & 0x0F == f
                & 0x0F) by (bit_vector);
        }
        registers.AF.set_low(f & 0x7F);
    }
}

pub fn set_n_flag(registers: &mut Registers, is_set: bool)
    ensures
        flags_only_changed(*old(registers), *final(registers)),
        n_flag(lo16(final(registers).AF.0)) == is_set,
        zero_flag(lo16(final(registers).AF.0)) == zero_flag(lo16(old(registers).AF.0)),
        half_carry_flag(lo16(final(registers).AF.0)) == half_carry_flag(lo16(old(registers).AF.0)),
        carry_flag(lo16(final(registers).AF.0)) == carry_flag(lo16(old(registers).AF.0)),
        lo16(final(registers).AF.0) & 0x0F == lo16(old(registers).AF.0) & 0x0F,
{
    let f = registers.AF.low();
    if is_set {
        proof {
            assert((f | 0x40) & 0x40 == 0x40 && (f | 0x40) & 0x80 == f & 0x80 && (f | 0x40) & 0x20
                == f & 0x20 && (f | 0x40) & 0x10 == f & 0x10 && (f | 0x40) & 0x0F == f
                & 0x0F) by (bit_vector);
        }
        registers.AF.set_low(f | 0x40);
    } else {
        proof {
            assert((f & 0xBF) & 0x40 != 0x40 && (f & 0xBF) & 0x80 == f & 0x80 && (f & 0xBF) & 0x20
                == f & 0x20 && (f & 0xBF) & 0x10 == f & 0x10 && (f & 0xBF) & 0x0F == f
                & 0x0F) by (bit_vector);
        }
        registers.AF.set_low(f & 0xBF);
    }
}

pub fn set_half_carry_flag(registers: &mut Registers, is_set: bool)
    ensures
        flags_only_changed(*old(registers), *final(registers)),
        half_carry_flag(lo16(final(registers).AF.0)) == is_set,
        zero_flag(lo16(final(registers).AF.0)) == zero_flag(lo16(old(registers).AF.0)),
        n_flag(lo16(final(registers).AF.0)) == n_flag(lo16(old(registers).AF.0)),
        carry_flag(lo16(final(registers).AF.0)) == carry_flag(lo16(old(registers).AF.0)),
        lo16(final(registers).AF.0) & 0x0F == lo16(old(registers).AF.0) & 0x0F,
{
    let f = registers.AF.low();
    if is_set {
        proof {
            assert((f | 0x20) & 0x20 == 0x20 && (f | 0x20) & 0x80 == f & 0x80 && (f | 0x20) & 0x40
                == f & 0x40 && (f | 0x20) & 0x10 == f & 0x10 && (f | 0x20) & 0x0F == f
                & 0x0F) by (bit_vector);
        }
        registers.AF.set_low(f | 0x20);
    } else {
        proof {
            assert((f & 0xDF) & 0x20 != 0x20 && (f & 0xDF) & 0x80 == f & 0x80 && (f & 0xDF) & 0x40
                == f & 0x40 && (f & 0xDF) & 0x10 == f & 0x10 && (f & 0xDF) & 0x0F == f
                & 0x0F) by (bit_vector);
        }
        registers.AF.set_low(f & 0xDF);
    }
}

pub fn set_carry_flag(registers: &mut Registers, is_set: bool)
    ensures
        flags_only_changed(*old(registers), *final(registers)),
        carry_flag(lo16(final(registers).AF.0)) == is_set,
        zero_flag(lo16(final(registers).AF.0)) == zero_flag(lo16(old(registers).AF.0)),
        n_flag(lo16(final(registers).AF.0)) == n_flag(lo16(old(registers).AF.0)),
        half_carry_flag(lo16(final(registers).AF.0)) == half_carry_flag(lo16(old(registers).AF.0)),
        lo16(final(registers).AF.0) & 0x0F == lo16(old(registers).AF.0) & 0x0F,
{
    let f = registers.AF.low();
    if is_set {
        proof {
            assert((f | 0x10) & 0x10 == 0x10 && (f | 0x10) & 0x80 == f & 0x80 && (f | 0x10) & 0x40
                == f & 0x40 && (f | 0x10) & 0x20 == f & 0x20 && (f | 0x10) & 0x0F == f
                & 0x0F) by (bit_vector);
        }
        registers.AF.set_low(f | 0x10);
    } else {
        proof {
            assert((f & 0xEF) & 0x10 != 0x10 && (f & 0xEF) & 0x80 == f & 0x80 && (f & 0xEF) & 0x40
                == f & 0x40 && (f & 0xEF) & 0x20 == f & 0x20 && (f & 0xEF) & 0x0F == f
                & 0x0F) by (bit_vector);
        }
        registers.AF.set_low(f & 0xEF);
    }
}

pub fn compute_half_carry_flag_by_8_bit_addition(a: u8, b: u8, carry: u8) -> (r: bool)
    requires
        carry <= 1,
    ensures
        r == (a % 16 + b % 16 + carry > 0xF),
{
    a % 16 + b % 16 + carry > 0xF
}

pub fn compute_half_carry_flag_by_16_bit_addition(a: u16, b: u16) -> (r: bool)
    ensures
        r == (a % 0x1000 + b % 0x1000 > 0xFFF),
{
    a % 0x1000 + b % 0x1000 > 0xFFF
}

pub fn compute_half_carry_flag_by_8_bit_subtraction(a: u8, b: u8, carry: u8) -> (r: bool)
    requires
        carry <= 1,
    ensures
        r == (a % 16 < b % 16 + carry),
{
    a % 16 < b % 16 + carry
}

pub fn compute_carry_flag_by_8_bit_addition(a: u8, b: u8, carry: u8) -> (r: bool)
    requires
        carry <= 1,
    ensures
        r == (a + b + carry > 0xFF),
{
    a as u16 + b as u16 + carry as u16 > 0xFF
}

pub fn compute_carry_flag_by_16_bit_addition(a: u16, b: u16) -> (r: bool)
    ensures
        r == (a + b > 0xFFFF),
{
    a as u32 + b as u32 > 0xFFFF
}

pub fn compute_carry_flag_by_8_bit_subtraction(a: u8, b: u8, carry: u8) -> (r: bool)
    requires
        carry <= 1,
    ensures
        r == (a < b + carry),
{
    (a as u16) < b as u16 + carry as u16
}

pub fn is_zero_flag_set(registers: &Registers) -> (r: bool)
    ensures
        r == zero_flag(lo16(registers.AF.0)),
{
    registers.AF.low() & 0x80 == 0x80
}

pub fn is_n_flag_set(registers: &Registers) -> (r: bool)
    ensures
        r == n_flag(lo16(registers.AF.0)),
{
    registers.AF.low() & 0x40 == 0x40
}

pub fn is_half_carry_flag_set(registers: &Registers) -> (r: bool)
    ensures
        r == half_carry_flag(lo16(registers.AF.0)),
{
    registers.AF.low() & 0x20 == 0x20
}

pub fn is_carry_flag_set(registers: &Registers) -> (r: bool)
    ensures
        r == carry_flag(lo16(registers.AF.0)),
{
    registers.AF.low() & 0x10 == 0x10
}

/// The flag byte transition of an operation that sets Z, N, H and C: the
/// four flag bits take the given values and the low nibble of F is
/// preserved.
pub open spec fn flags_znhc(f_old: u8, f_new: u8, z: bool, n: bool, h: bool, c: bool) -> bool {
    &&& zero_flag(f_new) == z
    &&& n_flag(f_new) == n
    &&& half_carry_flag(f_new) == h
    &&& carry_flag(f_new) == c
    &&& f_new & 0x0F == f_old & 0x0F
}

/// The flag byte transition of an operation that sets Z, N and H but
/// leaves C untouched.
pub open spec fn flags_znh(f_old: u8, f_new: u8, z: bool, n: bool, h: bool) -> bool {
    &&& zero_flag(f_new) == z
    &&& n_flag(f_new) == n
    &&& half_carry_flag(f_new) == h
    &&& carry_flag(f_new) == carry_flag(f_old)
    &&& f_new & 0x0F == f_old & 0x0F
}

/// The flag byte transition of an operation that sets N, H and C but
/// leaves Z untouched.
pub open spec fn flags_nhc(f_old: u8, f_new: u8, n: bool, h: bool, c: bool) -> bool {
    &&& zero_flag(f_new) == zero_flag(f_old)
    &&& n_flag(f_new) == n
    &&& half_carry_flag(f_new) == h
    &&& carry_flag(f_new) == c
    &&& f_new & 0x0F == f_old & 0x0F
}

} // verus!
