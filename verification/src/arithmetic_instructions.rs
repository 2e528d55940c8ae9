//! The 8-bit and 16-bit arithmetic and logic instructions, each with an
//! exact contract over the register file, the flag byte and the bus.
use crate::bus::{read8, write8, Bus};
use crate::cpu::{same_mode, spec_sign_extend8, sign_extend8, wrap_add16, Cpu};
use crate::helpers::{extract_dst_register, extract_dst_register_pair, extract_src_register};
use crate::registers::{
    carry_flag, compute_carry_flag_by_16_bit_addition, compute_carry_flag_by_8_bit_addition,
    compute_carry_flag_by_8_bit_subtraction, compute_half_carry_flag_by_16_bit_addition,
    compute_half_carry_flag_by_8_bit_addition, compute_half_carry_flag_by_8_bit_subtraction,
    flags_nhc, flags_znh, flags_znhc, get_register_pair_value_from_opcode_index,
    get_register_value_from_opcode_index, half_carry_flag, is_carry_flag_set,
    is_half_carry_flag_set, is_n_flag_set, lo16, n_flag, reg8, reg_pair, set_carry_flag,
    set_half_carry_flag, set_n_flag, set_register_pair_value_from_opcode_index,
    set_register_value_from_opcode_index, set_zero_flag, spec_set_reg_pair, zero_flag, Register,
    OPCODE_REGISTER_A_INDEX, OPCODE_REGISTER_HL_INDEX,
};
use vstd::prelude::*;

verus! {

/// The operand an arithmetic instruction names with a 3-bit index: a
/// register, or the byte at HL for index 6.
pub open spec fn operand8(cpu: Cpu, bus: crate::bus::BusView, idx: u8) -> u8 {
    if idx == 6 {
        read8(bus, cpu.registers.HL.0)
    } else {
        reg8(cpu.registers, idx)
    }
}

/// All 16-bit registers but AF are unchanged.
pub open spec fn same_regs_but_af(a: Cpu, b: Cpu) -> bool {
    &&& b.registers.BC == a.registers.BC
    &&& b.registers.DE == a.registers.DE
    &&& b.registers.HL == a.registers.HL
    &&& b.registers.PC == a.registers.PC
    &&& b.registers.SP == a.registers.SP
}

impl Cpu {
    /// ADD A,r / ADC A,r: add the named operand (and the carry, for ADC)
    /// into A.
    pub fn add_8_bit(&mut self, bus: &Bus, opcode: u8, add_carry_flag: bool)
        requires
            bus.wf(),
        ensures
            ({
                let a = reg8(old(self).registers, 7);
                let b = operand8(*old(self), bus@, opcode % 8);
                let c: u8 = if add_carry_flag { 1u8 } else { 0u8 };
                let sum = ((a + b + c) % 0x100) as u8;
                &&& reg8(final(self).registers, 7) == sum
                &&& same_regs_but_af(*old(self), *final(self))
                &&& flags_znhc(
                    lo16(old(self).registers.AF.0),
                    lo16(final(self).registers.AF.0),
                    sum == 0,
                    false,
                    a % 16 + b % 16 + c > 0xF,
                    a + b + c > 0xFF,
                )
                &&& same_mode(*old(self), *final(self))
            }),
    {
        let src = extract_src_register(opcode);
        let a = get_register_value_from_opcode_index(&self.registers, OPCODE_REGISTER_A_INDEX);
        let b: u8 = if src == OPCODE_REGISTER_HL_INDEX {
            bus.read(self.registers.HL.as_u16())
        } else {
            get_register_value_from_opcode_index(&self.registers, src)
        };
        let carry: u8 = if add_carry_flag {
            1
        } else {
            0
        };
        let sum: u8 = ((a as u16 + b as u16 + carry as u16) % 0x100) as u8;
        set_zero_flag(&mut self.registers, sum == 0);
        set_n_flag(&mut self.registers, false);
        let h = compute_half_carry_flag_by_8_bit_addition(a, b, carry);
        set_half_carry_flag(&mut self.registers, h);
        let c = compute_carry_flag_by_8_bit_addition(a, b, carry);
        set_carry_flag(&mut self.registers, c);
        set_register_value_from_opcode_index(&mut self.registers, OPCODE_REGISTER_A_INDEX, sum);
    }

    /// ADD A,d8 / ADC A,d8: add an immediate (and the carry, for ADC)
    /// into A.
    pub fn add_immediate(&mut self, _opcode: u8, opcode_data: u8, add_carry_flag: bool)
        ensures
            ({
                let a = reg8(old(self).registers, 7);
                let b = opcode_data;
                let c: u8 = if add_carry_flag { 1u8 } else { 0u8 };
                let sum = ((a + b + c) % 0x100) as u8;
                &&& reg8(final(self).registers, 7) == sum
                &&& same_regs_but_af(*old(self), *final(self))
                &&& flags_znhc(
                    lo16(old(self).registers.AF.0),
                    lo16(final(self).registers.AF.0),
                    sum == 0,
                    false,
                    a % 16 + b % 16 + c > 0xF,
                    a + b + c > 0xFF,
                )
                &&& same_mode(*old(self), *final(self))
            }),
    {
        let a = get_register_value_from_opcode_index(&self.registers, OPCODE_REGISTER_A_INDEX);
        let b: u8 = opcode_data;
        let carry: u8 = if add_carry_flag {
            1
        } else {
            0
        };
        let sum: u8 = ((a as u16 + b as u16 + carry as u16) % 0x100) as u8;
        set_zero_flag(&mut self.registers, sum == 0);
        set_n_flag(&mut self.registers, false);
        let h = compute_half_carry_flag_by_8_bit_addition(a, b, carry);
        set_half_carry_flag(&mut self.registers, h);
        let c = compute_carry_flag_by_8_bit_addition(a, b, carry);
        set_carry_flag(&mut self.registers, c);
        set_register_value_from_opcode_index(&mut self.registers, OPCODE_REGISTER_A_INDEX, sum);
    }

    /// SUB A,r / SBC A,r: subtract the named operand (and the carry, for
    /// SBC) from A.
    pub fn sub_8_bit(&mut self, bus: &Bus, opcode: u8, sub_carry_flag: bool)
        requires
            bus.wf(),
        ensures
            ({
                let a = reg8(old(self).registers, 7);
                let b = operand8(*old(self), bus@, opcode % 8);
                let c: u8 = if sub_carry_flag { 1u8 } else { 0u8 };
                let difference = ((a + 0x200 - b - c) % 0x100) as u8;
                &&& reg8(final(self).registers, 7) == difference
                &&& same_regs_but_af(*old(self), *final(self))
                &&& flags_znhc(
                    lo16(old(self).registers.AF.0),
                    lo16(final(self).registers.AF.0),
                    difference == 0,
                    true,
                    a % 16 < b % 16 + c,
                    a < b + c,
                )
                &&& same_mode(*old(self), *final(self))
            }),
    {
        let src = extract_src_register(opcode);
        let a = get_register_value_from_opcode_index(&self.registers, OPCODE_REGISTER_A_INDEX);
        let b: u8 = if src == OPCODE_REGISTER_HL_INDEX {
            bus.read(self.registers.HL.as_u16())
        } else {
            get_register_value_from_opcode_index(&self.registers, src)
        };
        let carry: u8 = if sub_carry_flag {
            1
        } else {
            0
        };
        let difference: u8 = ((a as u16 + 0x200 - b as u16 - carry as u16) % 0x100) as u8;
        set_zero_flag(&mut self.registers, difference == 0);
        set_n_flag(&mut self.registers, true);
        let h = compute_half_carry_flag_by_8_bit_subtraction(a, b, carry);
        set_half_carry_flag(&mut self.registers, h);
        let c = compute_carry_flag_by_8_bit_subtraction(a, b, carry);
        set_carry_flag(&mut self.registers, c);
        set_register_value_from_opcode_index(
            &mut self.registers,
            OPCODE_REGISTER_A_INDEX,
            difference,
        );
    }

    /// SUB A,d8 / SBC A,d8: subtract an immediate (and the carry, for
    /// SBC) from A.
    pub fn sub_immediate(&mut self, _opcode: u8, opcode_data: u8, sub_carry_flag: bool)
        ensures
            ({
                let a = reg8(old(self).registers, 7);
                let b = opcode_data;
                let c: u8 = if sub_carry_flag { 1u8 } else { 0u8 };
                let difference = ((a + 0x200 - b - c) % 0x100) as u8;
                &&& reg8(final(self).registers, 7) == difference
                &&& same_regs_but_af(*old(self), *final(self))
                &&& flags_znhc(
                    lo16(old(self).registers.AF.0),
                    lo16(final(self).registers.AF.0),
                    difference == 0,
                    true,
                    a % 16 < b % 16 + c,
                    a < b + c,
                )
                &&& same_mode(*old(self), *final(self))
            }),
    {
        let a = get_register_value_from_opcode_index(&self.registers, OPCODE_REGISTER_A_INDEX);
        let b: u8 = opcode_data;
        let carry: u8 = if sub_carry_flag {
            1
        } else {
            0
        };
        let difference: u8 = ((a as u16 + 0x200 - b as u16 - carry as u16) % 0x100) as u8;
        set_zero_flag(&mut self.registers, difference == 0);
        set_n_flag(&mut self.registers, true);
        let h = compute_half_carry_flag_by_8_bit_subtraction(a, b, carry);
        set_half_carry_flag(&mut self.registers, h);
        let c = compute_carry_flag_by_8_bit_subtraction(a, b, carry);
        set_carry_flag(&mut self.registers, c);
        set_register_value_from_opcode_index(
            &mut self.registers,
            OPCODE_REGISTER_A_INDEX,
            difference,
        );
    }

    /// INC r / INC (HL): add one to the named 8-bit place; C is
    /// untouched.
    #[verifier::rlimit(50)]
    pub fn inc_register_8_bit(&mut self, bus: &mut Bus, opcode: u8)
        requires
            old(bus).wf(),
        ensures
            final(bus).wf(),
            ({
                let dst = opcode / 8 % 8;
                let a = operand8(*old(self), old(bus)@, dst);
                let sum = ((a + 1) % 0x100) as u8;
                &&& (dst == 6 ==> final(bus)@ == write8(
                    old(bus)@,
                    old(self).registers.HL.0,
                    sum,
                ) && same_regs_but_af(*old(self), *final(self)) && reg8(final(self).registers, 7)
                    == reg8(old(self).registers, 7))
                &&& (dst != 6 ==> final(bus)@ == old(bus)@ && reg8(final(self).registers, dst)
                    == sum && (forall|j: u8|
                    j <= 7 && j != 6 && j != dst ==> #[trigger] reg8(final(self).registers, j)
                        == reg8(old(self).registers, j)))
                &&& flags_znh(
                    lo16(old(self).registers.AF.0),
                    lo16(final(self).registers.AF.0),
                    sum == 0,
                    false,
                    a % 16 + 1 > 0xF,
                )
                &&& final(self).registers.PC == old(self).registers.PC
                &&& final(self).registers.SP == old(self).registers.SP
                &&& same_mode(*old(self), *final(self))
            }),
    {
        let dst = extract_dst_register(opcode);
        let a: u8 = if dst == OPCODE_REGISTER_HL_INDEX {
            bus.read(self.registers.HL.as_u16())
        } else {
            get_register_value_from_opcode_index(&self.registers, dst)
        };
        let sum: u8 = ((a as u16 + 1) % 0x100) as u8;
        set_zero_flag(&mut self.registers, sum == 0);
        set_n_flag(&mut self.registers, false);
        let h = compute_half_carry_flag_by_8_bit_addition(a, 1, 0);
        set_half_carry_flag(&mut self.registers, h);
        if dst == OPCODE_REGISTER_HL_INDEX {
            bus.write(self.registers.HL.as_u16(), sum);
        } else {
            set_register_value_from_opcode_index(&mut self.registers, dst, sum);
        }
    }

    /// DEC r / DEC (HL): subtract one from the named 8-bit place; C is
    /// untouched.
    #[verifier::rlimit(50)]
    pub fn dec_register_8_bit(&mut self, bus: &mut Bus, opcode: u8)
        requires
            old(bus).wf(),
        ensures
            final(bus).wf(),
            ({
                let dst = opcode / 8 % 8;
                let a = operand8(*old(self), old(bus)@, dst);
                let difference = ((a + 0xFF) % 0x100) as u8;
                &&& (dst == 6 ==> final(bus)@ == write8(
                    old(bus)@,
                    old(self).registers.HL.0,
                    difference,
                ) && same_regs_but_af(*old(self), *final(self)) && reg8(final(self).registers, 7)
                    == reg8(old(self).registers, 7))
                &&& (dst != 6 ==> final(bus)@ == old(bus)@ && reg8(final(self).registers, dst)
                    == difference && (forall|j: u8|
                    j <= 7 && j != 6 && j != dst ==> #[trigger] reg8(final(self).registers, j)
                        == reg8(old(self).registers, j)))
                &&& flags_znh(
                    lo16(old(self).registers.AF.0),
                    lo16(final(self).registers.AF.0),
                    difference == 0,
                    true,
                    a % 16 < 1,
                )
                &&& final(self).registers.PC == old(self).registers.PC
                &&& final(self).registers.SP == old(self).registers.SP
                &&& same_mode(*old(self), *final(self))
            }),
    {
        let dst = extract_dst_register(opcode);
        let a: u8 = if dst == OPCODE_REGISTER_HL_INDEX {
            bus.read(self.registers.HL.as_u16())
        } else {
            get_register_value_from_opcode_index(&self.registers, dst)
        };
        let difference: u8 = ((a as u16 + 0xFF) % 0x100) as u8;
        set_zero_flag(&mut self.registers, difference == 0);
        set_n_flag(&mut self.registers, true);
        let h = compute_half_carry_flag_by_8_bit_subtraction(a, 1, 0);
        set_half_carry_flag(&mut self.registers, h);
        if dst == OPCODE_REGISTER_HL_INDEX {
            bus.write(self.registers.HL.as_u16(), difference);
        } else {
            set_register_value_from_opcode_index(&mut self.registers, dst, difference);
        }
    }

    /// XOR A,r: exclusive-or the named operand into A; N, H and C clear.
    pub fn xor_8_bit(&mut self, bus: &Bus, opcode: u8)
        requires
            bus.wf(),
        ensures
            ({
                let a = reg8(old(self).registers, 7);
                let b = operand8(*old(self), bus@, opcode % 8);
                &&& reg8(final(self).registers, 7) == a ^ b
                &&& same_regs_but_af(*old(self), *final(self))
                &&& flags_znhc(
                    lo16(old(self).registers.AF.0),
                    lo16(final(self).registers.AF.0),
                    a ^ b == 0,
                    false,
                    false,
                    false,
                )
                &&& same_mode(*old(self), *final(self))
            }),
    {
        let src = extract_src_register(opcode);
        let a = get_register_value_from_opcode_index(&self.registers, OPCODE_REGISTER_A_INDEX);
        let b: u8 = if src == OPCODE_REGISTER_HL_INDEX {
            bus.read(self.registers.HL.as_u16())
        } else {
            get_register_value_from_opcode_index(&self.registers, src)
        };
        let xor_val: u8 = a ^ b;
        set_zero_flag(&mut self.registers, xor_val == 0);
        set_n_flag(&mut self.registers, false);
        set_half_carry_flag(&mut self.registers, false);
        set_carry_flag(&mut self.registers, false);
        set_register_value_from_opcode_index(&mut self.registers, OPCODE_REGISTER_A_INDEX, xor_val);
    }

    /// XOR A,d8.
    pub fn xor_immediate(&mut self, _opcode: u8, opcode_data: u8)
        ensures
            ({
                let a = reg8(old(self).registers, 7);
                let b = opcode_data;
                &&& reg8(final(self).registers, 7) == a ^ b
                &&& same_regs_but_af(*old(self), *final(self))
                &&& flags_znhc(
                    lo16(old(self).registers.AF.0),
                    lo16(final(self).registers.AF.0),
                    a ^ b == 0,
                    false,
                    false,
                    false,
                )
                &&& same_mode(*old(self), *final(self))
            }),
    {
        let a = get_register_value_from_opcode_index(&self.registers, OPCODE_REGISTER_A_INDEX);
        let xor_val: u8 = a ^ opcode_data;
        set_zero_flag(&mut self.registers, xor_val == 0);
        set_n_flag(&mut self.registers, false);
        set_half_carry_flag(&mut self.registers, false);
        set_carry_flag(&mut self.registers, false);
        set_register_value_from_opcode_index(&mut self.registers, OPCODE_REGISTER_A_INDEX, xor_val);
    }

    /// CP A,r: compare by subtraction; only the flags change.
    pub fn cp_8_bit(&mut self, bus: &Bus, opcode: u8)
        requires
            bus.wf(),
        ensures
            ({
                let a = reg8(old(self).registers, 7);
                let b = operand8(*old(self), bus@, opcode % 8);
                &&& reg8(final(self).registers, 7) == a
                &&& same_regs_but_af(*old(self), *final(self))
                &&& flags_znhc(
                    lo16(old(self).registers.AF.0),
                    lo16(final(self).registers.AF.0),
                    a == b,
                    true,
                    a % 16 < b % 16,
                    a < b,
                )
                &&& same_mode(*old(self), *final(self))
            }),
    {
        let src = extract_src_register(opcode);
        let a = get_register_value_from_opcode_index(&self.registers, OPCODE_REGISTER_A_INDEX);
        let b: u8 = if src == OPCODE_REGISTER_HL_INDEX {
            bus.read(self.registers.HL.as_u16())
        } else {
            get_register_value_from_opcode_index(&self.registers, src)
        };
        set_zero_flag(&mut self.registers, a == b);
        set_n_flag(&mut self.registers, true);
        let h = compute_half_carry_flag_by_8_bit_subtraction(a, b, 0);
        set_half_carry_flag(&mut self.registers, h);
        let c = compute_carry_flag_by_8_bit_subtraction(a, b, 0);
        set_carry_flag(&mut self.registers, c);
    }

    /// CP A,d8.
    pub fn cp_immediate(&mut self, _opcode: u8, opcode_data: u8)
        ensures
            ({
                let a = reg8(old(self).registers, 7);
                let b = opcode_data;
                &&& reg8(final(self).registers, 7) == a
                &&& same_regs_but_af(*old(self), *final(self))
                &&& flags_znhc(
                    lo16(old(self).registers.AF.0),
                    lo16(final(self).registers.AF.0),
                    a == b,
                    true,
                    a % 16 < b % 16,
                    a < b,
                )
                &&& same_mode(*old(self), *final(self))
            }),
    {
        let a = get_register_value_from_opcode_index(&self.registers, OPCODE_REGISTER_A_INDEX);
        let b: u8 = opcode_data;
        set_zero_flag(&mut self.registers, a == b);
        set_n_flag(&mut self.registers, true);
        let h = compute_half_carry_flag_by_8_bit_subtraction(a, b, 0);
        set_half_carry_flag(&mut self.registers, h);
        let c = compute_carry_flag_by_8_bit_subtraction(a, b, 0);
        set_carry_flag(&mut self.registers, c);
    }

    /// AND A,r: H is set, N and C clear.
    pub fn and_8_bit(&mut self, bus: &Bus, opcode: u8)
        requires
            bus.wf(),
        ensures
            ({
                let a = reg8(old(self).registers, 7);
                let b = operand8(*old(self), bus@, opcode % 8);
                &&& reg8(final(self).registers, 7) == (a & b)
                &&& same_regs_but_af(*old(self), *final(self))
                &&& flags_znhc(
                    lo16(old(self).registers.AF.0),
                    lo16(final(self).registers.AF.0),
                    (a & b) == 0,
                    false,
                    true,
                    false,
                )
                &&& same_mode(*old(self), *final(self))
            }),
    {
        let src = extract_src_register(opcode);
        let a = get_register_value_from_opcode_index(&self.registers, OPCODE_REGISTER_A_INDEX);
        let b: u8 = if src == OPCODE_REGISTER_HL_INDEX {
            bus.read(self.registers.HL.as_u16())
        } else {
            get_register_value_from_opcode_index(&self.registers, src)
        };
        let and_val: u8 = a & b;
        set_zero_flag(&mut self.registers, and_val == 0);
        set_n_flag(&mut self.registers, false);
        set_half_carry_flag(&mut self.registers, true);
        set_carry_flag(&mut self.registers, false);
        set_register_value_from_opcode_index(&mut self.registers, OPCODE_REGISTER_A_INDEX, and_val);
    }

    /// AND A,d8.
    pub fn and_immediate_8_bit(&mut self, _opcode: u8, opcode_data: u8)
        ensures
            ({
                let a = reg8(old(self).registers, 7);
                let b = opcode_data;
                &&& reg8(final(self).registers, 7) == (a & b)
                &&& same_regs_but_af(*old(self), *final(self))
                &&& flags_znhc(
                    lo16(old(self).registers.AF.0),
                    lo16(final(self).registers.AF.0),
                    (a & b) == 0,
                    false,
                    true,
                    false,
                )
                &&& same_mode(*old(self), *final(self))
            }),
    {
        let a = get_register_value_from_opcode_index(&self.registers, OPCODE_REGISTER_A_INDEX);
        let and_val: u8 = a & opcode_data;
        set_zero_flag(&mut self.registers, and_val == 0);
        set_n_flag(&mut self.registers, false);
        set_half_carry_flag(&mut self.registers, true);
        set_carry_flag(&mut self.registers, false);
        set_register_value_from_opcode_index(&mut self.registers, OPCODE_REGISTER_A_INDEX, and_val);
    }

    /// OR A,r: N, H and C clear.
    pub fn or_8_bit(&mut self, bus: &Bus, opcode: u8)
        requires
            bus.wf(),
        ensures
            ({
                let a = reg8(old(self).registers, 7);
                let b = operand8(*old(self), bus@, opcode % 8);
                &&& reg8(final(self).registers, 7) == (a | b)
                &&& same_regs_but_af(*old(self), *final(self))
                &&& flags_znhc(
                    lo16(old(self).registers.AF.0),
                    lo16(final(self).registers.AF.0),
                    (a | b) == 0,
                    false,
                    false,
                    false,
                )
                &&& same_mode(*old(self), *final(self))
            }),
    {
        let src = extract_src_register(opcode);
        let a = get_register_value_from_opcode_index(&self.registers, OPCODE_REGISTER_A_INDEX);
        let b: u8 = if src == OPCODE_REGISTER_HL_INDEX {
            bus.read(self.registers.HL.as_u16())
        } else {
            get_register_value_from_opcode_index(&self.registers, src)
        };
        let or_val: u8 = a | b;
        set_zero_flag(&mut self.registers, or_val == 0);
        set_n_flag(&mut self.registers, false);
        set_half_carry_flag(&mut self.registers, false);
        set_carry_flag(&mut self.registers, false);
        set_register_value_from_opcode_index(&mut self.registers, OPCODE_REGISTER_A_INDEX, or_val);
    }

    /// OR A,d8.
    pub fn or_8_bit_immediate(&mut self, _opcode: u8, opcode_data: u8)
        ensures
            ({
                let a = reg8(old(self).registers, 7);
                let b = opcode_data;
                &&& reg8(final(self).registers, 7) == (a | b)
                &&& same_regs_but_af(*old(self), *final(self))
                &&& flags_znhc(
                    lo16(old(self).registers.AF.0),
                    lo16(final(self).registers.AF.0),
                    (a | b) == 0,
                    false,
                    false,
                    false,
                )
                &&& same_mode(*old(self), *final(self))
            }),
    {
        let a = get_register_value_from_opcode_index(&self.registers, OPCODE_REGISTER_A_INDEX);
        let or_val: u8 = a | opcode_data;
        set_zero_flag(&mut self.registers, or_val == 0);
        set_n_flag(&mut self.registers, false);
        set_half_carry_flag(&mut self.registers, false);
        set_carry_flag(&mut self.registers, false);
        set_register_value_from_opcode_index(&mut self.registers, OPCODE_REGISTER_A_INDEX, or_val);
    }

    /// DAA: adjust A to binary-coded decimal after an addition or
    /// subtraction, using the current N, H and C flags.
    pub fn daa(&mut self, _opcode: u8)
        ensures
            ({
                let a = reg8(old(self).registers, 7);
                let f = lo16(old(self).registers.AF.0);
                let result = daa_result(a, n_flag(f), half_carry_flag(f), carry_flag(f));
                &&& reg8(final(self).registers, 7) == result
                &&& same_regs_but_af(*old(self), *final(self))
                &&& zero_flag(lo16(final(self).registers.AF.0)) == (result == 0)
                &&& n_flag(lo16(final(self).registers.AF.0)) == n_flag(f)
                &&& half_carry_flag(lo16(final(self).registers.AF.0)) == false
                &&& carry_flag(lo16(final(self).registers.AF.0)) == daa_carry_out(
                    a,
                    n_flag(f),
                    carry_flag(f),
                )
                &&& lo16(final(self).registers.AF.0) & 0x0F == f & 0x0F
                &&& same_mode(*old(self), *final(self))
            }),
    {
        let number = get_register_value_from_opcode_index(&self.registers, OPCODE_REGISTER_A_INDEX);
        let n = is_n_flag_set(&self.registers);
        let h = is_half_carry_flag_set(&self.registers);
        let c = is_carry_flag_set(&self.registers);
        let mut offset_value: u8 = 0;
        if h || (!n && number % 16 > 0x09) {
            offset_value = offset_value | 0x06;
        }
        if c || (!n && number > 0x99) {
            offset_value = offset_value | 0x60;
            set_carry_flag(&mut self.registers, true);
        }
        proof {
            assert(0u8 | 0x06 == 0x06 && 0u8 | 0x60 == 0x60 && 0x06u8 | 0x60 == 0x66 && 0u8 | 0x60
                == 0x60) by (bit_vector);
        }
        let adjusted: u8 = if n {
            ((number as u16 + 0x100 - offset_value as u16) % 0x100) as u8
        } else {
            ((number as u16 + offset_value as u16) % 0x100) as u8
        };
        set_half_carry_flag(&mut self.registers, false);
        self.registers.AF.set_high(adjusted);
        set_zero_flag(&mut self.registers, adjusted == 0);
    }

    /// CPL: complement A; N and H are set, Z and C untouched.
    pub fn cpl(&mut self, _opcode: u8)
        ensures
            reg8(final(self).registers, 7) == !reg8(old(self).registers, 7),
            same_regs_but_af(*old(self), *final(self)),
            ({
                let f = lo16(old(self).registers.AF.0);
                let f2 = lo16(final(self).registers.AF.0);
                &&& zero_flag(f2) == zero_flag(f)
                &&& n_flag(f2) == true
                &&& half_carry_flag(f2) == true
                &&& carry_flag(f2) == carry_flag(f)
                &&& f2 & 0x0F == f & 0x0F
            }),
            same_mode(*old(self), *final(self)),
    {
        let a = self.registers.AF.high();
        self.registers.AF.set_high(!a);
        set_n_flag(&mut self.registers, true);
        set_half_carry_flag(&mut self.registers, true);
    }

    /// CCF: invert the carry flag; N and H clear, Z untouched.
    pub fn ccf(&mut self, _opcode: u8)
        ensures
            reg8(final(self).registers, 7) == reg8(old(self).registers, 7),
            same_regs_but_af(*old(self), *final(self)),
            flags_nhc(
                lo16(old(self).registers.AF.0),
                lo16(final(self).registers.AF.0),
                false,
                false,
                !carry_flag(lo16(old(self).registers.AF.0)),
            ),
            same_mode(*old(self), *final(self)),
    {
        set_n_flag(&mut self.registers, false);
        set_half_carry_flag(&mut self.registers, false);
        let carry_was_set = is_carry_flag_set(&self.registers);
        set_carry_flag(&mut self.registers, !carry_was_set);
    }

    /// SCF: set the carry flag; N and H clear, Z untouched.
    pub fn scf(&mut self, _opcode: u8)
        ensures
            reg8(final(self).registers, 7) == reg8(old(self).registers, 7),
            same_regs_but_af(*old(self), *final(self)),
            flags_nhc(
                lo16(old(self).registers.AF.0),
                lo16(final(self).registers.AF.0),
                false,
                false,
                true,
            ),
            same_mode(*old(self), *final(self)),
    {
        set_carry_flag(&mut self.registers, true);
        set_n_flag(&mut self.registers, false);
        set_half_carry_flag(&mut self.registers, false);
    }

    /// ADD SP,e8: add a signed immediate to SP; H and C come from the
    /// unsigned addition over SP's low byte.
    pub fn add_immediate_into_sp(&mut self, _opcode: u8, opcode_data: u8)
        ensures
            ({
                let sp = old(self).registers.SP.0;
                &&& final(self).registers.SP.0 == (sp + spec_sign_extend8(opcode_data)) % 0x10000
                &&& final(self).registers.BC == old(self).registers.BC
                &&& final(self).registers.DE == old(self).registers.DE
                &&& final(self).registers.HL == old(self).registers.HL
                &&& final(self).registers.PC == old(self).registers.PC
                &&& reg8(final(self).registers, 7) == reg8(old(self).registers, 7)
                &&& flags_znhc(
                    lo16(old(self).registers.AF.0),
                    lo16(final(self).registers.AF.0),
                    false,
                    false,
                    lo16(sp) % 16 + opcode_data % 16 > 0xF,
                    lo16(sp) + opcode_data > 0xFF,
                )
                &&& same_mode(*old(self), *final(self))
            }),
    {
        set_zero_flag(&mut self.registers, false);
        set_n_flag(&mut self.registers, false);
        let sp_low = self.registers.SP.low();
        let half_carry_flag_val = compute_half_carry_flag_by_8_bit_addition(sp_low, opcode_data, 0);
        let carry_flag_val = compute_carry_flag_by_8_bit_addition(sp_low, opcode_data, 0);
        set_half_carry_flag(&mut self.registers, half_carry_flag_val);
        set_carry_flag(&mut self.registers, carry_flag_val);
        let displacement = sign_extend8(opcode_data);
        let new_sp = wrap_add16(self.registers.SP.as_u16(), displacement);
        self.registers.SP = Register(new_sp);
    }

    /// ADD HL,rr: add the named register pair into HL; Z is untouched.
    pub fn add_16_bit_register_pairs(&mut self, opcode: u8)
        ensures
            ({
                let a = old(self).registers.HL.0;
                let b = reg_pair(old(self).registers, opcode / 16 % 4);
                &&& final(self).registers.HL.0 == (a + b) % 0x10000
                &&& final(self).registers.BC == old(self).registers.BC
                &&& final(self).registers.DE == old(self).registers.DE
                &&& final(self).registers.PC == old(self).registers.PC
                &&& final(self).registers.SP == old(self).registers.SP
                &&& reg8(final(self).registers, 7) == reg8(old(self).registers, 7)
                &&& flags_nhc(
                    lo16(old(self).registers.AF.0),
                    lo16(final(self).registers.AF.0),
                    false,
                    a % 0x1000 + b % 0x1000 > 0xFFF,
                    a + b > 0xFFFF,
                )
                &&& same_mode(*old(self), *final(self))
            }),
    {
        let src = extract_dst_register_pair(opcode);
        let a = self.registers.HL.as_u16();
        let b = get_register_pair_value_from_opcode_index(&self.registers, src);
        let sum = wrap_add16(a, b);
        set_n_flag(&mut self.registers, false);
        let h = compute_half_carry_flag_by_16_bit_addition(a, b);
        set_half_carry_flag(&mut self.registers, h);
        let c = compute_carry_flag_by_16_bit_addition(a, b);
        set_carry_flag(&mut self.registers, c);
        self.registers.HL = Register(sum);
    }

    /// INC rr: add one to the named register pair; no flags move.
    pub fn inc_register_pair_16_bit(&mut self, opcode: u8)
        ensures
            final(self).registers == spec_set_reg_pair(
                old(self).registers,
                opcode / 16 % 4,
                ((reg_pair(old(self).registers, opcode / 16 % 4) + 1) % 0x10000) as u16,
            ),
            same_mode(*old(self), *final(self)),
    {
        let dst = extract_dst_register_pair(opcode);
        let value = get_register_pair_value_from_opcode_index(&self.registers, dst);
        let incremented = wrap_add16(value, 1);
        set_register_pair_value_from_opcode_index(&mut self.registers, dst, incremented);
    }

    /// DEC rr: subtract one from the named register pair; no flags move.
    pub fn dec_register_pair_16_bit(&mut self, opcode: u8)
        ensures
            final(self).registers == spec_set_reg_pair(
                old(self).registers,
                opcode / 16 % 4,
                ((reg_pair(old(self).registers, opcode / 16 % 4) + 0xFFFF) % 0x10000) as u16,
            ),
            same_mode(*old(self), *final(self)),
    {
        let dst = extract_dst_register_pair(opcode);
        let value = get_register_pair_value_from_opcode_index(&self.registers, dst);
        let decremented = crate::cpu::wrap_sub16(value, 1);
        set_register_pair_value_from_opcode_index(&mut self.registers, dst, decremented);
    }
}

/// The 0x06 and/or 0x60 adjustment DAA applies, from A and the N, H and C
/// flags.
pub open spec fn daa_offset(a: u8, n: bool, h: bool, c: bool) -> u8 {
    ((if h || (!n && a % 16 > 9) { 0x06u8 } else { 0u8 }) + (if c || (!n && a > 0x99) {
        0x60u8
    } else {
        0u8
    })) as u8
}

/// The accumulator after DAA: the offset is added after an addition and
/// subtracted after a subtraction, wrapping in a byte.
pub open spec fn daa_result(a: u8, n: bool, h: bool, c: bool) -> u8 {
    if n {
        ((a + 0x100 - daa_offset(a, n, h, c)) % 0x100) as u8
    } else {
        ((a + daa_offset(a, n, h, c)) % 0x100) as u8
    }
}

/// DAA's carry flag: set when it was already set or the high-nibble
/// adjustment triggered.
pub open spec fn daa_carry_out(a: u8, n: bool, c: bool) -> bool {
    c || (!n && a > 0x99)
}

} // verus!
