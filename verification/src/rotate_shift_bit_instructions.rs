//! Rotates, shifts, nibble swap and single-bit test/set/clear: the
//! accumulator-only forms and the whole prefixed page.
use crate::arithmetic_instructions::{operand8, same_regs_but_af};
use crate::bus::{write8, Bus};
use crate::cpu::{same_mode, Cpu};
use crate::helpers::{extract_dst_register, extract_src_register};
use crate::registers::{
    carry_flag, flags_znh, flags_znhc, get_register_value_from_opcode_index, is_carry_flag_set,
    lo16, reg8, set_carry_flag, set_half_carry_flag, set_n_flag,
    set_register_value_from_opcode_index, set_zero_flag, spec_set_reg8, OPCODE_REGISTER_HL_INDEX,
};
use vstd::prelude::*;

verus! {

/// A byte rotated left by one, bit 7 wrapping into bit 0.
pub open spec fn rotl8(d: u8) -> u8 {
    ((d % 0x80) * 2 + d / 0x80) as u8
}

/// A byte rotated right by one, bit 0 wrapping into bit 7.
pub open spec fn rotr8(d: u8) -> u8 {
    (d / 2 + (d % 2) * 0x80) as u8
}

impl Cpu {
    /// The result a prefixed instruction writes back: to the register its
    /// 3-bit index names, or through the bus for the memory operand at HL.
    fn write_operand8(&mut self, bus: &mut Bus, idx: u8, value: u8)
        requires
            old(bus).wf(),
            idx <= 7,
        ensures
            final(bus).wf(),
            idx == 6 ==> final(bus)@ == write8(old(bus)@, old(self).registers.HL.0, value)
                && *final(self) == *old(self),
            idx != 6 ==> final(bus)@ == old(bus)@ && final(self).registers == spec_set_reg8(
                old(self).registers,
                idx,
                value,
            ) && same_mode(*old(self), *final(self)),
    {
        if idx == OPCODE_REGISTER_HL_INDEX {
            bus.write(self.registers.HL.as_u16(), value);
        } else {
            set_register_value_from_opcode_index(&mut self.registers, idx, value);
        }
    }

    /// RLCA: rotate A left; C takes the ejected bit 7, Z is cleared.
    pub fn rlca(&mut self, _opcode: u8)
        ensures
            ({
                let a = reg8(old(self).registers, 7);
                &&& reg8(final(self).registers, 7) == rotl8(a)
                &&& same_regs_but_af(*old(self), *final(self))
                &&& flags_znhc(
                    lo16(old(self).registers.AF.0),
                    lo16(final(self).registers.AF.0),
                    false,
                    false,
                    false,
                    a >= 0x80,
                )
                &&& same_mode(*old(self), *final(self))
            }),
    {
        let a = self.registers.AF.high();
        set_carry_flag(&mut self.registers, a >= 0x80);
        self.registers.AF.set_high(a % 0x80 * 2 + a / 0x80);
        set_zero_flag(&mut self.registers, false);
        set_n_flag(&mut self.registers, false);
        set_half_carry_flag(&mut self.registers, false);
    }

    /// RLA: rotate A left through the carry flag; Z is cleared.
    pub fn rla(&mut self, _opcode: u8)
        ensures
            ({
                let a = reg8(old(self).registers, 7);
                let c: u8 = if carry_flag(lo16(old(self).registers.AF.0)) { 1u8 } else { 0u8 };
                &&& reg8(final(self).registers, 7) == a % 0x80 * 2 + c
                &&& same_regs_but_af(*old(self), *final(self))
                &&& flags_znhc(
                    lo16(old(self).registers.AF.0),
                    lo16(final(self).registers.AF.0),
                    false,
                    false,
                    false,
                    a >= 0x80,
                )
                &&& same_mode(*old(self), *final(self))
            }),
    {
        let old_carry: u8 = if is_carry_flag_set(&self.registers) {
            1
        } else {
            0
        };
        let a = self.registers.AF.high();
        set_carry_flag(&mut self.registers, a >= 0x80);
        self.registers.AF.set_high(a % 0x80 * 2 + old_carry);
        set_zero_flag(&mut self.registers, false);
        set_n_flag(&mut self.registers, false);
        set_half_carry_flag(&mut self.registers, false);
    }

    /// RRCA: rotate A right; C takes the ejected bit 0, Z is cleared.
    pub fn rrca(&mut self, _opcode: u8)
        ensures
            ({
                let a = reg8(old(self).registers, 7);
                &&& reg8(final(self).registers, 7) == rotr8(a)
                &&& same_regs_but_af(*old(self), *final(self))
                &&& flags_znhc(
                    lo16(old(self).registers.AF.0),
                    lo16(final(self).registers.AF.0),
                    false,
                    false,
                    false,
                    a % 2 == 1,
                )
                &&& same_mode(*old(self), *final(self))
            }),
    {
        let a = self.registers.AF.high();
        set_carry_flag(&mut self.registers, a % 2 == 1);
        self.registers.AF.set_high(a / 2 + a % 2 * 0x80);
        set_zero_flag(&mut self.registers, false);
        set_n_flag(&mut self.registers, false);
        set_half_carry_flag(&mut self.registers, false);
    }

    /// RRA: rotate A right through the carry flag; Z is cleared.
    pub fn rra(&mut self, _opcode: u8)
        ensures
            ({
                let a = reg8(old(self).registers, 7);
                let c: u8 = if carry_flag(lo16(old(self).registers.AF.0)) { 1u8 } else { 0u8 };
                &&& reg8(final(self).registers, 7) == a / 2 + c * 0x80
                &&& same_regs_but_af(*old(self), *final(self))
                &&& flags_znhc(
                    lo16(old(self).registers.AF.0),
                    lo16(final(self).registers.AF.0),
                    false,
                    false,
                    false,
                    a % 2 == 1,
                )
                &&& same_mode(*old(self), *final(self))
            }),
    {
        let old_carry: u8 = if is_carry_flag_set(&self.registers) {
            0x80
        } else {
            0
        };
        let a = self.registers.AF.high();
        set_carry_flag(&mut self.registers, a % 2 == 1);
        self.registers.AF.set_high(a / 2 + old_carry);
        set_zero_flag(&mut self.registers, false);
        set_n_flag(&mut self.registers, false);
        set_half_carry_flag(&mut self.registers, false);
    }
}

/// What every prefixed rotate, shift or swap guarantees besides its
/// result byte: the untouched registers, the Z/N/H/C pattern and the
/// write-back place.
pub open spec fn cb_writeback(
    cpu_old: Cpu,
    cpu_new: Cpu,
    bus_old: crate::bus::BusView,
    bus_new: crate::bus::BusView,
    src: u8,
    result: u8,
    carry_out: bool,
) -> bool {
    &&& (src == 6 ==> bus_new == write8(bus_old, cpu_old.registers.HL.0, result)
        && same_regs_but_af(cpu_old, cpu_new) && reg8(cpu_new.registers, 7) == reg8(
        cpu_old.registers,
        7,
    ))
    &&& (src != 6 ==> bus_new == bus_old && reg8(cpu_new.registers, src) == result && (forall|
        j: u8,
    |
        j <= 7 && j != 6 && j != src ==> #[trigger] reg8(cpu_new.registers, j) == reg8(
            cpu_old.registers,
            j,
        )))
    &&& cpu_new.registers.PC == cpu_old.registers.PC
    &&& cpu_new.registers.SP == cpu_old.registers.SP
    &&& flags_znhc(
        lo16(cpu_old.registers.AF.0),
        lo16(cpu_new.registers.AF.0),
        result == 0,
        false,
        false,
        carry_out,
    )
    &&& same_mode(cpu_old, cpu_new)
}

impl Cpu {
    /// RLC r / RLC (HL): rotate the named operand left.
    #[verifier::rlimit(60)]
    pub fn rlc(&mut self, bus: &mut Bus, _opcode: u8, opcode_data: u8)
        requires
            old(bus).wf(),
        ensures
            final(bus).wf(),
            ({
                let d = operand8(*old(self), old(bus)@, opcode_data % 8);
                cb_writeback(
                    *old(self),
                    *final(self),
                    old(bus)@,
                    final(bus)@,
                    opcode_data % 8,
                    rotl8(d),
                    d >= 0x80,
                )
            }),
    {
        let src = extract_src_register(opcode_data);
        let data: u8 = if src == OPCODE_REGISTER_HL_INDEX {
            bus.read(self.registers.HL.as_u16())
        } else {
            get_register_value_from_opcode_index(&self.registers, src)
        };
        set_carry_flag(&mut self.registers, data >= 0x80);
        let rotated = data % 0x80 * 2 + data / 0x80;
        self.write_operand8(bus, src, rotated);
        set_zero_flag(&mut self.registers, rotated == 0);
        set_n_flag(&mut self.registers, false);
        set_half_carry_flag(&mut self.registers, false);
    }

    /// RL r / RL (HL): rotate the named operand left through the carry
    /// flag.
    #[verifier::rlimit(100)]
    pub fn rl(&mut self, bus: &mut Bus, _opcode: u8, opcode_data: u8)
        requires
            old(bus).wf(),
        ensures
            final(bus).wf(),
            ({
                let d = operand8(*old(self), old(bus)@, opcode_data % 8);
                let c: u8 = if carry_flag(lo16(old(self).registers.AF.0)) { 1u8 } else { 0u8 };
                cb_writeback(
                    *old(self),
                    *final(self),
                    old(bus)@,
                    final(bus)@,
                    opcode_data % 8,
                    (d % 0x80 * 2 + c) as u8,
                    d >= 0x80,
                )
            }),
    {
        let src = extract_src_register(opcode_data);
        let old_carry: u8 = if is_carry_flag_set(&self.registers) {
            1
        } else {
            0
        };
        let data: u8 = if src == OPCODE_REGISTER_HL_INDEX {
            bus.read(self.registers.HL.as_u16())
        } else {
            get_register_value_from_opcode_index(&self.registers, src)
        };
        set_carry_flag(&mut self.registers, data >= 0x80);
        let rotated = data % 0x80 * 2 + old_carry;
        self.write_operand8(bus, src, rotated);
        set_zero_flag(&mut self.registers, rotated == 0);
        set_n_flag(&mut self.registers, false);
        set_half_carry_flag(&mut self.registers, false);
    }

    /// RRC r / RRC (HL): rotate the named operand right.
    #[verifier::rlimit(60)]
    pub fn rrc(&mut self, bus: &mut Bus, _opcode: u8, opcode_data: u8)
        requires
            old(bus).wf(),
        ensures
            final(bus).wf(),
            ({
                let d = operand8(*old(self), old(bus)@, opcode_data % 8);
                cb_writeback(
                    *old(self),
                    *final(self),
                    old(bus)@,
                    final(bus)@,
                    opcode_data % 8,
                    rotr8(d),
                    d % 2 == 1,
                )
            }),
    {
        let src = extract_src_register(opcode_data);
        let data: u8 = if src == OPCODE_REGISTER_HL_INDEX {
            bus.read(self.registers.HL.as_u16())
        } else {
            get_register_value_from_opcode_index(&self.registers, src)
        };
        set_carry_flag(&mut self.registers, data % 2 == 1);
        let rotated = data / 2 + data % 2 * 0x80;
        self.write_operand8(bus, src, rotated);
        set_zero_flag(&mut self.registers, rotated == 0);
        set_n_flag(&mut self.registers, false);
        set_half_carry_flag(&mut self.registers, false);
    }

    /// RR r / RR (HL): rotate the named operand right through the carry
    /// flag.
    #[verifier::rlimit(60)]
    pub fn rr(&mut self, bus: &mut Bus, _opcode: u8, opcode_data: u8)
        requires
            old(bus).wf(),
        ensures
            final(bus).wf(),
            ({
                let d = operand8(*old(self), old(bus)@, opcode_data % 8);
                let c: u8 = if carry_flag(lo16(old(self).registers.AF.0)) { 1u8 } else { 0u8 };
                cb_writeback(
                    *old(self),
                    *final(self),
                    old(bus)@,
                    final(bus)@,
                    opcode_data % 8,
                    (d / 2 + c * 0x80) as u8,
                    d % 2 == 1,
                )
            }),
    {
        let src = extract_src_register(opcode_data);
        let old_carry: u8 = if is_carry_flag_set(&self.registers) {
            0x80
        } else {
            0
        };
        let data: u8 = if src == OPCODE_REGISTER_HL_INDEX {
            bus.read(self.registers.HL.as_u16())
        } else {
            get_register_value_from_opcode_index(&self.registers, src)
        };
        set_carry_flag(&mut self.registers, data % 2 == 1);
        let rotated = data / 2 + old_carry;
        self.write_operand8(bus, src, rotated);
        set_zero_flag(&mut self.registers, rotated == 0);
        set_n_flag(&mut self.registers, false);
        set_half_carry_flag(&mut self.registers, false);
    }

    /// SLA r / SLA (HL): shift left, bit 0 cleared.
    #[verifier::rlimit(60)]
    pub fn sla(&mut self, bus: &mut Bus, _opcode: u8, opcode_data: u8)
        requires
            old(bus).wf(),
        ensures
            final(bus).wf(),
            ({
                let d = operand8(*old(self), old(bus)@, opcode_data % 8);
                cb_writeback(
                    *old(self),
                    *final(self),
                    old(bus)@,
                    final(bus)@,
                    opcode_data % 8,
                    (d % 0x80 * 2) as u8,
                    d >= 0x80,
                )
            }),
    {
        let src = extract_src_register(opcode_data);
        let data: u8 = if src == OPCODE_REGISTER_HL_INDEX {
            bus.read(self.registers.HL.as_u16())
        } else {
            get_register_value_from_opcode_index(&self.registers, src)
        };
        set_carry_flag(&mut self.registers, data >= 0x80);
        let shifted = data % 0x80 * 2;
        self.write_operand8(bus, src, shifted);
        set_zero_flag(&mut self.registers, shifted == 0);
        set_n_flag(&mut self.registers, false);
        set_half_carry_flag(&mut self.registers, false);
    }

    /// SRA r / SRA (HL): shift right, bit 7 kept.
    #[verifier::rlimit(60)]
    pub fn sra(&mut self, bus: &mut Bus, _opcode: u8, opcode_data: u8)
        requires
            old(bus).wf(),
        ensures
            final(bus).wf(),
            ({
                let d = operand8(*old(self), old(bus)@, opcode_data % 8);
                cb_writeback(
                    *old(self),
                    *final(self),
                    old(bus)@,
                    final(bus)@,
                    opcode_data % 8,
                    (d / 2 + d / 0x80 * 0x80) as u8,
                    d % 2 == 1,
                )
            }),
    {
        let src = extract_src_register(opcode_data);
        let data: u8 = if src == OPCODE_REGISTER_HL_INDEX {
            bus.read(self.registers.HL.as_u16())
        } else {
            get_register_value_from_opcode_index(&self.registers, src)
        };
        set_carry_flag(&mut self.registers, data % 2 == 1);
        let shifted = data / 2 + data / 0x80 * 0x80;
        self.write_operand8(bus, src, shifted);
        set_zero_flag(&mut self.registers, shifted == 0);
        set_n_flag(&mut self.registers, false);
        set_half_carry_flag(&mut self.registers, false);
    }

    /// SRL r / SRL (HL): shift right, bit 7 cleared.
    #[verifier::rlimit(60)]
    pub fn srl(&mut self, bus: &mut Bus, _opcode: u8, opcode_data: u8)
        requires
            old(bus).wf(),
        ensures
            final(bus).wf(),
            ({
                let d = operand8(*old(self), old(bus)@, opcode_data % 8);
                cb_writeback(
                    *old(self),
                    *final(self),
                    old(bus)@,
                    final(bus)@,
                    opcode_data % 8,
                    (d / 2) as u8,
                    d % 2 == 1,
                )
            }),
    {
        let src = extract_src_register(opcode_data);
        let data: u8 = if src == OPCODE_REGISTER_HL_INDEX {
            bus.read(self.registers.HL.as_u16())
        } else {
            get_register_value_from_opcode_index(&self.registers, src)
        };
        set_carry_flag(&mut self.registers, data % 2 == 1);
        let shifted = data / 2;
        self.write_operand8(bus, src, shifted);
        set_zero_flag(&mut self.registers, shifted == 0);
        set_n_flag(&mut self.registers, false);
        set_half_carry_flag(&mut self.registers, false);
    }

    /// SWAP r / SWAP (HL): exchange the nibbles; N, H and C clear.
    #[verifier::rlimit(60)]
    pub fn swap(&mut self, bus: &mut Bus, _opcode: u8, opcode_data: u8)
        requires
            old(bus).wf(),
        ensures
            final(bus).wf(),
            ({
                let d = operand8(*old(self), old(bus)@, opcode_data % 8);
                cb_writeback(
                    *old(self),
                    *final(self),
                    old(bus)@,
                    final(bus)@,
                    opcode_data % 8,
                    (d % 16 * 16 + d / 16) as u8,
                    false,
                )
            }),
    {
        let src = extract_src_register(opcode_data);
        let data: u8 = if src == OPCODE_REGISTER_HL_INDEX {
            bus.read(self.registers.HL.as_u16())
        } else {
            get_register_value_from_opcode_index(&self.registers, src)
        };
        let swapped = data % 16 * 16 + data / 16;
        self.write_operand8(bus, src, swapped);
        set_zero_flag(&mut self.registers, swapped == 0);
        set_n_flag(&mut self.registers, false);
        set_half_carry_flag(&mut self.registers, false);
        set_carry_flag(&mut self.registers, false);
    }

    /// BIT b,r / BIT b,(HL): Z is the complement of the selected bit; H
    /// set, N clear, C untouched; nothing is written.
    pub fn bit(&mut self, bus: &Bus, _opcode: u8, opcode_data: u8)
        requires
            bus.wf(),
        ensures
            ({
                let d = operand8(*old(self), bus@, opcode_data % 8);
                let b = opcode_data / 8 % 8;
                &&& same_regs_but_af(*old(self), *final(self))
                &&& reg8(final(self).registers, 7) == reg8(old(self).registers, 7)
                &&& flags_znh(
                    lo16(old(self).registers.AF.0),
                    lo16(final(self).registers.AF.0),
                    (d >> b) & 1 == 0,
                    false,
                    true,
                )
                &&& same_mode(*old(self), *final(self))
            }),
    {
        let bit = extract_dst_register(opcode_data);
        let register_to_fetch_bit_from = extract_src_register(opcode_data);
        let data: u8 = if register_to_fetch_bit_from == OPCODE_REGISTER_HL_INDEX {
            bus.read(self.registers.HL.as_u16())
        } else {
            get_register_value_from_opcode_index(&self.registers, register_to_fetch_bit_from)
        };
        set_zero_flag(&mut self.registers, (data >> bit) & 0x01 == 0);
        set_n_flag(&mut self.registers, false);
        set_half_carry_flag(&mut self.registers, true);
    }

    /// SET b,r / SET b,(HL): turn the selected bit on; no flags move.
    pub fn set(&mut self, bus: &mut Bus, _opcode: u8, opcode_data: u8)
        requires
            old(bus).wf(),
        ensures
            final(bus).wf(),
            ({
                let src = opcode_data % 8;
                let d = operand8(*old(self), old(bus)@, src);
                let result = d | (1u8 << (opcode_data / 8 % 8));
                &&& (src == 6 ==> final(bus)@ == write8(old(bus)@, old(self).registers.HL.0, result)
                    && *final(self) == *old(self))
                &&& (src != 6 ==> final(bus)@ == old(bus)@ && final(self).registers == spec_set_reg8(
                    old(self).registers,
                    src,
                    result,
                ) && same_mode(*old(self), *final(self)))
            }),
    {
        let bit = extract_dst_register(opcode_data);
        let register = extract_src_register(opcode_data);
        let data: u8 = if register == OPCODE_REGISTER_HL_INDEX {
            bus.read(self.registers.HL.as_u16())
        } else {
            get_register_value_from_opcode_index(&self.registers, register)
        };
        let result = data | (1u8 << bit);
        self.write_operand8(bus, register, result);
    }

    /// RES b,r / RES b,(HL): turn the selected bit off; no flags move.
    pub fn res(&mut self, bus: &mut Bus, _opcode: u8, opcode_data: u8)
        requires
            old(bus).wf(),
        ensures
            final(bus).wf(),
            ({
                let src = opcode_data % 8;
                let d = operand8(*old(self), old(bus)@, src);
                let result = d & !(1u8 << (opcode_data / 8 % 8));
                &&& (src == 6 ==> final(bus)@ == write8(old(bus)@, old(self).registers.HL.0, result)
                    && *final(self) == *old(self))
                &&& (src != 6 ==> final(bus)@ == old(bus)@ && final(self).registers == spec_set_reg8(
                    old(self).registers,
                    src,
                    result,
                ) && same_mode(*old(self), *final(self)))
            }),
    {
        let bit = extract_dst_register(opcode_data);
        let register = extract_src_register(opcode_data);
        let data: u8 = if register == OPCODE_REGISTER_HL_INDEX {
            bus.read(self.registers.HL.as_u16())
        } else {
            get_register_value_from_opcode_index(&self.registers, register)
        };
        let result = data & !(1u8 << bit);
        self.write_operand8(bus, register, result);
    }
}

} // verus!
