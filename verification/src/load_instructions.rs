//! The 8-bit and 16-bit load, store and stack instructions.
use crate::bus::{backing_ram, lemma_backing_ram_read_write, read8, wf_view, write8, Bus, BusView};
use crate::cpu::{same_mode, spec_sign_extend8, sign_extend8, wrap_add16, wrap_sub16, Cpu};
use crate::helpers::{extract_dst_register, extract_dst_register_pair, extract_src_register};
use crate::registers::{
    compute_carry_flag_by_8_bit_addition, compute_half_carry_flag_by_8_bit_addition, flags_znhc,
    get_register_value_from_opcode_index, hi16, lo16, reg8, set_carry_flag, set_half_carry_flag,
    set_n_flag, set_register_pair_value_from_opcode_index, set_register_value_from_opcode_index,
    set_zero_flag, spec_set_reg8, spec_set_reg_pair, Register, Registers, OPCODE_REGISTER_A_INDEX,
    OPCODE_REGISTER_HL_INDEX,
};
use vstd::prelude::*;

verus! {

/// The register pair PUSH and POP name with a 2-bit index: BC, DE, HL or
/// AF (not SP, which the other pair family uses).
pub open spec fn push_pair(r: Registers, idx: u8) -> u16 {
    if idx == 0 {
        r.BC.0
    } else if idx == 1 {
        r.DE.0
    } else if idx == 2 {
        r.HL.0
    } else {
        r.AF.0
    }
}

impl Cpu {
    /// LD r,r' / LD (HL),r / LD r,(HL): move a byte between two named
    /// places. The opcode joining both memory forms is HALT, not a load.
    pub fn ld_8_bit(&mut self, bus: &mut Bus, opcode: u8)
        requires
            old(bus).wf(),
            !(opcode / 8 % 8 == 6 && opcode % 8 == 6),
        ensures
            final(bus).wf(),
            ({
                let dst = opcode / 8 % 8;
                let src = opcode % 8;
                &&& (dst == 6 ==> final(bus)@ == write8(
                    old(bus)@,
                    old(self).registers.HL.0,
                    reg8(old(self).registers, src),
                ) && final(self).registers == old(self).registers)
                &&& (dst != 6 && src == 6 ==> final(bus)@ == old(bus)@ && final(self).registers
                    == spec_set_reg8(
                    old(self).registers,
                    dst,
                    read8(old(bus)@, old(self).registers.HL.0),
                ))
                &&& (dst != 6 && src != 6 ==> final(bus)@ == old(bus)@ && final(self).registers
                    == spec_set_reg8(old(self).registers, dst, reg8(old(self).registers, src)))
                &&& same_mode(*old(self), *final(self))
            }),
    {
        let dst = extract_dst_register(opcode);
        let src = extract_src_register(opcode);
        if dst == OPCODE_REGISTER_HL_INDEX {
            let val = get_register_value_from_opcode_index(&self.registers, src);
            bus.write(self.registers.HL.as_u16(), val);
        } else if src == OPCODE_REGISTER_HL_INDEX {
            let val = bus.read(self.registers.HL.as_u16());
            set_register_value_from_opcode_index(&mut self.registers, dst, val);
        } else {
            let val = get_register_value_from_opcode_index(&self.registers, src);
            set_register_value_from_opcode_index(&mut self.registers, dst, val);
        }
    }

    /// LD r,d8 / LD (HL),d8: store an immediate in a named place.
    pub fn ld_immediate_into_register_8_bit(&mut self, bus: &mut Bus, opcode: u8, opcode_data: u8)
        requires
            old(bus).wf(),
        ensures
            final(bus).wf(),
            ({
                let dst = opcode / 8 % 8;
                &&& (dst == 6 ==> final(bus)@ == write8(
                    old(bus)@,
                    old(self).registers.HL.0,
                    opcode_data,
                ) && final(self).registers == old(self).registers)
                &&& (dst != 6 ==> final(bus)@ == old(bus)@ && final(self).registers
                    == spec_set_reg8(old(self).registers, dst, opcode_data))
                &&& same_mode(*old(self), *final(self))
            }),
    {
        let dst = extract_dst_register(opcode);
        if dst == OPCODE_REGISTER_HL_INDEX {
            bus.write(self.registers.HL.as_u16(), opcode_data);
        } else {
            set_register_value_from_opcode_index(&mut self.registers, dst, opcode_data);
        }
    }

    /// The LD family over register-pair addresses: store A at (BC), (DE)
    /// or (HL) with post-increment or post-decrement, or load A from
    /// there.
    pub fn ld_a_with_value_or_store_at_register_pair_address(&mut self, bus: &mut Bus, opcode: u8)
        requires
            old(bus).wf(),
        ensures
            final(bus).wf(),
            ({
                let dst = opcode / 8 % 8;
                let a = reg8(old(self).registers, 7);
                let r = old(self).registers;
                let hl_plus = Register((((r.HL.0 + 1) % 0x10000) as u16));
                let hl_minus = Register((((r.HL.0 + 0xFFFF) % 0x10000) as u16));
                &&& (dst == 0 ==> final(bus)@ == write8(old(bus)@, r.BC.0, a)
                    && final(self).registers == r)
                &&& (dst == 2 ==> final(bus)@ == write8(old(bus)@, r.DE.0, a)
                    && final(self).registers == r)
                &&& (dst == 4 ==> final(bus)@ == write8(old(bus)@, r.HL.0, a)
                    && final(self).registers == Registers { HL: hl_plus, ..r })
                &&& (dst == 6 ==> final(bus)@ == write8(old(bus)@, r.HL.0, a)
                    && final(self).registers == Registers { HL: hl_minus, ..r })
                &&& (dst == 1 ==> final(bus)@ == old(bus)@ && final(self).registers
                    == spec_set_reg8(r, 7, read8(old(bus)@, r.BC.0)))
                &&& (dst == 3 ==> final(bus)@ == old(bus)@ && final(self).registers
                    == spec_set_reg8(r, 7, read8(old(bus)@, r.DE.0)))
                &&& (dst == 5 ==> final(bus)@ == old(bus)@ && final(self).registers == Registers {
                    HL: hl_plus,
                    ..spec_set_reg8(r, 7, read8(old(bus)@, r.HL.0))
                })
                &&& (dst == 7 ==> final(bus)@ == old(bus)@ && final(self).registers == Registers {
                    HL: hl_minus,
                    ..spec_set_reg8(r, 7, read8(old(bus)@, r.HL.0))
                })
                &&& same_mode(*old(self), *final(self))
            }),
    {
        let dst = extract_dst_register(opcode);
        let a_register_value = get_register_value_from_opcode_index(
            &self.registers,
            OPCODE_REGISTER_A_INDEX,
        );
        if dst == 0 {
            bus.write(self.registers.BC.as_u16(), a_register_value);
        } else if dst == 2 {
            bus.write(self.registers.DE.as_u16(), a_register_value);
        } else if dst == 4 {
            bus.write(self.registers.HL.as_u16(), a_register_value);
            let hl = wrap_add16(self.registers.HL.as_u16(), 1);
            self.registers.HL = Register(hl);
        } else if dst == 6 {
            bus.write(self.registers.HL.as_u16(), a_register_value);
            let hl = wrap_sub16(self.registers.HL.as_u16(), 1);
            self.registers.HL = Register(hl);
        } else if dst == 1 {
            let val = bus.read(self.registers.BC.as_u16());
            self.registers.AF.set_high(val);
        } else if dst == 3 {
            let val = bus.read(self.registers.DE.as_u16());
            self.registers.AF.set_high(val);
        } else if dst == 5 {
            let val = bus.read(self.registers.HL.as_u16());
            self.registers.AF.set_high(val);
            let hl = wrap_add16(self.registers.HL.as_u16(), 1);
            self.registers.HL = Register(hl);
        } else {
            let val = bus.read(self.registers.HL.as_u16());
            self.registers.AF.set_high(val);
            let hl = wrap_sub16(self.registers.HL.as_u16(), 1);
            self.registers.HL = Register(hl);
        }
    }

    /// LD (a16),A: store A at an immediate address.
    pub fn ld_a_at_address(&mut self, bus: &mut Bus, _opcode: u8, opcode_data: u16)
        requires
            old(bus).wf(),
        ensures
            final(bus).wf(),
            final(bus)@ == write8(old(bus)@, opcode_data, reg8(old(self).registers, 7)),
            final(self).registers == old(self).registers,
            same_mode(*old(self), *final(self)),
    {
        bus.write(opcode_data, self.registers.AF.high());
    }

    /// LD A,(a16): load A from an immediate address.
    pub fn ld_data_at_address_to_a(&mut self, bus: &Bus, _opcode: u8, opcode_data: u16)
        requires
            bus.wf(),
        ensures
            final(self).registers == spec_set_reg8(old(self).registers, 7, read8(bus@, opcode_data)),
            same_mode(*old(self), *final(self)),
    {
        let val = bus.read(opcode_data);
        self.registers.AF.set_high(val);
    }

    /// LDH (C),A: store A in the high page at 0xFF00 + C.
    pub fn ldh_plus_c_register_from_a(&mut self, bus: &mut Bus, _opcode: u8)
        requires
            old(bus).wf(),
        ensures
            final(bus).wf(),
            final(bus)@ == write8(
                old(bus)@,
                (0xFF00 + lo16(old(self).registers.BC.0)) as u16,
                reg8(old(self).registers, 7),
            ),
            final(self).registers == old(self).registers,
            same_mode(*old(self), *final(self)),
    {
        let address = 0xFF00 + self.registers.BC.low() as u16;
        bus.write(address, self.registers.AF.high());
    }

    /// LDH A,(C): load A from the high page at 0xFF00 + C.
    pub fn ldh_plus_c_register_to_a(&mut self, bus: &mut Bus, _opcode: u8)
        requires
            old(bus).wf(),
        ensures
            final(bus)@ == old(bus)@,
            final(self).registers == spec_set_reg8(
                old(self).registers,
                7,
                read8(old(bus)@, (0xFF00 + lo16(old(self).registers.BC.0)) as u16),
            ),
            same_mode(*old(self), *final(self)),
    {
        let address = 0xFF00 + self.registers.BC.low() as u16;
        let val = bus.read(address);
        self.registers.AF.set_high(val);
    }

    /// LDH (a8),A: store A in the high page at 0xFF00 + a8.
    pub fn ldh_from_a(&mut self, bus: &mut Bus, _opcode: u8, opcode_data: u8)
        requires
            old(bus).wf(),
        ensures
            final(bus).wf(),
            final(bus)@ == write8(
                old(bus)@,
                (0xFF00 + opcode_data) as u16,
                reg8(old(self).registers, 7),
            ),
            final(self).registers == old(self).registers,
            same_mode(*old(self), *final(self)),
    {
        let address = 0xFF00 + opcode_data as u16;
        bus.write(address, self.registers.AF.high());
    }

    /// LDH A,(a8): load A from the high page at 0xFF00 + a8.
    pub fn ldh_to_a(&mut self, bus: &Bus, _opcode: u8, opcode_data: u8)
        requires
            bus.wf(),
        ensures
            final(self).registers == spec_set_reg8(
                old(self).registers,
                7,
                read8(bus@, (0xFF00 + opcode_data) as u16),
            ),
            same_mode(*old(self), *final(self)),
    {
        let address = 0xFF00 + opcode_data as u16;
        let val = bus.read(address);
        self.registers.AF.set_high(val);
    }

    /// LD SP,HL.
    pub fn ld_hl_into_sp(&mut self, _opcode: u8)
        ensures
            final(self).registers == (Registers {
                SP: old(self).registers.HL,
                ..old(self).registers
            }),
            same_mode(*old(self), *final(self)),
    {
        self.registers.SP = self.registers.HL;
    }

    /// LD (a16),SP: store SP little-endian at an immediate address.
    pub fn ld_sp_at_address(&mut self, bus: &mut Bus, _opcode: u8, opcode_data: u16)
        requires
            old(bus).wf(),
        ensures
            final(bus).wf(),
            final(bus)@ == write8(
                write8(old(bus)@, opcode_data, lo16(old(self).registers.SP.0)),
                ((opcode_data + 1) % 0x10000) as u16,
                hi16(old(self).registers.SP.0),
            ),
            final(self).registers == old(self).registers,
            same_mode(*old(self), *final(self)),
    {
        bus.write(opcode_data, self.registers.SP.low());
        let next = wrap_add16(opcode_data, 1);
        bus.write(next, self.registers.SP.high());
    }

    /// LD rr,d16: load an immediate into a register pair.
    pub fn ld_immediate_into_register_pair_16_bit(&mut self, opcode: u8, opcode_data: u16)
        ensures
            final(self).registers == spec_set_reg_pair(
                old(self).registers,
                opcode / 16 % 4,
                opcode_data,
            ),
            same_mode(*old(self), *final(self)),
    {
        let dst = extract_dst_register_pair(opcode);
        set_register_pair_value_from_opcode_index(&mut self.registers, dst, opcode_data);
    }

    /// LD HL,SP+e8: HL takes SP plus a signed immediate; H and C come
    /// from the unsigned addition over SP's low byte.
    pub fn ld_sp_plus_immediate_into_hl(&mut self, _opcode: u8, opcode_data: u8)
        ensures
            ({
                let sp = old(self).registers.SP.0;
                &&& final(self).registers.HL.0 == (sp + spec_sign_extend8(opcode_data)) % 0x10000
                &&& final(self).registers.BC == old(self).registers.BC
                &&& final(self).registers.DE == old(self).registers.DE
                &&& final(self).registers.PC == old(self).registers.PC
                &&& final(self).registers.SP == old(self).registers.SP
                &&& reg8(final(self).registers, 7) == reg8(old(self).registers, 7)
                &&& flags_znhc(
                    lo16(old(self).registers.AF.0),
                    lo16(final(self).registers.AF.0),
                    false,
                    false,
                    lo16(sp) % 16 + opcode_data % 16 > 0xF,
                    lo16(sp) + opcode_data > 0xFF,
                )
                &&& same_mode(*old(self), *final(self))
            }),
    {
        set_zero_flag(&mut self.registers, false);
        set_n_flag(&mut self.registers, false);
        let sp_low = self.registers.SP.low();
        let half_carry_flag = compute_half_carry_flag_by_8_bit_addition(sp_low, opcode_data, 0);
        let carry_flag = compute_carry_flag_by_8_bit_addition(sp_low, opcode_data, 0);
        set_half_carry_flag(&mut self.registers, half_carry_flag);
        set_carry_flag(&mut self.registers, carry_flag);
        let displacement = sign_extend8(opcode_data);
        let hl = wrap_add16(self.registers.SP.as_u16(), displacement);
        self.registers.HL = Register(hl);
    }

    /// PUSH rr: store the named pair high-then-low below SP; SP moves
    /// down by two, wrapping.
    pub fn push(&mut self, bus: &mut Bus, opcode: u8)
        requires
            old(bus).wf(),
        ensures
            final(bus).wf(),
            ({
                let sp = old(self).registers.SP.0;
                let value = push_pair(old(self).registers, opcode / 16 % 4);
                &&& final(bus)@ == write8(
                    write8(old(bus)@, ((sp + 0xFFFF) % 0x10000) as u16, hi16(value)),
                    ((sp + 0xFFFE) % 0x10000) as u16,
                    lo16(value),
                )
                &&& final(self).registers == Registers {
                    SP: Register((((sp + 0xFFFE) % 0x10000) as u16)),
                    ..old(self).registers
                }
                &&& same_mode(*old(self), *final(self))
            }),
    {
        let dst = extract_dst_register_pair(opcode);
        let high: u8;
        let low: u8;
        if dst == 0 {
            high = self.registers.BC.high();
            low = self.registers.BC.low();
        } else if dst == 1 {
            high = self.registers.DE.high();
            low = self.registers.DE.low();
        } else if dst == 2 {
            high = self.registers.HL.high();
            low = self.registers.HL.low();
        } else {
            high = self.registers.AF.high();
            low = self.registers.AF.low();
        }
        let above = wrap_sub16(self.registers.SP.as_u16(), 1);
        bus.write(above, high);
        let below = wrap_sub16(self.registers.SP.as_u16(), 2);
        bus.write(below, low);
        self.registers.SP = Register(below);
    }

    /// POP rr: load the named pair little-endian from SP; SP moves up by
    /// two, wrapping. POP AF clears the low nibble of F.
    pub fn pop(&mut self, bus: &Bus, opcode: u8)
        requires
            bus.wf(),
        ensures
            ({
                let sp = old(self).registers.SP.0;
                let dst = opcode / 16 % 4;
                let low = read8(bus@, sp);
                let high = read8(bus@, ((sp + 1) % 0x10000) as u16);
                let r = old(self).registers;
                let sp_after = Register((((sp + 2) % 0x10000) as u16));
                &&& (dst == 0 ==> final(self).registers == Registers {
                    BC: Register((high * 0x100 + low) as u16),
                    SP: sp_after,
                    ..r
                })
                &&& (dst == 1 ==> final(self).registers == Registers {
                    DE: Register((high * 0x100 + low) as u16),
                    SP: sp_after,
                    ..r
                })
                &&& (dst == 2 ==> final(self).registers == Registers {
                    HL: Register((high * 0x100 + low) as u16),
                    SP: sp_after,
                    ..r
                })
                &&& (dst == 3 ==> final(self).registers == Registers {
                    AF: Register((high * 0x100 + (low & 0xF0)) as u16),
                    SP: sp_after,
                    ..r
                } && lo16(final(self).registers.AF.0) & 0x0F == 0)
                &&& same_mode(*old(self), *final(self))
            }),
    {
        let dst = extract_dst_register_pair(opcode);
        let low_sp = bus.read(self.registers.SP.as_u16());
        let above = wrap_add16(self.registers.SP.as_u16(), 1);
        let high_sp = bus.read(above);
        if dst == 0 {
            self.registers.BC.set_high(high_sp);
            self.registers.BC.set_low(low_sp);
        } else if dst == 1 {
            self.registers.DE.set_high(high_sp);
            self.registers.DE.set_low(low_sp);
        } else if dst == 2 {
            self.registers.HL.set_high(high_sp);
            self.registers.HL.set_low(low_sp);
        } else {
            self.registers.AF.set_high(high_sp);
            self.registers.AF.set_low(low_sp & 0xF0);
        }
        let next = wrap_add16(self.registers.SP.as_u16(), 2);
        self.registers.SP = Register(next);
        proof {
            let lo = low_sp;
            assert((lo & 0xF0) & 0x0F == 0) by (bit_vector);
        }
    }
}

/// Law: pushing a register pair and popping it back restores the pair,
/// with the one caveat that POP AF clears the low nibble of F. Stated
/// over the bus and register transformations that PUSH's and POP's
/// contracts name, for stack cells in plain RAM; a stack pointed into the
/// echo region does not read back.
pub proof fn lemma_push_pop_round_trip(regs: Registers, v: BusView, idx: u8)
    requires
        idx <= 3,
        wf_view(v),
        backing_ram((((regs.SP.0 + 0xFFFF) % 0x10000) as u16)),
        backing_ram((((regs.SP.0 + 0xFFFE) % 0x10000) as u16)),
    ensures
        ({
            let sp = regs.SP.0;
            let value = push_pair(regs, idx);
            let cell_high = ((sp + 0xFFFF) % 0x10000) as u16;
            let cell_low = ((sp + 0xFFFE) % 0x10000) as u16;
            let pushed = write8(write8(v, cell_high, hi16(value)), cell_low, lo16(value));
            let sp_after = cell_low;
            let low = read8(pushed, sp_after);
            let high = read8(pushed, ((sp_after + 1) % 0x10000) as u16);
            &&& (idx != 3 ==> high * 0x100 + low == value)
            &&& (idx == 3 ==> high * 0x100 + (low & 0xF0) == value & 0xFFF0)
        }),
{
    let sp = regs.SP.0;
    let value = push_pair(regs, idx);
    let cell_high = ((sp + 0xFFFF) % 0x10000) as u16;
    let cell_low = ((sp + 0xFFFE) % 0x10000) as u16;
    assert(cell_high != cell_low);
    assert(((cell_low + 1) % 0x10000) as u16 == cell_high);
    lemma_backing_ram_read_write(write8(v, cell_high, hi16(value)), cell_low, lo16(value), cell_high);
    lemma_backing_ram_read_write(v, cell_high, hi16(value), cell_low);
    let pushed = write8(write8(v, cell_high, hi16(value)), cell_low, lo16(value));
    assert(read8(pushed, cell_low) == lo16(value));
    assert(read8(pushed, cell_high) == hi16(value));
    assert(hi16(value) * 0x100 + lo16(value) == value);
    let lo = lo16(value);
    let hi = hi16(value);
    assert((hi as u16) * 0x100 + ((lo as u16) & 0xF0) == (((hi as u16) * 0x100 + (lo as u16)) as u16)
        & 0xFFF0) by (bit_vector);
    assert((lo as u16) & 0xF0 == (lo & 0xF0) as u16) by (bit_vector);
}

} // verus!
