//! Jumps, relative jumps, calls, returns and restarts.
use crate::bus::{backing_ram, lemma_backing_ram_read_write, read8, wf_view, write8, Bus, BusView};
use crate::cpu::{same_mode, spec_sign_extend8, sign_extend8, wrap_add16, wrap_sub16, Cpu};
use crate::helpers::extract_bits_5_4_3;
use crate::registers::{
    carry_flag, hi16, is_carry_flag_set, is_zero_flag_set, lo16, zero_flag, Register, Registers,
};
use vstd::prelude::*;

verus! {

/// The four branch conditions an opcode's bits 4..3 select.
#[derive(Debug, Clone, Copy, PartialEq, Eq, Structural)]
pub enum ConditionCode {
    NotZero,
    Zero,
    NotCarry,
    Carry,
}

/// Whether the condition that `condition` names holds of the flag byte.
pub open spec fn spec_is_condition_true(f: u8, condition: ConditionCode) -> bool {
    match condition {
        ConditionCode::NotZero => !zero_flag(f),
        ConditionCode::Zero => zero_flag(f),
        ConditionCode::NotCarry => !carry_flag(f),
        ConditionCode::Carry => carry_flag(f),
    }
}

/// The condition a conditional jump, call or return tests: bits 4..3 of
/// the opcode.
pub open spec fn spec_condition(opcode: u8) -> ConditionCode {
    let cc = opcode / 8 % 4;
    if cc == 0 {
        ConditionCode::NotZero
    } else if cc == 1 {
        ConditionCode::Zero
    } else if cc == 2 {
        ConditionCode::NotCarry
    } else {
        ConditionCode::Carry
    }
}

/// Whether a conditional instruction with this opcode branches under
/// this flag byte.
pub open spec fn condition_holds(opcode: u8, f: u8) -> bool {
    spec_is_condition_true(f, spec_condition(opcode))
}

pub fn is_condition_true(registers: &Registers, condition: ConditionCode) -> (r: bool)
    ensures
        r == spec_is_condition_true(lo16(registers.AF.0), condition),
{
    match condition {
        ConditionCode::NotZero => !is_zero_flag_set(registers),
        ConditionCode::Zero => is_zero_flag_set(registers),
        ConditionCode::NotCarry => !is_carry_flag_set(registers),
        ConditionCode::Carry => is_carry_flag_set(registers),
    }
}

pub fn extract_condition(opcode: u8) -> (r: ConditionCode)
    ensures
        r == spec_condition(opcode),
{
    let cc = extract_bits_5_4_3(opcode) % 4;
    if cc == 0 {
        ConditionCode::NotZero
    } else if cc == 1 {
        ConditionCode::Zero
    } else if cc == 2 {
        ConditionCode::NotCarry
    } else {
        ConditionCode::Carry
    }
}

impl Cpu {
    /// JP HL.
    pub fn jp_to_hl(&mut self, _opcode: u8)
        ensures
            final(self).registers == (Registers {
                PC: old(self).registers.HL,
                ..old(self).registers
            }),
            same_mode(*old(self), *final(self)),
    {
        self.registers.PC = self.registers.HL;
    }

    /// JP a16.
    pub fn jp_to_address(&mut self, _opcode: u8, opcode_data: u16)
        ensures
            final(self).registers == (Registers {
                PC: Register(opcode_data),
                ..old(self).registers
            }),
            same_mode(*old(self), *final(self)),
    {
        self.registers.PC = Register(opcode_data);
    }

    /// JP cc,a16: jump when the named condition holds.
    pub fn jp_to_address_conditionally(&mut self, opcode: u8, opcode_data: u16)
        ensures
            condition_holds(opcode, lo16(old(self).registers.AF.0)) ==> final(self).registers
                == (Registers { PC: Register(opcode_data), ..old(self).registers }),
            !condition_holds(opcode, lo16(old(self).registers.AF.0)) ==> final(self).registers
                == old(self).registers,
            same_mode(*old(self), *final(self)),
    {
        let condition = extract_condition(opcode);
        if is_condition_true(&self.registers, condition) {
            self.registers.PC = Register(opcode_data);
        }
    }

    /// JP HL, under the name the dispatch uses for opcode 0xE9.
    pub fn jp_to_address_at_hl(&mut self)
        ensures
            final(self).registers == (Registers {
                PC: old(self).registers.HL,
                ..old(self).registers
            }),
            same_mode(*old(self), *final(self)),
    {
        self.registers.PC = self.registers.HL;
    }

    /// JR e8: jump relative to the current program counter.
    pub fn jr_to_relative_u8_address(&mut self, _opcode: u8, opcode_data: u8)
        ensures
            final(self).registers == (Registers {
                PC: Register(
                    (((old(self).registers.PC.0 + spec_sign_extend8(opcode_data)) % 0x10000) as u16),
                ),
                ..old(self).registers
            }),
            same_mode(*old(self), *final(self)),
    {
        let displacement = sign_extend8(opcode_data);
        let target = wrap_add16(self.registers.PC.as_u16(), displacement);
        self.registers.PC = Register(target);
    }

    /// JR cc,e8: relative jump when the named condition holds.
    pub fn jr_to_relative_u8_address_on_condition(&mut self, opcode: u8, opcode_data: u8)
        ensures
            condition_holds(opcode, lo16(old(self).registers.AF.0)) ==> final(self).registers
                == (Registers {
                PC: Register(
                    (((old(self).registers.PC.0 + spec_sign_extend8(opcode_data)) % 0x10000) as u16),
                ),
                ..old(self).registers
            }),
            !condition_holds(opcode, lo16(old(self).registers.AF.0)) ==> final(self).registers
                == old(self).registers,
            same_mode(*old(self), *final(self)),
    {
        let condition = extract_condition(opcode);
        if is_condition_true(&self.registers, condition) {
            let displacement = sign_extend8(opcode_data);
            let target = wrap_add16(self.registers.PC.as_u16(), displacement);
            self.registers.PC = Register(target);
        }
    }

    /// CALL a16: push the return address high-then-low below SP, then
    /// jump.
    pub fn call_address(&mut self, bus: &mut Bus, _opcode: u8, opcode_data: u16)
        requires
            old(bus).wf(),
        ensures
            final(bus).wf(),
            ({
                let sp = old(self).registers.SP.0;
                let pc = old(self).registers.PC.0;
                &&& final(bus)@ == write8(
                    write8(old(bus)@, ((sp + 0xFFFF) % 0x10000) as u16, hi16(pc)),
                    ((sp + 0xFFFE) % 0x10000) as u16,
                    lo16(pc),
                )
                &&& final(self).registers == (Registers {
                    SP: Register((((sp + 0xFFFE) % 0x10000) as u16)),
                    PC: Register(opcode_data),
                    ..old(self).registers
                })
                &&& same_mode(*old(self), *final(self))
            }),
    {
        let above = wrap_sub16(self.registers.SP.as_u16(), 1);
        bus.write(above, self.registers.PC.high());
        let below = wrap_sub16(self.registers.SP.as_u16(), 2);
        bus.write(below, self.registers.PC.low());
        self.registers.SP = Register(below);
        self.registers.PC = Register(opcode_data);
    }

    /// CALL cc,a16: call when the named condition holds.
    pub fn call_address_on_condition(&mut self, bus: &mut Bus, opcode: u8, opcode_data: u16)
        requires
            old(bus).wf(),
        ensures
            final(bus).wf(),
            ({
                let sp = old(self).registers.SP.0;
                let pc = old(self).registers.PC.0;
                let taken = condition_holds(opcode, lo16(old(self).registers.AF.0));
                &&& (taken ==> final(bus)@ == write8(
                    write8(old(bus)@, ((sp + 0xFFFF) % 0x10000) as u16, hi16(pc)),
                    ((sp + 0xFFFE) % 0x10000) as u16,
                    lo16(pc),
                ) && final(self).registers == (Registers {
                    SP: Register((((sp + 0xFFFE) % 0x10000) as u16)),
                    PC: Register(opcode_data),
                    ..old(self).registers
                }))
                &&& (!taken ==> final(bus)@ == old(bus)@ && final(self).registers == old(
                    self,
                ).registers)
                &&& same_mode(*old(self), *final(self))
            }),
    {
        let condition = extract_condition(opcode);
        if is_condition_true(&self.registers, condition) {
            let above = wrap_sub16(self.registers.SP.as_u16(), 1);
            bus.write(above, self.registers.PC.high());
            let below = wrap_sub16(self.registers.SP.as_u16(), 2);
            bus.write(below, self.registers.PC.low());
            self.registers.SP = Register(below);
            self.registers.PC = Register(opcode_data);
        }
    }

    /// RET: pop the return address into PC.
    pub fn ret(&mut self, bus: &Bus, _opcode: u8)
        requires
            bus.wf(),
        ensures
            ({
                let sp = old(self).registers.SP.0;
                let low = read8(bus@, sp);
                let high = read8(bus@, ((sp + 1) % 0x10000) as u16);
                final(self).registers == (Registers {
                    PC: Register((high * 0x100 + low) as u16),
                    SP: Register((((sp + 2) % 0x10000) as u16)),
                    ..old(self).registers
                })
            }),
            same_mode(*old(self), *final(self)),
    {
        let low = bus.read(self.registers.SP.as_u16());
        self.registers.PC.set_low(low);
        let above = wrap_add16(self.registers.SP.as_u16(), 1);
        let high = bus.read(above);
        self.registers.PC.set_high(high);
        let next = wrap_add16(self.registers.SP.as_u16(), 2);
        self.registers.SP = Register(next);
    }

    /// RETI: RET that also sets the interrupt master enable.
    pub fn reti(&mut self, bus: &Bus, _opcode: u8)
        requires
            bus.wf(),
        ensures
            ({
                let sp = old(self).registers.SP.0;
                let low = read8(bus@, sp);
                let high = read8(bus@, ((sp + 1) % 0x10000) as u16);
                final(self).registers == (Registers {
                    PC: Register((high * 0x100 + low) as u16),
                    SP: Register((((sp + 2) % 0x10000) as u16)),
                    ..old(self).registers
                })
            }),
            final(self).ime == true,
            final(self).is_halted == old(self).is_halted,
    {
        let low = bus.read(self.registers.SP.as_u16());
        self.registers.PC.set_low(low);
        let above = wrap_add16(self.registers.SP.as_u16(), 1);
        let high = bus.read(above);
        self.registers.PC.set_high(high);
        let next = wrap_add16(self.registers.SP.as_u16(), 2);
        self.registers.SP = Register(next);
        self.ime = true;
    }

    /// RET cc: return when the named condition holds.
    pub fn ret_on_condition(&mut self, bus: &Bus, opcode: u8)
        requires
            bus.wf(),
        ensures
            ({
                let sp = old(self).registers.SP.0;
                let low = read8(bus@, sp);
                let high = read8(bus@, ((sp + 1) % 0x10000) as u16);
                let taken = condition_holds(opcode, lo16(old(self).registers.AF.0));
                &&& (taken ==> final(self).registers == (Registers {
                    PC: Register((high * 0x100 + low) as u16),
                    SP: Register((((sp + 2) % 0x10000) as u16)),
                    ..old(self).registers
                }))
                &&& (!taken ==> final(self).registers == old(self).registers)
                &&& same_mode(*old(self), *final(self))
            }),
    {
        let condition = extract_condition(opcode);
        if is_condition_true(&self.registers, condition) {
            let low = bus.read(self.registers.SP.as_u16());
            self.registers.PC.set_low(low);
            let above = wrap_add16(self.registers.SP.as_u16(), 1);
            let high = bus.read(above);
            self.registers.PC.set_high(high);
            let next = wrap_add16(self.registers.SP.as_u16(), 2);
            self.registers.SP = Register(next);
        }
    }

    /// RST t: push the return address and jump to one of the eight
    /// restart vectors, eight bytes apart.
    pub fn rst(&mut self, bus: &mut Bus, opcode: u8)
        requires
            old(bus).wf(),
        ensures
            final(bus).wf(),
            ({
                let sp = old(self).registers.SP.0;
                let pc = old(self).registers.PC.0;
                &&& final(bus)@ == write8(
                    write8(old(bus)@, ((sp + 0xFFFF) % 0x10000) as u16, hi16(pc)),
                    ((sp + 0xFFFE) % 0x10000) as u16,
                    lo16(pc),
                )
                &&& final(self).registers == (Registers {
                    SP: Register((((sp + 0xFFFE) % 0x10000) as u16)),
                    PC: Register(((opcode / 8 % 8) * 8) as u16),
                    ..old(self).registers
                })
                &&& same_mode(*old(self), *final(self))
            }),
    {
        let t = extract_bits_5_4_3(opcode);
        let p = t * 8;
        let above = wrap_sub16(self.registers.SP.as_u16(), 1);
        bus.write(above, self.registers.PC.high());
        let below = wrap_sub16(self.registers.SP.as_u16(), 2);
        bus.write(below, self.registers.PC.low());
        self.registers.SP = Register(below);
        self.registers.PC = Register(p as u16);
    }
}

/// Law: CALL then RET comes back. After the bus and register
/// transformation CALL's contract names, the transformation RET's
/// contract names restores PC to the address the CALL saved and SP to
/// its old value, for stack cells in plain RAM.
pub proof fn lemma_call_ret_round_trip(regs: Registers, v: BusView, target: u16)
    requires
        wf_view(v),
        backing_ram((((regs.SP.0 + 0xFFFF) % 0x10000) as u16)),
        backing_ram((((regs.SP.0 + 0xFFFE) % 0x10000) as u16)),
    ensures
        ({
            let sp = regs.SP.0;
            let pc = regs.PC.0;
            let cell_high = ((sp + 0xFFFF) % 0x10000) as u16;
            let cell_low = ((sp + 0xFFFE) % 0x10000) as u16;
            let called = write8(write8(v, cell_high, hi16(pc)), cell_low, lo16(pc));
            let sp_after = cell_low;
            let low = read8(called, sp_after);
            let high = read8(called, ((sp_after + 1) % 0x10000) as u16);
            &&& high * 0x100 + low == pc
            &&& (sp_after + 2) % 0x10000 == sp
        }),
{
    let sp = regs.SP.0;
    let pc = regs.PC.0;
    let cell_high = ((sp + 0xFFFF) % 0x10000) as u16;
    let cell_low = ((sp + 0xFFFE) % 0x10000) as u16;
    assert(cell_high != cell_low);
    assert(((cell_low + 1) % 0x10000) as u16 == cell_high);
    lemma_backing_ram_read_write(write8(v, cell_high, hi16(pc)), cell_low, lo16(pc), cell_high);
    lemma_backing_ram_read_write(v, cell_high, hi16(pc), cell_low);
    assert(hi16(pc) * 0x100 + lo16(pc) == pc);
}

} // verus!
