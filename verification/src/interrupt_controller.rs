//! The interrupt controller: wakes a halted CPU on any enabled pending
//! interrupt, and vectors to the highest-priority one when the master
//! enable is on.
use crate::bus::{read8, write8, Bus, BusView};
use crate::cpu::{wrap_sub16, Cpu};
use crate::registers::{hi16, lo16, Register, Registers};
use vstd::prelude::*;

verus! {

/// Address of the interrupt-flag register (IF).
pub const INTERRUPTS_FLAG: u16 = 0xFF0F;

/// Address of the interrupt-enable register (IE).
pub const INTERRUPTS_ENABLED: u16 = 0xFFFF;

/// The five interrupt sources, in priority order, highest first.
#[derive(Debug, Clone, Copy, PartialEq, Eq, Structural)]
pub enum InterruptType {
    VBlank,
    Lcd,
    Timer,
    Serial,
    Joypad,
}

/// The priority index of an interrupt source: its position in IF and
/// IE, VBlank first.
pub open spec fn interrupt_index(t: InterruptType) -> u8 {
    match t {
        InterruptType::VBlank => 0,
        InterruptType::Lcd => 1,
        InterruptType::Timer => 2,
        InterruptType::Serial => 3,
        InterruptType::Joypad => 4,
    }
}

/// The handler address of an interrupt source.
pub fn interrupt_vector_address(t: InterruptType) -> (r: u16)
    ensures
        r == interrupt_vector(interrupt_index(t)),
{
    match t {
        InterruptType::VBlank => 0x40,
        InterruptType::Lcd => 0x48,
        InterruptType::Timer => 0x50,
        InterruptType::Serial => 0x58,
        InterruptType::Joypad => 0x60,
    }
}

/// The IF/IE bit of interrupt `i` (0 = VBlank .. 4 = Joypad).
pub open spec fn interrupt_bit(i: u8) -> u8 {
    if i == 0 {
        0x01
    } else if i == 1 {
        0x02
    } else if i == 2 {
        0x04
    } else if i == 3 {
        0x08
    } else {
        0x10
    }
}

/// The handler address of interrupt `i`: 0x40, 0x48, 0x50, 0x58, 0x60.
pub open spec fn interrupt_vector(i: u8) -> u16 {
    (0x40 + 8 * i) as u16
}

/// The interrupts both raised and enabled: `IE & IF` over the five valid
/// bits.
pub open spec fn pending_mask(v: BusView) -> u8 {
    read8(v, 0xFFFF) & read8(v, 0xFF0F) & 0x1F
}

/// The lowest set bit of a pending mask: the highest-priority pending
/// interrupt.
pub open spec fn highest_priority(p: u8) -> u8 {
    if p & 0x01 != 0 {
        0
    } else if p & 0x02 != 0 {
        1
    } else if p & 0x04 != 0 {
        2
    } else if p & 0x08 != 0 {
        3
    } else {
        4
    }
}

/// Machine cycles one dispatch pass charges: five when an interrupt is
/// vectored, nothing otherwise.
pub open spec fn interrupt_cycles(v: BusView, cpu: Cpu) -> usize {
    if cpu.ime && pending_mask(v) != 0 {
        5
    } else {
        0
    }
}

/// The bus after one dispatch pass: on a vectored interrupt the return
/// address is pushed and the served IF bit cleared, otherwise nothing.
pub open spec fn interrupt_stepped_bus(v: BusView, cpu: Cpu) -> BusView {
    if cpu.ime && pending_mask(v) != 0 {
        let i = highest_priority(pending_mask(v));
        let sp = cpu.registers.SP.0;
        let pc = cpu.registers.PC.0;
        write8(
            write8(
                write8(v, ((sp + 0xFFFF) % 0x10000) as u16, hi16(pc)),
                ((sp + 0xFFFE) % 0x10000) as u16,
                lo16(pc),
            ),
            0xFF0F,
            read8(v, 0xFF0F) & !interrupt_bit(i),
        )
    } else {
        v
    }
}

/// The CPU after one dispatch pass: woken by anything pending, and on a
/// vectored interrupt sent to the handler with the master enable down.
pub open spec fn interrupt_stepped_cpu(v: BusView, cpu: Cpu) -> Cpu {
    let woken = Cpu { is_halted: cpu.is_halted && pending_mask(v) == 0, ..cpu };
    if cpu.ime && pending_mask(v) != 0 {
        let i = highest_priority(pending_mask(v));
        let sp = cpu.registers.SP.0;
        Cpu {
            registers: (Registers {
                SP: Register((((sp + 0xFFFE) % 0x10000) as u16)),
                PC: Register(interrupt_vector(i)),
                ..cpu.registers
            }),
            ime: false,
            ..woken
        }
    } else {
        woken
    }
}

/// One dispatch pass. Any pending enabled interrupt wakes a halted CPU,
/// with or without the master enable. With the master enable on and an
/// interrupt pending, the CPU's PC is pushed onto the stack, PC jumps to
/// the vector, the IF bit is cleared, the master enable drops, and five
/// machine cycles are charged.
pub fn interrupt_controller_handle_interrupts(bus: &mut Bus, cpu: &mut Cpu) -> (m_cycles: usize)
    requires
        old(bus).wf(),
    ensures
        final(bus).wf(),
        final(bus)@ == interrupt_stepped_bus(old(bus)@, *old(cpu)),
        *final(cpu) == interrupt_stepped_cpu(old(bus)@, *old(cpu)),
        m_cycles == interrupt_cycles(old(bus)@, *old(cpu)),
        final(cpu).is_halted == (old(cpu).is_halted && pending_mask(old(bus)@) == 0),
        !(old(cpu).ime && pending_mask(old(bus)@) != 0) ==> m_cycles == 0 && final(bus)@ == old(
            bus,
        )@ && final(cpu).registers == old(cpu).registers && final(cpu).ime == old(cpu).ime,
        old(cpu).ime && pending_mask(old(bus)@) != 0 ==> m_cycles == 5 && ({
            let i = highest_priority(pending_mask(old(bus)@));
            let sp = old(cpu).registers.SP.0;
            let pc = old(cpu).registers.PC.0;
            &&& final(bus)@ == write8(
                write8(
                    write8(old(bus)@, ((sp + 0xFFFF) % 0x10000) as u16, hi16(pc)),
                    ((sp + 0xFFFE) % 0x10000) as u16,
                    lo16(pc),
                ),
                0xFF0F,
                read8(old(bus)@, 0xFF0F) & !interrupt_bit(i),
            )
            &&& final(cpu).registers == (Registers {
                SP: Register((((sp + 0xFFFE) % 0x10000) as u16)),
                PC: Register(interrupt_vector(i)),
                ..old(cpu).registers
            })
            &&& final(cpu).ime == false
        }),
{
    let interrupts_enabled = bus.read(INTERRUPTS_ENABLED);
    let interrupts_flag = bus.read(INTERRUPTS_FLAG);
    let pending = interrupts_enabled & interrupts_flag & 0x1F;

    // Any enabled raised interrupt wakes the CPU, vectored or not.
    if pending != 0 {
        cpu.is_halted = false;
    }
    if cpu.ime && pending != 0 {
        let bit: u8;
        let vector: u16;
        if pending & 0x01 != 0 {
            bit = 0x01;
            vector = 0x40;
        } else if pending & 0x02 != 0 {
            bit = 0x02;
            vector = 0x48;
        } else if pending & 0x04 != 0 {
            bit = 0x04;
            vector = 0x50;
        } else if pending & 0x08 != 0 {
            bit = 0x08;
            vector = 0x58;
        } else {
            bit = 0x10;
            vector = 0x60;
        }
        let above = wrap_sub16(cpu.registers.SP.as_u16(), 1);
        bus.write(above, cpu.registers.PC.high());
        let below = wrap_sub16(cpu.registers.SP.as_u16(), 2);
        bus.write(below, cpu.registers.PC.low());
        cpu.registers.SP = Register(below);
        cpu.registers.PC = Register(vector);
        bus.write(INTERRUPTS_FLAG, interrupts_flag & !bit);
        cpu.ime = false;
        5
    } else {
        0
    }
}

} // verus!
