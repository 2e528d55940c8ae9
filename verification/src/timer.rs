//! The timer: DIV advances every 64 machine cycles, and TIMA advances at
//! the frequency TAC selects, reloading from TMA and raising the Timer
//! interrupt on overflow.
use crate::bus::{read8, wf_view, write8, Bus, BusView};
use vstd::prelude::*;

verus! {

/// Address of the DIV register.
pub const DIV: u16 = 0xFF04;

/// Address of the TIMA register (the timer counter).
pub const TIMA: u16 = 0xFF05;

/// Address of the TMA register (the timer modulo).
pub const TMA: u16 = 0xFF06;

/// Address of the TAC register (the timer control).
pub const TAC: u16 = 0xFF07;

pub const CLOCK_0: i64 = 4096;

pub const CLOCK_1: i64 = 262144;

pub const CLOCK_2: i64 = 65536;

pub const CLOCK_3: i64 = 16384;

/// The counting frequency, in Hz, that TAC's low two bits select.
pub open spec fn spec_clock_frequency(tac: u8) -> i64 {
    if tac % 4 == 0 {
        4096
    } else if tac % 4 == 1 {
        262144
    } else if tac % 4 == 2 {
        65536
    } else {
        16384
    }
}

/// Machine cycles between two TIMA increments: the machine clock over
/// the selected frequency.
pub open spec fn spec_timer_period(tac: u8) -> int {
    1_048_576int / spec_clock_frequency(tac) as int
}

/// Whether TAC's bit 2 lets TIMA count at all.
pub open spec fn spec_counter_running(v: BusView) -> bool {
    read8(v, 0xFF07) & 0x04 != 0
}

/// The divider accumulator after a step of `delta` machine cycles.
pub open spec fn divider_acc_after(acc: int, delta: int) -> int {
    if acc + delta >= 64 {
        0
    } else {
        acc + delta
    }
}

/// The bus after the divider part of a step: DIV's stored byte advances
/// by one, wrapping, each time 64 machine cycles have accumulated. The
/// store bypasses the bus write path, which would reset DIV.
pub open spec fn divider_stepped(v: BusView, acc: int, delta: int) -> BusView {
    if acc + delta >= 64 {
        BusView { io_ram: v.io_ram.update(4, ((v.io_ram[4] + 1) % 0x100) as u8), ..v }
    } else {
        v
    }
}

/// The bus after one TIMA increment: on overflow TIMA reloads from TMA
/// and the Timer interrupt is raised, otherwise TIMA just advances.
pub open spec fn counter_fired(v: BusView) -> BusView {
    let tima = read8(v, 0xFF05);
    if tima == 0xFF {
        let reloaded = write8(v, 0xFF05, read8(v, 0xFF06));
        write8(reloaded, 0xFF0F, read8(reloaded, 0xFF0F) | 0x04)
    } else {
        write8(v, 0xFF05, (tima + 1) as u8)
    }
}

/// The counter accumulator after a step of `delta` machine cycles.
pub open spec fn counter_acc_after(v: BusView, acc: int, delta: int) -> int {
    if !spec_counter_running(v) {
        0
    } else if acc + delta >= spec_timer_period(read8(v, 0xFF07)) {
        0
    } else {
        acc + delta
    }
}

/// The bus after the counter part of a step.
pub open spec fn counter_stepped(v: BusView, acc: int, delta: int) -> BusView {
    if !spec_counter_running(v) {
        v
    } else if acc + delta >= spec_timer_period(read8(v, 0xFF07)) {
        counter_fired(v)
    } else {
        v
    }
}

/// Both cycle accumulators of the timer.
pub struct Timer {
    pub counter_delta: usize,
    pub divider_delta: usize,
}

impl Timer {
    /// Both accumulators rest below their largest periods.
    pub open spec fn wf(&self) -> bool {
        self.divider_delta < 64 && self.counter_delta < 256
    }

    /// Advance the timer by `m_cycles_delta` machine cycles: first the
    /// divider, then the counter.
    pub fn step(&mut self, bus: &mut Bus, m_cycles_delta: usize)
        requires
            old(bus).wf(),
            old(self).wf(),
            m_cycles_delta <= 100_000,
        ensures
            final(bus).wf(),
            final(self).wf(),
            final(bus)@ == counter_stepped(
                divider_stepped(old(bus)@, old(self).divider_delta as int, m_cycles_delta as int),
                old(self).counter_delta as int,
                m_cycles_delta as int,
            ),
            final(self).divider_delta == divider_acc_after(
                old(self).divider_delta as int,
                m_cycles_delta as int,
            ),
            final(self).counter_delta == counter_acc_after(
                divider_stepped(old(bus)@, old(self).divider_delta as int, m_cycles_delta as int),
                old(self).counter_delta as int,
                m_cycles_delta as int,
            ),
    {
        self.divider_step(bus, m_cycles_delta);
        self.counter_step(bus, m_cycles_delta);
    }

    fn divider_step(&mut self, bus: &mut Bus, m_cycles_delta: usize)
        requires
            old(bus).wf(),
            old(self).divider_delta < 64,
            m_cycles_delta <= 100_000,
        ensures
            final(bus).wf(),
            final(bus)@ == divider_stepped(
                old(bus)@,
                old(self).divider_delta as int,
                m_cycles_delta as int,
            ),
            final(self).divider_delta == divider_acc_after(
                old(self).divider_delta as int,
                m_cycles_delta as int,
            ),
            final(self).divider_delta < 64,
            final(self).counter_delta == old(self).counter_delta,
    {
        self.divider_delta = self.divider_delta + m_cycles_delta;
        if self.divider_delta >= 64 {
            self.divider_delta = 0;
            let div = bus.memory.io_ram[4];
            let incremented = ((div as u16 + 1) % 0x100) as u8;
            bus.memory.io_ram.set(4, incremented);
            proof {
                assert(bus@ =~= divider_stepped(
                    old(bus)@,
                    old(self).divider_delta as int,
                    m_cycles_delta as int,
                ));
            }
        }
    }

    fn counter_step(&mut self, bus: &mut Bus, m_cycles_delta: usize)
        requires
            old(bus).wf(),
            old(self).counter_delta < 256,
            m_cycles_delta <= 100_000,
        ensures
            final(bus).wf(),
            final(bus)@ == counter_stepped(
                old(bus)@,
                old(self).counter_delta as int,
                m_cycles_delta as int,
            ),
            final(self).counter_delta == counter_acc_after(
                old(bus)@,
                old(self).counter_delta as int,
                m_cycles_delta as int,
            ),
            final(self).counter_delta < 256,
            final(self).divider_delta == old(self).divider_delta,
    {
        if !self.counter_is_running(bus) {
            self.counter_delta = 0;
            return ;
        }
        self.counter_delta = self.counter_delta + m_cycles_delta;
        let frequency = self.get_clock_frequency(bus);
        let increment_on_n_m_cycles = (crate::GAMEBOY_CPU_SPEED_WITH_MEMORY_BOTTLE_NECK / (
        frequency as u32)) as usize;
        proof {
            assert(frequency == 4096 || frequency == 262144 || frequency == 65536 || frequency
                == 16384);
            assert(1_048_576u32 / 4096u32 == 256 && 1_048_576u32 / 262144u32 == 4 && 1_048_576u32
                / 65536u32 == 16 && 1_048_576u32 / 16384u32 == 64) by (nonlinear_arith);
            assert(increment_on_n_m_cycles == spec_timer_period(read8(old(bus)@, 0xFF07)));
            assert(increment_on_n_m_cycles <= 256);
        }
        if self.counter_delta >= increment_on_n_m_cycles {
            self.counter_delta = 0;
            let timer_counter_data = bus.read(TIMA);
            if timer_counter_data == 0xFF {
                // On overflow, TIMA reloads from TMA.
                let modulo = bus.read(TMA);
                bus.write(TIMA, modulo);
                // Raise the Timer interrupt.
                let interrupts_flag = bus.read(crate::bus::INTERRUPTS_FLAG);
                bus.write(crate::bus::INTERRUPTS_FLAG, interrupts_flag | 0x04);
            } else {
                bus.write(TIMA, timer_counter_data + 1);
            }
        }
    }

    /// The counting frequency TAC currently selects.
    pub fn get_clock_frequency(&mut self, bus: &mut Bus) -> (r: i64)
        requires
            old(bus).wf(),
        ensures
            final(bus)@ == old(bus)@,
            *final(self) == *old(self),
            r == spec_clock_frequency(read8(old(bus)@, 0xFF07)),
    {
        let clock_frequency = bus.read(TAC) % 4;
        if clock_frequency == 0 {
            CLOCK_0
        } else if clock_frequency == 1 {
            CLOCK_1
        } else if clock_frequency == 2 {
            CLOCK_2
        } else {
            CLOCK_3
        }
    }

    /// Whether TAC's bit 2 lets TIMA count.
    pub fn counter_is_running(&mut self, bus: &mut Bus) -> (r: bool)
        requires
            old(bus).wf(),
        ensures
            final(bus)@ == old(bus)@,
            *final(self) == *old(self),
            r == spec_counter_running(old(bus)@),
    {
        let timer_control_data = bus.read(TAC);
        timer_control_data & 0x04 != 0
    }
}


/// Law: DIV advances by one, wrapping, exactly when 64 machine cycles
/// have accumulated — 16384 times a second against the machine clock —
/// and holds still otherwise.
pub proof fn lemma_div_increment_rate(v: BusView, acc: int, delta: int)
    requires
        wf_view(v),
    ensures
        acc + delta >= 64 ==> read8(divider_stepped(v, acc, delta), 0xFF04) == (read8(v, 0xFF04)
            + 1) % 0x100,
        acc + delta < 64 ==> read8(divider_stepped(v, acc, delta), 0xFF04) == read8(v, 0xFF04),
{
}

/// Law: a TIMA overflow reloads TIMA from TMA and raises the Timer
/// interrupt exactly once; an increment that does not overflow, or a
/// step below the period, leaves the Timer flag bit as it was.
pub proof fn lemma_one_timer_interrupt_per_overflow(v: BusView, acc: int, delta: int)
    requires
        wf_view(v),
    ensures
        ({
            let stepped = counter_stepped(v, acc, delta);
            let fired = spec_counter_running(v) && acc + delta >= spec_timer_period(
                read8(v, 0xFF07),
            );
            let overflow = fired && read8(v, 0xFF05) == 0xFF;
            &&& (overflow ==> read8(stepped, 0xFF0F) & 0x04 == 0x04 && read8(stepped, 0xFF05)
                == read8(v, 0xFF06))
            &&& (!overflow ==> read8(stepped, 0xFF0F) & 0x04 == read8(v, 0xFF0F) & 0x04)
        }),
{
    let iff0 = read8(v, 0xFF0F);
    assert(((iff0 | 0x04) | 0xE0) & 0x04 == 0x04) by (bit_vector);
}

} // verus!
