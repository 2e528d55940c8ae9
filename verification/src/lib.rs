//! A verified emulation core for the original handheld Game Boy (DMG model):
//! CPU, memory bus, timer, pixel-processing unit, interrupt controller and
//! DMA unit, stepped in lockstep over a shared cycle budget.
use crate::bus::{read8, BusView};
use crate::cpu::{step_effect, Cpu};
use crate::interrupt_controller::{
    interrupt_cycles, interrupt_stepped_bus, interrupt_stepped_cpu,
};
use crate::ppu::{
    bg_line_byte, no_sprite_covers, ppu_next_cycles, ppu_next_ly, ppu_step_view, same_layer,
};
use crate::timer::{counter_acc_after, counter_stepped, divider_acc_after, divider_stepped};
use vstd::prelude::*;

pub mod arithmetic_instructions;
pub mod branch_instructions;
pub mod bus;
pub mod cpu;
pub mod dma;
pub mod helpers;
pub mod interrupt_controller;
pub mod io;
pub mod lcd;
pub mod load_instructions;
pub mod opcode_tables;
pub mod ppu;
pub mod registers;
pub mod rotate_shift_bit_instructions;
pub mod timer;

verus! {

/// Machine cycles per second, as limited by the memory bus.
pub const GAMEBOY_CPU_SPEED_WITH_MEMORY_BOTTLE_NECK: u32 = 1_048_576;

/// Clock cycles per second: four clock cycles to one machine cycle.
pub const GAMEBOY_CPU_SPEED: u32 = 4_194_304;

pub const GAMEBOY_SCREEN_WIDTH: u32 = 160;

pub const GAMEBOY_SCREEN_HEIGHT: u32 = 144;

/// Width and height of one tile, in pixels.
pub const TILE_SIZE: usize = 8;

/// The bus after the post-boot snapshot is applied: LY, DIV, TAC, IF,
/// IE, LCDC, STAT, the DMA register and the joypad register take their
/// boot values, in the order the writes happen; the DIV byte is stored
/// directly so the write path does not reset it.
pub open spec fn startup_bus(v: crate::bus::BusView) -> crate::bus::BusView {
    let v1 = crate::bus::write8(v, 0xFF44, 0x90);
    let v2 = crate::bus::BusView { io_ram: v1.io_ram.update(4, 0x18), ..v1 };
    let v3 = crate::bus::write8(v2, 0xFF07, 0xF8);
    let v4 = crate::bus::write8(v3, 0xFF0F, 0xE1);
    let v5 = crate::bus::write8(v4, 0xFFFF, 0x00);
    let v6 = crate::bus::write8(v5, 0xFF44, 0x91);
    let v7 = crate::bus::write8(v6, 0xFF40, 0x91);
    let v8 = crate::bus::write8(v7, 0xFF41, 0x81);
    let v9 = crate::bus::write8(v8, 0xFF40, 0x91);
    let v10 = crate::bus::write8(v9, 0xFF46, 0xFF);
    crate::bus::write8(v10, 0xFF00, 0xCF)
}

/// The CPU's part of one orchestrator iteration: an idle cycle while
/// halted, otherwise one whole instruction as `step_effect` fixes it.
pub open spec fn cpu_stage(pre: Cpu, v: BusView, post: Cpu, postv: BusView, m: usize) -> bool {
    if pre.is_halted {
        post == pre && postv == v && m == 1
    } else {
        step_effect(pre, v, post, postv, m) && 1 <= m <= 6
    }
}

/// One whole orchestrator iteration, as spec section by section: the CPU
/// instruction's effect, the 160-cycle DMA charge when the one-shot flag
/// came up, the interrupt dispatch on that state, then the PPU and the
/// timer advanced by the consumed machine cycles; the running counters
/// saturate instead of wrapping.
pub open spec fn gameboy_step_effect(pre: GameBoy, post: GameBoy) -> bool {
    exists|cpu1: Cpu, v1: BusView, m1: usize|
        #[trigger] cpu_stage(pre.cpu, pre.bus@, cpu1, v1, m1) && ({
            let v1c = BusView { dma_transfer_requested: false, ..v1 };
            let delta = m1 + (if v1.dma_transfer_requested {
                160int
            } else {
                0int
            }) + interrupt_cycles(v1c, cpu1);
            let v2 = interrupt_stepped_bus(v1c, cpu1);
            let cpu2 = interrupt_stepped_cpu(v1c, cpu1);
            let pcyc: int = if pre.ppu.cycles + delta <= usize::MAX {
                pre.ppu.cycles + delta
            } else {
                usize::MAX as int
            };
            let v3 = ppu_step_view(v2, pcyc);
            let dd = pre.timer.divider_delta as int;
            let cd = pre.timer.counter_delta as int;
            &&& post.cpu == cpu2
            &&& post.bus@ == counter_stepped(divider_stepped(v3, dd, delta), cd, delta)
            &&& post.ppu.cycles == ppu_next_cycles(v2, pcyc)
            &&& post.timer.divider_delta == divider_acc_after(dd, delta)
            &&& post.timer.counter_delta == counter_acc_after(
                divider_stepped(v3, dd, delta),
                cd,
                delta,
            )
            &&& post.current_cycle == (if pre.current_cycle + delta <= usize::MAX {
                pre.current_cycle + delta
            } else {
                usize::MAX as int
            })
            &&& same_layer(pre.ppu.tiles, post.ppu.tiles)
            &&& same_layer(pre.ppu.background_tile_map_1, post.ppu.background_tile_map_1)
            &&& same_layer(pre.ppu.background_tile_map_2, post.ppu.background_tile_map_2)
            &&& same_layer(pre.ppu.oam_map, post.ppu.oam_map)
            &&& post.ppu.screen.width == pre.ppu.screen.width
            &&& post.ppu.screen.height == pre.ppu.screen.height
            &&& post.ppu.screen.desired_tiles_per_row == pre.ppu.screen.desired_tiles_per_row
            &&& post.ppu.screen.data@.len() == pre.ppu.screen.data@.len()
            &&& ({
                let renders = read8(v2, 0xFF40) & 0x80 != 0 && pcyc >= 1824 && ppu_next_ly(
                    v2,
                    pcyc,
                ) < 144;
                let new_ly = ppu_next_ly(v2, pcyc);
                let line = new_ly as int;
                &&& (!renders ==> post.ppu.screen.data@ == pre.ppu.screen.data@)
                &&& (renders ==> (forall|i: int|
                    0 <= i < pre.ppu.screen.data@.len() && !(line * 640 <= i < line * 640 + 640)
                        ==> #[trigger] post.ppu.screen.data@[i] == pre.ppu.screen.data@[i]))
                &&& (renders ==> (forall|i: int|
                    line * 640 <= i < line * 640 + 640 && no_sprite_covers(
                        v2,
                        new_ly,
                        (i - line * 640) / 4,
                    ) ==> #[trigger] post.ppu.screen.data@[i] == bg_line_byte(
                        v2,
                        new_ly,
                        i - line * 640,
                    )))
            })
        })
}

/// The whole machine: CPU, PPU, timer and bus, advanced in lockstep by
/// one orchestrator.
pub struct GameBoy {
    pub cpu: crate::cpu::Cpu,
    pub ppu: crate::ppu::Ppu,
    pub timer: crate::timer::Timer,
    pub bus: crate::bus::Bus,
    pub current_cycle: usize,
}

impl GameBoy {
    /// The bus regions, layers and timer accumulators are all in shape.
    pub open spec fn wf(&self) -> bool {
        &&& self.bus.wf()
        &&& self.ppu.wf()
        &&& self.timer.wf()
    }

    /// Copy a 32 KiB cartridge image into the ROM region.
    pub fn install_rom(&mut self, rom: &[u8])
        requires
            old(self).wf(),
            rom@.len() >= 0x8000,
        ensures
            final(self).wf(),
            final(self).bus@ == (crate::bus::BusView {
                rom: rom@.subrange(0, 0x8000),
                ..old(self).bus@
            }),
            final(self).cpu == old(self).cpu,
            final(self).ppu == old(self).ppu,
            final(self).timer == old(self).timer,
            final(self).current_cycle == old(self).current_cycle,
    {
        let mut address: usize = 0;
        while address < 32 * crate::bus::KILOBYTE
            invariant
                old(self).wf(),
                rom@.len() >= 0x8000,
                address <= 0x8000,
                self.bus.wf(),
                self.bus@.rom.len() == 0x8000,
                forall|j: int| 0 <= j < address ==> self.bus@.rom[j] == rom@[j],
                forall|j: int|
                    address <= j < 0x8000 ==> self.bus@.rom[j] == old(self).bus@.rom[j],
                self.bus@ == (crate::bus::BusView { rom: self.bus@.rom, ..old(self).bus@ }),
                self.cpu == old(self).cpu,
                self.ppu == old(self).ppu,
                self.timer == old(self).timer,
                self.current_cycle == old(self).current_cycle,
            decreases 32 * crate::bus::KILOBYTE - address,
        {
            self.bus.write(address as u16, rom[address]);
            address = address + 1;
        }
        proof {
            assert(self.bus@.rom =~= rom@.subrange(0, 0x8000));
            assert(self.bus@ =~= (crate::bus::BusView {
                rom: rom@.subrange(0, 0x8000),
                ..old(self).bus@
            }));
        }
    }

    /// Apply the post-boot snapshot: the registers and MMIO bytes a real
    /// device leaves behind after its boot ROM.
    pub fn configure_startup_values(&mut self)
        requires
            old(self).wf(),
        ensures
            final(self).wf(),
            final(self).cpu.registers.AF.0 == 0x01B0,
            final(self).cpu.registers.BC.0 == 0x0013,
            final(self).cpu.registers.DE.0 == 0x00D8,
            final(self).cpu.registers.HL.0 == 0x014D,
            final(self).cpu.registers.SP.0 == 0xFFFE,
            final(self).cpu.registers.PC.0 == 0x0100,
            final(self).cpu.ime == old(self).cpu.ime,
            final(self).cpu.is_halted == old(self).cpu.is_halted,
            final(self).bus@ == startup_bus(old(self).bus@),
            final(self).ppu == old(self).ppu,
            final(self).timer == old(self).timer,
            final(self).current_cycle == old(self).current_cycle,
    {
        self.cpu.registers.AF = crate::registers::Register(0x01B0);
        self.cpu.registers.BC = crate::registers::Register(0x0013);
        self.cpu.registers.DE = crate::registers::Register(0x00D8);
        self.cpu.registers.HL = crate::registers::Register(0x014D);
        self.cpu.registers.SP = crate::registers::Register(0xFFFE);
        self.cpu.registers.PC = crate::registers::Register(0x0100);
        self.bus.write(0xFF44, 0x90);
        self.bus.memory.io_ram.set(4, 0x18);
        self.bus.write(0xFF07, 0xF8);
        self.bus.write(0xFF0F, 0xE1);
        self.bus.write(0xFFFF, 0x00);
        self.bus.write(0xFF44, 0x91);
        self.bus.write(0xFF40, 0x91);
        self.bus.write(0xFF41, 0x81);
        self.bus.write(0xFF40, 0x91);
        self.bus.write(0xFF46, 0xFF);
        self.bus.write(0xFF00, 0xCF);
        proof {
            assert(self.bus@ =~= startup_bus(old(self).bus@));
        }
    }

    /// One orchestrator iteration: one CPU instruction, the DMA charge
    /// if a transfer fired, interrupt dispatch, then the PPU and timer
    /// advanced by the cycles consumed. The running cycle counters
    /// saturate instead of wrapping.
    #[verifier::rlimit(100)]
    pub fn step(&mut self)
        requires
            old(self).wf(),
        ensures
            final(self).wf(),
            // The whole iteration is the five-stage composition.
            gameboy_step_effect(*old(self), *final(self)),
            // Time moves: at least one machine cycle and at most the
            // worst case of an instruction, a DMA charge and a dispatch,
            // short of saturation.
            final(self).current_cycle >= old(self).current_cycle + 1 || final(self).current_cycle
                == usize::MAX,
            final(self).current_cycle <= old(self).current_cycle + 171 || final(self).current_cycle
                == usize::MAX,
            // A halted CPU with nothing pending idles: its registers and
            // switches hold still while PPU and timer run on.
            old(self).cpu.is_halted && crate::interrupt_controller::pending_mask(old(self).bus@)
                == 0 ==> final(self).cpu == old(self).cpu,
    {
        let cpu_cycles = self.cpu.step(&mut self.bus);
        let ghost cpu1 = self.cpu;
        let ghost v1 = self.bus@;
        let ghost m1 = cpu_cycles;
        let mut m_cycles_delta: usize = cpu_cycles;

        // Account for how long a DMA transfer takes.
        if self.bus.dma_transfer_requested {
            self.bus.dma_transfer_requested = false;
            m_cycles_delta = m_cycles_delta + 160;
        }
        let ghost v1c = self.bus@;
        proof {
            assert(v1c =~= (BusView { dma_transfer_requested: false, ..v1 }));
        }
        let interrupt_cycles = crate::interrupt_controller::interrupt_controller_handle_interrupts(
            &mut self.bus,
            &mut self.cpu,
        );
        m_cycles_delta = m_cycles_delta + interrupt_cycles;

        if self.current_cycle <= usize::MAX - m_cycles_delta {
            self.current_cycle = self.current_cycle + m_cycles_delta;
        } else {
            self.current_cycle = usize::MAX;
        }
        if self.ppu.cycles <= usize::MAX - m_cycles_delta {
            self.ppu.cycles = self.ppu.cycles + m_cycles_delta;
        } else {
            self.ppu.cycles = usize::MAX;
        }
        self.ppu.step(&mut self.bus);
        self.timer.step(&mut self.bus, m_cycles_delta);
        proof {
            assert(cpu_stage(old(self).cpu, old(self).bus@, cpu1, v1, m1));
        }
    }
}

} // verus!
