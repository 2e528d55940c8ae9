//! The memory bus: dispatches reads and writes over the address space,
//! applies the memory-mapped I/O side effects, and holds every RAM region.
//!
//! The mathematical model is `BusView`, a record of byte sequences, and the
//! two spec functions `read8` and `write8`; the executable `Bus::read` and
//! `Bus::write` are proved to match them exactly.
use crate::io::Io;
use vstd::prelude::*;

verus! {

pub const KILOBYTE: usize = 1024;

/// Address of the interrupt-flag register (IF).
pub const INTERRUPTS_FLAG: u16 = 0xFF0F;

/// All RAM regions, each a vector of fixed length.
pub struct Memory {
    pub rom: Vec<u8>,
    pub video_ram: Vec<u8>,
    pub external_ram: Vec<u8>,
    pub work_ram: Vec<u8>,
    pub oam_ram: Vec<u8>,
    pub io_ram: Vec<u8>,
    pub high_ram: Vec<u8>,
}

/// The bus state as contracts speak of it: every region as a byte
/// sequence, the one-shot DMA flag, the debug serial log and the currently
/// held buttons.
#[verifier::ext_equal]
pub ghost struct BusView {
    pub rom: Seq<u8>,
    pub video_ram: Seq<u8>,
    pub external_ram: Seq<u8>,
    pub work_ram: Seq<u8>,
    pub oam_ram: Seq<u8>,
    pub io_ram: Seq<u8>,
    pub high_ram: Seq<u8>,
    pub dma_transfer_requested: bool,
    pub debug_output: Seq<u8>,
    pub direction_buttons: u8,
    pub action_buttons: u8,
}

/// Every region has its architectural size.
pub open spec fn wf_view(v: BusView) -> bool {
    &&& v.rom.len() == 0x8000
    &&& v.video_ram.len() == 0x2000
    &&& v.external_ram.len() == 0x2000
    &&& v.work_ram.len() == 0x2000
    &&& v.oam_ram.len() == 160
    &&& v.io_ram.len() == 256
    &&& v.high_ram.len() == 128
}

/// The joypad register's read-back: the stored byte with the low nibble
/// derived from the selected button group. Selection bits are active-low
/// and a held button reads as 0.
pub open spec fn joypad_read(p1: u8, direction: u8, action: u8) -> u8 {
    if p1 & 0x10 == 0 {
        p1 | (!direction & 0x0F)
    } else if p1 & 0x20 == 0 {
        p1 | (!action & 0x0F)
    } else {
        p1 | 0x0F
    }
}

/// The byte a read of `addr` returns.
pub open spec fn read8(v: BusView, addr: u16) -> u8 {
    if addr == 0xFF00 {
        joypad_read(v.io_ram[0], v.direction_buttons, v.action_buttons)
    } else if addr < 0x8000 {
        v.rom[addr as int]
    } else if addr < 0xA000 {
        v.video_ram[addr - 0x8000]
    } else if addr < 0xC000 {
        v.external_ram[addr - 0xA000]
    } else if addr < 0xE000 {
        v.work_ram[addr - 0xC000]
    } else if addr < 0xFE00 {
        0  // echo of work RAM: reads return 0
    } else if addr < 0xFEA0 {
        v.oam_ram[addr - 0xFE00]
    } else if addr < 0xFF00 {
        0  // unusable range
    } else if addr == 0xFF0F {
        v.io_ram[0x0F] | 0xE0  // upper three bits of IF always read as 1
    } else if addr < 0xFF80 {
        v.io_ram[addr - 0xFF00]
    } else {
        v.high_ram[addr - 0xFF80]
    }
}

/// The 160 bytes a DMA transfer triggered by writing `data` to the DMA
/// register copies into OAM: a snapshot of `data * 0x100 .. + 160`.
pub open spec fn dma_source_bytes(v: BusView, data: u8) -> Seq<u8> {
    Seq::new(160, |i: int| read8(v, (data * 0x100 + i) as u16))
}

/// The bus state after a write of `data` to `addr`.
pub open spec fn write8(v: BusView, addr: u16, data: u8) -> BusView {
    if addr == 0xFF46 {
        // DMA trigger: raise the one-shot flag, copy into OAM, then store.
        BusView {
            dma_transfer_requested: true,
            oam_ram: dma_source_bytes(v, data),
            io_ram: v.io_ram.update(0x46, data),
            ..v
        }
    } else if addr < 0x8000 {
        BusView { rom: v.rom.update(addr as int, data), ..v }
    } else if addr < 0xA000 {
        BusView { video_ram: v.video_ram.update(addr - 0x8000, data), ..v }
    } else if addr < 0xC000 {
        BusView { external_ram: v.external_ram.update(addr - 0xA000, data), ..v }
    } else if addr < 0xE000 {
        BusView { work_ram: v.work_ram.update(addr - 0xC000, data), ..v }
    } else if addr < 0xFE00 {
        v  // echo: ignored
    } else if addr < 0xFEA0 {
        BusView { oam_ram: v.oam_ram.update(addr - 0xFE00, data), ..v }
    } else if addr < 0xFF00 {
        v  // unusable: ignored
    } else if addr == 0xFF00 {
        // The low nibble of the joypad register is read-only.
        BusView { io_ram: v.io_ram.update(0, data & 0xF0), ..v }
    } else if addr == 0xFF04 {
        // Any write resets DIV.
        BusView { io_ram: v.io_ram.update(4, 0), ..v }
    } else if addr == 0xFF02 && data == 0x81 {
        // Serial control 0x81: log the serial-data byte.
        BusView {
            debug_output: v.debug_output.push(v.io_ram[1]),
            io_ram: v.io_ram.update(2, data),
            ..v
        }
    } else if addr < 0xFF80 {
        BusView { io_ram: v.io_ram.update(addr - 0xFF00, data), ..v }
    } else {
        BusView { high_ram: v.high_ram.update(addr - 0xFF80, data), ..v }
    }
}

pub struct Bus {
    pub memory: Memory,
    pub dma_transfer_requested: bool,
    pub blargg_debug_output: Vec<u8>,
    /// Button snapshot, written by the host between steps.
    pub io: Io,
}

impl View for Bus {
    type V = BusView;

    open spec fn view(&self) -> BusView {
        BusView {
            rom: self.memory.rom@,
            video_ram: self.memory.video_ram@,
            external_ram: self.memory.external_ram@,
            work_ram: self.memory.work_ram@,
            oam_ram: self.memory.oam_ram@,
            io_ram: self.memory.io_ram@,
            high_ram: self.memory.high_ram@,
            dma_transfer_requested: self.dma_transfer_requested,
            debug_output: self.blargg_debug_output@,
            direction_buttons: self.io.direction_buttons,
            action_buttons: self.io.action_buttons,
        }
    }
}

/// A vector of `len` zero bytes.
fn zeroed(len: usize) -> (v: Vec<u8>)
    ensures
        v@.len() == len,
        forall|i: int| 0 <= i < len ==> v@[i] == 0,
{
    let mut v: Vec<u8> = Vec::new();
    while v.len() < len
        invariant
            v@.len() <= len,
            forall|i: int| 0 <= i < v@.len() ==> v@[i] == 0,
        decreases len - v@.len(),
    {
        v.push(0);
    }
    v
}

impl Memory {
    pub fn new() -> (m: Memory)
        ensures
            m.rom@.len() == 0x8000,
            m.video_ram@.len() == 0x2000,
            m.external_ram@.len() == 0x2000,
            m.work_ram@.len() == 0x2000,
            m.oam_ram@.len() == 160,
            m.io_ram@.len() == 256,
            m.high_ram@.len() == 128,
            forall|i: int| 0 <= i < 0x8000 ==> m.rom@[i] == 0,
            forall|i: int| 0 <= i < 0x2000 ==> m.video_ram@[i] == 0,
            forall|i: int| 0 <= i < 0x2000 ==> m.external_ram@[i] == 0,
            forall|i: int| 0 <= i < 0x2000 ==> m.work_ram@[i] == 0,
            forall|i: int| 0 <= i < 160 ==> m.oam_ram@[i] == 0,
            forall|i: int| 0 <= i < 256 ==> m.io_ram@[i] == 0,
            forall|i: int| 0 <= i < 128 ==> m.high_ram@[i] == 0,
    {
        Memory {
            rom: zeroed(32 * KILOBYTE),
            video_ram: zeroed(8 * KILOBYTE),
            external_ram: zeroed(8 * KILOBYTE),
            work_ram: zeroed(8 * KILOBYTE),
            oam_ram: zeroed(160),
            io_ram: zeroed(256),
            high_ram: zeroed(128),
        }
    }
}

impl Bus {
    /// Every region has its architectural size.
    pub open spec fn wf(&self) -> bool {
        wf_view(self@)
    }

    pub fn new() -> (bus: Bus)
        ensures
            bus.wf(),
            bus@.dma_transfer_requested == false,
            bus@.debug_output.len() == 0,
            bus@.direction_buttons == 0,
            bus@.action_buttons == 0,
            forall|a: u16| a != 0xFF00 && a != 0xFF0F ==> #[trigger] read8(bus@, a) == 0,
            read8(bus@, 0xFF00) == 0x0F,
            read8(bus@, 0xFF0F) == 0xE0,
            forall|i: int| 0 <= i < 256 ==> bus@.io_ram[i] == 0,
    {
        let bus = Bus {
            memory: Memory::new(),
            dma_transfer_requested: false,
            blargg_debug_output: Vec::new(),
            io: Io { direction_buttons: 0, action_buttons: 0 },
        };
        proof {
            assert(0u8 | 0xE0 == 0xE0 && 0u8 & 0x10 == 0 && (!0u8) & 0x0F == 0x0F && 0u8 | 0x0F
                == 0x0F) by (bit_vector);
        }
        bus
    }

    pub fn read(&self, address: u16) -> (r: u8)
        requires
            self.wf(),
        ensures
            r == read8(self@, address),
    {
        if address == 0xFF00 {
            let p1 = self.memory.io_ram[0];
            if p1 & 0x10 == 0 {
                p1 | (!self.io.direction_buttons & 0x0F)
            } else if p1 & 0x20 == 0 {
                p1 | (!self.io.action_buttons & 0x0F)
            } else {
                p1 | 0x0F
            }
        } else if address < 0x8000 {
            self.memory.rom[address as usize]
        } else if address < 0xA000 {
            self.memory.video_ram[(address - 0x8000) as usize]
        } else if address < 0xC000 {
            self.memory.external_ram[(address - 0xA000) as usize]
        } else if address < 0xE000 {
            self.memory.work_ram[(address - 0xC000) as usize]
        } else if address < 0xFE00 {
            0
        } else if address < 0xFEA0 {
            self.memory.oam_ram[(address - 0xFE00) as usize]
        } else if address < 0xFF00 {
            0
        } else if address == 0xFF0F {
            self.memory.io_ram[0x0F] | 0xE0
        } else if address < 0xFF80 {
            self.memory.io_ram[(address - 0xFF00) as usize]
        } else {
            self.memory.high_ram[(address - 0xFF80) as usize]
        }
    }

    pub fn write(&mut self, address: u16, data: u8)
        requires
            old(self).wf(),
        ensures
            final(self).wf(),
            final(self)@ == write8(old(self)@, address, data),
    {
        if address == 0xFF46 {
            self.dma_transfer_requested = true;
            crate::dma::dma(self, address, data);
            self.memory.io_ram.set(0x46, data);
            proof {
                assert(dma_source_bytes(
                    BusView { dma_transfer_requested: true, ..old(self)@ },
                    data,
                ) =~= dma_source_bytes(old(self)@, data));
                assert(self@ =~= write8(old(self)@, address, data));
            }
            return ;
        }
        if address < 0x8000 {
            self.memory.rom.set(address as usize, data);
        } else if address < 0xA000 {
            self.memory.video_ram.set((address - 0x8000) as usize, data);
        } else if address < 0xC000 {
            self.memory.external_ram.set((address - 0xA000) as usize, data);
        } else if address < 0xE000 {
            self.memory.work_ram.set((address - 0xC000) as usize, data);
        } else if address < 0xFE00 {
            // echo of work RAM: writes are ignored
        } else if address < 0xFEA0 {
            self.memory.oam_ram.set((address - 0xFE00) as usize, data);
        } else if address < 0xFF00 {
            // unusable range: writes are ignored
        } else if address == 0xFF00 {
            self.memory.io_ram.set(0, data & 0xF0);
        } else if address == 0xFF04 {
            self.memory.io_ram.set(4, 0);
        } else if address == 0xFF02 && data == 0x81 {
            let serial_data = self.memory.io_ram[1];
            self.blargg_debug_output.push(serial_data);
            self.memory.io_ram.set(2, data);
        } else if address < 0xFF80 {
            self.memory.io_ram.set((address - 0xFF00) as usize, data);
        } else {
            self.memory.high_ram.set((address - 0xFF80) as usize, data);
        }
        proof {
            assert(self@ =~= write8(old(self)@, address, data));
        }
    }
}

/// Addresses whose cell is backed by plain RAM: a write there lands in the
/// cell unchanged, a read returns it, and no other cell moves.
pub open spec fn backing_ram(a: u16) -> bool {
    0x8000 <= a < 0xE000 || 0xFE00 <= a < 0xFEA0 || 0xFF80 <= a
}

/// Reading back a plain-RAM cell after writing it yields the written byte,
/// and a write to one plain-RAM cell leaves every other address's
/// read-back unchanged.
pub proof fn lemma_backing_ram_read_write(v: BusView, a: u16, d: u8, other: u16)
    requires
        wf_view(v),
        backing_ram(a),
    ensures
        read8(write8(v, a, d), a) == d,
        other != a ==> read8(write8(v, a, d), other) == read8(v, other),
{
}

/// The interrupt-flag register reads back with its upper three bits forced
/// to 1: after any write of `b` to it, a read returns `b | 0xE0`.
pub proof fn lemma_interrupt_flag_read_back(v: BusView, b: u8)
    requires
        wf_view(v),
    ensures
        read8(write8(v, 0xFF0F, b), 0xFF0F) == b | 0xE0,
{
}

/// Writing any value to the DIV register resets it: a read immediately
/// afterwards returns 0.
pub proof fn lemma_div_write_resets(v: BusView, b: u8)
    requires
        wf_view(v),
    ensures
        read8(write8(v, 0xFF04, b), 0xFF04) == 0,
{
}

/// The low nibble read back from the joypad register depends only on the
/// input state and on bits 4..5 of the written byte.
pub proof fn lemma_joypad_low_nibble(v1: BusView, v2: BusView, b1: u8, b2: u8)
    requires
        wf_view(v1),
        wf_view(v2),
        v1.direction_buttons == v2.direction_buttons,
        v1.action_buttons == v2.action_buttons,
        b1 & 0x30 == b2 & 0x30,
    ensures
        read8(write8(v1, 0xFF00, b1), 0xFF00) & 0x0F == read8(write8(v2, 0xFF00, b2), 0xFF00)
            & 0x0F,
{
    let d = v1.direction_buttons;
    let a = v1.action_buttons;
    assert(joypad_read(b1 & 0xF0, d, a) & 0x0F == joypad_read(b2 & 0xF0, d, a) & 0x0F)
        by (bit_vector)
        requires
            b1 & 0x30 == b2 & 0x30,
    ;
}

/// A read from the echo region returns 0, whatever work RAM holds.
pub proof fn lemma_echo_reads_zero(v: BusView, a: u16)
    requires
        0xE000 <= a < 0xFE00,
    ensures
        read8(v, a) == 0,
{
}

} // verus!
