//! The LCD control and status registers: named bits of LCDC, and a typed
//! wrapper over the STAT byte.
use vstd::prelude::*;

verus! {

/// Address of the LCDC register (LCD control).
pub const LCDC: u16 = 0xFF40;

/// Address of the LY register (current scanline).
pub const LY: u16 = 0xFF44;

/// Address of the LYC register (scanline compare target).
pub const LYC: u16 = 0xFF45;

/// Address of the STAT register (LCD status).
pub const STAT: u16 = 0xFF41;

/// The named bits of the LCDC register, bit 0 first.
#[derive(Debug, Clone, Copy, PartialEq, Eq, Structural)]
pub enum LcdControlOption {
    BgWindowDisplayPriority,
    ObjDisplayEnable,
    ObjSize,
    BgTileMapDisplaySelect,
    BgWindowTileDataSelect,
    WindowDisplayEnable,
    WindowTileMapDisplaySelect,
    LcdDisplayEnable,
}

/// The LCDC bit mask of a named control option.
pub open spec fn lcd_control_mask(option: LcdControlOption) -> u8 {
    match option {
        LcdControlOption::BgWindowDisplayPriority => 0x01,
        LcdControlOption::ObjDisplayEnable => 0x02,
        LcdControlOption::ObjSize => 0x04,
        LcdControlOption::BgTileMapDisplaySelect => 0x08,
        LcdControlOption::BgWindowTileDataSelect => 0x10,
        LcdControlOption::WindowDisplayEnable => 0x20,
        LcdControlOption::WindowTileMapDisplaySelect => 0x40,
        LcdControlOption::LcdDisplayEnable => 0x80,
    }
}

/// Whether a named LCDC option is on in a control byte.
pub fn lcd_control_contains(lcdc: u8, option: LcdControlOption) -> (r: bool)
    ensures
        r == (lcdc & lcd_control_mask(option) != 0),
{
    match option {
        LcdControlOption::BgWindowDisplayPriority => lcdc & 0x01 != 0,
        LcdControlOption::ObjDisplayEnable => lcdc & 0x02 != 0,
        LcdControlOption::ObjSize => lcdc & 0x04 != 0,
        LcdControlOption::BgTileMapDisplaySelect => lcdc & 0x08 != 0,
        LcdControlOption::BgWindowTileDataSelect => lcdc & 0x10 != 0,
        LcdControlOption::WindowDisplayEnable => lcdc & 0x20 != 0,
        LcdControlOption::WindowTileMapDisplaySelect => lcdc & 0x40 != 0,
        LcdControlOption::LcdDisplayEnable => lcdc & 0x80 != 0,
    }
}

/// The PPU mode held in STAT's low two bits.
#[derive(Debug, Clone, Copy, PartialEq, Eq, Structural)]
pub enum Mode {
    HBlank,
    VBlank,
    SearchingOam,
    DataTransferToLcd,
}

/// The two-bit encoding of a mode: 0 to 3 in declaration order.
pub open spec fn mode_bits(m: Mode) -> u8 {
    match m {
        Mode::HBlank => 0,
        Mode::VBlank => 1,
        Mode::SearchingOam => 2,
        Mode::DataTransferToLcd => 3,
    }
}

/// The mode a two-bit encoding names.
pub open spec fn spec_mode_from_bits(value: u8) -> Mode {
    if value % 4 == 0 {
        Mode::HBlank
    } else if value % 4 == 1 {
        Mode::VBlank
    } else if value % 4 == 2 {
        Mode::SearchingOam
    } else {
        Mode::DataTransferToLcd
    }
}

/// A bit of a status byte set or cleared.
pub open spec fn stat_with_bit(s: u8, mask: u8, value: bool) -> u8 {
    if value {
        s | mask
    } else {
        s & !mask
    }
}

/// A status byte with its mode field replaced.
pub open spec fn stat_with_mode(s: u8, m: Mode) -> u8 {
    (s / 4 * 4 + mode_bits(m)) as u8
}

/// The STAT register as a typed value.
pub struct LcdStatusRegister(pub u8);

impl LcdStatusRegister {
    pub fn mode(&self) -> (r: Mode)
        ensures
            r == spec_mode_from_bits(self.0),
    {
        let bits = self.0 % 4;
        if bits == 0 {
            Mode::HBlank
        } else if bits == 1 {
            Mode::VBlank
        } else if bits == 2 {
            Mode::SearchingOam
        } else {
            Mode::DataTransferToLcd
        }
    }

    pub fn lcy_ly_equality_read_only(&self) -> (r: bool)
        ensures
            r == (self.0 & 0x04 != 0),
    {
        self.0 & 0x04 != 0
    }

    pub fn h_blank_interrupt(&self) -> (r: bool)
        ensures
            r == (self.0 & 0x08 != 0),
    {
        self.0 & 0x08 != 0
    }

    pub fn v_blank_interrupt(&self) -> (r: bool)
        ensures
            r == (self.0 & 0x10 != 0),
    {
        self.0 & 0x10 != 0
    }

    pub fn oam_interrupt(&self) -> (r: bool)
        ensures
            r == (self.0 & 0x20 != 0),
    {
        self.0 & 0x20 != 0
    }

    pub fn lcy_ly_equality(&self) -> (r: bool)
        ensures
            r == (self.0 & 0x40 != 0),
    {
        self.0 & 0x40 != 0
    }

    pub fn set_mode(&mut self, mode: Mode)
        ensures
            final(self).0 == stat_with_mode(old(self).0, mode),
    {
        let bits: u8 = match mode {
            Mode::HBlank => 0,
            Mode::VBlank => 1,
            Mode::SearchingOam => 2,
            Mode::DataTransferToLcd => 3,
        };
        self.0 = self.0 / 4 * 4 + bits;
    }

    pub fn set_lcy_ly_equality_read_only(&mut self, val: bool)
        ensures
            final(self).0 == stat_with_bit(old(self).0, 0x04, val),
    {
        if val {
            self.0 = self.0 | 0x04;
        } else {
            self.0 = self.0 & !0x04;
        }
    }

    pub fn set_h_blank_interrupt(&mut self, val: bool)
        ensures
            final(self).0 == stat_with_bit(old(self).0, 0x08, val),
    {
        if val {
            self.0 = self.0 | 0x08;
        } else {
            self.0 = self.0 & !0x08;
        }
    }

    pub fn set_v_blank_interrupt(&mut self, val: bool)
        ensures
            final(self).0 == stat_with_bit(old(self).0, 0x10, val),
    {
        if val {
            self.0 = self.0 | 0x10;
        } else {
            self.0 = self.0 & !0x10;
        }
    }

    pub fn set_oam_interrupt(&mut self, val: bool)
        ensures
            final(self).0 == stat_with_bit(old(self).0, 0x20, val),
    {
        if val {
            self.0 = self.0 | 0x20;
        } else {
            self.0 = self.0 & !0x20;
        }
    }

    pub fn set_lcy_ly_equality(&mut self, val: bool)
        ensures
            final(self).0 == stat_with_bit(old(self).0, 0x40, val),
    {
        if val {
            self.0 = self.0 | 0x40;
        } else {
            self.0 = self.0 & !0x40;
        }
    }
}

} // verus!
