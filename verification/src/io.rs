//! Joypad input state. The host stores the currently held buttons here as
//! two 4-bit masks (1 = held); the bus derives the joypad register's low
//! nibble from whichever group its mode bits select.
use vstd::prelude::*;

verus! {

/// Address of the joypad register.
pub const P1_JOYPAD: u16 = 0xFF00;

// Bit positions within the directional group.
pub const DIRECTIONAL_RIGHT_BIT: u8 = 0;

pub const DIRECTIONAL_LEFT_BIT: u8 = 1;

pub const DIRECTIONAL_UP_BIT: u8 = 2;

pub const DIRECTIONAL_DOWN_BIT: u8 = 3;

// Bit positions within the action group.
pub const ACTION_A_BIT: u8 = 0;

pub const ACTION_B_BIT: u8 = 1;

pub const ACTION_SELECT_BIT: u8 = 2;

pub const ACTION_START_BIT: u8 = 3;

/// The button snapshot an external input collaborator maintains.
#[derive(Debug, Clone, Copy, Default)]
pub struct Io {
    /// Held directional buttons: right, left, up, down in bits 0..3.
    pub direction_buttons: u8,
    /// Held action buttons: A, B, select, start in bits 0..3.
    pub action_buttons: u8,
}

} // verus!
