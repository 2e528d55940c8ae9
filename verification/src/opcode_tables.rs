//! Per-opcode decode tables: total instruction byte length, and machine
//! cycles consumed with and without a taken branch.
use vstd::prelude::*;

verus! {

/// Total byte length of the instruction starting with `op`: 1, 2 or 3.
/// The prefix byte 0xCB counts as 1 here; the prefixed page fetches its
/// second byte itself.
pub open spec fn spec_opcode_length(op: u8) -> u8 {
    if op == 0x01 || op == 0x08 || op == 0x11 || op == 0x21 || op == 0x31 || op == 0xC2 || op
        == 0xC3 || op == 0xC4 || op == 0xCA || op == 0xCC || op == 0xCD || op == 0xD2 || op == 0xD4
        || op == 0xDA || op == 0xDC || op == 0xEA || op == 0xFA {
        3
    } else if op == 0x06 || op == 0x0E || op == 0x16 || op == 0x1E || op == 0x26 || op == 0x2E
        || op == 0x36 || op == 0x3E || op == 0x18 || op == 0x20 || op == 0x28 || op == 0x30 || op
        == 0x38 || op == 0xC6 || op == 0xCE || op == 0xD6 || op == 0xDE || op == 0xE0 || op == 0xE6
        || op == 0xE8 || op == 0xEE || op == 0xF0 || op == 0xF6 || op == 0xF8 || op == 0xFE {
        2
    } else {
        1
    }
}

pub fn opcode_length(op: u8) -> (r: u8)
    ensures
        r == spec_opcode_length(op),
        1 <= r <= 3,
{
    if op == 0x01 || op == 0x08 || op == 0x11 || op == 0x21 || op == 0x31 || op == 0xC2 || op
        == 0xC3 || op == 0xC4 || op == 0xCA || op == 0xCC || op == 0xCD || op == 0xD2 || op == 0xD4
        || op == 0xDA || op == 0xDC || op == 0xEA || op == 0xFA {
        3
    } else if op == 0x06 || op == 0x0E || op == 0x16 || op == 0x1E || op == 0x26 || op == 0x2E
        || op == 0x36 || op == 0x3E || op == 0x18 || op == 0x20 || op == 0x28 || op == 0x30 || op
        == 0x38 || op == 0xC6 || op == 0xCE || op == 0xD6 || op == 0xDE || op == 0xE0 || op == 0xE6
        || op == 0xE8 || op == 0xEE || op == 0xF0 || op == 0xF6 || op == 0xF8 || op == 0xFE {
        2
    } else {
        1
    }
}

/// Machine cycles consumed by `op` when it did not branch (for
/// conditional control transfers: the condition failed).
pub open spec fn spec_opcode_m_cycles_no_branch(op: u8) -> u8 {
    if 0x40 <= op && op <= 0xBF {
        // Register-to-register loads and the arithmetic families: one
        // cycle, plus one for a memory operand at HL; HALT is one cycle.
        if op == 0x76 {
            1
        } else if op % 8 == 6 || (0x70 <= op && op <= 0x77) {
            2
        } else {
            1
        }
    } else if op == 0x08 {
        5
    } else if op == 0x01 || op == 0x11 || op == 0x21 || op == 0x31 || op == 0x18 || op == 0x34
        || op == 0x35 || op == 0x36 {
        3
    } else if op == 0x00 || op == 0x04 || op == 0x05 || op == 0x07 || op == 0x0C || op == 0x0D
        || op == 0x0F || op == 0x10 || op == 0x14 || op == 0x15 || op == 0x17 || op == 0x1C || op
        == 0x1D || op == 0x1F || op == 0x24 || op == 0x25 || op == 0x27 || op == 0x2C || op == 0x2D
        || op == 0x2F || op == 0x37 || op == 0x3C || op == 0x3D || op == 0x3F {
        1
    } else if op <= 0x3F {
        2
    } else if op == 0xCD {
        6
    } else if op == 0xC3 || op == 0xC5 || op == 0xC7 || op == 0xC9 || op == 0xCF || op == 0xD5
        || op == 0xD7 || op == 0xD9 || op == 0xDF || op == 0xE5 || op == 0xE7 || op == 0xE8 || op
        == 0xEA || op == 0xEF || op == 0xF5 || op == 0xF7 || op == 0xFA || op == 0xFF {
        4
    } else if op == 0xC1 || op == 0xC2 || op == 0xC4 || op == 0xCA || op == 0xCC || op == 0xD1
        || op == 0xD2 || op == 0xD4 || op == 0xDA || op == 0xDC || op == 0xE0 || op == 0xE1 || op
        == 0xF0 || op == 0xF1 || op == 0xF8 {
        3
    } else if op == 0xC0 || op == 0xC6 || op == 0xC8 || op == 0xCB || op == 0xCE || op == 0xD0
        || op == 0xD6 || op == 0xD8 || op == 0xDE || op == 0xE2 || op == 0xE6 || op == 0xEE || op
        == 0xF2 || op == 0xF6 || op == 0xF9 || op == 0xFE {
        2
    } else {
        1
    }
}

/// Machine cycles consumed by `op` when it branched: differs from the
/// no-branch table only for the conditional jumps, calls and returns.
pub open spec fn spec_opcode_m_cycles_branch(op: u8) -> u8 {
    if op == 0x20 || op == 0x28 || op == 0x30 || op == 0x38 {
        3
    } else if op == 0xC2 || op == 0xCA || op == 0xD2 || op == 0xDA {
        4
    } else if op == 0xC4 || op == 0xCC || op == 0xD4 || op == 0xDC {
        6
    } else if op == 0xC0 || op == 0xC8 || op == 0xD0 || op == 0xD8 {
        5
    } else {
        spec_opcode_m_cycles_no_branch(op)
    }
}

pub fn opcode_m_cycles_no_branch(op: u8) -> (r: u8)
    ensures
        r == spec_opcode_m_cycles_no_branch(op),
        1 <= r <= 6,
{
    if 0x40 <= op && op <= 0xBF {
        if op == 0x76 {
            1
        } else if op % 8 == 6 || (0x70 <= op && op <= 0x77) {
            2
        } else {
            1
        }
    } else if op == 0x08 {
        5
    } else if op == 0x01 || op == 0x11 || op == 0x21 || op == 0x31 || op == 0x18 || op == 0x34
        || op == 0x35 || op == 0x36 {
        3
    } else if op == 0x00 || op == 0x04 || op == 0x05 || op == 0x07 || op == 0x0C || op == 0x0D
        || op == 0x0F || op == 0x10 || op == 0x14 || op == 0x15 || op == 0x17 || op == 0x1C || op
        == 0x1D || op == 0x1F || op == 0x24 || op == 0x25 || op == 0x27 || op == 0x2C || op == 0x2D
        || op == 0x2F || op == 0x37 || op == 0x3C || op == 0x3D || op == 0x3F {
        1
    } else if op <= 0x3F {
        2
    } else if op == 0xCD {
        6
    } else if op == 0xC3 || op == 0xC5 || op == 0xC7 || op == 0xC9 || op == 0xCF || op == 0xD5
        || op == 0xD7 || op == 0xD9 || op == 0xDF || op == 0xE5 || op == 0xE7 || op == 0xE8 || op
        == 0xEA || op == 0xEF || op == 0xF5 || op == 0xF7 || op == 0xFA || op == 0xFF {
        4
    } else if op == 0xC1 || op == 0xC2 || op == 0xC4 || op == 0xCA || op == 0xCC || op == 0xD1
        || op == 0xD2 || op == 0xD4 || op == 0xDA || op == 0xDC || op == 0xE0 || op == 0xE1 || op
        == 0xF0 || op == 0xF1 || op == 0xF8 {
        3
    } else if op == 0xC0 || op == 0xC6 || op == 0xC8 || op == 0xCB || op == 0xCE || op == 0xD0
        || op == 0xD6 || op == 0xD8 || op == 0xDE || op == 0xE2 || op == 0xE6 || op == 0xEE || op
        == 0xF2 || op == 0xF6 || op == 0xF9 || op == 0xFE {
        2
    } else {
        1
    }
}

pub fn opcode_m_cycles_branch(op: u8) -> (r: u8)
    ensures
        r == spec_opcode_m_cycles_branch(op),
        1 <= r <= 6,
{
    if op == 0x20 || op == 0x28 || op == 0x30 || op == 0x38 {
        3
    } else if op == 0xC2 || op == 0xCA || op == 0xD2 || op == 0xDA {
        4
    } else if op == 0xC4 || op == 0xCC || op == 0xD4 || op == 0xDC {
        6
    } else if op == 0xC0 || op == 0xC8 || op == 0xD0 || op == 0xD8 {
        5
    } else {
        opcode_m_cycles_no_branch(op)
    }
}

} // verus!
