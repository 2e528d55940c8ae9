//! Opcode field extraction: the 3-bit register indices and 2-bit register
//! pair indices packed into an instruction byte.
use vstd::prelude::*;

verus! {

/// Bits 2..0 of the opcode: the source register index.
pub fn extract_rightmost_3_bits(opcode: u8) -> (r: u8)
    ensures
        r == opcode % 8,
{
    opcode % 8
}

/// Bits 5..3 of the opcode: the destination register index.
pub fn extract_bits_5_4_3(opcode: u8) -> (r: u8)
    ensures
        r == opcode / 8 % 8,
{
    opcode / 8 % 8
}

/// Bits 5..4 of the opcode: the register pair index.
pub fn extract_bits_5_4(opcode: u8) -> (r: u8)
    ensures
        r == opcode / 16 % 4,
{
    opcode / 16 % 4
}

#[inline(always)]
pub fn extract_src_register(opcode: u8) -> (r: u8)
    ensures
        r == opcode % 8,
{
    extract_rightmost_3_bits(opcode)
}

#[inline(always)]
pub fn extract_dst_register(opcode: u8) -> (r: u8)
    ensures
        r == opcode / 8 % 8,
{
    extract_bits_5_4_3(opcode)
}

#[inline(always)]
pub fn extract_dst_register_pair(opcode: u8) -> (r: u8)
    ensures
        r == opcode / 16 % 4,
{
    extract_bits_5_4(opcode)
}

} // verus!
