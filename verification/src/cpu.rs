//! The CPU: the register file, the interrupt-master-enable switch and the
//! halt state, together with the fetch-decode-execute step.
use crate::arithmetic_instructions::{daa_carry_out, daa_result, operand8, same_regs_but_af};
use crate::branch_instructions::condition_holds;
use crate::bus::{read8, write8, Bus, BusView};
use crate::load_instructions::push_pair;
use crate::opcode_tables::{
    opcode_length, opcode_m_cycles_branch, opcode_m_cycles_no_branch, spec_opcode_length,
    spec_opcode_m_cycles_branch, spec_opcode_m_cycles_no_branch,
};
use crate::registers::{
    carry_flag, flags_nhc, flags_znh, flags_znhc, half_carry_flag, hi16, lo16, n_flag, reg8,
    reg_pair, spec_set_reg8, spec_set_reg_pair, zero_flag, Register, Registers,
};
use crate::rotate_shift_bit_instructions::{cb_writeback, rotl8, rotr8};
use vstd::prelude::*;

verus! {

/// 16-bit addition that wraps modulo 2^16, as all PC and SP arithmetic
/// does.
pub fn wrap_add16(a: u16, b: u16) -> (r: u16)
    ensures
        r == (a + b) % 0x10000,
{
    (((a as u32) + (b as u32)) % 0x10000) as u16
}

/// 16-bit subtraction that wraps modulo 2^16.
pub fn wrap_sub16(a: u16, b: u16) -> (r: u16)
    ensures
        r == (a + 0x10000 - b) % 0x10000,
{
    (((a as u32) + 0x10000 - (b as u32)) % 0x10000) as u16
}

/// A signed 8-bit displacement as the 16-bit value it adds modulo 2^16.
pub open spec fn spec_sign_extend8(d: u8) -> u16 {
    if d < 0x80 {
        d as u16
    } else {
        (d + 0xFF00) as u16
    }
}

pub fn sign_extend8(d: u8) -> (r: u16)
    ensures
        r == spec_sign_extend8(d),
{
    if d < 0x80 {
        d as u16
    } else {
        d as u16 + 0xFF00
    }
}

pub struct Cpu {
    pub registers: Registers,
    /// Interrupt master enable: when off, pending interrupts are not
    /// vectored.
    pub ime: bool,
    /// While halted, PC does not advance and no opcode is fetched.
    pub is_halted: bool,
}

/// Neither the interrupt-master-enable switch nor the halt state moved.
pub open spec fn same_mode(a: Cpu, b: Cpu) -> bool {
    a.ime == b.ime && b.is_halted == a.is_halted
}

/// The exact transition of one prefixed instruction: `pre` is the CPU
/// after both opcode bytes were fetched, `cb` the second byte.
pub open spec fn cb_effect(pre: Cpu, v: BusView, post: Cpu, postv: BusView, cb: u8) -> bool {
    let src = cb % 8;
    let d = operand8(pre, v, src);
    let b = cb / 8 % 8;
    let c: u8 = if carry_flag(lo16(pre.registers.AF.0)) {
        1u8
    } else {
        0u8
    };
    &&& (cb < 0x08 ==> cb_writeback(pre, post, v, postv, src, rotl8(d), d >= 0x80))
    &&& (0x08 <= cb && cb < 0x10 ==> cb_writeback(pre, post, v, postv, src, rotr8(d), d % 2 == 1))
    &&& (0x10 <= cb && cb < 0x18 ==> cb_writeback(
        pre,
        post,
        v,
        postv,
        src,
        (d % 0x80 * 2 + c) as u8,
        d >= 0x80,
    ))
    &&& (0x18 <= cb && cb < 0x20 ==> cb_writeback(
        pre,
        post,
        v,
        postv,
        src,
        (d / 2 + c * 0x80) as u8,
        d % 2 == 1,
    ))
    &&& (0x20 <= cb && cb < 0x28 ==> cb_writeback(
        pre,
        post,
        v,
        postv,
        src,
        (d % 0x80 * 2) as u8,
        d >= 0x80,
    ))
    &&& (0x28 <= cb && cb < 0x30 ==> cb_writeback(
        pre,
        post,
        v,
        postv,
        src,
        (d / 2 + d / 0x80 * 0x80) as u8,
        d % 2 == 1,
    ))
    &&& (0x30 <= cb && cb < 0x38 ==> cb_writeback(
        pre,
        post,
        v,
        postv,
        src,
        (d % 16 * 16 + d / 16) as u8,
        false,
    ))
    &&& (0x38 <= cb && cb < 0x40 ==> cb_writeback(pre, post, v, postv, src, (d / 2) as u8, d % 2
        == 1))
    &&& (0x40 <= cb && cb < 0x80 ==> postv == v && same_regs_but_af(pre, post) && reg8(
        post.registers,
        7,
    ) == reg8(pre.registers, 7) && flags_znh(
        lo16(pre.registers.AF.0),
        lo16(post.registers.AF.0),
        (d >> b) & 1 == 0,
        false,
        true,
    ) && same_mode(pre, post))
    &&& (0x80 <= cb && cb < 0xC0 ==> ({
        let result = d & !(1u8 << b);
        &&& (src == 6 ==> postv == write8(v, pre.registers.HL.0, result) && post == pre)
        &&& (src != 6 ==> postv == v && post.registers == spec_set_reg8(pre.registers, src, result)
            && same_mode(pre, post))
    }))
    &&& (0xC0 <= cb ==> ({
        let result = d | (1u8 << b);
        &&& (src == 6 ==> postv == write8(v, pre.registers.HL.0, result) && post == pre)
        &&& (src != 6 ==> postv == v && post.registers == spec_set_reg8(pre.registers, src, result)
            && same_mode(pre, post))
    }))
}

/// The exact transition of one unprefixed instruction: `pre` is the CPU
/// after the opcode and its operands were fetched, `d8` and `d16` the
/// fetched operands.
pub open spec fn unprefixed_effect(
    pre: Cpu,
    v: BusView,
    post: Cpu,
    postv: BusView,
    op: u8,
    d8: u8,
    d16: u16,
) -> bool {
    let r = pre.registers;
    let f = lo16(r.AF.0);
    let a = reg8(r, 7);
    let carry: u8 = if carry_flag(f) {
        1u8
    } else {
        0u8
    };
    &&& (op == 0x00 || op == 0x10 || op == 0xE3 || op == 0xE4 || op == 0xF4 || op == 0xFC || op
        == 0xFD || op == 0xD3 || op == 0xDB || op == 0xDD || op == 0xEB || op == 0xEC || op == 0xED
        ==> post == pre && postv == v)
    &&& (op == 0xFB ==> post == (Cpu { ime: true, ..pre }) && postv == v)
    &&& (op == 0xF3 ==> post == (Cpu { ime: false, ..pre }) && postv == v)
    &&& (op == 0x76 ==> post == (Cpu { is_halted: true, ..pre }) && postv == v)
    &&& (op == 0x02 || op == 0x12 || op == 0x22 || op == 0x32 || op == 0x0A || op == 0x1A || op
        == 0x2A || op == 0x3A ==> ({
        let dst = op / 8 % 8;
        let hl_plus = Register((((r.HL.0 + 1) % 0x10000) as u16));
        let hl_minus = Register((((r.HL.0 + 0xFFFF) % 0x10000) as u16));
        &&& (dst == 0 ==> postv == write8(v, r.BC.0, a) && post.registers == r)
        &&& (dst == 2 ==> postv == write8(v, r.DE.0, a) && post.registers == r)
        &&& (dst == 4 ==> postv == write8(v, r.HL.0, a) && post.registers == (Registers {
            HL: hl_plus,
            ..r
        }))
        &&& (dst == 6 ==> postv == write8(v, r.HL.0, a) && post.registers == (Registers {
            HL: hl_minus,
            ..r
        }))
        &&& (dst == 1 ==> postv == v && post.registers == spec_set_reg8(r, 7, read8(v, r.BC.0)))
        &&& (dst == 3 ==> postv == v && post.registers == spec_set_reg8(r, 7, read8(v, r.DE.0)))
        &&& (dst == 5 ==> postv == v && post.registers == (Registers {
            HL: hl_plus,
            ..spec_set_reg8(r, 7, read8(v, r.HL.0))
        }))
        &&& (dst == 7 ==> postv == v && post.registers == (Registers {
            HL: hl_minus,
            ..spec_set_reg8(r, 7, read8(v, r.HL.0))
        }))
        &&& same_mode(pre, post)
    }))
    &&& (op == 0x01 || op == 0x11 || op == 0x21 || op == 0x31 ==> postv == v && post.registers
        == spec_set_reg_pair(r, op / 16 % 4, d16) && same_mode(pre, post))
    &&& (op == 0x0E || op == 0x1E || op == 0x2E || op == 0x3E || op == 0x26 || op == 0x06 || op
        == 0x36 || op == 0x16 ==> ({
        let dst = op / 8 % 8;
        &&& (dst == 6 ==> postv == write8(v, r.HL.0, d8) && post.registers == r)
        &&& (dst != 6 ==> postv == v && post.registers == spec_set_reg8(r, dst, d8))
        &&& same_mode(pre, post)
    }))
    &&& (0x40 <= op && op <= 0x7F && op != 0x76 ==> ({
        let dst = op / 8 % 8;
        let src = op % 8;
        &&& (dst == 6 ==> postv == write8(v, r.HL.0, reg8(r, src)) && post.registers == r)
        &&& (dst != 6 && src == 6 ==> postv == v && post.registers == spec_set_reg8(
            r,
            dst,
            read8(v, r.HL.0),
        ))
        &&& (dst != 6 && src != 6 ==> postv == v && post.registers == spec_set_reg8(
            r,
            dst,
            reg8(r, src),
        ))
        &&& same_mode(pre, post)
    }))
    &&& (op == 0xE2 ==> postv == write8(v, (0xFF00 + lo16(r.BC.0)) as u16, a) && post.registers
        == r && same_mode(pre, post))
    &&& (op == 0xF2 ==> postv == v && post.registers == spec_set_reg8(
        r,
        7,
        read8(v, (0xFF00 + lo16(r.BC.0)) as u16),
    ) && same_mode(pre, post))
    &&& (op == 0xEA ==> postv == write8(v, d16, a) && post.registers == r && same_mode(pre, post))
    &&& (op == 0xFA ==> postv == v && post.registers == spec_set_reg8(r, 7, read8(v, d16))
        && same_mode(pre, post))
    &&& (op == 0x08 ==> postv == write8(
        write8(v, d16, lo16(r.SP.0)),
        ((d16 + 1) % 0x10000) as u16,
        hi16(r.SP.0),
    ) && post.registers == r && same_mode(pre, post))
    &&& (op == 0xF8 ==> postv == v && post.registers.HL.0 == (r.SP.0 + spec_sign_extend8(d8))
        % 0x10000 && post.registers.BC == r.BC && post.registers.DE == r.DE && post.registers.PC
        == r.PC && post.registers.SP == r.SP && reg8(post.registers, 7) == a && flags_znhc(
        f,
        lo16(post.registers.AF.0),
        false,
        false,
        lo16(r.SP.0) % 16 + d8 % 16 > 0xF,
        lo16(r.SP.0) + d8 > 0xFF,
    ) && same_mode(pre, post))
    &&& (op == 0xF9 ==> postv == v && post.registers == (Registers { SP: r.HL, ..r })
        && same_mode(pre, post))
    &&& (op == 0xE0 ==> postv == write8(v, (0xFF00 + d8) as u16, a) && post.registers == r
        && same_mode(pre, post))
    &&& (op == 0xF0 ==> postv == v && post.registers == spec_set_reg8(
        r,
        7,
        read8(v, (0xFF00 + d8) as u16),
    ) && same_mode(pre, post))
    &&& (op == 0xE5 || op == 0xC5 || op == 0xD5 || op == 0xF5 ==> ({
        let value = push_pair(r, op / 16 % 4);
        &&& postv == write8(
            write8(v, ((r.SP.0 + 0xFFFF) % 0x10000) as u16, hi16(value)),
            ((r.SP.0 + 0xFFFE) % 0x10000) as u16,
            lo16(value),
        )
        &&& post.registers == (Registers {
            SP: Register((((r.SP.0 + 0xFFFE) % 0x10000) as u16)),
            ..r
        })
        &&& same_mode(pre, post)
    }))
    &&& (op == 0xE1 || op == 0xC1 || op == 0xD1 || op == 0xF1 ==> ({
        let dst = op / 16 % 4;
        let low = read8(v, r.SP.0);
        let high = read8(v, ((r.SP.0 + 1) % 0x10000) as u16);
        let sp_after = Register((((r.SP.0 + 2) % 0x10000) as u16));
        &&& postv == v
        &&& (dst == 0 ==> post.registers == (Registers {
            BC: Register((high * 0x100 + low) as u16),
            SP: sp_after,
            ..r
        }))
        &&& (dst == 1 ==> post.registers == (Registers {
            DE: Register((high * 0x100 + low) as u16),
            SP: sp_after,
            ..r
        }))
        &&& (dst == 2 ==> post.registers == (Registers {
            HL: Register((high * 0x100 + low) as u16),
            SP: sp_after,
            ..r
        }))
        &&& (dst == 3 ==> post.registers == (Registers {
            AF: Register((high * 0x100 + (low & 0xF0)) as u16),
            SP: sp_after,
            ..r
        }))
        &&& same_mode(pre, post)
    }))
    &&& (op == 0x0C || op == 0x1C || op == 0x2C || op == 0x3C || op == 0x04 || op == 0x14 || op
        == 0x24 || op == 0x34 ==> ({
        let dst = op / 8 % 8;
        let operand = operand8(pre, v, dst);
        let sum = ((operand + 1) % 0x100) as u8;
        &&& (dst == 6 ==> postv == write8(v, r.HL.0, sum) && same_regs_but_af(pre, post) && reg8(
            post.registers,
            7,
        ) == a)
        &&& (dst != 6 ==> postv == v && reg8(post.registers, dst) == sum && (forall|j: u8|
            j <= 7 && j != 6 && j != dst ==> #[trigger] reg8(post.registers, j) == reg8(r, j)))
        &&& flags_znh(f, lo16(post.registers.AF.0), sum == 0, false, operand % 16 + 1 > 0xF)
        &&& post.registers.PC == r.PC
        &&& post.registers.SP == r.SP
        &&& same_mode(pre, post)
    }))
    &&& (op == 0x03 || op == 0x13 || op == 0x23 || op == 0x33 ==> postv == v && post.registers
        == spec_set_reg_pair(r, op / 16 % 4, ((reg_pair(r, op / 16 % 4) + 1) % 0x10000) as u16)
        && same_mode(pre, post))
    &&& (op == 0x0D || op == 0x1D || op == 0x2D || op == 0x3D || op == 0x05 || op == 0x15 || op
        == 0x25 || op == 0x35 ==> ({
        let dst = op / 8 % 8;
        let operand = operand8(pre, v, dst);
        let difference = ((operand + 0xFF) % 0x100) as u8;
        &&& (dst == 6 ==> postv == write8(v, r.HL.0, difference) && same_regs_but_af(pre, post)
            && reg8(post.registers, 7) == a)
        &&& (dst != 6 ==> postv == v && reg8(post.registers, dst) == difference && (forall|j: u8|
            j <= 7 && j != 6 && j != dst ==> #[trigger] reg8(post.registers, j) == reg8(r, j)))
        &&& flags_znh(f, lo16(post.registers.AF.0), difference == 0, true, operand % 16 < 1)
        &&& post.registers.PC == r.PC
        &&& post.registers.SP == r.SP
        &&& same_mode(pre, post)
    }))
    &&& (op == 0x0B || op == 0x1B || op == 0x2B || op == 0x3B ==> postv == v && post.registers
        == spec_set_reg_pair(r, op / 16 % 4, ((reg_pair(r, op / 16 % 4) + 0xFFFF) % 0x10000) as u16)
        && same_mode(pre, post))
    &&& (op == 0xC6 || op == 0xCE || (0x80 <= op && op <= 0x8F) ==> ({
        let b = if op == 0xC6 || op == 0xCE {
            d8
        } else {
            operand8(pre, v, op % 8)
        };
        let c: u8 = if op == 0xC6 || (0x80 <= op && op <= 0x87) {
            0u8
        } else {
            carry
        };
        let sum = ((a + b + c) % 0x100) as u8;
        &&& postv == v
        &&& reg8(post.registers, 7) == sum
        &&& same_regs_but_af(pre, post)
        &&& flags_znhc(
            f,
            lo16(post.registers.AF.0),
            sum == 0,
            false,
            a % 16 + b % 16 + c > 0xF,
            a + b + c > 0xFF,
        )
        &&& same_mode(pre, post)
    }))
    &&& (op == 0xD6 || op == 0xDE || (0x90 <= op && op <= 0x9F) ==> ({
        let b = if op == 0xD6 || op == 0xDE {
            d8
        } else {
            operand8(pre, v, op % 8)
        };
        let c: u8 = if op == 0xD6 || (0x90 <= op && op <= 0x97) {
            0u8
        } else {
            carry
        };
        let difference = ((a + 0x200 - b - c) % 0x100) as u8;
        &&& postv == v
        &&& reg8(post.registers, 7) == difference
        &&& same_regs_but_af(pre, post)
        &&& flags_znhc(
            f,
            lo16(post.registers.AF.0),
            difference == 0,
            true,
            a % 16 < b % 16 + c,
            a < b + c,
        )
        &&& same_mode(pre, post)
    }))
    &&& (op == 0xE6 || (0xA0 <= op && op <= 0xA7) ==> ({
        let b = if op == 0xE6 {
            d8
        } else {
            operand8(pre, v, op % 8)
        };
        &&& postv == v
        &&& reg8(post.registers, 7) == (a & b)
        &&& same_regs_but_af(pre, post)
        &&& flags_znhc(f, lo16(post.registers.AF.0), (a & b) == 0, false, true, false)
        &&& same_mode(pre, post)
    }))
    &&& (op == 0xEE || (0xA8 <= op && op <= 0xAF) ==> ({
        let b = if op == 0xEE {
            d8
        } else {
            operand8(pre, v, op % 8)
        };
        &&& postv == v
        &&& reg8(post.registers, 7) == (a ^ b)
        &&& same_regs_but_af(pre, post)
        &&& flags_znhc(f, lo16(post.registers.AF.0), (a ^ b) == 0, false, false, false)
        &&& same_mode(pre, post)
    }))
    &&& (op == 0xF6 || (0xB0 <= op && op <= 0xB7) ==> ({
        let b = if op == 0xF6 {
            d8
        } else {
            operand8(pre, v, op % 8)
        };
        &&& postv == v
        &&& reg8(post.registers, 7) == (a | b)
        &&& same_regs_but_af(pre, post)
        &&& flags_znhc(f, lo16(post.registers.AF.0), (a | b) == 0, false, false, false)
        &&& same_mode(pre, post)
    }))
    &&& (op == 0xFE || (0xB8 <= op && op <= 0xBF) ==> ({
        let b = if op == 0xFE {
            d8
        } else {
            operand8(pre, v, op % 8)
        };
        &&& postv == v
        &&& reg8(post.registers, 7) == a
        &&& same_regs_but_af(pre, post)
        &&& flags_znhc(f, lo16(post.registers.AF.0), a == b, true, a % 16 < b % 16, a < b)
        &&& same_mode(pre, post)
    }))
    &&& (op == 0x09 || op == 0x19 || op == 0x29 || op == 0x39 ==> ({
        let b = reg_pair(r, op / 16 % 4);
        &&& postv == v
        &&& post.registers.HL.0 == (r.HL.0 + b) % 0x10000
        &&& post.registers.BC == r.BC
        &&& post.registers.DE == r.DE
        &&& post.registers.PC == r.PC
        &&& post.registers.SP == r.SP
        &&& reg8(post.registers, 7) == a
        &&& flags_nhc(
            f,
            lo16(post.registers.AF.0),
            false,
            r.HL.0 % 0x1000 + b % 0x1000 > 0xFFF,
            r.HL.0 + b > 0xFFFF,
        )
        &&& same_mode(pre, post)
    }))
    &&& (op == 0x37 ==> postv == v && reg8(post.registers, 7) == a && same_regs_but_af(pre, post)
        && flags_nhc(f, lo16(post.registers.AF.0), false, false, true) && same_mode(pre, post))
    &&& (op == 0x3F ==> postv == v && reg8(post.registers, 7) == a && same_regs_but_af(pre, post)
        && flags_nhc(f, lo16(post.registers.AF.0), false, false, !carry_flag(f)) && same_mode(
        pre,
        post,
    ))
    &&& (op == 0xE8 ==> postv == v && post.registers.SP.0 == (r.SP.0 + spec_sign_extend8(d8))
        % 0x10000 && post.registers.BC == r.BC && post.registers.DE == r.DE && post.registers.HL
        == r.HL && post.registers.PC == r.PC && reg8(post.registers, 7) == a && flags_znhc(
        f,
        lo16(post.registers.AF.0),
        false,
        false,
        lo16(r.SP.0) % 16 + d8 % 16 > 0xF,
        lo16(r.SP.0) + d8 > 0xFF,
    ) && same_mode(pre, post))
    &&& (op == 0xC0 || op == 0xD0 || op == 0xC8 || op == 0xD8 ==> ({
        let low = read8(v, r.SP.0);
        let high = read8(v, ((r.SP.0 + 1) % 0x10000) as u16);
        &&& postv == v
        &&& (condition_holds(op, f) ==> post.registers == (Registers {
            PC: Register((high * 0x100 + low) as u16),
            SP: Register((((r.SP.0 + 2) % 0x10000) as u16)),
            ..r
        }))
        &&& (!condition_holds(op, f) ==> post.registers == r)
        &&& same_mode(pre, post)
    }))
    &&& (op == 0x18 ==> postv == v && post.registers == (Registers {
        PC: Register((((r.PC.0 + spec_sign_extend8(d8)) % 0x10000) as u16)),
        ..r
    }) && same_mode(pre, post))
    &&& (op == 0xC9 || op == 0xD9 ==> ({
        let low = read8(v, r.SP.0);
        let high = read8(v, ((r.SP.0 + 1) % 0x10000) as u16);
        &&& postv == v
        &&& post.registers == (Registers {
            PC: Register((high * 0x100 + low) as u16),
            SP: Register((((r.SP.0 + 2) % 0x10000) as u16)),
            ..r
        })
        &&& (op == 0xC9 ==> same_mode(pre, post))
        &&& (op == 0xD9 ==> post.ime == true && post.is_halted == pre.is_halted)
    }))
    &&& (op == 0xC2 || op == 0xCA || op == 0xD2 || op == 0xDA ==> postv == v && (condition_holds(
        op,
        f,
    ) ==> post.registers == (Registers { PC: Register(d16), ..r })) && (!condition_holds(op, f)
        ==> post.registers == r) && same_mode(pre, post))
    &&& (op == 0x20 || op == 0x28 || op == 0x30 || op == 0x38 ==> postv == v && (condition_holds(
        op,
        f,
    ) ==> post.registers == (Registers {
        PC: Register((((r.PC.0 + spec_sign_extend8(d8)) % 0x10000) as u16)),
        ..r
    })) && (!condition_holds(op, f) ==> post.registers == r) && same_mode(pre, post))
    &&& (op == 0xCD ==> postv == write8(
        write8(v, ((r.SP.0 + 0xFFFF) % 0x10000) as u16, hi16(r.PC.0)),
        ((r.SP.0 + 0xFFFE) % 0x10000) as u16,
        lo16(r.PC.0),
    ) && post.registers == (Registers {
        SP: Register((((r.SP.0 + 0xFFFE) % 0x10000) as u16)),
        PC: Register(d16),
        ..r
    }) && same_mode(pre, post))
    &&& (op == 0xC4 || op == 0xD4 || op == 0xCC || op == 0xDC ==> ({
        &&& (condition_holds(op, f) ==> postv == write8(
            write8(v, ((r.SP.0 + 0xFFFF) % 0x10000) as u16, hi16(r.PC.0)),
            ((r.SP.0 + 0xFFFE) % 0x10000) as u16,
            lo16(r.PC.0),
        ) && post.registers == (Registers {
            SP: Register((((r.SP.0 + 0xFFFE) % 0x10000) as u16)),
            PC: Register(d16),
            ..r
        }))
        &&& (!condition_holds(op, f) ==> postv == v && post.registers == r)
        &&& same_mode(pre, post)
    }))
    &&& (op == 0xC7 || op == 0xD7 || op == 0xE7 || op == 0xF7 || op == 0xCF || op == 0xDF || op
        == 0xEF || op == 0xFF ==> postv == write8(
        write8(v, ((r.SP.0 + 0xFFFF) % 0x10000) as u16, hi16(r.PC.0)),
        ((r.SP.0 + 0xFFFE) % 0x10000) as u16,
        lo16(r.PC.0),
    ) && post.registers == (Registers {
        SP: Register((((r.SP.0 + 0xFFFE) % 0x10000) as u16)),
        PC: Register(((op / 8 % 8) * 8) as u16),
        ..r
    }) && same_mode(pre, post))
    &&& (op == 0xE9 ==> postv == v && post.registers == (Registers { PC: r.HL, ..r })
        && same_mode(pre, post))
    &&& (op == 0xC3 ==> postv == v && post.registers == (Registers { PC: Register(d16), ..r })
        && same_mode(pre, post))
    &&& (op == 0x07 ==> postv == v && reg8(post.registers, 7) == rotl8(a) && same_regs_but_af(
        pre,
        post,
    ) && flags_znhc(f, lo16(post.registers.AF.0), false, false, false, a >= 0x80) && same_mode(
        pre,
        post,
    ))
    &&& (op == 0x0F ==> postv == v && reg8(post.registers, 7) == rotr8(a) && same_regs_but_af(
        pre,
        post,
    ) && flags_znhc(f, lo16(post.registers.AF.0), false, false, false, a % 2 == 1) && same_mode(
        pre,
        post,
    ))
    &&& (op == 0x17 ==> postv == v && reg8(post.registers, 7) == a % 0x80 * 2 + carry
        && same_regs_but_af(pre, post) && flags_znhc(
        f,
        lo16(post.registers.AF.0),
        false,
        false,
        false,
        a >= 0x80,
    ) && same_mode(pre, post))
    &&& (op == 0x1F ==> postv == v && reg8(post.registers, 7) == a / 2 + carry * 0x80
        && same_regs_but_af(pre, post) && flags_znhc(
        f,
        lo16(post.registers.AF.0),
        false,
        false,
        false,
        a % 2 == 1,
    ) && same_mode(pre, post))
    &&& (op == 0x27 ==> ({
        let result = daa_result(a, n_flag(f), half_carry_flag(f), carry_flag(f));
        &&& postv == v
        &&& reg8(post.registers, 7) == result
        &&& same_regs_but_af(pre, post)
        &&& zero_flag(lo16(post.registers.AF.0)) == (result == 0)
        &&& n_flag(lo16(post.registers.AF.0)) == n_flag(f)
        &&& half_carry_flag(lo16(post.registers.AF.0)) == false
        &&& carry_flag(lo16(post.registers.AF.0)) == daa_carry_out(a, n_flag(f), carry_flag(f))
        &&& lo16(post.registers.AF.0) & 0x0F == f & 0x0F
        &&& same_mode(pre, post)
    }))
    &&& (op == 0x2F ==> postv == v && reg8(post.registers, 7) == !a && same_regs_but_af(pre, post)
        && zero_flag(lo16(post.registers.AF.0)) == zero_flag(f) && n_flag(lo16(post.registers.AF.0))
        == true && half_carry_flag(lo16(post.registers.AF.0)) == true && carry_flag(
        lo16(post.registers.AF.0),
    ) == carry_flag(f) && lo16(post.registers.AF.0) & 0x0F == f & 0x0F && same_mode(pre, post))
}

/// The exact transition of one whole CPU step for a running (not
/// halted) CPU: the opcode and operands fetched from PC, the named
/// instruction's effect applied, and the cycle count drawn from the
/// branch-taken column exactly when PC moved beyond the fetch advance.
pub open spec fn step_effect(pre: Cpu, v: BusView, post: Cpu, postv: BusView, m: usize) -> bool {
    let op = read8(v, pre.registers.PC.0);
    let len = spec_opcode_length(op);
    let pc1 = ((pre.registers.PC.0 + 1) % 0x10000) as u16;
    let pcf = ((pre.registers.PC.0 + len) % 0x10000) as u16;
    let d8: u8 = if len == 2 {
        read8(v, pc1)
    } else {
        0
    };
    let d16: u16 = if len == 3 {
        (read8(v, ((pc1 + 1) % 0x10000) as u16) * 0x100 + read8(v, pc1)) as u16
    } else {
        0
    };
    let fetched = Cpu { registers: (Registers { PC: Register(pcf), ..pre.registers }), ..pre };
    &&& (op == 0xCB ==> cb_effect(
        Cpu {
            registers: (Registers {
                PC: Register((((pre.registers.PC.0 + 2) % 0x10000) as u16)),
                ..pre.registers
            }),
            ..pre
        },
        v,
        post,
        postv,
        read8(v, pcf),
    ) && m == 2)
    &&& (op != 0xCB ==> unprefixed_effect(fetched, v, post, postv, op, d8, d16) && m == (
    if post.registers.PC.0 == pcf {
        spec_opcode_m_cycles_no_branch(op) as usize
    } else {
        spec_opcode_m_cycles_branch(op) as usize
    }))
}

impl Cpu {
    /// Dispatch one prefixed instruction by its second opcode byte.
    #[verifier::rlimit(100)]
    #[verifier::spinoff_prover]
    fn execute_cb(&mut self, bus: &mut Bus, cb: u8)
        requires
            old(bus).wf(),
        ensures
            final(bus).wf(),
            cb_effect(*old(self), old(bus)@, *final(self), final(bus)@, cb),
    {
        if cb < 0x08 {
            self.rlc(bus, 0xCB, cb);
        } else if cb < 0x10 {
            self.rrc(bus, 0xCB, cb);
        } else if cb < 0x18 {
            self.rl(bus, 0xCB, cb);
        } else if cb < 0x20 {
            self.rr(bus, 0xCB, cb);
        } else if cb < 0x28 {
            self.sla(bus, 0xCB, cb);
        } else if cb < 0x30 {
            self.sra(bus, 0xCB, cb);
        } else if cb < 0x38 {
            self.swap(bus, 0xCB, cb);
        } else if cb < 0x40 {
            self.srl(bus, 0xCB, cb);
        } else if cb < 0x80 {
            self.bit(bus, 0xCB, cb);
        } else if cb < 0xC0 {
            self.res(bus, 0xCB, cb);
        } else {
            self.set(bus, 0xCB, cb);
        }
    }

    /// Dispatch one unprefixed instruction; PC already sits past the
    /// opcode and its operands.
    #[verifier::rlimit(100)]
    #[verifier::spinoff_prover]
    fn execute_unprefixed(&mut self, bus: &mut Bus, opcode: u8, opcode_data_u8: u8, opcode_data_u16: u16)
        requires
            old(bus).wf(),
        ensures
            final(bus).wf(),
            unprefixed_effect(
                *old(self),
                old(bus)@,
                *final(self),
                final(bus)@,
                opcode,
                opcode_data_u8,
                opcode_data_u16,
            ),
    {
        if opcode == 0x00 || opcode == 0x10 || opcode == 0xE3 || opcode == 0xE4 || opcode == 0xF4
            || opcode == 0xFC || opcode == 0xFD || opcode == 0xD3 || opcode == 0xDB || opcode
            == 0xDD || opcode == 0xEB || opcode == 0xEC || opcode == 0xED {
            // NOP, STOP and the holes in the opcode map: no effect.
        } else if opcode == 0xFB {
            // EI.
            self.ime = true;
        } else if opcode == 0xF3 {
            // DI.
            self.ime = false;
        } else if opcode == 0x76 {
            // HALT.
            self.is_halted = true;
        } else if opcode == 0x02 || opcode == 0x12 || opcode == 0x22 || opcode == 0x32 || opcode
            == 0x0A || opcode == 0x1A || opcode == 0x2A || opcode == 0x3A {
            self.ld_a_with_value_or_store_at_register_pair_address(bus, opcode);
        } else if opcode == 0x01 || opcode == 0x11 || opcode == 0x21 || opcode == 0x31 {
            self.ld_immediate_into_register_pair_16_bit(opcode, opcode_data_u16);
        } else if opcode == 0x0E || opcode == 0x1E || opcode == 0x2E || opcode == 0x3E || opcode
            == 0x26 || opcode == 0x06 || opcode == 0x36 || opcode == 0x16 {
            self.ld_immediate_into_register_8_bit(bus, opcode, opcode_data_u8);
        } else if 0x40 <= opcode && opcode <= 0x7F {
            self.ld_8_bit(bus, opcode);
        } else if opcode == 0xE2 {
            self.ldh_plus_c_register_from_a(bus, opcode);
        } else if opcode == 0xF2 {
            self.ldh_plus_c_register_to_a(bus, opcode);
        } else if opcode == 0xEA {
            self.ld_a_at_address(bus, opcode, opcode_data_u16);
        } else if opcode == 0xFA {
            self.ld_data_at_address_to_a(bus, opcode, opcode_data_u16);
        } else if opcode == 0x08 {
            self.ld_sp_at_address(bus, opcode, opcode_data_u16);
        } else if opcode == 0xF8 {
            self.ld_sp_plus_immediate_into_hl(opcode, opcode_data_u8);
        } else if opcode == 0xF9 {
            self.ld_hl_into_sp(opcode);
        } else if opcode == 0xE0 {
            self.ldh_from_a(bus, opcode, opcode_data_u8);
        } else if opcode == 0xF0 {
            self.ldh_to_a(bus, opcode, opcode_data_u8);
        } else if opcode == 0xE5 || opcode == 0xC5 || opcode == 0xD5 || opcode == 0xF5 {
            self.push(bus, opcode);
        } else if opcode == 0xE1 || opcode == 0xC1 || opcode == 0xD1 || opcode == 0xF1 {
            self.pop(bus, opcode);
        } else if opcode == 0x0C || opcode == 0x1C || opcode == 0x2C || opcode == 0x3C || opcode
            == 0x04 || opcode == 0x14 || opcode == 0x24 || opcode == 0x34 {
            self.inc_register_8_bit(bus, opcode);
        } else if opcode == 0x03 || opcode == 0x13 || opcode == 0x23 || opcode == 0x33 {
            self.inc_register_pair_16_bit(opcode);
        } else if opcode == 0x0D || opcode == 0x1D || opcode == 0x2D || opcode == 0x3D || opcode
            == 0x05 || opcode == 0x15 || opcode == 0x25 || opcode == 0x35 {
            self.dec_register_8_bit(bus, opcode);
        } else if opcode == 0x0B || opcode == 0x1B || opcode == 0x2B || opcode == 0x3B {
            self.dec_register_pair_16_bit(opcode);
        } else if opcode == 0xC6 {
            self.add_immediate(opcode, opcode_data_u8, false);
        } else if opcode == 0xD6 {
            self.sub_immediate(opcode, opcode_data_u8, false);
        } else if 0x80 <= opcode && opcode <= 0x87 {
            self.add_8_bit(bus, opcode, false);
        } else if 0x88 <= opcode && opcode <= 0x8F {
            let carry = crate::registers::is_carry_flag_set(&self.registers);
            self.add_8_bit(bus, opcode, carry);
        } else if opcode == 0x09 || opcode == 0x19 || opcode == 0x29 || opcode == 0x39 {
            self.add_16_bit_register_pairs(opcode);
        } else if opcode == 0xCE {
            let carry = crate::registers::is_carry_flag_set(&self.registers);
            self.add_immediate(opcode, opcode_data_u8, carry);
        } else if opcode == 0xDE {
            let carry = crate::registers::is_carry_flag_set(&self.registers);
            self.sub_immediate(opcode, opcode_data_u8, carry);
        } else if opcode == 0xEE {
            self.xor_immediate(opcode, opcode_data_u8);
        } else if opcode == 0xFE {
            self.cp_immediate(opcode, opcode_data_u8);
        } else if 0x90 <= opcode && opcode <= 0x97 {
            self.sub_8_bit(bus, opcode, false);
        } else if 0x98 <= opcode && opcode <= 0x9F {
            let carry = crate::registers::is_carry_flag_set(&self.registers);
            self.sub_8_bit(bus, opcode, carry);
        } else if 0xA0 <= opcode && opcode <= 0xA7 {
            self.and_8_bit(bus, opcode);
        } else if 0xA8 <= opcode && opcode <= 0xAF {
            self.xor_8_bit(bus, opcode);
        } else if 0xB0 <= opcode && opcode <= 0xB7 {
            self.or_8_bit(bus, opcode);
        } else if 0xB8 <= opcode && opcode <= 0xBF {
            self.cp_8_bit(bus, opcode);
        } else if opcode == 0x37 {
            self.scf(opcode);
        } else if opcode == 0xE8 {
            self.add_immediate_into_sp(opcode, opcode_data_u8);
        } else if opcode == 0xE6 {
            self.and_immediate_8_bit(opcode, opcode_data_u8);
        } else if opcode == 0xF6 {
            self.or_8_bit_immediate(opcode, opcode_data_u8);
        } else if opcode == 0xC0 || opcode == 0xD0 || opcode == 0xC8 || opcode == 0xD8 {
            self.ret_on_condition(bus, opcode);
        } else if opcode == 0x18 {
            self.jr_to_relative_u8_address(opcode, opcode_data_u8);
        } else if opcode == 0xC9 {
            self.ret(bus, opcode);
        } else if opcode == 0xD9 {
            self.reti(bus, opcode);
        } else if opcode == 0xC2 || opcode == 0xCA || opcode == 0xD2 || opcode == 0xDA {
            self.jp_to_address_conditionally(opcode, opcode_data_u16);
        } else if opcode == 0x20 || opcode == 0x28 || opcode == 0x30 || opcode == 0x38 {
            self.jr_to_relative_u8_address_on_condition(opcode, opcode_data_u8);
        } else if opcode == 0xCD {
            self.call_address(bus, opcode, opcode_data_u16);
        } else if opcode == 0xC4 || opcode == 0xD4 || opcode == 0xCC || opcode == 0xDC {
            self.call_address_on_condition(bus, opcode, opcode_data_u16);
        } else if opcode == 0xC7 || opcode == 0xD7 || opcode == 0xE7 || opcode == 0xF7 || opcode
            == 0xCF || opcode == 0xDF || opcode == 0xEF || opcode == 0xFF {
            self.rst(bus, opcode);
        } else if opcode == 0xE9 {
            self.jp_to_hl(opcode);
        } else if opcode == 0xC3 {
            self.jp_to_address(opcode, opcode_data_u16);
        } else if opcode == 0x07 {
            self.rlca(opcode);
        } else if opcode == 0x0F {
            self.rrca(opcode);
        } else if opcode == 0x17 {
            self.rla(opcode);
        } else if opcode == 0x27 {
            self.daa(opcode);
        } else if opcode == 0x2F {
            self.cpl(opcode);
        } else if opcode == 0x3F {
            self.ccf(opcode);
        } else {
            // 0x1F: the remaining rotate.
            self.rra(opcode);
        }
    }

    /// Fetch, decode and execute one instruction, or idle for one cycle
    /// while halted. A running step's whole outcome — registers, bus and
    /// cycle count — is fixed by `step_effect`.
    #[verifier::rlimit(100)]
    pub fn step(&mut self, bus: &mut Bus) -> (m_cycles: usize)
        requires
            old(bus).wf(),
        ensures
            final(bus).wf(),
            1 <= m_cycles <= 6,
            old(self).is_halted ==> m_cycles == 1 && *final(self) == *old(self) && final(bus)@
                == old(bus)@,
            !old(self).is_halted ==> step_effect(
                *old(self),
                old(bus)@,
                *final(self),
                final(bus)@,
                m_cycles,
            ),
    {
        if self.is_halted {
            return 1;
        }
        let ghost pre = *self;
        let opcode = bus.read(self.registers.PC.as_u16());
        let advanced = wrap_add16(self.registers.PC.as_u16(), 1);
        self.registers.PC.set_from_u16(advanced);

        let opcode_length = opcode_length(opcode);
        let mut opcode_data_u8: u8 = 0;
        let mut opcode_data_u16: u16 = 0;
        if opcode_length == 3 {
            let byte1 = bus.read(self.registers.PC.as_u16());
            let second = wrap_add16(self.registers.PC.as_u16(), 1);
            let byte2 = bus.read(second);
            opcode_data_u16 = (byte2 as u16) * 0x100 + byte1 as u16;
            let past = wrap_add16(self.registers.PC.as_u16(), 2);
            self.registers.PC = Register(past);
        } else if opcode_length == 2 {
            opcode_data_u8 = bus.read(self.registers.PC.as_u16());
            let past = wrap_add16(self.registers.PC.as_u16(), 1);
            self.registers.PC = Register(past);
        }
        let pc_before_execution = self.registers.PC;
        proof {
            assert(pc_before_execution.0 == (pre.registers.PC.0 + spec_opcode_length(opcode))
                % 0x10000);
        }
        if opcode == 0xCB {
            // The prefixed page: fetch the second opcode byte and
            // dispatch through it.
            let cb = bus.read(self.registers.PC.as_u16());
            let past = wrap_add16(self.registers.PC.as_u16(), 1);
            self.registers.PC = Register(past);
            self.execute_cb(bus, cb);
            2
        } else {
            self.execute_unprefixed(bus, opcode, opcode_data_u8, opcode_data_u16);
            if pc_before_execution.0 == self.registers.PC.as_u16() {
                opcode_m_cycles_no_branch(opcode) as usize
            } else {
                opcode_m_cycles_branch(opcode) as usize
            }
        }
    }
}

} // verus!
