//! The arithmetic and logic unit: every operation as a function from operands
//! and old flags to a result and new flags.

use vstd::prelude::*;
use crate::cpu::flags::{
    flag, has_even_parity, pack, pack_flags, parity_even, FLAG_C, FLAG_PV, FLAG_S, FLAG_X, FLAG_Y,
    FLAG_Z,
};
use crate::memory::{hi_byte, high_byte};

verus! {

/// What an 8-bit operation yields: the result and the new `F`.
#[derive(Clone, Copy, Debug, PartialEq, Eq, Structural)]
pub struct Alu8 {
    pub value: u8,
    pub flags: u8,
}

/// What a 16-bit operation yields: the result and the new `F`.
#[derive(Clone, Copy, Debug, PartialEq, Eq, Structural)]
pub struct Alu16 {
    pub value: u16,
    pub flags: u8,
}

/// `a + x + carry`: `C` and `H` are the carries out of bit 7 and bit 3,
/// `P/V` is signed overflow, `N` is clear.
pub open spec fn add8_spec(a: u8, x: u8, cin: bool) -> Alu8 {
    let c: int = if cin { 1 } else { 0 };
    let r = ((a + x + c) % 256) as u8;
    Alu8 {
        value: r,
        flags: pack(
            r & 0x80 != 0,
            r == 0,
            r & 0x20 != 0,
            a % 16 + x % 16 + c > 15,
            r & 0x08 != 0,
            ((a ^ !x) & (a ^ r)) & 0x80 != 0,
            false,
            a + x + c > 255,
        ),
    }
}

/// `a - x - carry`: `C` and `H` are the borrows into bit 7 and bit 3, `P/V`
/// is signed overflow, `N` is set.
pub open spec fn sub8_spec(a: u8, x: u8, cin: bool) -> Alu8 {
    let c: int = if cin { 1 } else { 0 };
    let r = ((a - x - c) % 256) as u8;
    Alu8 {
        value: r,
        flags: pack(
            r & 0x80 != 0,
            r == 0,
            r & 0x20 != 0,
            a % 16 < x % 16 + c,
            r & 0x08 != 0,
            ((a ^ x) & (a ^ r)) & 0x80 != 0,
            true,
            a < x + c,
        ),
    }
}

/// The flags of a logical result: parity in `P/V`, `H` as given, `N` and `C`
/// clear.
pub open spec fn logic_spec(r: u8, h: bool) -> Alu8 {
    Alu8 {
        value: r,
        flags: pack(
            r & 0x80 != 0,
            r == 0,
            r & 0x20 != 0,
            h,
            r & 0x08 != 0,
            parity_even(r),
            false,
            false,
        ),
    }
}

/// The accumulator operation selected by `kind`: `ADD, ADC, SUB, SBC, AND,
/// XOR, OR, CP` for `0..=7`. `value` is the new `A`; `CP` keeps the old one.
pub open spec fn alu8_spec(kind: u8, a: u8, x: u8, f: u8) -> Alu8 {
    if kind == 0 {
        add8_spec(a, x, false)
    } else if kind == 1 {
        add8_spec(a, x, flag(f, FLAG_C))
    } else if kind == 2 {
        sub8_spec(a, x, false)
    } else if kind == 3 {
        sub8_spec(a, x, flag(f, FLAG_C))
    } else if kind == 4 {
        logic_spec(a & x, true)
    } else if kind == 5 {
        logic_spec(a ^ x, false)
    } else if kind == 6 {
        logic_spec(a | x, false)
    } else {
        Alu8 { value: a, flags: sub8_spec(a, x, false).flags }
    }
}

/// The result that the flags of `alu8_spec` describe: for `CP` the
/// difference that is not stored, otherwise the new `A`.
pub open spec fn alu8_result(kind: u8, a: u8, x: u8, f: u8) -> u8 {
    if kind >= 7 {
        sub8_spec(a, x, false).value
    } else {
        alu8_spec(kind, a, x, f).value
    }
}

/// `v + 1`: `H` on a carry out of bit 3, `P/V` when `v` was `0x7F`, `C`
/// kept.
pub open spec fn inc8_spec(v: u8, f: u8) -> Alu8 {
    let r = ((v + 1) % 256) as u8;
    Alu8 {
        value: r,
        flags: pack(
            r & 0x80 != 0,
            r == 0,
            r & 0x20 != 0,
            v % 16 == 15,
            r & 0x08 != 0,
            v == 0x7F,
            false,
            flag(f, FLAG_C),
        ),
    }
}

/// `v - 1`: `H` on a borrow into bit 3, `P/V` when `v` was `0x80`, `C` kept.
pub open spec fn dec8_spec(v: u8, f: u8) -> Alu8 {
    let r = ((v - 1) % 256) as u8;
    Alu8 {
        value: r,
        flags: pack(
            r & 0x80 != 0,
            r == 0,
            r & 0x20 != 0,
            v % 16 == 0,
            r & 0x08 != 0,
            v == 0x80,
            true,
            flag(f, FLAG_C),
        ),
    }
}

/// The rotated or shifted byte for `kind`: `RLC, RRC, RL, RR, SLA, SRA` for
/// `0..=5`, `SRL` otherwise.
pub open spec fn rot_value(kind: u8, v: u8, cin: bool) -> u8 {
    if kind == 0 {
        (v << 1) | (v >> 7)
    } else if kind == 1 {
        (v >> 1) | (v << 7)
    } else if kind == 2 {
        (v << 1) | (if cin { 1u8 } else { 0u8 })
    } else if kind == 3 {
        (v >> 1) | (if cin { 0x80u8 } else { 0u8 })
    } else if kind == 4 {
        v << 1
    } else if kind == 5 {
        (v >> 1) | (v & 0x80)
    } else {
        v >> 1
    }
}

/// The bit that a rotate or shift of `kind` moves out: bit 7 for the left
/// forms, bit 0 for the right ones.
pub open spec fn rot_carry(kind: u8, v: u8) -> bool {
    if kind == 0 || kind == 2 || kind == 4 {
        v & 0x80 != 0
    } else {
        v & 0x01 != 0
    }
}

/// A `CB` rotate or shift: `C` is the bit moved out, `P/V` is parity, `N`
/// and `H` are clear.
pub open spec fn rot8_spec(kind: u8, v: u8, f: u8) -> Alu8 {
    let r = rot_value(kind, v, flag(f, FLAG_C));
    Alu8 {
        value: r,
        flags: pack(
            r & 0x80 != 0,
            r == 0,
            r & 0x20 != 0,
            false,
            r & 0x08 != 0,
            parity_even(r),
            false,
            rot_carry(kind, v),
        ),
    }
}

/// An accumulator rotate (`RLCA, RRCA, RLA, RRA` for `0..=3`): as the `CB`
/// form, but `S`, `Z` and `P/V` are kept.
pub open spec fn rot_a_spec(kind: u8, a: u8, f: u8) -> Alu8 {
    let r = rot_value(kind, a, flag(f, FLAG_C));
    Alu8 {
        value: r,
        flags: pack(
            flag(f, FLAG_S),
            flag(f, FLAG_Z),
            r & 0x20 != 0,
            false,
            r & 0x08 != 0,
            flag(f, FLAG_PV),
            false,
            rot_carry(kind, a),
        ),
    }
}

/// The mask with only bit `n` set.
pub open spec fn bit_mask(n: u8) -> u8 {
    1u8 << n
}

/// The flags after `BIT n`: `Z` and `P/V` when the bit is clear, `S` when bit
/// 7 is tested and set, `H` set, `N` clear; `C`, `X` and `Y` kept.
pub open spec fn bit_flags_spec(n: u8, v: u8, f: u8) -> u8 {
    let is_set = v & bit_mask(n) != 0;
    pack(
        n == 7 && is_set,
        !is_set,
        flag(f, FLAG_Y),
        true,
        flag(f, FLAG_X),
        !is_set,
        false,
        flag(f, FLAG_C),
    )
}

/// `ADD HL,rr`: `C` and `H` are the carries out of bit 15 and bit 11, `N` is
/// clear, `X` and `Y` come from the high byte; `S`, `Z` and `P/V` are kept.
pub open spec fn add16_spec(hl: u16, rr: u16, f: u8) -> Alu16 {
    let r = ((hl + rr) % 0x10000) as u16;
    Alu16 {
        value: r,
        flags: pack(
            flag(f, FLAG_S),
            flag(f, FLAG_Z),
            hi_byte(r) & 0x20 != 0,
            hl % 4096 + rr % 4096 > 4095,
            hi_byte(r) & 0x08 != 0,
            flag(f, FLAG_PV),
            false,
            hl + rr > 0xFFFF,
        ),
    }
}

/// `ADC HL,rr`: as `ADD HL,rr` with the carry added, and `S`, `Z` and signed
/// overflow in `P/V` set from the 16-bit result.
pub open spec fn adc16_spec(hl: u16, rr: u16, cin: bool) -> Alu16 {
    let c: int = if cin { 1 } else { 0 };
    let r = ((hl + rr + c) % 0x10000) as u16;
    Alu16 {
        value: r,
        flags: pack(
            r & 0x8000 != 0,
            r == 0,
            hi_byte(r) & 0x20 != 0,
            hl % 4096 + rr % 4096 + c > 4095,
            hi_byte(r) & 0x08 != 0,
            ((hl ^ !rr) & (hl ^ r)) & 0x8000 != 0,
            false,
            hl + rr + c > 0xFFFF,
        ),
    }
}

/// `SBC HL,rr`: borrows in `C` and `H`, `N` set, `S`, `Z` and signed
/// overflow in `P/V` set from the 16-bit result.
pub open spec fn sbc16_spec(hl: u16, rr: u16, cin: bool) -> Alu16 {
    let c: int = if cin { 1 } else { 0 };
    let r = ((hl - rr - c) % 0x10000) as u16;
    Alu16 {
        value: r,
        flags: pack(
            r & 0x8000 != 0,
            r == 0,
            hi_byte(r) & 0x20 != 0,
            hl % 4096 < rr % 4096 + c,
            hi_byte(r) & 0x08 != 0,
            ((hl ^ rr) & (hl ^ r)) & 0x8000 != 0,
            true,
            hl < rr + c,
        ),
    }
}

/// The flags of a block compare of `a` with `v`: `Z` on equality, `S` and
/// `H` from the difference, `N` set, `P/V` as given, `C` kept.
pub open spec fn block_compare_spec(a: u8, v: u8, more: bool, f: u8) -> u8 {
    let r = ((a - v) % 256) as u8;
    pack(
        r & 0x80 != 0,
        a == v,
        r & 0x20 != 0,
        a % 16 < v % 16,
        r & 0x08 != 0,
        more,
        true,
        flag(f, FLAG_C),
    )
}

/// The flags after a load or input of `v` that reports on it: `S` and `Z`
/// from `v`, `P/V` as given, `H` and `N` clear, `C` kept.
pub open spec fn load_flags_spec(v: u8, pv: bool, f: u8) -> u8 {
    pack(v & 0x80 != 0, v == 0, v & 0x20 != 0, false, v & 0x08 != 0, pv, false, flag(f, FLAG_C))
}

/// `a + x + carry` with its flags.
pub fn add8(a: u8, x: u8, cin: bool) -> (out: Alu8)
    ensures
        out == add8_spec(a, x, cin),
{
    let c: u16 = if cin { 1 } else { 0 };
    let sum: u16 = a as u16 + x as u16 + c;
    let r: u8 = (sum % 256) as u8;
    let half = (a % 16) as u16 + (x % 16) as u16 + c > 15;
    let over = ((a ^ !x) & (a ^ r)) & 0x80 != 0;
    Alu8 {
        value: r,
        flags: pack_flags(
            r & 0x80 != 0,
            r == 0,
            r & 0x20 != 0,
            half,
            r & 0x08 != 0,
            over,
            false,
            sum > 255,
        ),
    }
}

/// `a - x - carry` with its flags.
pub fn sub8(a: u8, x: u8, cin: bool) -> (out: Alu8)
    ensures
        out == sub8_spec(a, x, cin),
{
    let c: u8 = if cin { 1 } else { 0 };
    let r: u8 = a.wrapping_sub(x).wrapping_sub(c);
    let half = ((a % 16) as u16) < (x % 16) as u16 + c as u16;
    let over = ((a ^ x) & (a ^ r)) & 0x80 != 0;
    let borrow = (a as u16) < x as u16 + c as u16;
    Alu8 {
        value: r,
        flags: pack_flags(
            r & 0x80 != 0,
            r == 0,
            r & 0x20 != 0,
            half,
            r & 0x08 != 0,
            over,
            true,
            borrow,
        ),
    }
}

/// The flags of a logical result `r`.
pub fn logic(r: u8, h: bool) -> (out: Alu8)
    ensures
        out == logic_spec(r, h),
{
    Alu8 {
        value: r,
        flags: pack_flags(
            r & 0x80 != 0,
            r == 0,
            r & 0x20 != 0,
            h,
            r & 0x08 != 0,
            has_even_parity(r),
            false,
            false,
        ),
    }
}

/// The accumulator operation selected by `kind`: `ADD, ADC, SUB, SBC, AND,
/// XOR, OR, CP` for `0..=7`.
pub fn alu8(kind: u8, a: u8, x: u8, f: u8) -> (out: Alu8)
    requires
        kind < 8,
    ensures
        out == alu8_spec(kind, a, x, f),
{
    let carry = f & 0x01 != 0;
    match kind {
        0 => add8(a, x, false),
        1 => add8(a, x, carry),
        2 => sub8(a, x, false),
        3 => sub8(a, x, carry),
        4 => logic(a & x, true),
        5 => logic(a ^ x, false),
        6 => logic(a | x, false),
        _ => Alu8 { value: a, flags: sub8(a, x, false).flags },
    }
}

/// `v + 1` with its flags.
pub fn inc8(v: u8, f: u8) -> (out: Alu8)
    ensures
        out == inc8_spec(v, f),
{
    let r: u8 = v.wrapping_add(1);
    Alu8 {
        value: r,
        flags: pack_flags(
            r & 0x80 != 0,
            r == 0,
            r & 0x20 != 0,
            v % 16 == 15,
            r & 0x08 != 0,
            v == 0x7F,
            false,
            f & 0x01 != 0,
        ),
    }
}

/// `v - 1` with its flags.
pub fn dec8(v: u8, f: u8) -> (out: Alu8)
    ensures
        out == dec8_spec(v, f),
{
    let r: u8 = v.wrapping_sub(1);
    Alu8 {
        value: r,
        flags: pack_flags(
            r & 0x80 != 0,
            r == 0,
            r & 0x20 != 0,
            v % 16 == 0,
            r & 0x08 != 0,
            v == 0x80,
            true,
            f & 0x01 != 0,
        ),
    }
}

/// The rotated or shifted byte.
fn rotate(kind: u8, v: u8, cin: bool) -> (r: u8)
    ensures
        r == rot_value(kind, v, cin),
{
    match kind {
        0 => (v << 1) | (v >> 7),
        1 => (v >> 1) | (v << 7),
        2 => (v << 1) | (if cin { 1u8 } else { 0u8 }),
        3 => (v >> 1) | (if cin { 0x80u8 } else { 0u8 }),
        4 => v << 1,
        5 => (v >> 1) | (v & 0x80),
        _ => v >> 1,
    }
}

/// The bit that the rotate or shift moves out.
fn rotate_carry(kind: u8, v: u8) -> (c: bool)
    ensures
        c == rot_carry(kind, v),
{
    if kind == 0 || kind == 2 || kind == 4 {
        v & 0x80 != 0
    } else {
        v & 0x01 != 0
    }
}

/// A `CB` rotate or shift of `v`.
pub fn rot8(kind: u8, v: u8, f: u8) -> (out: Alu8)
    ensures
        out == rot8_spec(kind, v, f),
{
    let r = rotate(kind, v, f & 0x01 != 0);
    Alu8 {
        value: r,
        flags: pack_flags(
            r & 0x80 != 0,
            r == 0,
            r & 0x20 != 0,
            false,
            r & 0x08 != 0,
            has_even_parity(r),
            false,
            rotate_carry(kind, v),
        ),
    }
}

/// An accumulator rotate: `RLCA, RRCA, RLA, RRA` for `0..=3`.
pub fn rot_a(kind: u8, a: u8, f: u8) -> (out: Alu8)
    ensures
        out == rot_a_spec(kind, a, f),
{
    let r = rotate(kind, a, f & 0x01 != 0);
    Alu8 {
        value: r,
        flags: pack_flags(
            f & 0x80 != 0,
            f & 0x40 != 0,
            r & 0x20 != 0,
            false,
            r & 0x08 != 0,
            f & 0x04 != 0,
            false,
            rotate_carry(kind, a),
        ),
    }
}

/// The mask with only bit `n` set.
pub fn mask_of(n: u8) -> (m: u8)
    requires
        n < 8,
    ensures
        m == bit_mask(n),
{
    1u8 << n
}

/// The flags after `BIT n` on `v`.
pub fn bit_flags(n: u8, v: u8, f: u8) -> (out: u8)
    requires
        n < 8,
    ensures
        out == bit_flags_spec(n, v, f),
{
    let is_set = v & mask_of(n) != 0;
    pack_flags(
        n == 7 && is_set,
        !is_set,
        f & 0x20 != 0,
        true,
        f & 0x08 != 0,
        !is_set,
        false,
        f & 0x01 != 0,
    )
}

/// `ADD HL,rr`: the sum with its flags.
pub fn add16_flags(hl: u16, rr: u16, f: u8) -> (out: Alu16)
    ensures
        out == add16_spec(hl, rr, f),
{
    let sum: u32 = hl as u32 + rr as u32;
    let r: u16 = (sum % 0x10000) as u16;
    let hi = high_byte(r);
    Alu16 {
        value: r,
        flags: pack_flags(
            f & 0x80 != 0,
            f & 0x40 != 0,
            hi & 0x20 != 0,
            (hl % 4096) as u32 + (rr % 4096) as u32 > 4095,
            hi & 0x08 != 0,
            f & 0x04 != 0,
            false,
            sum > 0xFFFF,
        ),
    }
}

/// `ADC HL,rr`: the sum with its flags.
pub fn adc16(hl: u16, rr: u16, cin: bool) -> (out: Alu16)
    ensures
        out == adc16_spec(hl, rr, cin),
{
    let c: u32 = if cin { 1 } else { 0 };
    let sum: u32 = hl as u32 + rr as u32 + c;
    let r: u16 = (sum % 0x10000) as u16;
    let hi = high_byte(r);
    Alu16 {
        value: r,
        flags: pack_flags(
            r & 0x8000 != 0,
            r == 0,
            hi & 0x20 != 0,
            (hl % 4096) as u32 + (rr % 4096) as u32 + c > 4095,
            hi & 0x08 != 0,
            ((hl ^ !rr) & (hl ^ r)) & 0x8000 != 0,
            false,
            sum > 0xFFFF,
        ),
    }
}

/// `SBC HL,rr`: the difference with its flags.
pub fn sbc16(hl: u16, rr: u16, cin: bool) -> (out: Alu16)
    ensures
        out == sbc16_spec(hl, rr, cin),
{
    let c: u16 = if cin { 1 } else { 0 };
    let r: u16 = hl.wrapping_sub(rr).wrapping_sub(c);
    let hi = high_byte(r);
    Alu16 {
        value: r,
        flags: pack_flags(
            r & 0x8000 != 0,
            r == 0,
            hi & 0x20 != 0,
            ((hl % 4096) as u32) < (rr % 4096) as u32 + c as u32,
            hi & 0x08 != 0,
            ((hl ^ rr) & (hl ^ r)) & 0x8000 != 0,
            true,
            (hl as u32) < rr as u32 + c as u32,
        ),
    }
}

/// The flags of a block compare of `a` with `v`.
pub fn block_compare(a: u8, v: u8, more: bool, f: u8) -> (out: u8)
    ensures
        out == block_compare_spec(a, v, more, f),
{
    let r: u8 = a.wrapping_sub(v);
    pack_flags(
        r & 0x80 != 0,
        a == v,
        r & 0x20 != 0,
        a % 16 < v % 16,
        r & 0x08 != 0,
        more,
        true,
        f & 0x01 != 0,
    )
}

/// The flags after a load or input of `v` that reports on it.
pub fn load_flags(v: u8, pv: bool, f: u8) -> (out: u8)
    ensures
        out == load_flags_spec(v, pv, f),
{
    pack_flags(v & 0x80 != 0, v == 0, v & 0x20 != 0, false, v & 0x08 != 0, pv, false, f & 0x01 != 0)
}

} // verus!
