//! The flag register `F`: bit positions, packing and the parity function.

use vstd::prelude::*;

verus! {

/// Carry.
pub const FLAG_C: u8 = 0x01;

/// Add/subtract.
pub const FLAG_N: u8 = 0x02;

/// Parity or overflow.
pub const FLAG_PV: u8 = 0x04;

/// Copy of bit 3 of the result.
pub const FLAG_X: u8 = 0x08;

/// Half carry.
pub const FLAG_H: u8 = 0x10;

/// Copy of bit 5 of the result.
pub const FLAG_Y: u8 = 0x20;

/// Zero.
pub const FLAG_Z: u8 = 0x40;

/// Sign.
pub const FLAG_S: u8 = 0x80;

/// Whether any bit of `mask` is set in `f`.
pub open spec fn flag(f: u8, mask: u8) -> bool {
    f & mask != 0
}

/// `f` with the bits of `mask` set or cleared.
pub open spec fn with_flag(f: u8, mask: u8, val: bool) -> u8 {
    if val {
        f | mask
    } else {
        f & !mask
    }
}

/// The flag byte with the given eight flags, most significant first.
pub open spec fn pack(s: bool, z: bool, y: bool, h: bool, x: bool, pv: bool, n: bool, c: bool) -> u8 {
    (if s { 0x80u8 } else { 0u8 }) | (if z { 0x40u8 } else { 0u8 }) | (if y { 0x20u8 } else { 0u8 })
        | (if h { 0x10u8 } else { 0u8 }) | (if x { 0x08u8 } else { 0u8 }) | (if pv { 0x04u8 } else { 0u8 })
        | (if n { 0x02u8 } else { 0u8 }) | (if c { 0x01u8 } else { 0u8 })
}

/// Whether `v` has an even number of set bits.
pub open spec fn parity_even(v: u8) -> bool {
    let b0 = v & 0x01 != 0;
    let b1 = v & 0x02 != 0;
    let b2 = v & 0x04 != 0;
    let b3 = v & 0x08 != 0;
    let b4 = v & 0x10 != 0;
    let b5 = v & 0x20 != 0;
    let b6 = v & 0x40 != 0;
    let b7 = v & 0x80 != 0;
    ((b0 != b1) != (b2 != b3)) == ((b4 != b5) != (b6 != b7))
}

/// Each flag of a packed byte is the flag that went in.
pub proof fn lemma_pack(s: bool, z: bool, y: bool, h: bool, x: bool, pv: bool, n: bool, c: bool)
    by (bit_vector)
    ensures
        flag(pack(s, z, y, h, x, pv, n, c), FLAG_S) == s,
        flag(pack(s, z, y, h, x, pv, n, c), FLAG_Z) == z,
        flag(pack(s, z, y, h, x, pv, n, c), FLAG_Y) == y,
        flag(pack(s, z, y, h, x, pv, n, c), FLAG_H) == h,
        flag(pack(s, z, y, h, x, pv, n, c), FLAG_X) == x,
        flag(pack(s, z, y, h, x, pv, n, c), FLAG_PV) == pv,
        flag(pack(s, z, y, h, x, pv, n, c), FLAG_N) == n,
        flag(pack(s, z, y, h, x, pv, n, c), FLAG_C) == c,
{
}

/// A flag byte is the packing of its eight flags.
pub proof fn lemma_unpack(f: u8)
    by (bit_vector)
    ensures
        f == pack(
            flag(f, FLAG_S),
            flag(f, FLAG_Z),
            flag(f, FLAG_Y),
            flag(f, FLAG_H),
            flag(f, FLAG_X),
            flag(f, FLAG_PV),
            flag(f, FLAG_N),
            flag(f, FLAG_C),
        ),
{
}

/// Setting or clearing one flag gives that flag the new value and leaves
/// every flag outside the mask as it was.
pub proof fn lemma_with_flag(f: u8, mask: u8, val: bool, other: u8)
    by (bit_vector)
    requires
        mask != 0,
    ensures
        flag(with_flag(f, mask, val), mask) == val,
        other & mask == 0 ==> flag(with_flag(f, mask, val), other) == flag(f, other),
{
}

/// Builds the flag byte from its eight flags, most significant first.
pub fn pack_flags(s: bool, z: bool, y: bool, h: bool, x: bool, pv: bool, n: bool, c: bool) -> (f: u8)
    ensures
        f == pack(s, z, y, h, x, pv, n, c),
{
    (if s { 0x80u8 } else { 0u8 }) | (if z { 0x40u8 } else { 0u8 }) | (if y { 0x20u8 } else { 0u8 })
        | (if h { 0x10u8 } else { 0u8 }) | (if x { 0x08u8 } else { 0u8 }) | (if pv { 0x04u8 } else { 0u8 })
        | (if n { 0x02u8 } else { 0u8 }) | (if c { 0x01u8 } else { 0u8 })
}

/// Whether `v` has an even number of set bits.
pub fn has_even_parity(v: u8) -> (p: bool)
    ensures
        p == parity_even(v),
{
    let a: u8 = v ^ (v >> 4);
    let b: u8 = a ^ (a >> 2);
    let c: u8 = b ^ (b >> 1);
    assert(((v ^ (v >> 4)) ^ ((v ^ (v >> 4)) >> 2) ^ (((v ^ (v >> 4)) ^ ((v ^ (v >> 4)) >> 2)) >> 1))
        & 1 == 0 <==> parity_even(v)) by (bit_vector);
    c & 1 == 0
}

} // verus!
