//! The arithmetic/logic core: every 8-bit operation with its exact
//! Z/N/H/C flag semantics, the 16-bit pointer additions, and the
//! single-bit helpers of the prefixed page.

use vstd::prelude::*;

use crate::arith::wrap8;
use crate::arith::wrap16;

verus! {

pub open spec fn bint(b: bool) -> int {
    if b {
        1
    } else {
        0
    }
}

/// ADD/ADC: result, Z, N, H, C. H is carry out of bit 3, C out of bit 7;
/// the carry-in joins both the sum and the half-carry test.
pub open spec fn spec_alu_add(a: u8, x: u8, cin: bool) -> (u8, bool, bool, bool, bool) {
    let r = wrap8(a + x + bint(cin));
    (r, r == 0, false, a % 16 + x % 16 + bint(cin) > 15, a + x + bint(cin) > 255)
}

/// SUB/SBC/CP: result, Z, N, H, C. H is a borrow from bit 4, C a full borrow;
/// the carry-in joins the subtrahend.
pub open spec fn spec_alu_sub(a: u8, x: u8, cin: bool) -> (u8, bool, bool, bool, bool) {
    let r = wrap8(a - x - bint(cin));
    (r, r == 0, true, a % 16 < x % 16 + bint(cin), (a as int) < x + bint(cin))
}

pub open spec fn spec_alu_and(a: u8, x: u8) -> (u8, bool, bool, bool, bool) {
    let r = a & x;
    (r, r == 0, false, true, false)
}

pub open spec fn spec_alu_or(a: u8, x: u8) -> (u8, bool, bool, bool, bool) {
    let r = a | x;
    (r, r == 0, false, false, false)
}

pub open spec fn spec_alu_xor(a: u8, x: u8) -> (u8, bool, bool, bool, bool) {
    let r = a ^ x;
    (r, r == 0, false, false, false)
}

/// INC: result, Z, N, H. C is left unchanged by the caller.
pub open spec fn spec_alu_inc(v: u8) -> (u8, bool, bool, bool) {
    let r = wrap8(v + 1);
    (r, r == 0, false, v % 16 + 1 > 15)
}

/// DEC: result, Z, N, H. C is left unchanged by the caller.
pub open spec fn spec_alu_dec(v: u8) -> (u8, bool, bool, bool) {
    let r = wrap8(v - 1);
    (r, r == 0, true, v % 16 == 0)
}

/// DAA: result, Z, C. After an addition the accumulator is adjusted by
/// 0x06/0x60 when H/C or the decimal bounds ask for it, setting C with the
/// high adjustment; after a subtraction only the flagged adjustments are
/// undone and C is kept.
pub open spec fn spec_alu_daa(a: u8, n: bool, h: bool, c: bool) -> (u8, bool, bool) {
    if !n {
        let lo_adj: u8 = if h || a % 16 > 9 {
            6u8
        } else {
            0u8
        };
        let hi_adj: u8 = if c || a > 0x99 {
            0x60u8
        } else {
            0u8
        };
        let r = wrap8(a + lo_adj + hi_adj);
        (r, r == 0, c || a > 0x99)
    } else {
        let lo_adj: u8 = if h {
            6u8
        } else {
            0u8
        };
        let hi_adj: u8 = if c {
            0x60u8
        } else {
            0u8
        };
        let r = wrap8(a - lo_adj - hi_adj);
        (r, r == 0, c)
    }
}

/// A rotate by one bit: result and the bit shifted out. The bit shifted in
/// is the carry flag when rotating through carry, else the bit shifted out.
pub open spec fn spec_alu_rotate(v: u8, left: bool, through_carry: bool, cin: bool) -> (u8, bool) {
    if left {
        let out = v / 128;
        let into = if through_carry {
            bint(cin)
        } else {
            out as int
        };
        (((v % 128) * 2 + into) as u8, out == 1)
    } else {
        let out = v % 2;
        let into = if through_carry {
            bint(cin)
        } else {
            out as int
        };
        ((v / 2 + into * 128) as u8, out == 1)
    }
}

/// A shift by one bit: result and the bit shifted out. A right shift is
/// arithmetic (keeps bit 7) unless `logical`.
pub open spec fn spec_alu_shift(v: u8, left: bool, logical: bool) -> (u8, bool) {
    if left {
        (((v % 128) * 2) as u8, v / 128 == 1)
    } else if logical {
        (v / 2, v % 2 == 1)
    } else {
        ((v / 2 + (v / 128) * 128) as u8, v % 2 == 1)
    }
}

pub open spec fn spec_alu_swap(v: u8) -> u8 {
    ((v % 16) * 16 + v / 16) as u8
}

/// The power of two selecting a bit; indices wrap at 8.
pub open spec fn spec_bit_mask(index: u8) -> u8 {
    let k = index % 8;
    if k == 0 {
        1u8
    } else if k == 1 {
        2u8
    } else if k == 2 {
        4u8
    } else if k == 3 {
        8u8
    } else if k == 4 {
        16u8
    } else if k == 5 {
        32u8
    } else if k == 6 {
        64u8
    } else {
        128u8
    }
}

/// The selected bit of `v`, 0 or 1.
pub open spec fn spec_bit_value(v: u8, index: u8) -> u8 {
    (v / spec_bit_mask(index) % 2) as u8
}

/// `v` with the selected bit forced to `bit` (nonzero meaning set).
pub open spec fn spec_with_bit(v: u8, index: u8, bit: u8) -> u8 {
    let m = spec_bit_mask(index);
    if bit == 0 {
        if spec_bit_value(v, index) == 1 {
            (v - m) as u8
        } else {
            v
        }
    } else {
        if spec_bit_value(v, index) == 1 {
            v
        } else {
            (v + m) as u8
        }
    }
}

/// ADD HL,rr: result, H (carry out of bit 11), C (carry out of bit 15).
pub open spec fn spec_alu_add16(a: u16, b: u16) -> (u16, bool, bool) {
    (wrap16(a + b), a % 0x1000 + b % 0x1000 > 0xFFF, a + b > 0xFFFF)
}

/// The two's-complement byte of a signed displacement.
pub open spec fn spec_i8_to_u8(d: i8) -> u8 {
    if d >= 0 {
        d as u8
    } else {
        (d + 256) as u8
    }
}

/// ADD SP,s8 and LD HL,SP+s8: result, H, C. H and C come from the unsigned
/// addition of the displacement byte to SP's low byte.
pub open spec fn spec_alu_add_sp(sp: u16, d: i8) -> (u16, bool, bool) {
    let raw = spec_i8_to_u8(d);
    (wrap16(sp + d), sp % 16 + raw % 16 > 15, sp % 256 + raw > 255)
}

pub fn alu_add(a: u8, x: u8, cin: bool) -> (t: (u8, bool, bool, bool, bool))
    ensures
        t == spec_alu_add(a, x, cin),
{
    let ci: u16 = if cin {
        1
    } else {
        0
    };
    let sum: u16 = a as u16 + x as u16 + ci;
    let r = (sum % 256) as u8;
    (r, r == 0, false, a % 16 + x % 16 + ci as u8 > 15, sum > 255)
}

pub fn alu_sub(a: u8, x: u8, cin: bool) -> (t: (u8, bool, bool, bool, bool))
    ensures
        t == spec_alu_sub(a, x, cin),
{
    let ci: u16 = if cin {
        1
    } else {
        0
    };
    let total: u16 = x as u16 + ci;
    let diff: u16 = (a as u16 + 256 - total) % 256;
    let r = diff as u8;
    proof {
        assert(r == wrap8(a - x - bint(cin)));
    }
    (r, r == 0, true, a % 16 < x % 16 + ci as u8, (a as u16) < total)
}

pub fn alu_and(a: u8, x: u8) -> (t: (u8, bool, bool, bool, bool))
    ensures
        t == spec_alu_and(a, x),
{
    let r = a & x;
    (r, r == 0, false, true, false)
}

pub fn alu_or(a: u8, x: u8) -> (t: (u8, bool, bool, bool, bool))
    ensures
        t == spec_alu_or(a, x),
{
    let r = a | x;
    (r, r == 0, false, false, false)
}

pub fn alu_xor(a: u8, x: u8) -> (t: (u8, bool, bool, bool, bool))
    ensures
        t == spec_alu_xor(a, x),
{
    let r = a ^ x;
    (r, r == 0, false, false, false)
}

pub fn alu_inc(v: u8) -> (t: (u8, bool, bool, bool))
    ensures
        t == spec_alu_inc(v),
{
    let r = ((v as u16 + 1) % 256) as u8;
    (r, r == 0, false, v % 16 + 1 > 15)
}

pub fn alu_dec(v: u8) -> (t: (u8, bool, bool, bool))
    ensures
        t == spec_alu_dec(v),
{
    let r = if v == 0 {
        255u8
    } else {
        v - 1
    };
    proof {
        assert(r == wrap8(v - 1));
    }
    (r, r == 0, true, v % 16 == 0)
}

pub fn alu_daa(a: u8, n: bool, h: bool, c: bool) -> (t: (u8, bool, bool))
    ensures
        t == spec_alu_daa(a, n, h, c),
{
    if !n {
        let lo_adj: u8 = if h || a % 16 > 9 {
            6
        } else {
            0
        };
        let hi_adj: u8 = if c || a > 0x99 {
            0x60
        } else {
            0
        };
        let r = ((a as u16 + lo_adj as u16 + hi_adj as u16) % 256) as u8;
        (r, r == 0, c || a > 0x99)
    } else {
        let lo_adj: u8 = if h {
            6u8
        } else {
            0
        };
        let hi_adj: u8 = if c {
            0x60u8
        } else {
            0
        };
        let r = ((a as u16 + 256 - lo_adj as u16 - hi_adj as u16) % 256) as u8;
        proof {
            assert(r == wrap8(a - lo_adj - hi_adj));
        }
        (r, r == 0, c)
    }
}

pub fn alu_rotate(v: u8, left: bool, through_carry: bool, cin: bool) -> (t: (u8, bool))
    ensures
        t == spec_alu_rotate(v, left, through_carry, cin),
{
    if left {
        let out = v / 128;
        let into: u8 = if through_carry {
            if cin {
                1
            } else {
                0
            }
        } else {
            out
        };
        ((v % 128) * 2 + into, out == 1)
    } else {
        let out = v % 2;
        let into: u8 = if through_carry {
            if cin {
                1
            } else {
                0
            }
        } else {
            out
        };
        (v / 2 + into * 128, out == 1)
    }
}

pub fn alu_shift(v: u8, left: bool, logical: bool) -> (t: (u8, bool))
    ensures
        t == spec_alu_shift(v, left, logical),
{
    if left {
        ((v % 128) * 2, v / 128 == 1)
    } else if logical {
        (v / 2, v % 2 == 1)
    } else {
        (v / 2 + (v / 128) * 128, v % 2 == 1)
    }
}

pub fn alu_swap(v: u8) -> (r: u8)
    ensures
        r == spec_alu_swap(v),
{
    (v % 16) * 16 + v / 16
}

pub fn bit_mask(index: u8) -> (m: u8)
    ensures
        m == spec_bit_mask(index),
{
    let k = index % 8;
    if k == 0 {
        1
    } else if k == 1 {
        2
    } else if k == 2 {
        4
    } else if k == 3 {
        8
    } else if k == 4 {
        16
    } else if k == 5 {
        32
    } else if k == 6 {
        64
    } else {
        128
    }
}

pub fn bit_value(v: u8, index: u8) -> (b: u8)
    ensures
        b == spec_bit_value(v, index),
{
    v / bit_mask(index) % 2
}

pub fn with_bit(v: u8, index: u8, bit: u8) -> (r: u8)
    ensures
        r == spec_with_bit(v, index, bit),
{
    let m = bit_mask(index);
    let cur = bit_value(v, index);
    if bit == 0 {
        if cur == 1 {
            v - m
        } else {
            v
        }
    } else {
        if cur == 1 {
            v
        } else {
            proof {
                assert(v / spec_bit_mask(index) % 2 == 0 ==> v + spec_bit_mask(index) <= 255);
            }
            v + m
        }
    }
}

pub fn alu_add16(a: u16, b: u16) -> (t: (u16, bool, bool))
    ensures
        t == spec_alu_add16(a, b),
{
    let sum: u32 = a as u32 + b as u32;
    ((sum % 0x10000) as u16, a % 0x1000 + b % 0x1000 > 0xFFF, sum > 0xFFFF)
}

pub fn i8_to_u8(d: i8) -> (r: u8)
    ensures
        r == spec_i8_to_u8(d),
{
    if d >= 0 {
        d as u8
    } else {
        (d as i16 + 256) as u8
    }
}

pub fn alu_add_sp(sp: u16, d: i8) -> (t: (u16, bool, bool))
    ensures
        t == spec_alu_add_sp(sp, d),
{
    let raw = i8_to_u8(d);
    let r = crate::arith::wrap_add16_signed(sp, raw);
    proof {
        assert(crate::arith::sext8(spec_i8_to_u8(d)) == d as int);
    }
    (r, sp % 16 + raw as u16 % 16 > 15, sp % 256 + raw as u16 > 255)
}

} // verus!
