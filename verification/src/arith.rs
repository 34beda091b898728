//! Wrapping 16-bit arithmetic and sign extension, as the SM83 uses them.

use vstd::prelude::*;

verus! {

/// A value reduced to 16 bits, the way the address and stack arithmetic wraps.
pub open spec fn wrap16(x: int) -> u16 {
    (x % 0x10000) as u16
}

/// A value reduced to 8 bits, the way the accumulator arithmetic wraps.
pub open spec fn wrap8(x: int) -> u8 {
    (x % 0x100) as u8
}

/// A byte read as a signed displacement in two's complement.
pub open spec fn sext8(b: u8) -> int {
    if b < 128 {
        b as int
    } else {
        b - 256
    }
}

pub fn wrap_add16(a: u16, b: u16) -> (r: u16)
    ensures
        r == wrap16(a + b),
{
    let s: u32 = a as u32 + b as u32;
    (s % 0x10000) as u16
}

pub fn wrap_sub16(a: u16, b: u16) -> (r: u16)
    ensures
        r == wrap16(a - b),
{
    if a >= b {
        a - b
    } else {
        let s: u32 = 0x10000 + a as u32 - b as u32;
        (s % 0x10000) as u16
    }
}

/// The program counter moved by a signed 8-bit displacement.
pub fn wrap_add16_signed(a: u16, b: u8) -> (r: u16)
    ensures
        r == wrap16(a + sext8(b)),
{
    if b < 128 {
        wrap_add16(a, b as u16)
    } else {
        let r = wrap_sub16(a, 256 - b as u16);
        proof {
            assert((a + (b - 256)) % 0x10000 == (a - (256 - b)) % 0x10000);
        }
        r
    }
}

} // verus!
