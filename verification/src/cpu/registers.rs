//! The SM83 register file: eight 8-bit registers with 16-bit paired views
//! and the four flag bits in the high nibble of F.

use vstd::prelude::*;

verus! {

/// The eight 8-bit registers. F's low nibble is zero whenever it is
/// written through `set_16bit`; the flag setters only touch the high nibble.
#[derive(Clone, Copy, Debug, PartialEq, Eq, Structural)]
pub struct Registers {
    pub a: u8,
    pub b: u8,
    pub c: u8,
    pub d: u8,
    pub e: u8,
    pub h: u8,
    pub l: u8,
    pub f: u8,
}

#[derive(Clone, Copy, Debug, PartialEq, Eq, Structural)]
pub enum Register {
    A,
    B,
    C,
    D,
    E,
    H,
    L,
}

#[derive(Clone, Copy, Debug, PartialEq, Eq, Structural)]
pub enum Flag {
    Zero,
    Subtract,
    HalfCarry,
    Carry,
}

#[derive(Clone, Copy, Debug, PartialEq, Eq, Structural)]
pub enum RegisterPair {
    Af,
    Bc,
    De,
    Hl,
}

/// Bit of F that holds the given flag: Z/N/H/C sit in bits 7/6/5/4.
pub open spec fn flag_mask(flag: Flag) -> u8 {
    match flag {
        Flag::Zero => 0x80,
        Flag::Subtract => 0x40,
        Flag::HalfCarry => 0x20,
        Flag::Carry => 0x10,
    }
}

impl Registers {
    pub open spec fn spec_get(self, reg: Register) -> u8 {
        match reg {
            Register::A => self.a,
            Register::B => self.b,
            Register::C => self.c,
            Register::D => self.d,
            Register::E => self.e,
            Register::H => self.h,
            Register::L => self.l,
        }
    }

    pub open spec fn spec_set(self, reg: Register, value: u8) -> Registers {
        match reg {
            Register::A => Registers { a: value, ..self },
            Register::B => Registers { b: value, ..self },
            Register::C => Registers { c: value, ..self },
            Register::D => Registers { d: value, ..self },
            Register::E => Registers { e: value, ..self },
            Register::H => Registers { h: value, ..self },
            Register::L => Registers { l: value, ..self },
        }
    }

    /// The paired 16-bit view: `(high << 8) | low`.
    pub open spec fn spec_pair(self, pair: RegisterPair) -> u16 {
        match pair {
            RegisterPair::Af => (self.a * 256 + self.f) as u16,
            RegisterPair::Bc => (self.b * 256 + self.c) as u16,
            RegisterPair::De => (self.d * 256 + self.e) as u16,
            RegisterPair::Hl => (self.h * 256 + self.l) as u16,
        }
    }

    /// Writing a pair stores `value / 256` in the high register and
    /// `value % 256` in the low one; a write to AF zeroes F's low nibble.
    pub open spec fn spec_set_pair(self, pair: RegisterPair, value: u16) -> Registers {
        let hi = (value / 256) as u8;
        let lo = (value % 256) as u8;
        match pair {
            RegisterPair::Af => Registers { a: hi, f: (lo / 16 * 16) as u8, ..self },
            RegisterPair::Bc => Registers { b: hi, c: lo, ..self },
            RegisterPair::De => Registers { d: hi, e: lo, ..self },
            RegisterPair::Hl => Registers { h: hi, l: lo, ..self },
        }
    }

    pub open spec fn spec_flag(self, flag: Flag) -> bool {
        self.f & flag_mask(flag) != 0
    }

    pub open spec fn spec_set_flag(self, flag: Flag, val: bool) -> Registers {
        if val {
            Registers { f: self.f | flag_mask(flag), ..self }
        } else {
            Registers { f: self.f & !flag_mask(flag), ..self }
        }
    }

    /// F value with the four flags as given and the low nibble kept.
    pub open spec fn spec_with_flags(self, z: bool, n: bool, h: bool, c: bool) -> Registers {
        let bits = (if z { 128u8 } else { 0u8 }) + (if n { 64u8 } else { 0u8 })
            + (if h { 32u8 } else { 0u8 }) + (if c { 16u8 } else { 0u8 });
        Registers { f: (self.f % 16 + bits) as u8, ..self }
    }

    pub fn new() -> (r: Registers)
        ensures
            r == (Registers { a: 0u8, b: 0u8, c: 0u8, d: 0u8, e: 0u8, h: 0u8, l: 0u8, f: 0u8 }),
    {
        Registers { a: 0, b: 0, c: 0, d: 0, e: 0, h: 0, l: 0, f: 0 }
    }

    pub fn get(&self, reg: &Register) -> (v: u8)
        ensures
            v == self.spec_get(*reg),
    {
        match reg {
            Register::A => self.a,
            Register::B => self.b,
            Register::C => self.c,
            Register::D => self.d,
            Register::E => self.e,
            Register::H => self.h,
            Register::L => self.l,
        }
    }

    pub fn set(&mut self, reg: &Register, value: u8)
        ensures
            *final(self) == old(self).spec_set(*reg, value),
    {
        match reg {
            Register::A => self.a = value,
            Register::B => self.b = value,
            Register::C => self.c = value,
            Register::D => self.d = value,
            Register::E => self.e = value,
            Register::H => self.h = value,
            Register::L => self.l = value,
        }
    }

    pub fn get_16bit(self: &Registers, reg_pair: &RegisterPair) -> (v: u16)
        ensures
            v == self.spec_pair(*reg_pair),
    {
        match reg_pair {
            RegisterPair::Af => Registers::get_combined_value(self.a, self.f),
            RegisterPair::Bc => Registers::get_combined_value(self.b, self.c),
            RegisterPair::De => Registers::get_combined_value(self.d, self.e),
            RegisterPair::Hl => Registers::get_combined_value(self.h, self.l),
        }
    }

    fn get_combined_value(r1: u8, r2: u8) -> (v: u16)
        ensures
            v == r1 * 256 + r2,
    {
        (r1 as u16) * 256 + (r2 as u16)
    }

    pub fn set_16bit(&mut self, reg_pair: &RegisterPair, value: u16)
        ensures
            *final(self) == old(self).spec_set_pair(*reg_pair, value),
    {
        let r1 = (value / 256) as u8;
        let r2 = (value % 256) as u8;

        match reg_pair {
            RegisterPair::Af => {
                self.a = r1;
                // only the upper 4 bits of F are used
                self.f = r2 / 16 * 16;
            }
            RegisterPair::Bc => {
                self.b = r1;
                self.c = r2;
            }
            RegisterPair::De => {
                self.d = r1;
                self.e = r2;
            }
            RegisterPair::Hl => {
                self.h = r1;
                self.l = r2;
            }
        }
    }

    pub fn get_flag(&self, flag: Flag) -> (b: bool)
        ensures
            b == self.spec_flag(flag),
    {
        let value = match flag {
            Flag::Zero => self.f & 0x80,
            Flag::Subtract => self.f & 0x40,
            Flag::HalfCarry => self.f & 0x20,
            Flag::Carry => self.f & 0x10,
        };
        value != 0
    }

    pub fn set_flag(&mut self, flag: Flag, val: bool)
        ensures
            *final(self) == old(self).spec_set_flag(flag, val),
    {
        if val {
            match flag {
                Flag::Zero => self.f = self.f | 0x80,
                Flag::Subtract => self.f = self.f | 0x40,
                Flag::HalfCarry => self.f = self.f | 0x20,
                Flag::Carry => self.f = self.f | 0x10,
            };
        } else {
            match flag {
                Flag::Zero => self.f = self.f & !0x80,
                Flag::Subtract => self.f = self.f & !0x40,
                Flag::HalfCarry => self.f = self.f & !0x20,
                Flag::Carry => self.f = self.f & !0x10,
            };
        };
    }

    /// Write all four flags at once, keeping F's low nibble.
    pub fn set_flags(&mut self, z: bool, n: bool, h: bool, c: bool)
        ensures
            *final(self) == old(self).spec_with_flags(z, n, h, c),
    {
        let bits = (if z { 128u8 } else { 0u8 }) + (if n { 64u8 } else { 0u8 })
            + (if h { 32u8 } else { 0u8 }) + (if c { 16u8 } else { 0u8 });
        self.f = self.f % 16 + bits;
    }
}

/// Writing a 16-bit pair and reading it back yields the value written,
/// except that a write to AF zeroes the low nibble of F.
pub proof fn lemma_set_pair_get_pair(regs: Registers, pair: RegisterPair, value: u16)
    ensures
        pair != RegisterPair::Af ==> regs.spec_set_pair(pair, value).spec_pair(pair) == value,
        pair == RegisterPair::Af ==> regs.spec_set_pair(pair, value).spec_pair(pair)
            == value & 0xFFF0,
{
    assert((value / 256) * 256 + (value % 256) / 16 * 16 == value & 0xFFF0) by (bit_vector);
    assert((value / 256) * 256 + value % 256 == value);
}

} // verus!
