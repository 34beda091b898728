//! The interrupt controller: the IME master flag, the IF/IE register pair in
//! memory, priority resolution and the handler vectors.

use vstd::prelude::*;

use crate::gb;
use crate::memory::Memory;
use crate::memory::MemView;
use crate::memory::spec_read;
use crate::memory::spec_write;

verus! {

#[derive(Clone, Copy, Debug, PartialEq, Eq, Structural)]
pub enum Interrupt {
    VBlank,
    LcdStat,
    Timer,
    Serial,
    Joypad,
}

/// The CPU's interrupt master enable, with the one-instruction delay that
/// EI asks for: `ime_pending` marks an enable that takes effect after the
/// next instruction.
#[derive(Clone, Copy, Debug, PartialEq, Eq, Structural)]
pub struct InterruptHandler {
    pub ime: bool,
    pub ime_pending: bool,
}

/// The IF/IE bit of each interrupt: V-Blank, LCD STAT, Timer, Serial,
/// Joypad in bits 0 to 4.
pub open spec fn spec_interrupt_mask(interrupt: Interrupt) -> u8 {
    match interrupt {
        Interrupt::VBlank => 0x1,
        Interrupt::LcdStat => 0x2,
        Interrupt::Timer => 0x4,
        Interrupt::Serial => 0x8,
        Interrupt::Joypad => 0x10,
    }
}

/// The highest-priority interrupt that is both requested and enabled;
/// V-Blank first, Joypad last.
pub open spec fn spec_pending_interrupt(m: MemView) -> Option<Interrupt> {
    let ie = spec_read(m, gb::IE);
    let iflags = spec_read(m, gb::IF);
    if ie & 0x1 != 0 && iflags & 0x1 != 0 {
        Some(Interrupt::VBlank)
    } else if ie & 0x2 != 0 && iflags & 0x2 != 0 {
        Some(Interrupt::LcdStat)
    } else if ie & 0x4 != 0 && iflags & 0x4 != 0 {
        Some(Interrupt::Timer)
    } else if ie & 0x8 != 0 && iflags & 0x8 != 0 {
        Some(Interrupt::Serial)
    } else if ie & 0x10 != 0 && iflags & 0x10 != 0 {
        Some(Interrupt::Joypad)
    } else {
        None
    }
}

/// Some interrupt is pending exactly when IF and IE share an enabled bit.
pub proof fn lemma_pending_iff_mask(m: MemView)
    ensures
        spec_pending_interrupt(m) is Some <==> spec_read(m, gb::IE) & spec_read(m, gb::IF) & 0x1F
            != 0,
{
    let ie = spec_read(m, gb::IE);
    let iflags = spec_read(m, gb::IF);
    assert((ie & iflags & 0x1F != 0) <==> ((ie & 0x1 != 0 && iflags & 0x1 != 0) || (ie & 0x2 != 0
        && iflags & 0x2 != 0) || (ie & 0x4 != 0 && iflags & 0x4 != 0) || (ie & 0x8 != 0 && iflags
        & 0x8 != 0) || (ie & 0x10 != 0 && iflags & 0x10 != 0))) by (bit_vector);
}

impl InterruptHandler {
    pub fn new() -> (r: InterruptHandler)
        ensures
            r == (InterruptHandler { ime: false, ime_pending: false }),
    {
        InterruptHandler { ime: false, ime_pending: false }
    }

    pub fn interrupts_enabled(&self) -> (r: bool)
        ensures
            r == self.ime,
    {
        self.ime
    }

    pub fn enable_interrupts(&mut self)
        ensures
            *final(self) == (InterruptHandler { ime: true, ..*old(self) }),
    {
        self.ime = true;
    }

    pub fn disable_interrupts(&mut self)
        ensures
            *final(self) == (InterruptHandler { ime: false, ime_pending: false }),
    {
        self.ime = false;
        self.ime_pending = false;
    }

    /// Requests an interrupt: sets its bit in IF.
    pub fn set_interrupt(&self, memory: &mut Memory, interrupt: Interrupt)
        requires
            old(memory).wf(),
        ensures
            final(memory).wf(),
            final(memory)@ == spec_write(
                old(memory)@,
                gb::IF,
                spec_read(old(memory)@, gb::IF) | spec_interrupt_mask(interrupt),
            ),
    {
        let iflags = memory.read_byte(gb::IF);
        let mask = match interrupt {
            Interrupt::VBlank => 0x1,
            Interrupt::LcdStat => 0x2,
            Interrupt::Timer => 0x4,
            Interrupt::Serial => 0x8,
            Interrupt::Joypad => 0x10,
        };
        memory.write_byte(gb::IF, iflags | mask);
    }

    /// Acknowledges an interrupt: clears its bit in IF, leaving others pending.
    pub fn clear_interrupt(&self, memory: &mut Memory, interrupt: Interrupt)
        requires
            old(memory).wf(),
        ensures
            final(memory).wf(),
            final(memory)@ == spec_write(
                old(memory)@,
                gb::IF,
                spec_read(old(memory)@, gb::IF) & !spec_interrupt_mask(interrupt),
            ),
    {
        let iflags = memory.read_byte(gb::IF);
        let mask: u8 = match interrupt {
            Interrupt::VBlank => 0x1,
            Interrupt::LcdStat => 0x2,
            Interrupt::Timer => 0x4,
            Interrupt::Serial => 0x8,
            Interrupt::Joypad => 0x10,
        };
        memory.write_byte(gb::IF, iflags & !mask);
    }

    /// Picks the highest-priority pending interrupt and acknowledges it.
    pub fn check_interrupts(&self, memory: &mut Memory) -> (r: Option<Interrupt>)
        requires
            old(memory).wf(),
        ensures
            final(memory).wf(),
            r == spec_pending_interrupt(old(memory)@),
            final(memory)@ == match r {
                Some(interrupt) => spec_write(
                    old(memory)@,
                    gb::IF,
                    spec_read(old(memory)@, gb::IF) & !spec_interrupt_mask(interrupt),
                ),
                None => old(memory)@,
            },
    {
        let ie = memory.read_byte(gb::IE);
        let iflags = memory.read_byte(gb::IF);
        if ie & 0x1 != 0 && iflags & 0x1 != 0 {
            self.clear_interrupt(memory, Interrupt::VBlank);
            Some(Interrupt::VBlank)
        } else if ie & 0x2 != 0 && iflags & 0x2 != 0 {
            self.clear_interrupt(memory, Interrupt::LcdStat);
            Some(Interrupt::LcdStat)
        } else if ie & 0x4 != 0 && iflags & 0x4 != 0 {
            self.clear_interrupt(memory, Interrupt::Timer);
            Some(Interrupt::Timer)
        } else if ie & 0x8 != 0 && iflags & 0x8 != 0 {
            self.clear_interrupt(memory, Interrupt::Serial);
            Some(Interrupt::Serial)
        } else if ie & 0x10 != 0 && iflags & 0x10 != 0 {
            self.clear_interrupt(memory, Interrupt::Joypad);
            Some(Interrupt::Joypad)
        } else {
            None
        }
    }
}

/// The handler vector of each interrupt: 0x40, 0x48, 0x50, 0x58, 0x60.
pub open spec fn spec_interrupt_address(interrupt: Interrupt) -> u16 {
    match interrupt {
        Interrupt::VBlank => 0x40,
        Interrupt::LcdStat => 0x48,
        Interrupt::Timer => 0x50,
        Interrupt::Serial => 0x58,
        Interrupt::Joypad => 0x60,
    }
}

pub fn address_for_interrupt(interrupt: Interrupt) -> (a: u16)
    ensures
        a == spec_interrupt_address(interrupt),
{
    match interrupt {
        Interrupt::VBlank => 0x40,
        Interrupt::LcdStat => 0x48,
        Interrupt::Timer => 0x50,
        Interrupt::Serial => 0x58,
        Interrupt::Joypad => 0x60,
    }
}

} // verus!
