//! The memory-mapped address space: ROM banks, VRAM, external RAM, work RAM,
//! OAM, MMIO registers and HRAM, with the boot-ROM overlay and the DMA copy.

use vstd::prelude::*;

use crate::arith::wrap16;
use crate::arith::wrap_add16;

verus! {

pub const ROM0_START: u16 = 0x0000;
pub const ROM0_END: u16 = 0x3FFF;
pub const ROM1_START: u16 = 0x4000;
pub const ROM1_END: u16 = 0x7FFF;
pub const VRAM_START: u16 = 0x8000;
pub const VRAM_END: u16 = 0x9FFF;
pub const ERAM_START: u16 = 0xA000;
pub const ERAM_END: u16 = 0xBFFF;
pub const WRAM_START: u16 = 0xC000;
pub const WRAM_END: u16 = 0xDFFF;
pub const OAM_START: u16 = 0xFE00;
pub const OAM_END: u16 = 0xFE9F;
pub const IO_START: u16 = 0xFF00;
pub const IO_END: u16 = 0xFF7F;
pub const HRAM_START: u16 = 0xFF80;
pub const HRAM_END: u16 = 0xFFFE;
pub const IR: u16 = 0xFFFF;

pub struct Memory {
    pub rom_bank0: Vec<u8>,
    pub rom_bank1: Vec<u8>,
    pub vram: Vec<u8>,
    pub eram: Vec<u8>,
    pub wram: Vec<u8>,
    pub oam: Vec<u8>,
    pub io: Vec<u8>,
    pub hram: Vec<u8>,
    pub interrupt_register: u8,
    pub rom_low_bytes: Vec<u8>,
}

/// The memory as mathematics: one sequence per region.
#[verifier::ext_equal]
pub struct MemView {
    pub rom_bank0: Seq<u8>,
    pub rom_bank1: Seq<u8>,
    pub vram: Seq<u8>,
    pub eram: Seq<u8>,
    pub wram: Seq<u8>,
    pub oam: Seq<u8>,
    pub io: Seq<u8>,
    pub hram: Seq<u8>,
    pub interrupt_register: u8,
    pub rom_low_bytes: Seq<u8>,
}

impl View for Memory {
    type V = MemView;

    open spec fn view(&self) -> MemView {
        MemView {
            rom_bank0: self.rom_bank0@,
            rom_bank1: self.rom_bank1@,
            vram: self.vram@,
            eram: self.eram@,
            wram: self.wram@,
            oam: self.oam@,
            io: self.io@,
            hram: self.hram@,
            interrupt_register: self.interrupt_register,
            rom_low_bytes: self.rom_low_bytes@,
        }
    }
}

impl MemView {
    /// Every region has its fixed size.
    pub open spec fn wf(self) -> bool {
        &&& self.rom_bank0.len() == 0x4000
        &&& self.rom_bank1.len() == 0x4000
        &&& self.vram.len() == 0x2000
        &&& self.eram.len() == 0x2000
        &&& self.wram.len() == 0x2000
        &&& self.oam.len() == 0xA0
        &&& self.io.len() == 0x80
        &&& self.hram.len() == 0x7F
        &&& self.rom_low_bytes.len() == 0x100
    }
}

/// What a read of each address returns: the backing region's byte, or 0xFF
/// for the echo and prohibited ranges. Treating the WRAM echo as unmapped
/// (reads 0xFF, writes dropped) rather than mirroring WRAM is deliberate;
/// no-MBC cartridge code never relies on the mirror.
pub open spec fn spec_read(m: MemView, a: u16) -> u8 {
    if a < 0x4000 {
        m.rom_bank0[a as int]
    } else if a < 0x8000 {
        m.rom_bank1[a - 0x4000]
    } else if a < 0xA000 {
        m.vram[a - 0x8000]
    } else if a < 0xC000 {
        m.eram[a - 0xA000]
    } else if a < 0xE000 {
        m.wram[a - 0xC000]
    } else if a < 0xFE00 {
        0xFF
    } else if a < 0xFEA0 {
        m.oam[a - 0xFE00]
    } else if a < 0xFF00 {
        0xFF
    } else if a < 0xFF80 {
        m.io[a - 0xFF00]
    } else if a < 0xFFFF {
        m.hram[a - 0xFF80]
    } else {
        m.interrupt_register
    }
}

/// A 16-bit read, little-endian: the low byte at the lower address.
pub open spec fn spec_read_word(m: MemView, a: u16) -> u16 {
    (spec_read(m, a) + spec_read(m, wrap16(a + 1)) * 256) as u16
}

/// Addresses where a written byte is stored and read back unchanged:
/// VRAM, external RAM, work RAM, OAM, HRAM, IE, and the MMIO registers
/// except LY (writes reset it to zero).
pub open spec fn ram_writable(a: u16) -> bool {
    ||| (0x8000 <= a && a < 0xE000)
    ||| (0xFE00 <= a && a < 0xFEA0)
    ||| (0xFF00 <= a && a != 0xFF44)
}

/// The DMA copy: 160 bytes from `value * 256` land in OAM, and the DMA
/// register itself keeps the written value.
pub open spec fn spec_dma(m: MemView, value: u8) -> MemView {
    MemView {
        oam: Seq::new(0xA0, |j: int| spec_read(m, (value * 256 + j) as u16)),
        io: m.io.update(0x46, value),
        ..m
    }
}

/// What a write to each address does: RAM regions store the byte; ROM, echo
/// and prohibited writes are dropped; LY resets to zero; DMA starts the copy.
pub open spec fn spec_write(m: MemView, a: u16, v: u8) -> MemView {
    if a < 0x8000 {
        m
    } else if a < 0xA000 {
        MemView { vram: m.vram.update(a - 0x8000, v), ..m }
    } else if a < 0xC000 {
        MemView { eram: m.eram.update(a - 0xA000, v), ..m }
    } else if a < 0xE000 {
        MemView { wram: m.wram.update(a - 0xC000, v), ..m }
    } else if a < 0xFE00 {
        m
    } else if a < 0xFEA0 {
        MemView { oam: m.oam.update(a - 0xFE00, v), ..m }
    } else if a < 0xFF00 {
        m
    } else if a == 0xFF44 {
        MemView { io: m.io.update(0x44, 0u8), ..m }
    } else if a == 0xFF46 {
        spec_dma(m, v)
    } else if a < 0xFF80 {
        MemView { io: m.io.update(a - 0xFF00, v), ..m }
    } else if a < 0xFFFF {
        MemView { hram: m.hram.update(a - 0xFF80, v), ..m }
    } else {
        MemView { interrupt_register: v, ..m }
    }
}

/// One MMIO register stored as the display hardware stores it.
pub open spec fn spec_set_io(m: MemView, idx: int, value: u8) -> MemView {
    MemView { io: m.io.update(idx, value), ..m }
}

/// A 16-bit write, little-endian: the low byte first, at the lower address.
pub open spec fn spec_write_word(m: MemView, a: u16, v: u16) -> MemView {
    spec_write(spec_write(m, a, (v % 256) as u8), wrap16(a + 1), (v / 256) as u8)
}

impl Memory {
    pub open spec fn wf(&self) -> bool {
        self@.wf()
    }

    /// Builds the address space from a 256-byte boot ROM and a cartridge
    /// image of at least 32 KiB. The boot ROM overlays the cartridge's
    /// first 256 bytes, which are kept aside for `replace_bootrom`.
    pub fn new(bootrom: &Vec<u8>, rom: &Vec<u8>) -> (m: Memory)
        requires
            bootrom@.len() == 0x100,
            rom@.len() >= 0x8000,
        ensures
            m.wf(),
            m@.rom_bank0 == bootrom@ + rom@.subrange(0x100, 0x4000),
            m@.rom_bank1 == rom@.subrange(0x4000, 0x8000),
            m@.rom_low_bytes == rom@.subrange(0, 0x100),
            m@.vram == Seq::new(0x2000, |i: int| 0u8),
            m@.eram == Seq::new(0x2000, |i: int| 0u8),
            m@.wram == Seq::new(0x2000, |i: int| 0u8),
            m@.oam == Seq::new(0xA0, |i: int| 0u8),
            m@.io == Seq::new(0x80, |i: int| 0u8),
            m@.hram == Seq::new(0x7F, |i: int| 0u8),
            m@.interrupt_register == 0,
    {
        let mut rom_bank0 = copy_range(bootrom, 0, 0x100);
        let mut tail = copy_range(rom, 0x100, 0x4000);
        rom_bank0.append(&mut tail);
        proof {
            assert(rom_bank0@ =~= bootrom@ + rom@.subrange(0x100, 0x4000));
        }
        let m = Memory {
            rom_bank0,
            rom_bank1: copy_range(rom, 0x4000, 0x8000),
            vram: zero_vec(0x2000),
            eram: zero_vec(0x2000),
            wram: zero_vec(0x2000),
            oam: zero_vec(0xA0),
            io: zero_vec(0x80),
            hram: zero_vec(0x7F),
            interrupt_register: 0,
            rom_low_bytes: copy_range(rom, 0, 0x100),
        };
        m
    }

    pub fn read_byte(&self, address: u16) -> (v: u8)
        requires
            self.wf(),
        ensures
            v == spec_read(self@, address),
    {
        if address < 0x4000 {
            self.rom_bank0[address as usize]
        } else if address < 0x8000 {
            self.rom_bank1[(address - 0x4000) as usize]
        } else if address < 0xA000 {
            self.vram[(address - 0x8000) as usize]
        } else if address < 0xC000 {
            self.eram[(address - 0xA000) as usize]
        } else if address < 0xE000 {
            self.wram[(address - 0xC000) as usize]
        } else if address < 0xFE00 {
            0xFF
        } else if address < 0xFEA0 {
            self.oam[(address - 0xFE00) as usize]
        } else if address < 0xFF00 {
            0xFF
        } else if address < 0xFF80 {
            self.io[(address - 0xFF00) as usize]
        } else if address < 0xFFFF {
            self.hram[(address - 0xFF80) as usize]
        } else {
            self.interrupt_register
        }
    }

    pub fn read_2_bytes(&self, a: u16) -> (v: u16)
        requires
            self.wf(),
        ensures
            v == spec_read_word(self@, a),
    {
        let lo = self.read_byte(a);
        let hi = self.read_byte(wrap_add16(a, 1));
        lo as u16 + hi as u16 * 256
    }

    pub fn write_byte(&mut self, address: u16, value: u8)
        requires
            old(self).wf(),
        ensures
            final(self).wf(),
            final(self)@ == spec_write(old(self)@, address, value),
    {
        if address < 0x8000 {
            // ROM: writes are dropped (no memory-bank controller).
        } else if address < 0xA000 {
            self.vram.set((address - 0x8000) as usize, value);
        } else if address < 0xC000 {
            self.eram.set((address - 0xA000) as usize, value);
        } else if address < 0xE000 {
            self.wram.set((address - 0xC000) as usize, value);
        } else if address < 0xFE00 {
            // echo of WRAM: writes are dropped
        } else if address < 0xFEA0 {
            self.oam.set((address - 0xFE00) as usize, value);
        } else if address < 0xFF00 {
            // prohibited region: writes are dropped
        } else if address == 0xFF44 {
            // LY resets to zero on any write
            self.io.set(0x44, 0);
        } else if address == 0xFF46 {
            self.dma_transfer(value);
        } else if address < 0xFF80 {
            self.io.set((address - 0xFF00) as usize, value);
        } else if address < 0xFFFF {
            self.hram.set((address - 0xFF80) as usize, value);
        } else {
            self.interrupt_register = value;
        }
        proof {
            assert(final(self)@ =~= spec_write(old(self)@, address, value));
        }
    }

    /// The OAM DMA: copies the 160 bytes at `value * 256` into OAM.
    fn dma_transfer(&mut self, value: u8)
        requires
            old(self).wf(),
        ensures
            final(self).wf(),
            final(self)@ == spec_dma(old(self)@, value),
    {
        let source: u16 = value as u16 * 256;
        let mut copied: Vec<u8> = Vec::new();
        let mut j: usize = 0;
        while j < 0xA0
            invariant
                self == old(self),
                self.wf(),
                source == value * 256,
                j <= 0xA0,
                copied@.len() == j,
                forall|k: int| 0 <= k < j ==> copied@[k] == spec_read(
                    self@,
                    (value * 256 + k) as u16,
                ),
            decreases 0xA0 - j,
        {
            copied.push(self.read_byte(wrap_add16(source, j as u16)));
            proof {
                assert(source + j < 0x10000);
                assert(wrap16(source + j) == (value * 256 + j) as u16);
            }
            j = j + 1;
        }
        let mut j: usize = 0;
        while j < 0xA0
            invariant
                old(self).wf(),
                copied@.len() == 0xA0,
                forall|k: int| 0 <= k < 0xA0 ==> copied@[k] == spec_read(
                    old(self)@,
                    (value * 256 + k) as u16,
                ),
                j <= 0xA0,
                self.oam@.len() == 0xA0,
                forall|k: int| 0 <= k < j ==> self.oam@[k] == copied@[k],
                forall|k: int| j <= k < 0xA0 ==> self.oam@[k] == old(self).oam@[k],
                self.rom_bank0 == old(self).rom_bank0,
                self.rom_bank1 == old(self).rom_bank1,
                self.vram == old(self).vram,
                self.eram == old(self).eram,
                self.wram == old(self).wram,
                self.io == old(self).io,
                self.hram == old(self).hram,
                self.interrupt_register == old(self).interrupt_register,
                self.rom_low_bytes == old(self).rom_low_bytes,
            decreases 0xA0 - j,
        {
            let b = copied[j];
            self.oam.set(j, b);
            j = j + 1;
        }
        self.io.set(0x46, value);
        proof {
            assert forall|k: int| 0 <= k < 0xA0 implies self.oam@[k] == spec_dma(
                old(self)@,
                value,
            ).oam[k] by {
                assert(self.oam@[k] == copied@[k]);
                assert(copied@[k] == spec_read(old(self)@, (value * 256 + k) as u16));
            }
            assert(self@.oam =~= spec_dma(old(self)@, value).oam);
            assert(self@ =~= spec_dma(old(self)@, value));
        }
    }

    pub fn write_2_bytes(&mut self, a: u16, value: u16)
        requires
            old(self).wf(),
        ensures
            final(self).wf(),
            final(self)@ == spec_write_word(old(self)@, a, value),
    {
        self.write_byte(a, (value % 256) as u8);
        self.write_byte(wrap_add16(a, 1), (value / 256) as u8);
    }

    /// The display hardware's own write port into the MMIO page: it stores
    /// a register byte directly, bypassing the CPU-facing write semantics
    /// (a CPU write to LY resets it; the PPU must be able to set it).
    pub fn set_io_reg(&mut self, idx: usize, value: u8)
        requires
            old(self).wf(),
            idx < 0x80,
        ensures
            final(self).wf(),
            final(self)@ == spec_set_io(old(self)@, idx as int, value),
    {
        self.io.set(idx, value);
    }

    /// Undoes the boot-ROM overlay: the saved first 256 cartridge bytes
    /// reappear at the bottom of ROM bank 0.
    pub fn replace_bootrom(&mut self)
        requires
            old(self).wf(),
        ensures
            final(self).wf(),
            final(self)@ == (MemView {
                rom_bank0: old(self)@.rom_low_bytes
                    + old(self)@.rom_bank0.subrange(0x100, 0x4000),
                ..old(self)@
            }),
    {
        let mut j: usize = 0;
        while j < 0x100
            invariant
                old(self).wf(),
                j <= 0x100,
                self.rom_bank0@.len() == 0x4000,
                forall|k: int| 0 <= k < j ==> self.rom_bank0@[k] == old(self).rom_low_bytes@[k],
                forall|k: int| j <= k < 0x4000 ==> self.rom_bank0@[k] == old(self).rom_bank0@[k],
                self.rom_bank1 == old(self).rom_bank1,
                self.vram == old(self).vram,
                self.eram == old(self).eram,
                self.wram == old(self).wram,
                self.oam == old(self).oam,
                self.io == old(self).io,
                self.hram == old(self).hram,
                self.interrupt_register == old(self).interrupt_register,
                self.rom_low_bytes == old(self).rom_low_bytes,
            decreases 0x100 - j,
        {
            let b = self.rom_low_bytes[j];
            self.rom_bank0.set(j, b);
            j = j + 1;
        }
        proof {
            assert(final(self)@.rom_bank0 =~= old(self)@.rom_low_bytes + old(
                self,
            )@.rom_bank0.subrange(0x100, 0x4000));
            assert(final(self)@ =~= (MemView {
                rom_bank0: old(self)@.rom_low_bytes + old(self)@.rom_bank0.subrange(0x100, 0x4000),
                ..old(self)@
            }));
        }
    }
}

/// A vector of `n` zero bytes.
fn zero_vec(n: usize) -> (v: Vec<u8>)
    ensures
        v@ == Seq::new(n as nat, |i: int| 0u8),
{
    let mut v: Vec<u8> = Vec::new();
    let mut j: usize = 0;
    while j < n
        invariant
            j <= n,
            v@.len() == j,
            forall|k: int| 0 <= k < j ==> v@[k] == 0u8,
        decreases n - j,
    {
        v.push(0);
        j = j + 1;
    }
    proof {
        assert(v@ =~= Seq::new(n as nat, |i: int| 0u8));
    }
    v
}

/// The bytes of `src` from `from` (inclusive) to `to` (exclusive).
fn copy_range(src: &Vec<u8>, from: usize, to: usize) -> (v: Vec<u8>)
    requires
        from <= to <= src@.len(),
    ensures
        v@ == src@.subrange(from as int, to as int),
{
    let mut v: Vec<u8> = Vec::new();
    let mut j: usize = from;
    while j < to
        invariant
            from <= j <= to <= src@.len(),
            v@.len() == j - from,
            forall|k: int| 0 <= k < j - from ==> v@[k] == src@[from + k],
        decreases to - j,
    {
        v.push(src[j]);
        j = j + 1;
    }
    proof {
        assert(v@ =~= src@.subrange(from as int, to as int));
    }
    v
}

/// A byte written to a RAM-writable address is read back unchanged.
pub proof fn lemma_write_read_byte(m: MemView, a: u16, v: u8)
    requires
        m.wf(),
        ram_writable(a),
    ensures
        spec_read(spec_write(m, a, v), a) == v,
{
}

/// A byte written to one address leaves every other address unchanged,
/// except for the DMA register, whose write also fills OAM.
pub proof fn lemma_write_other_byte(m: MemView, a: u16, b: u16, v: u8)
    requires
        m.wf(),
        a != b,
        a != 0xFF46,
    ensures
        spec_read(spec_write(m, a, v), b) == spec_read(m, b),
{
}

/// A word written to RAM-writable addresses is read back unchanged,
/// little-endian.
pub proof fn lemma_write_read_word(m: MemView, a: u16, v: u16)
    requires
        m.wf(),
        ram_writable(a),
        ram_writable(wrap16(a + 1)),
        a != 0xFF46,
        wrap16(a + 1) != 0xFF46,
    ensures
        spec_read_word(spec_write_word(m, a, v), a) == v,
{
    let lo = (v % 256) as u8;
    let hi = (v / 256) as u8;
    let a1 = wrap16(a + 1);
    assert(a1 != a);
    let m1 = spec_write(m, a, lo);
    assert(m1.wf());
    lemma_write_read_byte(m, a, lo);
    lemma_write_read_byte(m1, a1, hi);
    lemma_write_other_byte(m1, a1, a, hi);
    assert(spec_read(spec_write(m1, a1, hi), a) == lo);
}

} // verus!
