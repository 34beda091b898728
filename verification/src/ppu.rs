//! The picture processing unit: a scanline state machine that shares the
//! machine clock with the CPU. Each frame is 154 lines of 114 m-cycles;
//! visible lines pass through OAM search, pixel transfer and H-blank, then
//! ten lines of V-blank. During pixel transfer the fetcher fills the
//! background FIFO from the tile maps and the pusher drains it into the
//! framebuffer through the BGP palette.
//!
//! Rendering is background-only: OAM search runs each visible line and
//! fills `sprite_buffer` with up to ten covering objects in draw order,
//! but the pixel pipeline does not yet merge object pixels over the
//! background, and the window layer is not fetched.

use vstd::prelude::*;

use crate::cpu::alu::spec_bit_value;
use crate::cpu::alu::bit_value;
use crate::arith::sext8;
use crate::gb;
use crate::memory::MemView;
use crate::memory::Memory;
use crate::memory::spec_read;
use crate::memory::spec_set_io;

verus! {

/// One FIFO entry: a 2-bit color index and its source tag
/// (0 background, 1 sprite).
#[derive(Clone, Copy, Debug, PartialEq, Eq, Structural)]
pub struct Pixel {
    pub color_index: u8,
    pub prio: u8,
}

/// One OAM entry: Y, X, tile index and attributes.
#[derive(Clone, Copy, Debug, PartialEq, Eq, Structural)]
pub struct Object {
    pub y: u8,
    pub x: u8,
    pub index: u8,
    pub attr: u8,
}

#[derive(Clone, Copy, Debug, PartialEq, Eq, Structural)]
pub enum LcdcFlag {
    Enable,
    WindowTileMapArea,
    EnableWindow,
    TileDataArea,
    TileMapArea,
    ObjectSize,
    ObjectEnable,
    BackgroundEnable,
}

pub struct Ppu {
    pub bg_fifo: Vec<Pixel>,
    pub cycles_this_frame: u32,
    pub x: u8,
    pub fetcher_x_position: u16,
    pub sprite_buffer: Vec<Object>,
}

#[verifier::ext_equal]
pub struct PpuView {
    pub bg_fifo: Seq<Pixel>,
    pub cycles_this_frame: u32,
    pub x: u8,
    pub fetcher_x_position: u16,
    pub sprite_buffer: Seq<Object>,
}

impl View for Ppu {
    type V = PpuView;

    open spec fn view(&self) -> PpuView {
        PpuView {
            bg_fifo: self.bg_fifo@,
            cycles_this_frame: self.cycles_this_frame,
            x: self.x,
            fetcher_x_position: self.fetcher_x_position,
            sprite_buffer: self.sprite_buffer@,
        }
    }
}

pub open spec fn spec_lcdc_mask(flag: LcdcFlag) -> u8 {
    match flag {
        LcdcFlag::Enable => 0x80,
        LcdcFlag::WindowTileMapArea => 0x40,
        LcdcFlag::EnableWindow => 0x20,
        LcdcFlag::TileDataArea => 0x10,
        LcdcFlag::TileMapArea => 0x08,
        LcdcFlag::ObjectSize => 0x04,
        LcdcFlag::ObjectEnable => 0x02,
        LcdcFlag::BackgroundEnable => 0x01,
    }
}

pub open spec fn spec_lcd_enabled(m: MemView) -> bool {
    spec_read(m, gb::LCDC) & 0x80 != 0
}

/// The scanline of a frame-cycle counter value.
pub open spec fn spec_line(c: u32) -> int {
    c as int / 114
}

/// The STAT mode of a frame-cycle counter value: V-blank on lines 144..153;
/// within a visible line, OAM search for 20 cycles, then 80 cycles of pixel
/// transfer (two pixels per cycle), then H-blank.
pub open spec fn spec_mode(c: u32) -> u8 {
    if c / 114 >= 144 {
        1
    } else if c % 114 < 20 {
        2
    } else if c % 114 < 100 {
        3
    } else {
        0
    }
}

/// The background color index of screen pixel (x, ly), straight from the
/// tile map and tile data that LCDC selects, scrolled by SCY/SCX.
pub open spec fn spec_bg_pixel(m: MemView, ly: u8, x: u8) -> u8 {
    let lcdc = spec_read(m, gb::LCDC);
    let scy = spec_read(m, gb::SCY);
    let scx = spec_read(m, gb::SCX);
    let map_base: int = if lcdc & 0x40 != 0 || lcdc & 0x08 != 0 {
        0x9C00
    } else {
        0x9800
    };
    let row = ((ly + scy) / 8) % 32;
    let col = ((x / 8) + scx / 8) % 32;
    let tile_line = (ly + scy) % 8;
    let tile_number = spec_read(m, (map_base + 32 * row + col) as u16);
    let data_addr: int = if lcdc & 0x10 != 0 {
        0x8000 + tile_number * 16 + 2 * tile_line
    } else {
        0x9000 + sext8(tile_number) * 16 + 2 * tile_line
    };
    let lo_byte = spec_read(m, data_addr as u16);
    let hi_byte = spec_read(m, (data_addr + 1) as u16);
    let p = x % 8;
    (spec_bit_value(hi_byte, (7 - p) as u8) * 2 + spec_bit_value(lo_byte, (7 - p) as u8)) as u8
}

/// The eight pixels of tile column `fx` on line `ly`, leftmost first.
pub open spec fn spec_fetch_row(m: MemView, ly: u8, fx: u16) -> Seq<Pixel> {
    Seq::new(8, |p: int| Pixel { color_index: spec_bg_pixel(m, ly, (8 * fx + p) as u8), prio: 0u8 })
}

/// The monochrome shade the BGP palette assigns to a color index.
pub open spec fn spec_shade(m: MemView, color_index: u8) -> u8 {
    let bgp = spec_read(m, gb::BG_PALETTE);
    let div: u8 = if color_index % 4 == 0 {
        1
    } else if color_index % 4 == 1 {
        4
    } else if color_index % 4 == 2 {
        16
    } else {
        64
    };
    (bgp / div % 4) as u8
}

/// The LCD green of each shade, darkest for 3.
pub open spec fn spec_color(i: u8) -> u32 {
    if i % 4 == 0 {
        0x009BBC0F
    } else if i % 4 == 1 {
        0x008BAC0F
    } else if i % 4 == 2 {
        0x00306230
    } else {
        0x000F380F
    }
}

/// The framebuffer word of a color index under the current BGP palette.
pub open spec fn spec_pixel_color(m: MemView, color_index: u8) -> u32 {
    spec_color(spec_shade(m, color_index))
}

/// The OAM entry at slot `k`: four bytes starting at 0xFE00 + 4k.
pub open spec fn spec_oam_entry(m: MemView, k: int) -> Object {
    Object {
        y: m.oam[4 * k],
        x: m.oam[4 * k + 1],
        index: m.oam[4 * k + 2],
        attr: m.oam[4 * k + 3],
    }
}

/// Whether an object covers scanline `ly`: its Y range contains LY+16 for
/// the sprite height LCDC selects, and its X is nonzero.
pub open spec fn spec_object_covers(m: MemView, o: Object, ly: u8) -> bool {
    let height: int = if spec_read(m, gb::LCDC) & 0x04 != 0 {
        16
    } else {
        8
    };
    o.y <= ly + 16 < o.y + height && o.x != 0
}

/// The first (by OAM slot) covering objects from slot `k` on, stopping once
/// `taken` of them have reached the ten-object limit.
pub open spec fn spec_select_rec(m: MemView, ly: u8, k: int, taken: int) -> Seq<Object>
    decreases 40 - k,
{
    if k < 0 || k >= 40 || taken >= 10 {
        Seq::empty()
    } else {
        let o = spec_oam_entry(m, k);
        if spec_object_covers(m, o, ly) {
            seq![o] + spec_select_rec(m, ly, k + 1, taken + 1)
        } else {
            spec_select_rec(m, ly, k + 1, taken)
        }
    }
}

/// An object placed before the first strictly larger X, after equals.
pub open spec fn spec_insert_by_x(o: Object, s: Seq<Object>) -> Seq<Object>
    decreases s.len(),
{
    if s.len() == 0 {
        seq![o]
    } else if o.x < s[0].x {
        seq![o] + s
    } else {
        seq![s[0]] + spec_insert_by_x(o, s.drop_first())
    }
}

/// Insertion sort by X, ascending, inserting left to right.
pub open spec fn spec_sort_by_x(s: Seq<Object>) -> Seq<Object>
    decreases s.len(),
{
    if s.len() == 0 {
        Seq::empty()
    } else {
        spec_insert_by_x(s.last(), spec_sort_by_x(s.drop_last()))
    }
}

impl PpuView {
    /// The pipeline keeps step with the frame counter: during pixel
    /// transfer the pusher has emitted two pixels per transfer cycle and
    /// the FIFO holds exactly the fetched-but-unpushed pixels; outside it
    /// the FIFO is empty and X is reset.
    pub open spec fn wf(self) -> bool {
        let c = self.cycles_this_frame;
        &&& c < 17556
        &&& self.sprite_buffer.len() <= 10
        &&& if spec_mode(c) == 3 {
            &&& self.x == 2 * (c % 114 - 20)
            &&& self.bg_fifo.len() == 8 * self.fetcher_x_position - self.x
            &&& self.bg_fifo.len() <= 16
        } else {
            &&& self.x == 0
            &&& self.bg_fifo.len() == 0
            &&& self.fetcher_x_position == 0
        }
    }
}

/// One m-cycle of the PPU. With the LCD disabled nothing moves. Otherwise:
/// at the start of a visible line the sprite buffer is rebuilt and the
/// pipeline reset; during pixel transfer the fetcher refills the FIFO
/// whenever it holds at most eight pixels and the pusher emits two pixels
/// through the palette; then the counter advances, LY and STAT follow it,
/// entering V-blank latches the V-Blank interrupt, and the STAT interrupt
/// fires on the enabled mode changes and on a rising LY=LYC coincidence.
pub open spec fn spec_tick(p: PpuView, m: MemView, fb: Seq<u32>) -> (PpuView, MemView, Seq<u32>) {
    if !spec_lcd_enabled(m) {
        (p, m, fb)
    } else {
        let c = p.cycles_this_frame;
        let line = spec_line(c);
        let lc = c % 114;
        let work = if line < 144 && lc == 0 {
            (
                PpuView {
                    bg_fifo: Seq::empty(),
                    x: 0,
                    fetcher_x_position: 0,
                    sprite_buffer: spec_sort_by_x(spec_select_rec(m, line as u8, 0, 0)),
                    ..p
                },
                fb,
            )
        } else if line < 144 && 20 <= lc && lc < 100 {
            let pf = if p.bg_fifo.len() <= 8 {
                PpuView {
                    bg_fifo: p.bg_fifo + spec_fetch_row(m, line as u8, p.fetcher_x_position),
                    fetcher_x_position: (p.fetcher_x_position + 1) as u16,
                    ..p
                }
            } else {
                p
            };
            let idx = line * 160 + p.x;
            let fb1 = fb.update(idx, spec_pixel_color(m, pf.bg_fifo[0].color_index)).update(
                idx + 1,
                spec_pixel_color(m, pf.bg_fifo[1].color_index),
            );
            (
                PpuView {
                    bg_fifo: pf.bg_fifo.subrange(2, pf.bg_fifo.len() as int),
                    x: (p.x + 2) as u8,
                    ..pf
                },
                fb1,
            )
        } else {
            (p, fb)
        };
        let c2: u32 = if c + 1 == 17556 {
            0
        } else {
            (c + 1) as u32
        };
        let mode_old = spec_mode(c);
        let mode_new = spec_mode(c2);
        let p1 = work.0;
        let p2 = if mode_old == 3 && mode_new != 3 {
            PpuView { bg_fifo: Seq::empty(), x: 0, fetcher_x_position: 0, ..p1 }
        } else {
            p1
        };
        let p3 = PpuView { cycles_this_frame: c2, ..p2 };
        let line2 = spec_line(c2);
        let lyc = spec_read(m, gb::LYC);
        let stat = spec_read(m, gb::LCD_STAT);
        let coinc_old = line == lyc;
        let coinc = line2 == lyc;
        let stat2 = ((stat & 0xF8) | (if coinc {
            4u8
        } else {
            0u8
        }) | mode_new) as u8;
        let vbl = c2 == 16416;
        let stat_int = (mode_new != mode_old && ((mode_new == 0 && stat & 0x08 != 0) || (mode_new
            == 1 && stat & 0x10 != 0) || (mode_new == 2 && stat & 0x20 != 0))) || (coinc
            && !coinc_old && stat & 0x40 != 0);
        let if2 = (spec_read(m, gb::IF) | (if vbl {
            1u8
        } else {
            0u8
        }) | (if stat_int {
            2u8
        } else {
            0u8
        })) as u8;
        let m1 = spec_set_io(
            spec_set_io(spec_set_io(m, 0x44, (line2 as u8)), 0x41, stat2),
            0x0F,
            if2,
        );
        (p3, m1, work.1)
    }
}

/// The PPU advanced by `n` m-cycles, one tick after another.
pub open spec fn spec_ppu_steps(p: PpuView, m: MemView, fb: Seq<u32>, n: nat) -> (
    PpuView,
    MemView,
    Seq<u32>,
)
    decreases n,
{
    if n == 0 {
        (p, m, fb)
    } else {
        let t = spec_tick(p, m, fb);
        spec_ppu_steps(t.0, t.1, t.2, (n - 1) as nat)
    }
}

impl Ppu {
    pub fn new() -> (r: Ppu)
        ensures
            r@ == (PpuView {
                bg_fifo: Seq::<Pixel>::empty(),
                cycles_this_frame: 0,
                x: 0,
                fetcher_x_position: 0,
                sprite_buffer: Seq::<Object>::empty(),
            }),
            r@.wf(),
    {
        let r = Ppu {
            bg_fifo: Vec::new(),
            cycles_this_frame: 0,
            x: 0,
            fetcher_x_position: 0,
            sprite_buffer: Vec::new(),
        };
        proof {
            assert(r@ =~= (PpuView {
                bg_fifo: Seq::<Pixel>::empty(),
                cycles_this_frame: 0,
                x: 0,
                fetcher_x_position: 0,
                sprite_buffer: Seq::<Object>::empty(),
            }));
        }
        r
    }

    /// Reads one LCDC control bit.
    pub fn check_lcdc(memory: &Memory, flag: LcdcFlag) -> (b: bool)
        requires
            memory.wf(),
        ensures
            b == (spec_read(memory@, gb::LCDC) & spec_lcdc_mask(flag) != 0),
    {
        let value: u8 = memory.read_byte(gb::LCDC);
        match flag {
            LcdcFlag::Enable => value & 0x80 != 0,
            LcdcFlag::WindowTileMapArea => value & 0x40 != 0,
            LcdcFlag::EnableWindow => value & 0x20 != 0,
            LcdcFlag::TileDataArea => value & 0x10 != 0,
            LcdcFlag::TileMapArea => value & 0x08 != 0,
            LcdcFlag::ObjectSize => value & 0x04 != 0,
            LcdcFlag::ObjectEnable => value & 0x02 != 0,
            LcdcFlag::BackgroundEnable => value & 0x01 != 0,
        }
    }

    /// Advances the PPU by `cycles` m-cycles, one `spec_tick` at a time,
    /// mutating LY, the STAT mode bits, the interrupt flags and — during
    /// pixel transfer — the framebuffer.
    pub fn step(&mut self, cycles: u32, memory: &mut Memory, buffer: &mut Vec<u32>)
        requires
            old(self)@.wf(),
            old(memory).wf(),
            old(buffer)@.len() == 23040,
        ensures
            final(self)@.wf(),
            final(memory).wf(),
            final(buffer)@.len() == 23040,
            final(self)@ == spec_ppu_steps(old(self)@, old(memory)@, old(buffer)@, cycles as nat).0,
            final(memory)@ == spec_ppu_steps(old(self)@, old(memory)@, old(buffer)@, cycles as nat).1,
            final(buffer)@ == spec_ppu_steps(old(self)@, old(memory)@, old(buffer)@, cycles as nat).2,
    {
        let mut cycles_taken: u32 = 0;
        while cycles_taken < cycles
            invariant
                self@.wf(),
                memory.wf(),
                buffer@.len() == 23040,
                cycles_taken <= cycles,
                self@ == spec_ppu_steps(old(self)@, old(memory)@, old(buffer)@, cycles_taken as nat).0,
                memory@ == spec_ppu_steps(old(self)@, old(memory)@, old(buffer)@, cycles_taken as nat).1,
                buffer@ == spec_ppu_steps(old(self)@, old(memory)@, old(buffer)@, cycles_taken as nat).2,
            decreases cycles - cycles_taken,
        {
            proof {
                lemma_ppu_steps_succ(old(self)@, old(memory)@, old(buffer)@, cycles_taken as nat);
            }
            self.tick(memory, buffer);
            cycles_taken = cycles_taken + 1;
        }
    }

    /// One m-cycle of the PPU, exactly as `spec_tick` describes it.
    #[verifier::rlimit(100)]
    fn tick(&mut self, memory: &mut Memory, buffer: &mut Vec<u32>)
        requires
            old(self)@.wf(),
            old(memory).wf(),
            old(buffer)@.len() == 23040,
        ensures
            final(self)@.wf(),
            final(memory).wf(),
            final(buffer)@.len() == 23040,
            final(self)@ == spec_tick(old(self)@, old(memory)@, old(buffer)@).0,
            final(memory)@ == spec_tick(old(self)@, old(memory)@, old(buffer)@).1,
            final(buffer)@ == spec_tick(old(self)@, old(memory)@, old(buffer)@).2,
    {
        if !Ppu::check_lcdc(memory, LcdcFlag::Enable) {
            return;
        }
        let c = self.cycles_this_frame;
        proof {
            lemma_counter_facts(c);
        }
        let line_u: u32 = c / 114;
        let lc: u32 = c % 114;
        let line: u8 = line_u as u8;
        if line_u < 144 && lc == 0 {
            self.bg_fifo = Vec::new();
            self.x = 0;
            self.fetcher_x_position = 0;
            self.sprite_buffer = select_objects(memory, line);
        } else if line_u < 144 && 20 <= lc && lc < 100 {
            let ghost pre_fifo = self.bg_fifo@;
            if self.bg_fifo.len() <= 8 {
                let mut fetched = fetch_tile_row(memory, line, self.fetcher_x_position);
                self.bg_fifo.append(&mut fetched);
                self.fetcher_x_position = self.fetcher_x_position + 1;
            }
            let ghost pf_fifo = self.bg_fifo@;
            let x0 = self.x;
            let px0 = self.bg_fifo.remove(0);
            let px1 = self.bg_fifo.remove(0);
            proof {
                assert(px1 == pf_fifo[1]);
                assert(self.bg_fifo@ =~= pf_fifo.subrange(2, pf_fifo.len() as int));
            }
            let c0 = pixel_color(memory, px0.color_index);
            let c1 = pixel_color(memory, px1.color_index);
            let idx: usize = line as usize * 160 + x0 as usize;
            buffer.set(idx, c0);
            buffer.set(idx + 1, c1);
            self.x = x0 + 2;
        }
        let c2: u32 = if c + 1 == 17556 {
            0
        } else {
            c + 1
        };
        proof {
            lemma_counter_facts(c2);
        }
        let mode_old = mode_of(c);
        let mode_new = mode_of(c2);
        if mode_old == 3 && mode_new != 3 {
            self.bg_fifo = Vec::new();
            self.x = 0;
            self.fetcher_x_position = 0;
        }
        self.cycles_this_frame = c2;
        let line2: u8 = (c2 / 114) as u8;
        let lyc = memory.read_byte(gb::LYC);
        let stat = memory.read_byte(gb::LCD_STAT);
        let if_old = memory.read_byte(gb::IF);
        let coinc_old = line == lyc;
        let coinc = line2 == lyc;
        let stat2: u8 = (stat & 0xF8) | (if coinc {
            4
        } else {
            0
        }) | mode_new;
        let vbl = c2 == 16416;
        let stat_int = (mode_new != mode_old && ((mode_new == 0 && stat & 0x08 != 0) || (mode_new
            == 1 && stat & 0x10 != 0) || (mode_new == 2 && stat & 0x20 != 0))) || (coinc
            && !coinc_old && stat & 0x40 != 0);
        let if2: u8 = if_old | (if vbl {
            1
        } else {
            0
        }) | (if stat_int {
            2
        } else {
            0
        });
        memory.set_io_reg(0x44, line2);
        memory.set_io_reg(0x41, stat2);
        memory.set_io_reg(0x0F, if2);
        proof {
            assert(self@ =~= spec_tick(old(self)@, old(memory)@, old(buffer)@).0);
            assert(memory@ =~= spec_tick(old(self)@, old(memory)@, old(buffer)@).1);
            assert(buffer@ =~= spec_tick(old(self)@, old(memory)@, old(buffer)@).2);
        }
    }

    /// The LCD green of one shade, darkest for 3.
    pub fn get_color(i: u8) -> (c: u32)
        requires
            i < 4,
        ensures
            c == spec_color(i),
    {
        if i == 3 {
            0x000F380F
        } else if i == 2 {
            0x00306230
        } else if i == 1 {
            0x008BAC0F
        } else {
            0x009BBC0F
        }
    }
}

fn mode_of(c: u32) -> (m: u8)
    ensures
        m == spec_mode(c),
{
    if c / 114 >= 144 {
        1
    } else if c % 114 < 20 {
        2
    } else if c % 114 < 100 {
        3
    } else {
        0
    }
}

/// The framebuffer word of a color index under the current BGP palette.
fn pixel_color(memory: &Memory, color_index: u8) -> (c: u32)
    requires
        memory.wf(),
    ensures
        c == spec_pixel_color(memory@, color_index),
{
    let bgp = memory.read_byte(gb::BG_PALETTE);
    let k = color_index % 4;
    let div: u8 = if k == 0 {
        1
    } else if k == 1 {
        4
    } else if k == 2 {
        16
    } else {
        64
    };
    let shade = bgp / div % 4;
    Ppu::get_color(shade)
}

fn oam_entry(memory: &Memory, k: usize) -> (o: Object)
    requires
        memory.wf(),
        k < 40,
    ensures
        o == spec_oam_entry(memory@, k as int),
{
    Object {
        y: memory.oam[4 * k],
        x: memory.oam[4 * k + 1],
        index: memory.oam[4 * k + 2],
        attr: memory.oam[4 * k + 3],
    }
}

fn object_covers(memory: &Memory, o: &Object, ly: u8) -> (b: bool)
    requires
        memory.wf(),
    ensures
        b == spec_object_covers(memory@, *o, ly),
{
    let height: u16 = if Ppu::check_lcdc(memory, LcdcFlag::ObjectSize) {
        16
    } else {
        8
    };
    let target: u16 = ly as u16 + 16;
    o.y as u16 <= target && target < o.y as u16 + height && o.x != 0
}

/// The OAM search of mode 2: the first ten objects covering the line, in
/// OAM order, then sorted ascending by X for draw order.
pub fn select_objects(memory: &Memory, ly: u8) -> (r: Vec<Object>)
    requires
        memory.wf(),
    ensures
        r@ == spec_sort_by_x(spec_select_rec(memory@, ly, 0, 0)),
        r@.len() <= 10,
{
    let mut selected: Vec<Object> = Vec::new();
    let mut k: usize = 0;
    while k < 40
        invariant
            memory.wf(),
            k <= 40,
            selected@.len() <= 10,
            spec_select_rec(memory@, ly, 0, 0) =~= selected@ + spec_select_rec(
                memory@,
                ly,
                k as int,
                selected@.len() as int,
            ),
        decreases 40 - k,
    {
        let o = oam_entry(memory, k);
        let ghost pre = selected@;
        if selected.len() < 10 && object_covers(memory, &o, ly) {
            selected.push(o);
        }
        proof {
            assert(pre + spec_select_rec(memory@, ly, k as int, pre.len() as int) =~= selected@
                + spec_select_rec(memory@, ly, k + 1, selected@.len() as int));
        }
        k = k + 1;
    }
    proof {
        assert(spec_select_rec(memory@, ly, 0, 0) =~= selected@);
    }
    let mut sorted: Vec<Object> = Vec::new();
    let mut i: usize = 0;
    while i < selected.len()
        invariant
            i <= selected@.len(),
            sorted@.len() == i,
            sorted@ == spec_sort_by_x(selected@.subrange(0, i as int)),
        decreases selected@.len() - i,
    {
        let o = selected[i];
        let mut j: usize = 0;
        while j < sorted.len() && sorted[j].x <= o.x
            invariant
                j <= sorted@.len(),
                forall|q: int| 0 <= q < j ==> sorted@[q].x <= o.x,
            decreases sorted@.len() - j,
        {
            j = j + 1;
        }
        let ghost prev = sorted@;
        proof {
            lemma_insert_by_x_at(prev, o, j as int);
        }
        sorted.insert(j, o);
        proof {
            assert(sorted@ =~= spec_insert_by_x(o, prev));
            assert(selected@.subrange(0, i + 1).drop_last() =~= selected@.subrange(0, i as int));
            assert(selected@.subrange(0, i + 1).last() == selected@[i as int]);
            assert(sorted@ == spec_sort_by_x(selected@.subrange(0, i + 1)));
        }
        i = i + 1;
    }
    proof {
        assert(selected@.subrange(0, selected@.len() as int) =~= selected@);
    }
    sorted
}

/// The eight pixels of tile column `fx` on scanline `ly`, read from the
/// tile map and tile data that LCDC selects.
#[verifier::rlimit(100)]
fn fetch_tile_row(memory: &Memory, ly: u8, fx: u16) -> (row: Vec<Pixel>)
    requires
        memory.wf(),
        fx <= 21,
        ly <= 143,
    ensures
        row@ == spec_fetch_row(memory@, ly, fx),
{
    let lcdc = memory.read_byte(gb::LCDC);
    let scy = memory.read_byte(gb::SCY);
    let scx = memory.read_byte(gb::SCX);
    let map_base: u16 = if lcdc & 0x40 != 0 || lcdc & 0x08 != 0 {
        0x9C00
    } else {
        0x9800
    };
    let sum: u16 = ly as u16 + scy as u16;
    let row_idx: u16 = (sum / 8) % 32;
    let tile_line: u16 = sum % 8;
    let col: u16 = (fx + scx as u16 / 8) % 32;
    let tile_number = memory.read_byte(map_base + 32 * row_idx + col);
    let data_addr: u16 = if lcdc & 0x10 != 0 {
        0x8000 + tile_number as u16 * 16 + 2 * tile_line
    } else if tile_number < 128 {
        0x9000 + tile_number as u16 * 16 + 2 * tile_line
    } else {
        0x9000 - (256 - tile_number as u16) * 16 + 2 * tile_line
    };
    let lo_byte = memory.read_byte(data_addr);
    let hi_byte = memory.read_byte(data_addr + 1);
    let mut row: Vec<Pixel> = Vec::new();
    row.push(Pixel { color_index: bit_value(hi_byte, 7) * 2 + bit_value(lo_byte, 7), prio: 0 });
    row.push(Pixel { color_index: bit_value(hi_byte, 6) * 2 + bit_value(lo_byte, 6), prio: 0 });
    row.push(Pixel { color_index: bit_value(hi_byte, 5) * 2 + bit_value(lo_byte, 5), prio: 0 });
    row.push(Pixel { color_index: bit_value(hi_byte, 4) * 2 + bit_value(lo_byte, 4), prio: 0 });
    row.push(Pixel { color_index: bit_value(hi_byte, 3) * 2 + bit_value(lo_byte, 3), prio: 0 });
    row.push(Pixel { color_index: bit_value(hi_byte, 2) * 2 + bit_value(lo_byte, 2), prio: 0 });
    row.push(Pixel { color_index: bit_value(hi_byte, 1) * 2 + bit_value(lo_byte, 1), prio: 0 });
    row.push(Pixel { color_index: bit_value(hi_byte, 0) * 2 + bit_value(lo_byte, 0), prio: 0 });
    proof {
        assert forall|q: int| 0 <= q < 8 implies row@[q] == spec_fetch_row(memory@, ly, fx)[q] by {
            vstd::arithmetic::div_mod::lemma_fundamental_div_mod_converse(
                8 * (fx as int) + q,
                8,
                fx as int,
                q,
            );
            let xq = (8 * fx + q) as u8;
            assert(xq == 8 * fx + q);
            assert(xq / 8 == fx && xq % 8 == q);
        }
        assert(row@ =~= spec_fetch_row(memory@, ly, fx));
    }
    row
}

proof fn lemma_select_rec_len(m: MemView, ly: u8, k: int, taken: int)
    requires
        taken <= 10,
    ensures
        spec_select_rec(m, ly, k, taken).len() <= 10 - taken,
    decreases 40 - k,
{
    if !(k < 0 || k >= 40 || taken >= 10) {
        let o = spec_oam_entry(m, k);
        if spec_object_covers(m, o, ly) {
            lemma_select_rec_len(m, ly, k + 1, taken + 1);
        } else {
            lemma_select_rec_len(m, ly, k + 1, taken);
        }
    }
}

proof fn lemma_insert_by_x_len(o: Object, s: Seq<Object>)
    ensures
        spec_insert_by_x(o, s).len() == s.len() + 1,
    decreases s.len(),
{
    if s.len() != 0 && !(o.x < s[0].x) {
        lemma_insert_by_x_len(o, s.drop_first());
    }
}

proof fn lemma_sort_by_x_len(s: Seq<Object>)
    ensures
        spec_sort_by_x(s).len() == s.len(),
    decreases s.len(),
{
    if s.len() != 0 {
        lemma_sort_by_x_len(s.drop_last());
        lemma_insert_by_x_len(s.last(), spec_sort_by_x(s.drop_last()));
    }
}

/// One tick keeps the pipeline and memory invariants and the framebuffer
/// length.
proof fn lemma_tick_wf(p: PpuView, m: MemView, fb: Seq<u32>)
    requires
        p.wf(),
        m.wf(),
        fb.len() == 23040,
    ensures
        spec_tick(p, m, fb).0.wf(),
        spec_tick(p, m, fb).1.wf(),
        spec_tick(p, m, fb).2.len() == 23040,
{
    if spec_lcd_enabled(m) {
        let c = p.cycles_this_frame;
        lemma_counter_facts(c);
        let c2: u32 = if c + 1 == 17556 {
            0
        } else {
            (c + 1) as u32
        };
        lemma_counter_facts(c2);
        let line = spec_line(c);
        let lc = c % 114;
        if line < 144 && lc == 0 {
            lemma_select_rec_len(m, line as u8, 0, 0);
            lemma_sort_by_x_len(spec_select_rec(m, line as u8, 0, 0));
        }
    }
}

/// The registers and memory a background pixel depends on: the tile data
/// in VRAM and the LCDC/SCY/SCX/BGP bytes of the MMIO page.
pub open spec fn spec_display_inputs_eq(m1: MemView, m2: MemView) -> bool {
    &&& m1.vram == m2.vram
    &&& m1.io.len() == m2.io.len()
    &&& m1.io[0x40] == m2.io[0x40]
    &&& m1.io[0x42] == m2.io[0x42]
    &&& m1.io[0x43] == m2.io[0x43]
    &&& m1.io[0x47] == m2.io[0x47]
}

/// Background pixels and their palette colors read only the display inputs.
proof fn lemma_bg_pixel_stable(m1: MemView, m2: MemView, ly: u8, x: u8)
    requires
        m1.wf(),
        m2.wf(),
        spec_display_inputs_eq(m1, m2),
    ensures
        spec_bg_pixel(m1, ly, x) == spec_bg_pixel(m2, ly, x),
        spec_pixel_color(m1, spec_bg_pixel(m1, ly, x)) == spec_pixel_color(
            m2,
            spec_bg_pixel(m2, ly, x),
        ),
        spec_lcd_enabled(m1) == spec_lcd_enabled(m2),
{
    assert(spec_read(m1, gb::LCDC) == spec_read(m2, gb::LCDC));
    assert(spec_read(m1, gb::SCY) == spec_read(m2, gb::SCY));
    assert(spec_read(m1, gb::SCX) == spec_read(m2, gb::SCX));
    assert(spec_read(m1, gb::BG_PALETTE) == spec_read(m2, gb::BG_PALETTE));
    assert forall|a: u16| 0x8000 <= a < 0xA000 implies spec_read(m1, a) == spec_read(m2, a) by {}
}

/// One tick changes only LY, STAT and IF in memory: the display inputs
/// stay as they were.
proof fn lemma_tick_display_inputs(p: PpuView, m: MemView, fb: Seq<u32>)
    requires
        m.wf(),
    ensures
        spec_display_inputs_eq(spec_tick(p, m, fb).1, m),
{
}

/// How many pixels of a scanline the pusher has emitted after `n` of the
/// line's 114 m-cycles: none during OAM search, two per transfer cycle,
/// all 160 from H-blank on.
pub open spec fn spec_pixels_pushed(n: nat) -> int {
    if n <= 20 {
        0
    } else if n < 100 {
        2 * (n - 20)
    } else {
        160
    }
}

/// The FIFO agrees with the background: entry k is the pixel bound for
/// screen column x + k of the given line.
spec fn spec_fifo_coherent(p: PpuView, m: MemView, line: int) -> bool {
    forall|k: int|
        0 <= k < p.bg_fifo.len() ==> p.bg_fifo[k] == (Pixel {
            color_index: spec_bg_pixel(m, line as u8, (p.x + k) as u8),
            prio: 0u8,
        })
}

/// Palette mapping reads only BGP.
proof fn lemma_pixel_color_stable(m1: MemView, m2: MemView, color_index: u8)
    requires
        m1.wf(),
        m2.wf(),
        spec_display_inputs_eq(m1, m2),
    ensures
        spec_pixel_color(m1, color_index) == spec_pixel_color(m2, color_index),
{
    assert(spec_read(m1, gb::BG_PALETTE) == spec_read(m2, gb::BG_PALETTE));
}

#[verifier::rlimit(100)]
proof fn lemma_line_render_steps(p: PpuView, m: MemView, fb: Seq<u32>, n: nat)
    requires
        p.wf(),
        m.wf(),
        spec_lcd_enabled(m),
        fb.len() == 23040,
        p.cycles_this_frame % 114 == 0,
        spec_line(p.cycles_this_frame) < 144,
        n <= 114,
    ensures
        ({
            let t = spec_ppu_steps(p, m, fb, n);
            let line = spec_line(p.cycles_this_frame);
            &&& t.0.wf()
            &&& t.1.wf()
            &&& t.2.len() == 23040
            &&& spec_display_inputs_eq(t.1, m)
            &&& spec_lcd_enabled(t.1)
            &&& t.0.cycles_this_frame == p.cycles_this_frame + n
            &&& spec_fifo_coherent(t.0, m, line)
            &&& forall|x: int|
                0 <= x < spec_pixels_pushed(n) ==> t.2[line * 160 + x] == spec_pixel_color(
                    m,
                    #[trigger] spec_bg_pixel(m, line as u8, x as u8),
                )
            &&& forall|j: int|
                0 <= j < 23040 && !(line * 160 <= j < line * 160 + spec_pixels_pushed(n))
                    ==> t.2[j] == fb[j]
        }),
    decreases n,
{
    let line = spec_line(p.cycles_this_frame);
    let c0 = p.cycles_this_frame;
    vstd::arithmetic::div_mod::lemma_fundamental_div_mod(c0 as int, 114);
    assert(c0 == 114 * line);
    if n > 0 {
        lemma_line_render_steps(p, m, fb, (n - 1) as nat);
        lemma_ppu_steps_succ(p, m, fb, (n - 1) as nat);
        let t = spec_ppu_steps(p, m, fb, (n - 1) as nat);
        let c = t.0.cycles_this_frame;
        let lc = n - 1;
        assert(c as int % 114 == lc && c as int / 114 == line) by {
            vstd::arithmetic::div_mod::lemma_fundamental_div_mod_converse(
                c as int,
                114,
                line,
                lc as int,
            );
        }
        lemma_tick_wf(t.0, t.1, t.2);
        lemma_tick_display_inputs(t.0, t.1, t.2);
        assert(spec_read(spec_tick(t.0, t.1, t.2).1, gb::LCDC) == spec_read(m, gb::LCDC));
        let t2 = spec_tick(t.0, t.1, t.2);
        if 20 <= lc && lc < 100 {
            let x0 = t.0.x as int;
            let len0 = t.0.bg_fifo.len() as int;
            assert(x0 == 2 * (lc - 20));
            let pf = if t.0.bg_fifo.len() <= 8 {
                PpuView {
                    bg_fifo: t.0.bg_fifo + spec_fetch_row(t.1, line as u8, t.0.fetcher_x_position),
                    fetcher_x_position: (t.0.fetcher_x_position + 1) as u16,
                    ..t.0
                }
            } else {
                t.0
            };
            assert(spec_fifo_coherent(pf, m, line)) by {
                if t.0.bg_fifo.len() <= 8 {
                    assert(8 * t.0.fetcher_x_position == x0 + len0);
                    assert forall|k: int| 0 <= k < pf.bg_fifo.len() implies pf.bg_fifo[k]
                        == (Pixel {
                        color_index: spec_bg_pixel(m, line as u8, (pf.x + k) as u8),
                        prio: 0u8,
                    }) by {
                        if k >= len0 {
                            let q = k - len0;
                            assert(pf.bg_fifo[k] == spec_fetch_row(
                                t.1,
                                line as u8,
                                t.0.fetcher_x_position,
                            )[q]);
                            lemma_bg_pixel_stable(
                                t.1,
                                m,
                                line as u8,
                                (8 * t.0.fetcher_x_position + q) as u8,
                            );
                        }
                    }
                }
            }
            assert(pf.bg_fifo.len() >= 2);
            let ci0 = pf.bg_fifo[0].color_index;
            let ci1 = pf.bg_fifo[1].color_index;
            assert(ci0 == spec_bg_pixel(m, line as u8, x0 as u8));
            assert(ci1 == spec_bg_pixel(m, line as u8, (x0 + 1) as u8));
            lemma_pixel_color_stable(t.1, m, ci0);
            lemma_pixel_color_stable(t.1, m, ci1);
            assert(spec_fifo_coherent(t2.0, m, line)) by {
                if spec_mode(t2.0.cycles_this_frame) == 3 {
                    assert forall|k: int| 0 <= k < t2.0.bg_fifo.len() implies t2.0.bg_fifo[k]
                        == (Pixel {
                        color_index: spec_bg_pixel(m, line as u8, (t2.0.x + k) as u8),
                        prio: 0u8,
                    }) by {
                        assert(t2.0.bg_fifo[k] == pf.bg_fifo[k + 2]);
                    }
                }
            }
            assert forall|x: int| 0 <= x < spec_pixels_pushed(n) implies t2.2[line * 160 + x]
                == spec_pixel_color(m, #[trigger] spec_bg_pixel(m, line as u8, x as u8)) by {
                if x < x0 {
                    assert(t.2[line * 160 + x] == spec_pixel_color(
                        m,
                        spec_bg_pixel(m, line as u8, x as u8),
                    ));
                }
            }
        } else {
            assert(t2.2 == t.2);
        }
    }
}

/// Over one full visible scanline — 114 m-cycles from the line's start,
/// with the LCD enabled — the fetcher/pusher pipeline writes exactly the
/// background pixels of that line, mapped through the BGP palette, into
/// the line's framebuffer row, and touches no other framebuffer word.
pub proof fn lemma_scanline_rendered(p: PpuView, m: MemView, fb: Seq<u32>)
    requires
        p.wf(),
        m.wf(),
        spec_lcd_enabled(m),
        fb.len() == 23040,
        p.cycles_this_frame % 114 == 0,
        spec_line(p.cycles_this_frame) < 144,
    ensures
        ({
            let t = spec_ppu_steps(p, m, fb, 114);
            let line = spec_line(p.cycles_this_frame);
            &&& forall|x: int|
                0 <= x < 160 ==> t.2[line * 160 + x] == spec_pixel_color(
                    m,
                    #[trigger] spec_bg_pixel(m, line as u8, x as u8),
                )
            &&& forall|j: int|
                0 <= j < 23040 && !(line * 160 <= j < line * 160 + 160) ==> t.2[j] == fb[j]
        }),
{
    lemma_line_render_steps(p, m, fb, 114);
}

/// Facts about the frame counter: the line index stays within 0..=153, and
/// advancing the counter by one either moves along the line or starts the
/// next one.
proof fn lemma_counter_facts(c: u32)
    requires
        c < 17556,
    ensures
        0 <= c as int / 114 <= 153,
        c as int % 114 <= 113,
        c as int == 114 * (c as int / 114) + (c as int % 114),
        c + 1 < 17556 && c % 114 < 113 ==> (c + 1) as int / 114 == c as int / 114 && (c + 1) as int
            % 114 == c as int % 114 + 1,
        c + 1 < 17556 && c % 114 == 113 ==> (c + 1) as int / 114 == c as int / 114 + 1 && (c
            + 1) as int % 114 == 0,
{
    vstd::arithmetic::div_mod::lemma_fundamental_div_mod(c as int, 114);
    vstd::arithmetic::div_mod::lemma_div_is_ordered(c as int, 17555, 114);
    if c + 1 < 17556 {
        if c % 114 < 113 {
            vstd::arithmetic::div_mod::lemma_fundamental_div_mod_converse(
                c as int + 1,
                114,
                c as int / 114,
                c as int % 114 + 1,
            );
        } else {
            vstd::arithmetic::div_mod::lemma_fundamental_div_mod_converse(
                c as int + 1,
                114,
                c as int / 114 + 1,
                0,
            );
        }
    }
}

/// Where an object lands when inserted before the first strictly larger X.
proof fn lemma_insert_by_x_at(s: Seq<Object>, o: Object, j: int)
    requires
        0 <= j <= s.len(),
        forall|q: int| 0 <= q < j ==> s[q].x <= o.x,
        j < s.len() ==> o.x < s[j].x,
    ensures
        spec_insert_by_x(o, s) == s.subrange(0, j) + seq![o] + s.subrange(j, s.len() as int),
    decreases j,
{
    if j == 0 {
        assert(spec_insert_by_x(o, s) =~= s.subrange(0, 0) + seq![o] + s.subrange(
            0,
            s.len() as int,
        ));
    } else {
        let tail = s.drop_first();
        assert forall|q: int| 0 <= q < j - 1 implies tail[q].x <= o.x by {
            assert(tail[q] == s[q + 1]);
        }
        lemma_insert_by_x_at(tail, o, j - 1);
        assert(spec_insert_by_x(o, s) =~= s.subrange(0, j) + seq![o] + s.subrange(
            j,
            s.len() as int,
        ));
    }
}

/// Unrolling one tick at the end of a run of ticks.
proof fn lemma_ppu_steps_succ(p: PpuView, m: MemView, fb: Seq<u32>, n: nat)
    ensures
        spec_ppu_steps(p, m, fb, n + 1) == ({
            let t = spec_ppu_steps(p, m, fb, n);
            spec_tick(t.0, t.1, t.2)
        }),
    decreases n,
{
    if n > 0 {
        let t1 = spec_tick(p, m, fb);
        lemma_ppu_steps_succ(t1.0, t1.1, t1.2, (n - 1) as nat);
    } else {
        assert(spec_ppu_steps(p, m, fb, 1) == ({
            let t = spec_ppu_steps(p, m, fb, 0);
            spec_tick(t.0, t.1, t.2)
        })) by {
            reveal_with_fuel(spec_ppu_steps, 2);
        }
    }
}

/// Ticking keeps the LCD enabled (the PPU never writes LCDC) and advances
/// the frame counter by one per tick, modulo the frame length.
proof fn lemma_steps_enabled_counter(p: PpuView, m: MemView, fb: Seq<u32>, n: nat)
    requires
        p.cycles_this_frame < 17556,
        m.wf(),
        spec_lcd_enabled(m),
    ensures
        spec_lcd_enabled(spec_ppu_steps(p, m, fb, n).1),
        spec_ppu_steps(p, m, fb, n).0.cycles_this_frame < 17556,
        spec_ppu_steps(p, m, fb, n).0.cycles_this_frame == (p.cycles_this_frame + n) % 17556,
    decreases n,
{
    vstd::arithmetic::div_mod::lemma_small_mod(p.cycles_this_frame as nat, 17556);
    if n > 0 {
        let t = spec_tick(p, m, fb);
        assert(t.1.wf());
        assert(t.1.io[0x40] == m.io[0x40]);
        assert(spec_read(t.1, gb::LCDC) == spec_read(m, gb::LCDC));
        assert(t.0.cycles_this_frame == (p.cycles_this_frame + 1) % 17556) by {
            if p.cycles_this_frame + 1 < 17556 {
                vstd::arithmetic::div_mod::lemma_small_mod(
                    (p.cycles_this_frame + 1) as nat,
                    17556,
                );
            }
        }
        lemma_steps_enabled_counter(t.0, t.1, t.2, (n - 1) as nat);
        assert(spec_ppu_steps(p, m, fb, n).0.cycles_this_frame == ((p.cycles_this_frame + 1)
            % 17556 + (n - 1)) % 17556);
        vstd::arithmetic::div_mod::lemma_add_mod_noop_right(
            n - 1,
            p.cycles_this_frame + 1,
            17556,
        );
    }
}

/// Within one frame of ticks from this state, some tick sees the given
/// scanline current.
pub open spec fn spec_line_visited(p: PpuView, m: MemView, fb: Seq<u32>, l: int) -> bool {
    exists|k: nat|
        k < 17556 && spec_line(#[trigger] spec_ppu_steps(p, m, fb, k).0.cycles_this_frame) == l
}

/// Within one frame of ticks from this state, some tick is in the given
/// STAT mode.
pub open spec fn spec_mode_visited(p: PpuView, m: MemView, fb: Seq<u32>, md: u8) -> bool {
    exists|k: nat|
        k < 17556 && spec_mode(#[trigger] spec_ppu_steps(p, m, fb, k).0.cycles_this_frame) == md
}

/// With the LCD enabled, a run of exactly one frame of m-cycles brings the
/// frame counter back to its starting value; on the way the current
/// scanline takes every value 0 through 153 and the mode passes through
/// OAM search, pixel transfer, H-blank and V-blank.
pub proof fn lemma_frame_scan(p: PpuView, m: MemView, fb: Seq<u32>)
    requires
        p.cycles_this_frame < 17556,
        m.wf(),
        spec_lcd_enabled(m),
    ensures
        spec_ppu_steps(p, m, fb, 17556).0.cycles_this_frame == p.cycles_this_frame,
        forall|l: int| 0 <= l <= 153 ==> #[trigger] spec_line_visited(p, m, fb, l),
        forall|md: u8|
            md == 0 || md == 1 || md == 2 || md == 3 ==> #[trigger] spec_mode_visited(p, m, fb, md),
{
    let c = p.cycles_this_frame as int;
    lemma_steps_enabled_counter(p, m, fb, 17556);
    assert((c + 17556) % 17556 == c) by {
        vstd::arithmetic::div_mod::lemma_mod_add_multiples_vanish(c, 17556);
        vstd::arithmetic::div_mod::lemma_small_mod(c as nat, 17556);
    }
    assert forall|l: int| 0 <= l <= 153 implies #[trigger] spec_line_visited(p, m, fb, l) by {
        let k = lemma_counter_reach(p, m, fb, 114 * l);
        vstd::arithmetic::div_mod::lemma_div_multiples_vanish(l, 114);
        assert(spec_line(spec_ppu_steps(p, m, fb, k).0.cycles_this_frame) == l);
    }
    assert forall|md: u8| md == 0 || md == 1 || md == 2 || md == 3 implies
        #[trigger] spec_mode_visited(p, m, fb, md) by {
        if md == 2 {
            let k = lemma_counter_reach(p, m, fb, 0);
            assert(spec_mode(spec_ppu_steps(p, m, fb, k).0.cycles_this_frame) == 2);
        } else if md == 3 {
            let k = lemma_counter_reach(p, m, fb, 20);
            assert(spec_mode(spec_ppu_steps(p, m, fb, k).0.cycles_this_frame) == 3);
        } else if md == 0 {
            let k = lemma_counter_reach(p, m, fb, 100);
            assert(spec_mode(spec_ppu_steps(p, m, fb, k).0.cycles_this_frame) == 0);
        } else {
            let k = lemma_counter_reach(p, m, fb, 16416);
            assert(spec_mode(spec_ppu_steps(p, m, fb, k).0.cycles_this_frame) == 1);
        }
    }
}

/// The tick count within one frame at which the frame counter equals the
/// given target value.
proof fn lemma_counter_reach(p: PpuView, m: MemView, fb: Seq<u32>, target: int) -> (k: nat)
    requires
        p.cycles_this_frame < 17556,
        m.wf(),
        spec_lcd_enabled(m),
        0 <= target < 17556,
    ensures
        k < 17556,
        spec_ppu_steps(p, m, fb, k).0.cycles_this_frame == target,
{
    let c = p.cycles_this_frame as int;
    let k = ((target - c) % 17556) as nat;
    vstd::arithmetic::div_mod::lemma_mod_bound(target - c, 17556);
    lemma_steps_enabled_counter(p, m, fb, k);
    assert((c + k) % 17556 == target) by {
        vstd::arithmetic::div_mod::lemma_add_mod_noop_right(c, target - c, 17556);
        vstd::arithmetic::div_mod::lemma_small_mod(target as nat, 17556);
    }
    k
}

} // verus!
