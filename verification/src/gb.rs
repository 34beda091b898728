//! Memory-mapped register addresses, screen dimensions and initial values.

use vstd::prelude::*;

verus! {

pub const LCDC: u16 = 0xFF40;
pub const LCD_STAT: u16 = 0xFF41;
pub const SCY: u16 = 0xFF42;
pub const SCX: u16 = 0xFF43;
pub const LY: u16 = 0xFF44;
pub const LYC: u16 = 0xFF45;
pub const DMA_TRANSFER: u16 = 0xFF46;
pub const BG_PALETTE: u16 = 0xFF47;
pub const OBJ_PALETTE_0: u16 = 0xFF48;
pub const OBJ_PALETTE_1: u16 = 0xFF49;
pub const WY: u16 = 0xFF4A;
pub const WX: u16 = 0xFF4B;

/// Interrupt request flags.
pub const IF: u16 = 0xFF0F;
/// Interrupt enable mask.
pub const IE: u16 = 0xFFFF;

pub const SCREEN_WIDTH: usize = 160;
pub const SCREEN_HEIGHT: usize = 144;
pub const TOTAL_PIXELS: usize = 160 * 144;

/// Program counter after the boot ROM has run.
pub const INIT_PC: u16 = 0x0100;
pub const INIT_SP: u16 = 0xFFFE;

/// Machine cycles in one full frame: 154 scanlines of 114 m-cycles.
pub const CYCLES_PER_FRAME: u32 = 17556;
/// Machine cycles in one scanline.
pub const CYCLES_PER_LINE: u32 = 114;

} // verus!
