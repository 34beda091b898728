use dmg_core::memory::Memory;
use dmg_core::ppu::select_objects;
use dmg_core::ppu::LcdcFlag;
use dmg_core::ppu::Ppu;

fn blank_memory() -> Memory {
    Memory::new(&vec![0u8; 0x100], &vec![0u8; 0x8000])
}

#[test]
fn frame_cycles_through_lines_and_modes() {
    let mut memory = blank_memory();
    memory.write_byte(0xFF40, 0x80);  // LCD enable
    let mut ppu = Ppu::new();
    let mut buffer: Vec<u32> = vec![0; 160 * 144];
    let mut saw_mode = [false; 4];
    let mut max_ly: u8 = 0;
    for _ in 0..17556u32 {
        ppu.step(1, &mut memory, &mut buffer);
        let mode = memory.read_byte(0xFF41) & 0x3;
        saw_mode[mode as usize] = true;
        let ly = memory.read_byte(0xFF44);
        if ly > max_ly {
            max_ly = ly;
        }
    }
    assert!(saw_mode[0] && saw_mode[1] && saw_mode[2] && saw_mode[3]);
    assert_eq!(153, max_ly);
    // one whole frame later the counter has wrapped and LY is back at 0
    assert_eq!(0, ppu.cycles_this_frame);
    assert_eq!(0, memory.read_byte(0xFF44));
}

#[test]
fn vblank_interrupt_latched_on_entry() {
    let mut memory = blank_memory();
    memory.write_byte(0xFF40, 0x80);
    let mut ppu = Ppu::new();
    let mut buffer: Vec<u32> = vec![0; 160 * 144];
    // lines 0..143 are visible; entering line 144 latches IF bit 0
    ppu.step(144 * 114 - 1, &mut memory, &mut buffer);
    assert_eq!(0x00, memory.read_byte(0xFF0F) & 0x01);
    ppu.step(1, &mut memory, &mut buffer);
    assert_eq!(0x01, memory.read_byte(0xFF0F) & 0x01);
    assert_eq!(144, memory.read_byte(0xFF44));
    assert_eq!(1, memory.read_byte(0xFF41) & 0x3);
}

#[test]
fn disabled_lcd_does_nothing() {
    let mut memory = blank_memory();
    let mut ppu = Ppu::new();
    let mut buffer: Vec<u32> = vec![7; 160 * 144];
    ppu.step(500, &mut memory, &mut buffer);
    assert_eq!(0, ppu.cycles_this_frame);
    assert!(buffer.iter().all(|&p| p == 7));
}

#[test]
fn background_line_rendered_through_palette() {
    let mut memory = blank_memory();
    // enable the LCD with the unsigned tile-data area at 0x8000
    memory.write_byte(0xFF40, 0x90);
    // tile 0, row 0: low byte all ones, high byte zero: color index 1
    memory.write_byte(0x8000, 0xFF);
    memory.write_byte(0x8001, 0x00);
    // identity-ish palette: shade of color 1 is 1
    memory.write_byte(0xFF47, 0xE4);
    let mut ppu = Ppu::new();
    let mut buffer: Vec<u32> = vec![0; 160 * 144];
    ppu.step(114, &mut memory, &mut buffer);
    for x in 0..160usize {
        assert_eq!(0x008BAC0F, buffer[x], "pixel {}", x);
    }
    // the next line reads tile row 1, which is all zeros: lightest shade
    ppu.step(114, &mut memory, &mut buffer);
    for x in 0..160usize {
        assert_eq!(0x009BBC0F, buffer[160 + x], "pixel {}", x);
    }
}

#[test]
fn get_color_shades() {
    assert_eq!(0x009BBC0F, Ppu::get_color(0));
    assert_eq!(0x008BAC0F, Ppu::get_color(1));
    assert_eq!(0x00306230, Ppu::get_color(2));
    assert_eq!(0x000F380F, Ppu::get_color(3));
}

#[test]
fn check_lcdc_reads_bits() {
    let mut memory = blank_memory();
    memory.write_byte(0xFF40, 0x91);
    assert!(Ppu::check_lcdc(&memory, LcdcFlag::Enable));
    assert!(Ppu::check_lcdc(&memory, LcdcFlag::TileDataArea));
    assert!(Ppu::check_lcdc(&memory, LcdcFlag::BackgroundEnable));
    assert!(!Ppu::check_lcdc(&memory, LcdcFlag::ObjectEnable));
    assert!(!Ppu::check_lcdc(&memory, LcdcFlag::EnableWindow));
}

#[test]
fn oam_search_selects_and_sorts() {
    let mut memory = blank_memory();
    // two sprites covering line 0 (LY+16 = 16), out of X order
    memory.write_byte(0xFE00, 16);  // entry 0: y
    memory.write_byte(0xFE01, 9);  //          x
    memory.write_byte(0xFE02, 2);  //          tile
    memory.write_byte(0xFE04, 16);  // entry 1: y
    memory.write_byte(0xFE05, 3);  //          x
    // entry 2 does not cover the line
    memory.write_byte(0xFE08, 40);
    memory.write_byte(0xFE09, 5);
    // entry 3 has X == 0 and is skipped
    memory.write_byte(0xFE0C, 16);
    memory.write_byte(0xFE0D, 0);
    let selected = select_objects(&memory, 0);
    assert_eq!(2, selected.len());
    assert_eq!(3, selected[0].x);
    assert_eq!(9, selected[1].x);
    assert_eq!(2, selected[1].index);
}

#[test]
fn oam_search_caps_at_ten() {
    let mut memory = blank_memory();
    for k in 0..12u16 {
        memory.write_byte(0xFE00 + 4 * k, 16);
        memory.write_byte(0xFE00 + 4 * k + 1, (k + 1) as u8);
    }
    let selected = select_objects(&memory, 0);
    assert_eq!(10, selected.len());
    // the first ten OAM slots win, sorted by X
    for (i, o) in selected.iter().enumerate() {
        assert_eq!((i + 1) as u8, o.x);
    }
}
