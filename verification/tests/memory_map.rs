use dmg_core::memory::Memory;

fn blank_memory() -> Memory {
    Memory::new(&vec![0u8; 0x100], &vec![0u8; 0x8000])
}

#[test]
fn ram_write_read_round_trip() {
    let mut memory = blank_memory();
    let addresses = [0x8000u16, 0x9FFF, 0xA000, 0xBFFF, 0xC000, 0xDFFF, 0xFE00, 0xFE9F,
        0xFF00, 0xFF80, 0xFFFE, 0xFFFF];
    for (i, &a) in addresses.iter().enumerate() {
        let v = (i as u8) * 3 + 7;
        memory.write_byte(a, v);
        assert_eq!(v, memory.read_byte(a));
    }
}

#[test]
fn word_write_read_little_endian() {
    let mut memory = blank_memory();
    memory.write_2_bytes(0xC123, 0xBEEF);
    assert_eq!(0xBEEF, memory.read_2_bytes(0xC123));
    // little-endian: the low byte sits at the lower address
    assert_eq!(0xEF, memory.read_byte(0xC123));
    assert_eq!(0xBE, memory.read_byte(0xC124));
}

#[test]
fn rom_writes_are_ignored() {
    let mut memory = blank_memory();
    let before = memory.read_byte(0x1234);
    memory.write_byte(0x1234, 0xAB);
    assert_eq!(before, memory.read_byte(0x1234));
}

#[test]
fn echo_and_prohibited_regions() {
    let mut memory = blank_memory();
    memory.write_byte(0xE123, 0x55);
    assert_eq!(0xFF, memory.read_byte(0xE123));
    memory.write_byte(0xFEA5, 0x55);
    assert_eq!(0xFF, memory.read_byte(0xFEA5));
}

#[test]
fn ly_write_resets_to_zero() {
    let mut memory = blank_memory();
    memory.write_byte(0xFF44, 0x7F);
    assert_eq!(0x00, memory.read_byte(0xFF44));
}

#[test]
fn dma_copies_into_oam() {
    let mut memory = blank_memory();
    for j in 0..0xA0u16 {
        memory.write_byte(0xC000 + j, (j as u8).wrapping_mul(2).wrapping_add(1));
    }
    memory.write_byte(0xFF46, 0xC0);
    for j in 0..0xA0u16 {
        assert_eq!(
            (j as u8).wrapping_mul(2).wrapping_add(1),
            memory.read_byte(0xFE00 + j)
        );
    }
    // the register itself keeps the written value
    assert_eq!(0xC0, memory.read_byte(0xFF46));
}

#[test]
fn boot_rom_overlay_and_unmap() {
    let mut bootrom = vec![0u8; 0x100];
    bootrom[0] = 0xAA;
    bootrom[0xFF] = 0xBB;
    let mut rom = vec![0u8; 0x8000];
    rom[0] = 0x11;
    rom[0xFF] = 0x22;
    rom[0x100] = 0x33;
    rom[0x4000] = 0x44;
    let mut memory = Memory::new(&bootrom, &rom);
    // the boot ROM overlays the first 256 bytes
    assert_eq!(0xAA, memory.read_byte(0x0000));
    assert_eq!(0xBB, memory.read_byte(0x00FF));
    assert_eq!(0x33, memory.read_byte(0x0100));
    assert_eq!(0x44, memory.read_byte(0x4000));
    memory.replace_bootrom();
    // after unmapping, the cartridge's own low bytes reappear
    assert_eq!(0x11, memory.read_byte(0x0000));
    assert_eq!(0x22, memory.read_byte(0x00FF));
    assert_eq!(0x33, memory.read_byte(0x0100));
}
