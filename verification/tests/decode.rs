use dmg_core::cpu::instruction::ArithmeticOperand;
use dmg_core::cpu::instruction::DecodeError;
use dmg_core::cpu::instruction::Instruction;
use dmg_core::cpu::instruction::Instruction16;
use dmg_core::cpu::instruction::Load16Source;
use dmg_core::cpu::instruction::Load16Target;
use dmg_core::cpu::instruction::Load8Operand;
use dmg_core::cpu::instruction::PtrArithOperand;
use dmg_core::cpu::registers::Register;
use dmg_core::cpu::registers::RegisterPair;
use dmg_core::memory::Memory;
use dmg_core::timer::Cycles;

fn blank_memory() -> Memory {
    Memory::new(&vec![0u8; 0x100], &vec![0u8; 0x8000])
}

#[test]
fn decode_nop() {
    let mut memory = blank_memory();
    memory.rom_bank0[0] = 0;
    assert_eq!(Instruction::from_bytes(&memory, 0).unwrap(), Instruction::Nop);
}

#[test]
fn decode_nop_fails() {
    let memory = blank_memory();
    assert_ne!(Instruction::from_bytes(&memory, 0).unwrap(), Instruction::Stop);
}

#[test]
fn decode_stop() {
    let mut memory = blank_memory();
    memory.rom_bank0[0] = 0x10;
    assert_eq!(Instruction::from_bytes(&memory, 0).unwrap(), Instruction::Stop);
}

#[test]
fn decode_ld8() {
    let mut memory = blank_memory();
    memory.rom_bank0[0] = 0x02;
    assert_eq!(
        Instruction::from_bytes(&memory, 0).unwrap(),
        Instruction::Load8(
            Load8Operand::AtReg16(RegisterPair::Bc),
            Load8Operand::Register(Register::A)
        )
    );
}

#[test]
fn decode_ld16() {
    let mut memory = blank_memory();
    memory.rom_bank0[0] = 0x01;
    memory.rom_bank0[1] = 0xCD;
    memory.rom_bank0[2] = 0xAB;
    assert_eq!(
        Instruction::from_bytes(&memory, 0).unwrap(),
        Instruction::Load16(
            Load16Target::Register16(RegisterPair::Bc),
            Load16Source::Data(0xABCD)
        )
    );
}

#[test]
fn decode_inc16() {
    let mut memory = blank_memory();
    memory.rom_bank0[0] = 0x23;
    assert_eq!(
        Instruction::from_bytes(&memory, 0).unwrap(),
        Instruction::IncrementPtr(PtrArithOperand::Register16(RegisterPair::Hl))
    );
}

#[test]
fn decode_inc() {
    let mut memory = blank_memory();
    memory.rom_bank0[0] = 0x24;
    assert_eq!(
        Instruction::from_bytes(&memory, 0).unwrap(),
        Instruction::Increment(ArithmeticOperand::Register(Register::H))
    );
}

#[test]
fn decode_dec() {
    let mut memory = blank_memory();
    memory.rom_bank0[0] = 0x35;
    assert_eq!(
        Instruction::from_bytes(&memory, 0).unwrap(),
        Instruction::Decrement(ArithmeticOperand::AtHl)
    );
}

#[test]
fn decode_bootrom() {
    // the first instructions of the stock boot ROM
    let mut bootrom = vec![0u8; 0x100];
    let head = [0x31, 0xFE, 0xFF, 0xAF, 0x21, 0xFF, 0x9F, 0x32, 0xCB, 0x7C];
    bootrom[..head.len()].copy_from_slice(&head);
    let memory = Memory::new(&bootrom, &vec![0u8; 0x8000]);
    assert_eq!(
        Instruction::from_bytes(&memory, 0).unwrap(),
        Instruction::Load16(Load16Target::StackPointer, Load16Source::Data(0xFFFE))
    );
    assert_eq!(
        Instruction::from_bytes(&memory, 3).unwrap(),
        Instruction::Xor(ArithmeticOperand::Register(Register::A))
    );
    assert_eq!(
        Instruction::from_bytes(&memory, 4).unwrap(),
        Instruction::Load16(
            Load16Target::Register16(RegisterPair::Hl),
            Load16Source::Data(0x9FFF)
        )
    );
    assert_eq!(
        Instruction::from_bytes(&memory, 7).unwrap(),
        Instruction::Load8(Load8Operand::AtHld, Load8Operand::Register(Register::A))
    );
    assert_eq!(
        Instruction::from_bytes(&memory, 8).unwrap(),
        Instruction::Instruction16(Instruction16::BitTest(
            7,
            ArithmeticOperand::Register(Register::H)
        ))
    );
}

#[test]
fn load16_metadat() {
    assert_eq!(
        (3, Cycles::Cycles(3)),
        Instruction::size_and_cycles(&Instruction::Load16(
            Load16Target::Register16(RegisterPair::Hl),
            Load16Source::Data(0x9FFF)
        ))
    );
}

#[test]
fn decode_invalid_opcodes() {
    let invalid = [0xD3u8, 0xDB, 0xDD, 0xE3, 0xE4, 0xEB, 0xEC, 0xED, 0xF4, 0xFC, 0xFD];
    for &byte in invalid.iter() {
        let mut memory = blank_memory();
        memory.rom_bank0[0x40] = byte;
        assert_eq!(
            Instruction::from_bytes(&memory, 0x40),
            Err(DecodeError::InvalidOpcode(0x40, byte))
        );
    }
}

#[test]
fn decode_covers_all_defined_opcodes() {
    // every byte but the eleven undefined ones decodes
    let invalid = [0xD3u8, 0xDB, 0xDD, 0xE3, 0xE4, 0xEB, 0xEC, 0xED, 0xF4, 0xFC, 0xFD];
    for b in 0..=255u8 {
        let mut memory = blank_memory();
        memory.rom_bank0[0] = b;
        let decoded = Instruction::from_bytes(&memory, 0);
        if invalid.contains(&b) {
            assert!(decoded.is_err());
        } else {
            assert!(decoded.is_ok());
        }
    }
}

#[test]
fn decode_prefixed_page() {
    let mut memory = blank_memory();
    memory.rom_bank0[0] = 0xCB;
    memory.rom_bank0[1] = 0x37;
    assert_eq!(
        Instruction::from_bytes(&memory, 0).unwrap(),
        Instruction::Instruction16(Instruction16::Swap(ArithmeticOperand::Register(Register::A)))
    );
    memory.rom_bank0[1] = 0xFE;
    assert_eq!(
        Instruction::from_bytes(&memory, 0).unwrap(),
        Instruction::Instruction16(Instruction16::BitSet(7, ArithmeticOperand::AtHl))
    );
}

#[test]
fn size_matches_immediate_count() {
    // 1-byte, 2-byte and 3-byte instructions report their own length
    let mut memory = blank_memory();
    memory.rom_bank0[0] = 0x00;
    let i1 = Instruction::from_bytes(&memory, 0).unwrap();
    assert_eq!(Instruction::size_and_cycles(&i1).0, 1);
    memory.rom_bank0[0] = 0x3E;
    let i2 = Instruction::from_bytes(&memory, 0).unwrap();
    assert_eq!(Instruction::size_and_cycles(&i2).0, 2);
    memory.rom_bank0[0] = 0xC3;
    let i3 = Instruction::from_bytes(&memory, 0).unwrap();
    assert_eq!(Instruction::size_and_cycles(&i3).0, 3);
    memory.rom_bank0[0] = 0xCB;
    let ip = Instruction::from_bytes(&memory, 0).unwrap();
    assert_eq!(Instruction::size_and_cycles(&ip).0, 2);
}

#[test]
fn output_bootrom() {
    let memory = blank_memory();
    let cpu = dmg_core::cpu::Cpu::new(memory);
    let mut bytes_read: u16 = 0;
    while bytes_read < 0x00A7 {
        let instruction = Instruction::from_bytes(&cpu.memory, bytes_read).unwrap();
        let (size, _cycles) = Instruction::size_and_cycles(&instruction);
        bytes_read += size as u16;
        println!("{}", instruction.text());
    }
    bytes_read = 0x00E0;
    while bytes_read < 0x0100 {
        let instruction = Instruction::from_bytes(&cpu.memory, bytes_read).unwrap();
        let (size, _cycles) = Instruction::size_and_cycles(&instruction);
        bytes_read += size as u16;
        println!("{}", instruction.text());
    }
}
