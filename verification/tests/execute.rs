use dmg_core::cpu::instruction::ArithmeticOperand;
use dmg_core::cpu::instruction::Instruction;
use dmg_core::cpu::instruction::Instruction16;
use dmg_core::cpu::instruction::Load16Source;
use dmg_core::cpu::instruction::Load16Target;
use dmg_core::cpu::instruction::PtrArithOperand;
use dmg_core::cpu::instruction::RotateKind;
use dmg_core::cpu::registers::Flag;
use dmg_core::cpu::registers::Register;
use dmg_core::cpu::registers::RegisterPair;
use dmg_core::cpu::Cpu;
use dmg_core::memory::Memory;

fn blank_cpu() -> Cpu {
    Cpu::new(Memory::new(&vec![0u8; 0x100], &vec![0u8; 0x8000]))
}

#[test]
fn execute_load16() {
    let mut cpu = blank_cpu();
    cpu.execute(&Instruction::Load16(
        Load16Target::Register16(RegisterPair::Hl),
        Load16Source::Data(0xAB),
    ));
    assert_eq!(0xAB, cpu.registers.get_16bit(&RegisterPair::Hl));
}

#[test]
fn execute_load16_sp() {
    let mut cpu = blank_cpu();
    cpu.execute(&Instruction::Load16(
        Load16Target::Register16(RegisterPair::Hl),
        Load16Source::Data(0xAB),
    ));
    cpu.execute(&Instruction::Load16(
        Load16Target::StackPointer,
        Load16Source::Hl,
    ));
    assert_eq!(0xAB, cpu.sp);
}

#[test]
fn execute_daa_after_sub() {
    let mut cpu = blank_cpu();
    cpu.registers.set(&Register::A, 0x47);
    cpu.registers.set(&Register::D, 0x28);
    cpu.execute(&Instruction::Sub(ArithmeticOperand::Register(Register::D)));
    cpu.execute(&Instruction::DecimalAdjust);
    assert_eq!(0x19, cpu.registers.get(&Register::A));
}

#[test]
fn execute_daa_after_add() {
    let mut cpu = blank_cpu();
    cpu.registers.set(&Register::A, 0x47);
    cpu.registers.set(&Register::D, 0x28);
    cpu.execute(&Instruction::Add(ArithmeticOperand::Register(Register::D)));
    cpu.execute(&Instruction::DecimalAdjust);
    assert_eq!(0x75, cpu.registers.get(&Register::A));
}

#[test]
fn check_flags_after_bit() {
    let mut cpu = blank_cpu();
    cpu.registers.set(&Register::A, 0x47);
    cpu.execute(&Instruction::Load16(
        Load16Target::Register16(RegisterPair::Hl),
        Load16Source::Data(0x9FFF),
    ));
    cpu.execute(&Instruction::Instruction16(Instruction16::BitTest(
        7,
        ArithmeticOperand::Register(Register::H),
    )));
    assert_eq!(false, cpu.registers.get_flag(Flag::Zero));
    assert_eq!(false, cpu.registers.get_flag(Flag::Subtract));
    assert_eq!(true, cpu.registers.get_flag(Flag::HalfCarry));
}

#[test]
fn rotate_left_logical() {
    let mut cpu = blank_cpu();
    cpu.registers.set(&Register::C, 0xCE);
    cpu.execute(&Instruction::Instruction16(Instruction16::RotateLeft(
        ArithmeticOperand::Register(Register::C),
    )));
    assert_eq!(0x9C, cpu.registers.get(&Register::C));
    assert_eq!(true, cpu.registers.get_flag(Flag::Carry));
}

#[test]
fn rotate_left_arithmetic() {
    let mut cpu = blank_cpu();
    cpu.registers.set_flag(Flag::Carry, true);
    cpu.registers.set(&Register::A, 0xCE);
    cpu.execute(&Instruction::Rotate(RotateKind::Left));
    assert_eq!(0x9D, cpu.registers.get(&Register::A));
    assert_eq!(true, cpu.registers.get_flag(Flag::Carry));
}

#[test]
fn execute_push_pop() {
    let mut cpu = blank_cpu();
    cpu.sp = 0xFFFC;
    cpu.execute(&Instruction::Load16(
        Load16Target::Register16(RegisterPair::Hl),
        Load16Source::Data(0xABCD),
    ));
    cpu.execute(&Instruction::Push(RegisterPair::Hl));
    cpu.execute(&Instruction::Load16(
        Load16Target::Register16(RegisterPair::Hl),
        Load16Source::Data(0x0000),
    ));
    cpu.execute(&Instruction::Pop(RegisterPair::Hl));

    assert_eq!(0xABCD, cpu.registers.get_16bit(&RegisterPair::Hl));
}

#[test]
fn push_pop_leaves_sp_unchanged() {
    let mut cpu = blank_cpu();
    cpu.sp = 0xFFFE;
    cpu.execute(&Instruction::Load16(
        Load16Target::Register16(RegisterPair::Bc),
        Load16Source::Data(0x1234),
    ));
    cpu.execute(&Instruction::Push(RegisterPair::Bc));
    assert_eq!(0xFFFC, cpu.sp);
    cpu.execute(&Instruction::Pop(RegisterPair::Bc));
    assert_eq!(0xFFFE, cpu.sp);
    assert_eq!(0x1234, cpu.registers.get_16bit(&RegisterPair::Bc));
}

#[test]
fn add_flags_match_reference() {
    // half-carry out of bit 3
    let mut cpu = blank_cpu();
    cpu.registers.set(&Register::A, 0x0F);
    cpu.registers.set(&Register::B, 0x01);
    cpu.execute(&Instruction::Add(ArithmeticOperand::Register(Register::B)));
    assert_eq!(0x10, cpu.registers.get(&Register::A));
    assert!(!cpu.registers.get_flag(Flag::Zero));
    assert!(!cpu.registers.get_flag(Flag::Subtract));
    assert!(cpu.registers.get_flag(Flag::HalfCarry));
    assert!(!cpu.registers.get_flag(Flag::Carry));

    // wrap to zero with carry
    cpu.registers.set(&Register::A, 0xFF);
    cpu.execute(&Instruction::Add(ArithmeticOperand::Data(0x01)));
    assert_eq!(0x00, cpu.registers.get(&Register::A));
    assert!(cpu.registers.get_flag(Flag::Zero));
    assert!(cpu.registers.get_flag(Flag::HalfCarry));
    assert!(cpu.registers.get_flag(Flag::Carry));
}

#[test]
fn adc_uses_carry_in() {
    let mut cpu = blank_cpu();
    cpu.registers.set(&Register::A, 0xE1);
    cpu.registers.set(&Register::E, 0x0F);
    cpu.registers.set_flag(Flag::Carry, true);
    cpu.execute(&Instruction::AddCarry(ArithmeticOperand::Register(Register::E)));
    assert_eq!(0xF1, cpu.registers.get(&Register::A));
    assert!(cpu.registers.get_flag(Flag::HalfCarry));
    assert!(!cpu.registers.get_flag(Flag::Carry));
}

#[test]
fn sub_flags_match_reference() {
    let mut cpu = blank_cpu();
    cpu.registers.set(&Register::A, 0x47);
    cpu.registers.set(&Register::B, 0x28);
    cpu.execute(&Instruction::Sub(ArithmeticOperand::Register(Register::B)));
    assert_eq!(0x1F, cpu.registers.get(&Register::A));
    assert!(cpu.registers.get_flag(Flag::Subtract));
    assert!(cpu.registers.get_flag(Flag::HalfCarry));
    assert!(!cpu.registers.get_flag(Flag::Carry));

    // full borrow
    cpu.registers.set(&Register::A, 0x10);
    cpu.execute(&Instruction::Sub(ArithmeticOperand::Data(0x20)));
    assert_eq!(0xF0, cpu.registers.get(&Register::A));
    assert!(cpu.registers.get_flag(Flag::Carry));
}

#[test]
fn sbc_borrows_through_carry() {
    let mut cpu = blank_cpu();
    cpu.registers.set(&Register::A, 0x3B);
    cpu.registers.set(&Register::H, 0x2A);
    cpu.registers.set_flag(Flag::Carry, true);
    cpu.execute(&Instruction::SubCarry(ArithmeticOperand::Register(Register::H)));
    assert_eq!(0x10, cpu.registers.get(&Register::A));
    assert!(!cpu.registers.get_flag(Flag::Zero));
    assert!(cpu.registers.get_flag(Flag::Subtract));
    assert!(!cpu.registers.get_flag(Flag::HalfCarry));
    assert!(!cpu.registers.get_flag(Flag::Carry));
}

#[test]
fn compare_leaves_a_unchanged() {
    let mut cpu = blank_cpu();
    cpu.registers.set(&Register::A, 0x3C);
    cpu.execute(&Instruction::Compare(ArithmeticOperand::Data(0x3C)));
    assert_eq!(0x3C, cpu.registers.get(&Register::A));
    assert!(cpu.registers.get_flag(Flag::Zero));
    assert!(cpu.registers.get_flag(Flag::Subtract));
}

#[test]
fn and_or_xor_flags() {
    let mut cpu = blank_cpu();
    cpu.registers.set(&Register::A, 0x5A);
    cpu.execute(&Instruction::And(ArithmeticOperand::Data(0x38)));
    assert_eq!(0x18, cpu.registers.get(&Register::A));
    assert!(cpu.registers.get_flag(Flag::HalfCarry));
    assert!(!cpu.registers.get_flag(Flag::Carry));
    cpu.execute(&Instruction::Or(ArithmeticOperand::Data(0x03)));
    assert_eq!(0x1B, cpu.registers.get(&Register::A));
    assert!(!cpu.registers.get_flag(Flag::HalfCarry));
    cpu.execute(&Instruction::Xor(ArithmeticOperand::Data(0x1B)));
    assert_eq!(0x00, cpu.registers.get(&Register::A));
    assert!(cpu.registers.get_flag(Flag::Zero));
}

#[test]
fn inc_dec_keep_carry() {
    let mut cpu = blank_cpu();
    cpu.registers.set_flag(Flag::Carry, true);
    cpu.registers.set(&Register::B, 0xFF);
    cpu.execute(&Instruction::Increment(ArithmeticOperand::Register(Register::B)));
    assert_eq!(0x00, cpu.registers.get(&Register::B));
    assert!(cpu.registers.get_flag(Flag::Zero));
    assert!(cpu.registers.get_flag(Flag::HalfCarry));
    assert!(cpu.registers.get_flag(Flag::Carry));
    cpu.execute(&Instruction::Decrement(ArithmeticOperand::Register(Register::B)));
    assert_eq!(0xFF, cpu.registers.get(&Register::B));
    assert!(cpu.registers.get_flag(Flag::Subtract));
    assert!(cpu.registers.get_flag(Flag::HalfCarry));
    assert!(cpu.registers.get_flag(Flag::Carry));
}

#[test]
fn scf_ccf_cpl() {
    let mut cpu = blank_cpu();
    cpu.execute(&Instruction::SetCarryFlag);
    assert!(cpu.registers.get_flag(Flag::Carry));
    cpu.execute(&Instruction::FlipCarry);
    assert!(!cpu.registers.get_flag(Flag::Carry));
    cpu.registers.set(&Register::A, 0x35);
    cpu.execute(&Instruction::Complement);
    assert_eq!(0xCA, cpu.registers.get(&Register::A));
    assert!(cpu.registers.get_flag(Flag::Subtract));
    assert!(cpu.registers.get_flag(Flag::HalfCarry));
}

#[test]
fn rlca_clears_zero_flag() {
    let mut cpu = blank_cpu();
    cpu.registers.set(&Register::A, 0x80);
    cpu.execute(&Instruction::Rotate(RotateKind::LeftCircular));
    assert_eq!(0x01, cpu.registers.get(&Register::A));
    assert!(cpu.registers.get_flag(Flag::Carry));
    assert!(!cpu.registers.get_flag(Flag::Zero));
}

#[test]
fn prefixed_swap_and_srl() {
    let mut cpu = blank_cpu();
    cpu.registers.set(&Register::E, 0xA7);
    cpu.execute(&Instruction::Instruction16(Instruction16::Swap(
        ArithmeticOperand::Register(Register::E),
    )));
    assert_eq!(0x7A, cpu.registers.get(&Register::E));
    cpu.execute(&Instruction::Instruction16(Instruction16::ShiftRightLogical(
        ArithmeticOperand::Register(Register::E),
    )));
    assert_eq!(0x3D, cpu.registers.get(&Register::E));
    assert!(!cpu.registers.get_flag(Flag::Carry));
}

#[test]
fn prefixed_set_and_reset_bit() {
    let mut cpu = blank_cpu();
    cpu.registers.set(&Register::D, 0x00);
    cpu.execute(&Instruction::Instruction16(Instruction16::BitSet(
        5,
        ArithmeticOperand::Register(Register::D),
    )));
    assert_eq!(0x20, cpu.registers.get(&Register::D));
    cpu.execute(&Instruction::Instruction16(Instruction16::BitReset(
        5,
        ArithmeticOperand::Register(Register::D),
    )));
    assert_eq!(0x00, cpu.registers.get(&Register::D));
}

#[test]
fn inc_at_hl_works_in_memory() {
    let mut cpu = blank_cpu();
    cpu.registers.set_16bit(&RegisterPair::Hl, 0xC123);
    cpu.memory.write_byte(0xC123, 0x0F);
    cpu.execute(&Instruction::Increment(ArithmeticOperand::AtHl));
    assert_eq!(0x10, cpu.memory.read_byte(0xC123));
    assert!(cpu.registers.get_flag(Flag::HalfCarry));
}

#[test]
fn pointer_arithmetic_wraps() {
    let mut cpu = blank_cpu();
    cpu.registers.set_16bit(&RegisterPair::Hl, 0xFFFF);
    cpu.execute(&Instruction::IncrementPtr(
        PtrArithOperand::Register16(RegisterPair::Hl),
    ));
    assert_eq!(0x0000, cpu.registers.get_16bit(&RegisterPair::Hl));
    cpu.execute(&Instruction::DecrementPtr(
        PtrArithOperand::Register16(RegisterPair::Hl),
    ));
    assert_eq!(0xFFFF, cpu.registers.get_16bit(&RegisterPair::Hl));
}

#[test]
fn decode_at_address_space_end() {
    // the decoder wraps its immediate reads instead of overflowing
    let cpu = blank_cpu();
    let decoded = dmg_core::cpu::instruction::Instruction::from_bytes(&cpu.memory, 0xFFFF);
    assert!(decoded.is_ok());
}

#[test]
fn new_cpu_initial_state() {
    let cpu = blank_cpu();
    assert_eq!(0x0000, cpu.pc);
    assert_eq!(0xFFFE, cpu.sp);
    assert_eq!(0x00, cpu.registers.get(&Register::A));
    assert_eq!(0x00, cpu.registers.f);
    assert!(!cpu.interrupt_handler.ime);
    assert!(!cpu.halted);
    // the LCD starts in OAM-search mode
    assert_eq!(0x02, cpu.memory.read_byte(0xFF41) & 0x3);
}

#[test]
fn helper_push_pop_rotate_shift() {
    let mut cpu = blank_cpu();
    cpu.push(0xBEEF);
    assert_eq!(0xFFFC, cpu.sp);
    cpu.pop(&Load16Target::Register16(RegisterPair::De));
    assert_eq!(0xBEEF, cpu.registers.get_16bit(&RegisterPair::De));
    assert_eq!(0xFFFE, cpu.sp);
    cpu.registers.set(&Register::B, 0x81);
    cpu.shift(true, false, &ArithmeticOperand::Register(Register::B));
    assert_eq!(0x02, cpu.registers.get(&Register::B));
    assert!(cpu.registers.get_flag(Flag::Carry));
    cpu.set_bit(0, &ArithmeticOperand::Register(Register::B), 1);
    assert_eq!(0x03, cpu.registers.get(&Register::B));
    cpu.rotate(false, false, true, &ArithmeticOperand::Register(Register::B));
    assert_eq!(0x81, cpu.registers.get(&Register::B));
    assert!(cpu.registers.get_flag(Flag::Carry));
}

#[test]
fn add_hl_pair_flags() {
    let mut cpu = blank_cpu();
    cpu.registers.set_16bit(&RegisterPair::Hl, 0x8A23);
    cpu.registers.set_16bit(&RegisterPair::Bc, 0x0605);
    cpu.execute(&Instruction::AddPtr(
        PtrArithOperand::Register16(RegisterPair::Hl),
        PtrArithOperand::Register16(RegisterPair::Bc),
    ));
    assert_eq!(0x9028, cpu.registers.get_16bit(&RegisterPair::Hl));
    assert!(cpu.registers.get_flag(Flag::HalfCarry));
    assert!(!cpu.registers.get_flag(Flag::Carry));
}
