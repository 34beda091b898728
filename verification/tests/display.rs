use dmg_core::cpu::disasm::dec_str;
use dmg_core::cpu::disasm::hex_str;
use dmg_core::cpu::instruction::ArithmeticOperand;
use dmg_core::cpu::instruction::Instruction;
use dmg_core::cpu::instruction::Load16Source;
use dmg_core::cpu::instruction::Load16Target;
use dmg_core::cpu::instruction::Load8Operand;
use dmg_core::cpu::instruction::PtrArithOperand;
use dmg_core::cpu::registers::Register;
use dmg_core::cpu::registers::RegisterPair;
use dmg_core::ppu::Pixel;
use dmg_core::timer::Cycles;

#[test]
fn display_nop() {
    assert_eq!(Instruction::Nop.text(), "NOP");
}

#[test]
fn display_halt() {
    assert_eq!(Instruction::Halt.text(), "HALT");
}

#[test]
fn display_load8() {
    assert_eq!(
        Instruction::Load8(Load8Operand::Register(Register::A), Load8Operand::AtC).text(),
        "LD A,(C)"
    );
}

#[test]
fn display_load16() {
    assert_eq!(
        Instruction::Load16(
            Load16Target::Register16(RegisterPair::Hl),
            Load16Source::SpPlus(15)
        )
        .text(),
        "LD HL,SP+15"
    );
}

#[test]
fn display_add() {
    assert_eq!(
        Instruction::Add(ArithmeticOperand::Register(Register::B)).text(),
        "ADD B"
    );
}

#[test]
fn display_sub() {
    assert_eq!(Instruction::Sub(ArithmeticOperand::AtHl).text(), "SUB (HL)");
}

#[test]
fn display_adc() {
    assert_eq!(
        Instruction::AddCarry(ArithmeticOperand::Register(Register::B)).text(),
        "ADC B"
    );
}

#[test]
fn display_sbc() {
    assert_eq!(
        Instruction::SubCarry(ArithmeticOperand::Register(Register::D)).text(),
        "SBC D"
    );
}

#[test]
fn display_and() {
    assert_eq!(
        Instruction::And(ArithmeticOperand::Register(Register::B)).text(),
        "AND B"
    );
}

#[test]
fn display_or() {
    assert_eq!(
        Instruction::Or(ArithmeticOperand::Register(Register::C)).text(),
        "OR C"
    );
}

#[test]
fn display_xor() {
    assert_eq!(Instruction::Xor(ArithmeticOperand::Data(10)).text(), "XOR $10");
}

#[test]
fn display_cp() {
    assert_eq!(
        Instruction::Compare(ArithmeticOperand::Data(10)).text(),
        "CP $10"
    );
}

#[test]
fn display_inc() {
    assert_eq!(
        Instruction::Increment(ArithmeticOperand::Register(Register::A)).text(),
        "INC A"
    );
}

#[test]
fn display_dec() {
    assert_eq!(
        Instruction::Decrement(ArithmeticOperand::Register(Register::D)).text(),
        "DEC D"
    );
}

#[test]
fn display_addptr() {
    assert_eq!(
        Instruction::AddPtr(PtrArithOperand::StackPointer, PtrArithOperand::Data(25)).text(),
        "ADD SP,$25"
    );
}

#[test]
fn display_cycles_and_pixels() {
    assert_eq!(Cycles::Cycles(4).text(), "4");
    assert_eq!(Cycles::ConditionalCycles(6, 3).text(), "6/3");
    let pixel = Pixel { color_index: 2, prio: 0 };
    assert_eq!(pixel.text(), "[color_index: 2 prio: 0]");
}

#[test]
fn display_numbers() {
    assert_eq!(dec_str(0), "0");
    assert_eq!(dec_str(40960), "40960");
    assert_eq!(hex_str(0), "0x0");
    assert_eq!(hex_str(0xABCD), "0xabcd");
}

#[test]
fn display_negative_displacement() {
    assert_eq!(
        Instruction::Load16(
            Load16Target::Register16(RegisterPair::Hl),
            Load16Source::SpPlus(-5)
        )
        .text(),
        "LD HL,SP+-5"
    );
}

#[test]
fn display_hex_immediates() {
    assert_eq!(
        Instruction::Load16(
            Load16Target::Register16(RegisterPair::Bc),
            Load16Source::Data(0x9FFF)
        )
        .text(),
        "LD BC,$0x9fff"
    );
    assert_eq!(
        Instruction::Load8(Load8Operand::Register(Register::A), Load8Operand::Data(0))
            .text(),
        "LD A,$0x0"
    );
}
