use dmg_core::cpu::registers::Flag;
use dmg_core::cpu::registers::Register;
use dmg_core::cpu::registers::RegisterPair;
use dmg_core::cpu::registers::Registers;

#[test]
fn set_16() {
    let mut registers = Registers::new();
    registers.set_16bit(&RegisterPair::Hl, 0x0A0C);
    assert_eq!(registers.h, 0x0A);
    assert_eq!(registers.l, 0x0C);
}

#[test]
fn set_16_then_get_16() {
    let mut registers = Registers::new();
    registers.set_16bit(&RegisterPair::Hl, 0x0A0C);
    assert_eq!(registers.get_16bit(&RegisterPair::Hl), 0x0A0C);
}

#[test]
fn pair_round_trip_bc_de_hl() {
    let mut registers = Registers::new();
    registers.set_16bit(&RegisterPair::Bc, 0x1234);
    registers.set_16bit(&RegisterPair::De, 0xFEDC);
    registers.set_16bit(&RegisterPair::Hl, 0x00FF);
    assert_eq!(registers.get_16bit(&RegisterPair::Bc), 0x1234);
    assert_eq!(registers.get_16bit(&RegisterPair::De), 0xFEDC);
    assert_eq!(registers.get_16bit(&RegisterPair::Hl), 0x00FF);
}

#[test]
fn pair_af_masks_low_nibble() {
    let mut registers = Registers::new();
    registers.set_16bit(&RegisterPair::Af, 0xABCD);
    assert_eq!(registers.get_16bit(&RegisterPair::Af), 0xABC0);
    assert_eq!(registers.f, 0xC0);
}

#[test]
fn flags_set_and_get() {
    let mut registers = Registers::new();
    registers.set_flag(Flag::Zero, true);
    registers.set_flag(Flag::Carry, true);
    assert!(registers.get_flag(Flag::Zero));
    assert!(!registers.get_flag(Flag::Subtract));
    assert!(!registers.get_flag(Flag::HalfCarry));
    assert!(registers.get_flag(Flag::Carry));
    assert_eq!(registers.f, 0x90);
    registers.set_flag(Flag::Zero, false);
    assert!(!registers.get_flag(Flag::Zero));
    assert_eq!(registers.f, 0x10);
}

#[test]
fn set_flags_at_once() {
    let mut registers = Registers::new();
    registers.set_flags(true, false, true, false);
    assert_eq!(registers.f, 0xA0);
    assert!(registers.get_flag(Flag::Zero));
    assert!(registers.get_flag(Flag::HalfCarry));
}

#[test]
fn get_and_set_single_registers() {
    let mut registers = Registers::new();
    registers.set(&Register::A, 0x42);
    registers.set(&Register::L, 0x99);
    assert_eq!(registers.get(&Register::A), 0x42);
    assert_eq!(registers.get(&Register::L), 0x99);
    assert_eq!(registers.get(&Register::B), 0);
}

#[test]
fn registers_text_dump() {
    let registers = Registers::new();
    assert_eq!(
        registers.text(),
        "[ a: 0x0, b: 0x0, c: 0x0, d: 0x0, e: 0x0, h: 0x0, l: 0x0, Z: 0 N: 0 H: 0 C: 0 ]"
    );
}
