use dmg_core::cpu::instruction::DecodeError;
use dmg_core::cpu::interrupt_handler::address_for_interrupt;
use dmg_core::cpu::interrupt_handler::Interrupt;
use dmg_core::cpu::interrupt_handler::InterruptHandler;
use dmg_core::cpu::registers::Flag;
use dmg_core::cpu::registers::RegisterPair;
use dmg_core::cpu::Cpu;
use dmg_core::memory::Memory;

fn cpu_with_cartridge(code_at: &[(usize, u8)]) -> Cpu {
    let mut rom = vec![0u8; 0x8000];
    for &(addr, byte) in code_at.iter() {
        rom[addr] = byte;
    }
    Cpu::new(Memory::new(&vec![0u8; 0x100], &rom))
}

#[test]
fn step_nop() {
    let mut cpu = cpu_with_cartridge(&[(0x0100, 0x00)]);
    cpu.pc = 0x0100;
    let f_before = cpu.registers.f;
    let cycles = cpu.step().unwrap();
    assert_eq!(0x0101, cpu.pc);
    assert_eq!(1, cycles);
    assert_eq!(f_before, cpu.registers.f);
}

#[test]
fn step_ld_hl_d16() {
    let mut cpu = cpu_with_cartridge(&[(0x0100, 0x21), (0x0101, 0xCD), (0x0102, 0xAB)]);
    cpu.pc = 0x0100;
    let cycles = cpu.step().unwrap();
    assert_eq!(0xABCD, cpu.registers.get_16bit(&RegisterPair::Hl));
    assert_eq!(0x0103, cpu.pc);
    assert_eq!(3, cycles);
}

#[test]
fn step_call_then_ret() {
    let mut cpu = cpu_with_cartridge(&[
        (0x0100, 0xCD),
        (0x0101, 0x00),
        (0x0102, 0x20),
        (0x2000, 0xC9),
    ]);
    cpu.pc = 0x0100;
    cpu.sp = 0xFFFE;
    let call_cycles = cpu.step().unwrap();
    assert_eq!(0x2000, cpu.pc);
    assert_eq!(0xFFFC, cpu.sp);
    assert_eq!(0x01, cpu.memory.read_byte(0xFFFD));
    assert_eq!(0x03, cpu.memory.read_byte(0xFFFC));
    assert_eq!(6, call_cycles);
    let ret_cycles = cpu.step().unwrap();
    assert_eq!(0x0103, cpu.pc);
    assert_eq!(0xFFFE, cpu.sp);
    assert_eq!(4, ret_cycles);
}

#[test]
fn step_sub_then_daa_flags() {
    // SUB B with borrow out of the low nibble, then the decimal adjust
    let mut cpu = cpu_with_cartridge(&[(0x0100, 0x90), (0x0101, 0x27)]);
    cpu.pc = 0x0100;
    cpu.registers.set(&dmg_core::cpu::registers::Register::A, 0x47);
    cpu.registers.set(&dmg_core::cpu::registers::Register::B, 0x28);
    cpu.step().unwrap();
    assert_eq!(0x1F, cpu.registers.get(&dmg_core::cpu::registers::Register::A));
    assert!(cpu.registers.get_flag(Flag::Subtract));
    assert!(cpu.registers.get_flag(Flag::HalfCarry));
    assert!(!cpu.registers.get_flag(Flag::Carry));
    cpu.step().unwrap();
    assert_eq!(0x19, cpu.registers.get(&dmg_core::cpu::registers::Register::A));
    assert!(!cpu.registers.get_flag(Flag::Zero));
    assert!(!cpu.registers.get_flag(Flag::Carry));
}

#[test]
fn step_add_then_daa() {
    // ADD B leaves 0x6F, the adjust makes it decimal 75
    let mut cpu = cpu_with_cartridge(&[(0x0100, 0x80), (0x0101, 0x27)]);
    cpu.pc = 0x0100;
    cpu.registers.set(&dmg_core::cpu::registers::Register::A, 0x47);
    cpu.registers.set(&dmg_core::cpu::registers::Register::B, 0x28);
    cpu.step().unwrap();
    assert_eq!(0x6F, cpu.registers.get(&dmg_core::cpu::registers::Register::A));
    assert!(!cpu.registers.get_flag(Flag::Subtract));
    assert!(!cpu.registers.get_flag(Flag::HalfCarry));
    assert!(!cpu.registers.get_flag(Flag::Carry));
    cpu.step().unwrap();
    assert_eq!(0x75, cpu.registers.get(&dmg_core::cpu::registers::Register::A));
}

#[test]
fn step_bit_test_keeps_carry() {
    // BIT 7,H on H=0x9F: Z=0, N=0, H=1, C unchanged
    let mut cpu = cpu_with_cartridge(&[(0x0100, 0xCB), (0x0101, 0x7C)]);
    cpu.pc = 0x0100;
    cpu.registers.set(&dmg_core::cpu::registers::Register::H, 0x9F);
    cpu.registers.set_flag(Flag::Carry, true);
    let cycles = cpu.step().unwrap();
    assert_eq!(2, cycles);
    assert!(!cpu.registers.get_flag(Flag::Zero));
    assert!(!cpu.registers.get_flag(Flag::Subtract));
    assert!(cpu.registers.get_flag(Flag::HalfCarry));
    assert!(cpu.registers.get_flag(Flag::Carry));
}

#[test]
fn step_invalid_opcode_reports_address_and_byte() {
    let mut cpu = cpu_with_cartridge(&[(0x0100, 0xD3)]);
    cpu.pc = 0x0100;
    assert_eq!(
        cpu.step(),
        Err(DecodeError::InvalidOpcode(0x0100, 0xD3))
    );
    assert_eq!(0x0100, cpu.pc);
}

#[test]
fn step_conditional_jump_cycles() {
    // JR NZ,+2 taken costs 3 cycles, not taken 2
    let mut cpu = cpu_with_cartridge(&[(0x0100, 0x20), (0x0101, 0x02)]);
    cpu.pc = 0x0100;
    cpu.registers.set_flag(Flag::Zero, false);
    let taken = cpu.step().unwrap();
    assert_eq!(3, taken);
    assert_eq!(0x0104, cpu.pc);

    let mut cpu = cpu_with_cartridge(&[(0x0100, 0x20), (0x0101, 0x02)]);
    cpu.pc = 0x0100;
    cpu.registers.set_flag(Flag::Zero, true);
    let not_taken = cpu.step().unwrap();
    assert_eq!(2, not_taken);
    assert_eq!(0x0102, cpu.pc);
}

#[test]
fn step_jr_negative_displacement() {
    let mut cpu = cpu_with_cartridge(&[(0x0110, 0x18), (0x0111, 0xFE)]);
    cpu.pc = 0x0110;
    cpu.step().unwrap();
    // -2 from the instruction end lands back on the JR itself
    assert_eq!(0x0110, cpu.pc);
}

#[test]
fn step_halt_idles_until_interrupt() {
    let mut cpu = cpu_with_cartridge(&[(0x0100, 0x76)]);
    cpu.pc = 0x0100;
    cpu.step().unwrap();
    assert!(cpu.halted);
    let pc_after_halt = cpu.pc;
    assert_eq!(1, cpu.step().unwrap());
    assert_eq!(pc_after_halt, cpu.pc);
    // request and enable the V-Blank interrupt: the CPU wakes
    cpu.memory.write_byte(0xFFFF, 0x01);
    cpu.memory.write_byte(0xFF0F, 0x01);
    cpu.step().unwrap();
    assert!(!cpu.halted);
}

#[test]
fn step_ei_delay_and_interrupt_service() {
    // EI; NOP; NOP with V-Blank requested and enabled
    let mut cpu = cpu_with_cartridge(&[(0x0100, 0xFB), (0x0101, 0x00), (0x0102, 0x00)]);
    cpu.pc = 0x0100;
    cpu.sp = 0xFFFE;
    cpu.memory.write_byte(0xFFFF, 0x01);
    cpu.memory.write_byte(0xFF0F, 0x01);
    cpu.step().unwrap();  // EI schedules the enable
    assert!(!cpu.interrupt_handler.ime);
    cpu.step().unwrap();  // the following instruction still runs
    assert!(cpu.interrupt_handler.ime);
    assert_eq!(0x0102, cpu.pc);
    let cycles = cpu.step().unwrap();  // now the interrupt is serviced
    assert_eq!(5, cycles);
    assert_eq!(0x0040, cpu.pc);
    assert_eq!(0xFFFC, cpu.sp);
    assert!(!cpu.interrupt_handler.ime);
    assert_eq!(0x00, cpu.memory.read_byte(0xFF0F));
    // the return address on the stack is the interrupted PC
    assert_eq!(0x01, cpu.memory.read_byte(0xFFFD));
    assert_eq!(0x02, cpu.memory.read_byte(0xFFFC));
}

#[test]
fn interrupt_priority_and_single_acknowledge() {
    let mut memory = Memory::new(&vec![0u8; 0x100], &vec![0u8; 0x8000]);
    let handler = InterruptHandler::new();
    memory.write_byte(0xFFFF, 0x1F);
    handler.set_interrupt(&mut memory, Interrupt::Timer);
    handler.set_interrupt(&mut memory, Interrupt::LcdStat);
    let first = handler.check_interrupts(&mut memory);
    assert!(matches!(first, Some(Interrupt::LcdStat)));
    // only the serviced bit was cleared
    assert_eq!(0x04, memory.read_byte(0xFF0F));
    let second = handler.check_interrupts(&mut memory);
    assert!(matches!(second, Some(Interrupt::Timer)));
    assert_eq!(0x00, memory.read_byte(0xFF0F));
    assert!(handler.check_interrupts(&mut memory).is_none());
    assert_eq!(0x50, address_for_interrupt(Interrupt::Timer));
    assert_eq!(0x60, address_for_interrupt(Interrupt::Joypad));
}

#[test]
fn step_ld_hl_sp_plus_offset() {
    // LD HL,SP+s8 adds a signed byte with low-byte flags
    let mut cpu = cpu_with_cartridge(&[(0x0100, 0xF8), (0x0101, 0x05)]);
    cpu.pc = 0x0100;
    cpu.sp = 0xFFF8;
    let cycles = cpu.step().unwrap();
    assert_eq!(3, cycles);
    assert_eq!(0xFFFD, cpu.registers.get_16bit(&RegisterPair::Hl));
    assert!(!cpu.registers.get_flag(Flag::Zero));
    assert!(!cpu.registers.get_flag(Flag::HalfCarry));
    assert!(!cpu.registers.get_flag(Flag::Carry));
}

#[test]
fn step_rst_pushes_and_vectors() {
    let mut cpu = cpu_with_cartridge(&[(0x0100, 0xEF)]);
    cpu.pc = 0x0100;
    cpu.sp = 0xFFFE;
    let cycles = cpu.step().unwrap();
    assert_eq!(4, cycles);
    assert_eq!(0x0028, cpu.pc);
    assert_eq!(0xFFFC, cpu.sp);
    assert_eq!(0x01, cpu.memory.read_byte(0xFFFD));
    assert_eq!(0x01, cpu.memory.read_byte(0xFFFC));
}
