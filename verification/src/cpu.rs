//! The SM83 CPU: the register file, the decoder, the interrupt controller,
//! and the interpreter that executes one instruction per step.

pub mod alu;
pub mod disasm;
pub mod instruction;
pub mod interrupt_handler;
pub mod registers;

use vstd::prelude::*;

use crate::arith::sext8;
use crate::arith::wrap16;
use crate::arith::wrap_add16;
use crate::arith::wrap_add16_signed;
use crate::arith::wrap_sub16;
use crate::cpu::alu::alu_add;
use crate::cpu::alu::alu_add16;
use crate::cpu::alu::alu_add_sp;
use crate::cpu::alu::alu_and;
use crate::cpu::alu::alu_daa;
use crate::cpu::alu::alu_dec;
use crate::cpu::alu::alu_inc;
use crate::cpu::alu::alu_or;
use crate::cpu::alu::alu_rotate;
use crate::cpu::alu::alu_shift;
use crate::cpu::alu::alu_sub;
use crate::cpu::alu::alu_swap;
use crate::cpu::alu::alu_xor;
use crate::cpu::alu::bit_value;
use crate::cpu::alu::spec_alu_add;
use crate::cpu::alu::spec_alu_add16;
use crate::cpu::alu::spec_alu_add_sp;
use crate::cpu::alu::spec_alu_and;
use crate::cpu::alu::spec_alu_daa;
use crate::cpu::alu::spec_alu_dec;
use crate::cpu::alu::spec_alu_inc;
use crate::cpu::alu::spec_alu_or;
use crate::cpu::alu::spec_alu_rotate;
use crate::cpu::alu::spec_alu_shift;
use crate::cpu::alu::spec_alu_sub;
use crate::cpu::alu::spec_alu_swap;
use crate::cpu::alu::spec_alu_xor;
use crate::cpu::alu::spec_bit_value;
use crate::cpu::alu::spec_with_bit;
use crate::cpu::alu::with_bit;
use crate::cpu::instruction::ArithmeticOperand;
use crate::cpu::instruction::CallKind;
use crate::cpu::instruction::DecodeError;
use crate::cpu::instruction::Instruction;
use crate::cpu::instruction::Instruction16;
use crate::cpu::instruction::JumpCondition;
use crate::cpu::instruction::JumpKind;
use crate::cpu::instruction::Load16Source;
use crate::cpu::instruction::Load16Target;
use crate::cpu::instruction::Load8Operand;
use crate::cpu::instruction::PtrArithOperand;
use crate::cpu::instruction::ReturnKind;
use crate::cpu::instruction::RotateKind;
use crate::cpu::instruction::spec_decode;
use crate::cpu::instruction::spec_size_and_cycles;
use crate::cpu::interrupt_handler::Interrupt;
use crate::cpu::interrupt_handler::InterruptHandler;
use crate::cpu::interrupt_handler::address_for_interrupt;
use crate::cpu::interrupt_handler::lemma_pending_iff_mask;
use crate::cpu::interrupt_handler::spec_interrupt_address;
use crate::cpu::interrupt_handler::spec_interrupt_mask;
use crate::cpu::interrupt_handler::spec_pending_interrupt;
use crate::cpu::registers::Flag;
use crate::cpu::registers::Register;
use crate::cpu::registers::RegisterPair;
use crate::cpu::registers::Registers;
use crate::gb;
use crate::memory::MemView;
use crate::memory::Memory;
use crate::memory::spec_read;
use crate::memory::spec_read_word;
use crate::memory::spec_write;
use crate::memory::spec_write_word;
use crate::timer::Cycles;
use crate::timer::spec_cycles_value;

verus! {

pub struct Cpu {
    pub registers: Registers,
    pub pc: u16,
    pub sp: u16,
    pub memory: Memory,
    pub interrupt_handler: InterruptHandler,
    pub halted: bool,
}

/// The whole machine state as mathematics.
#[verifier::ext_equal]
pub struct CpuView {
    pub regs: Registers,
    pub pc: u16,
    pub sp: u16,
    pub ime: bool,
    pub ime_pending: bool,
    pub halted: bool,
    pub mem: MemView,
}

impl View for Cpu {
    type V = CpuView;

    open spec fn view(&self) -> CpuView {
        CpuView {
            regs: self.registers,
            pc: self.pc,
            sp: self.sp,
            ime: self.interrupt_handler.ime,
            ime_pending: self.interrupt_handler.ime_pending,
            halted: self.halted,
            mem: self.memory@,
        }
    }
}

/// Whether a jump condition holds of the flags.
pub open spec fn spec_cond(s: CpuView, cond: JumpCondition) -> bool {
    match cond {
        JumpCondition::Zero => s.regs.spec_flag(Flag::Zero),
        JumpCondition::NonZero => !s.regs.spec_flag(Flag::Zero),
        JumpCondition::Carry => s.regs.spec_flag(Flag::Carry),
        JumpCondition::NonCarry => !s.regs.spec_flag(Flag::Carry),
    }
}

/// The value an arithmetic operand denotes: a register, the byte at (HL),
/// or an immediate.
pub open spec fn spec_arith_val(s: CpuView, op: ArithmeticOperand) -> u8 {
    match op {
        ArithmeticOperand::Register(r) => s.regs.spec_get(r),
        ArithmeticOperand::AtHl => spec_read(s.mem, s.regs.spec_pair(RegisterPair::Hl)),
        ArithmeticOperand::Data(d) => d,
    }
}

/// A result written back to an arithmetic operand's place.
pub open spec fn spec_arith_store(s: CpuView, op: ArithmeticOperand, v: u8) -> CpuView {
    match op {
        ArithmeticOperand::Register(r) => CpuView { regs: s.regs.spec_set(r, v), ..s },
        ArithmeticOperand::AtHl => CpuView {
            mem: spec_write(s.mem, s.regs.spec_pair(RegisterPair::Hl), v),
            ..s
        },
        ArithmeticOperand::Data(_) => s,
    }
}

/// The value an 8-bit load operand denotes when read.
pub open spec fn spec_load8_val(s: CpuView, op: Load8Operand) -> u8 {
    match op {
        Load8Operand::Register(r) => s.regs.spec_get(r),
        Load8Operand::Data(d) => d,
        Load8Operand::AtReg16(rr) => spec_read(s.mem, s.regs.spec_pair(rr)),
        Load8Operand::AtC => spec_read(s.mem, (0xFF00 + s.regs.c) as u16),
        Load8Operand::AtAddress8(a8) => spec_read(s.mem, (0xFF00 + a8) as u16),
        Load8Operand::AtAddress16(a16) => spec_read(s.mem, a16),
        Load8Operand::AtHli => spec_read(s.mem, s.regs.spec_pair(RegisterPair::Hl)),
        Load8Operand::AtHld => spec_read(s.mem, s.regs.spec_pair(RegisterPair::Hl)),
    }
}

/// The HL post-increment or post-decrement of the (HL+)/(HL-) operands.
pub open spec fn spec_load8_bump(regs: Registers, op: Load8Operand) -> Registers {
    match op {
        Load8Operand::AtHli => regs.spec_set_pair(
            RegisterPair::Hl,
            wrap16(regs.spec_pair(RegisterPair::Hl) + 1),
        ),
        Load8Operand::AtHld => regs.spec_set_pair(
            RegisterPair::Hl,
            wrap16(regs.spec_pair(RegisterPair::Hl) - 1),
        ),
        _ => regs,
    }
}

/// A byte written to an 8-bit load operand's place, with the HL bump of
/// the (HL+)/(HL-) targets.
pub open spec fn spec_load8_store(s: CpuView, op: Load8Operand, v: u8) -> CpuView {
    match op {
        Load8Operand::Register(r) => CpuView { regs: s.regs.spec_set(r, v), ..s },
        Load8Operand::Data(_) => s,
        Load8Operand::AtReg16(rr) => CpuView {
            mem: spec_write(s.mem, s.regs.spec_pair(rr), v),
            ..s
        },
        Load8Operand::AtC => CpuView { mem: spec_write(s.mem, (0xFF00 + s.regs.c) as u16, v), ..s },
        Load8Operand::AtAddress8(a8) => CpuView {
            mem: spec_write(s.mem, (0xFF00 + a8) as u16, v),
            ..s
        },
        Load8Operand::AtAddress16(a16) => CpuView { mem: spec_write(s.mem, a16, v), ..s },
        Load8Operand::AtHli => CpuView {
            regs: spec_load8_bump(s.regs, op),
            mem: spec_write(s.mem, s.regs.spec_pair(RegisterPair::Hl), v),
            ..s
        },
        Load8Operand::AtHld => CpuView {
            regs: spec_load8_bump(s.regs, op),
            mem: spec_write(s.mem, s.regs.spec_pair(RegisterPair::Hl), v),
            ..s
        },
    }
}

/// PUSH: the high byte goes to SP-1, the low byte to SP-2, then SP drops
/// by two; SP points at the last pushed byte.
pub open spec fn spec_push(s: CpuView, v: u16) -> CpuView {
    CpuView {
        mem: spec_write(
            spec_write(s.mem, wrap16(s.sp - 1), (v / 256) as u8),
            wrap16(s.sp - 2),
            (v % 256) as u8,
        ),
        sp: wrap16(s.sp - 2),
        ..s
    }
}

/// POP: the low byte comes from SP, the high byte from SP+1, then SP rises
/// by two. The `StackPointer` target is the return-address form: it pops
/// into PC.
pub open spec fn spec_pop_into(s: CpuView, target: Load16Target) -> CpuView {
    let v = spec_read_word(s.mem, s.sp);
    let s2 = CpuView { sp: wrap16(s.sp + 2), ..s };
    match target {
        Load16Target::StackPointer => CpuView { pc: v, ..s2 },
        Load16Target::Register16(rr) => CpuView { regs: s2.regs.spec_set_pair(rr, v), ..s2 },
        Load16Target::Address(_) => s2,
    }
}

/// A rotate of an operand, with its flags. The accumulator rotates clear Z;
/// the prefixed ones set it from the result.
pub open spec fn spec_rotate_op(
    s: CpuView,
    left: bool,
    through_carry: bool,
    set_zero: bool,
    op: ArithmeticOperand,
) -> CpuView {
    let v = spec_arith_val(s, op);
    let t = spec_alu_rotate(v, left, through_carry, s.regs.spec_flag(Flag::Carry));
    let s1 = spec_arith_store(s, op, t.0);
    CpuView { regs: s1.regs.spec_with_flags(set_zero && t.0 == 0, false, false, t.1), ..s1 }
}

/// A shift of an operand, with its flags.
pub open spec fn spec_shift_op(s: CpuView, left: bool, logical: bool, op: ArithmeticOperand)
    -> CpuView {
    let v = spec_arith_val(s, op);
    let t = spec_alu_shift(v, left, logical);
    let s1 = spec_arith_store(s, op, t.0);
    CpuView { regs: s1.regs.spec_with_flags(t.0 == 0, false, false, t.1), ..s1 }
}

/// RES/SET: one bit of the operand forced to `bit`; the flags are untouched.
pub open spec fn spec_set_bit_op(s: CpuView, index: u8, op: ArithmeticOperand, bit: u8)
    -> CpuView {
    let v = spec_arith_val(s, op);
    spec_arith_store(s, op, spec_with_bit(v, index, bit))
}

/// One prefixed operation.
pub open spec fn spec_execute_i16(s: CpuView, i: Instruction16) -> CpuView {
    match i {
        Instruction16::RotateLeftCircular(op) => spec_rotate_op(s, true, false, true, op),
        Instruction16::RotateLeft(op) => spec_rotate_op(s, true, true, true, op),
        Instruction16::RotateRightCircular(op) => spec_rotate_op(s, false, false, true, op),
        Instruction16::RotateRight(op) => spec_rotate_op(s, false, true, true, op),
        Instruction16::ShiftLeft(op) => spec_shift_op(s, true, false, op),
        Instruction16::ShiftRightArithmetic(op) => spec_shift_op(s, false, false, op),
        Instruction16::ShiftRightLogical(op) => spec_shift_op(s, false, true, op),
        Instruction16::Swap(op) => {
            let v = spec_arith_val(s, op);
            let r = spec_alu_swap(v);
            let s1 = spec_arith_store(s, op, r);
            CpuView { regs: s1.regs.spec_with_flags(r == 0, false, false, false), ..s1 }
        },
        Instruction16::BitTest(n, op) => {
            let v = spec_arith_val(s, op);
            let b = spec_bit_value(v, n);
            CpuView {
                regs: s.regs.spec_with_flags(b == 0, false, true, s.regs.spec_flag(Flag::Carry)),
                ..s
            }
        },
        Instruction16::BitReset(n, op) => spec_set_bit_op(s, n, op, 0),
        Instruction16::BitSet(n, op) => spec_set_bit_op(s, n, op, 1),
    }
}

/// The meaning of one instruction: the machine state after it, and the
/// m-cycles it consumes. PC has already advanced by the instruction's size
/// when the instruction acts; a relative jump adds its displacement to that
/// advanced PC.
pub open spec fn spec_execute(s: CpuView, i: Instruction) -> (CpuView, u8) {
    let size = spec_size_and_cycles(i).0;
    let cyc = spec_size_and_cycles(i).1;
    let s = CpuView { pc: wrap16(s.pc + size), ..s };
    let z_old = s.regs.spec_flag(Flag::Zero);
    let c_old = s.regs.spec_flag(Flag::Carry);
    let a_old = s.regs.a;
    let st: (CpuView, bool) = match i {
        Instruction::Nop => (s, true),
        Instruction::Stop => (CpuView { halted: true, ..s }, true),
        Instruction::Halt => (CpuView { halted: true, ..s }, true),
        Instruction::SetCarryFlag => (
            CpuView { regs: s.regs.spec_with_flags(z_old, false, false, true), ..s },
            true,
        ),
        Instruction::FlipCarry => (
            CpuView { regs: s.regs.spec_with_flags(z_old, false, false, !c_old), ..s },
            true,
        ),
        Instruction::Complement => (
            CpuView {
                regs: s.regs.spec_set(Register::A, !a_old).spec_with_flags(
                    z_old,
                    true,
                    true,
                    c_old,
                ),
                ..s
            },
            true,
        ),
        Instruction::DecimalAdjust => {
            let t = spec_alu_daa(
                a_old,
                s.regs.spec_flag(Flag::Subtract),
                s.regs.spec_flag(Flag::HalfCarry),
                c_old,
            );
            (
                CpuView {
                    regs: s.regs.spec_set(Register::A, t.0).spec_with_flags(
                        t.1,
                        s.regs.spec_flag(Flag::Subtract),
                        false,
                        t.2,
                    ),
                    ..s
                },
                true,
            )
        },
        Instruction::Load16(target, source) => {
            let s2 = match (target, source) {
                (Load16Target::Register16(rr), Load16Source::Data(d16)) => CpuView {
                    regs: s.regs.spec_set_pair(rr, d16),
                    ..s
                },
                (Load16Target::StackPointer, Load16Source::Data(d16)) => CpuView {
                    sp: d16,
                    ..s
                },
                (Load16Target::Address(a16), Load16Source::StackPointer) => CpuView {
                    mem: spec_write_word(s.mem, a16, s.sp),
                    ..s
                },
                (Load16Target::StackPointer, Load16Source::Hl) => CpuView {
                    sp: s.regs.spec_pair(RegisterPair::Hl),
                    ..s
                },
                (Load16Target::Register16(rr), Load16Source::SpPlus(d)) => {
                    let t = spec_alu_add_sp(s.sp, d);
                    CpuView {
                        regs: s.regs.spec_set_pair(rr, t.0).spec_with_flags(
                            false,
                            false,
                            t.1,
                            t.2,
                        ),
                        ..s
                    }
                },
                _ => s,
            };
            (s2, true)
        },
        Instruction::Load8(target, source) => {
            let v = spec_load8_val(s, source);
            let s1 = CpuView { regs: spec_load8_bump(s.regs, source), ..s };
            (spec_load8_store(s1, target, v), true)
        },
        Instruction::Add(op) => {
            let t = spec_alu_add(a_old, spec_arith_val(s, op), false);
            (
                CpuView {
                    regs: s.regs.spec_set(Register::A, t.0).spec_with_flags(t.1, t.2, t.3, t.4),
                    ..s
                },
                true,
            )
        },
        Instruction::AddCarry(op) => {
            let t = spec_alu_add(a_old, spec_arith_val(s, op), c_old);
            (
                CpuView {
                    regs: s.regs.spec_set(Register::A, t.0).spec_with_flags(t.1, t.2, t.3, t.4),
                    ..s
                },
                true,
            )
        },
        Instruction::Sub(op) => {
            let t = spec_alu_sub(a_old, spec_arith_val(s, op), false);
            (
                CpuView {
                    regs: s.regs.spec_set(Register::A, t.0).spec_with_flags(t.1, t.2, t.3, t.4),
                    ..s
                },
                true,
            )
        },
        Instruction::SubCarry(op) => {
            let t = spec_alu_sub(a_old, spec_arith_val(s, op), c_old);
            (
                CpuView {
                    regs: s.regs.spec_set(Register::A, t.0).spec_with_flags(t.1, t.2, t.3, t.4),
                    ..s
                },
                true,
            )
        },
        Instruction::And(op) => {
            let t = spec_alu_and(a_old, spec_arith_val(s, op));
            (
                CpuView {
                    regs: s.regs.spec_set(Register::A, t.0).spec_with_flags(t.1, t.2, t.3, t.4),
                    ..s
                },
                true,
            )
        },
        Instruction::Or(op) => {
            let t = spec_alu_or(a_old, spec_arith_val(s, op));
            (
                CpuView {
                    regs: s.regs.spec_set(Register::A, t.0).spec_with_flags(t.1, t.2, t.3, t.4),
                    ..s
                },
                true,
            )
        },
        Instruction::Xor(op) => {
            let t = spec_alu_xor(a_old, spec_arith_val(s, op));
            (
                CpuView {
                    regs: s.regs.spec_set(Register::A, t.0).spec_with_flags(t.1, t.2, t.3, t.4),
                    ..s
                },
                true,
            )
        },
        Instruction::Compare(op) => {
            let t = spec_alu_sub(a_old, spec_arith_val(s, op), false);
            (CpuView { regs: s.regs.spec_with_flags(t.1, t.2, t.3, t.4), ..s }, true)
        },
        Instruction::Increment(op) => {
            let t = spec_alu_inc(spec_arith_val(s, op));
            let s1 = spec_arith_store(s, op, t.0);
            (CpuView { regs: s1.regs.spec_with_flags(t.1, t.2, t.3, c_old), ..s1 }, true)
        },
        Instruction::Decrement(op) => {
            let t = spec_alu_dec(spec_arith_val(s, op));
            let s1 = spec_arith_store(s, op, t.0);
            (CpuView { regs: s1.regs.spec_with_flags(t.1, t.2, t.3, c_old), ..s1 }, true)
        },
        Instruction::IncrementPtr(op) => {
            let s2 = match op {
                PtrArithOperand::Register16(rr) => CpuView {
                    regs: s.regs.spec_set_pair(rr, wrap16(s.regs.spec_pair(rr) + 1)),
                    ..s
                },
                PtrArithOperand::StackPointer => CpuView { sp: wrap16(s.sp + 1), ..s },
                PtrArithOperand::Data(_) => s,
            };
            (s2, true)
        },
        Instruction::DecrementPtr(op) => {
            let s2 = match op {
                PtrArithOperand::Register16(rr) => CpuView {
                    regs: s.regs.spec_set_pair(rr, wrap16(s.regs.spec_pair(rr) - 1)),
                    ..s
                },
                PtrArithOperand::StackPointer => CpuView { sp: wrap16(s.sp - 1), ..s },
                PtrArithOperand::Data(_) => s,
            };
            (s2, true)
        },
        Instruction::AddPtr(op1, op2) => {
            let s2 = match (op1, op2) {
                (PtrArithOperand::Register16(rr), PtrArithOperand::Register16(rr2)) => {
                    let t = spec_alu_add16(s.regs.spec_pair(rr), s.regs.spec_pair(rr2));
                    CpuView {
                        regs: s.regs.spec_set_pair(rr, t.0).spec_with_flags(
                            z_old,
                            false,
                            t.1,
                            t.2,
                        ),
                        ..s
                    }
                },
                (PtrArithOperand::Register16(rr), PtrArithOperand::StackPointer) => {
                    let t = spec_alu_add16(s.regs.spec_pair(rr), s.sp);
                    CpuView {
                        regs: s.regs.spec_set_pair(rr, t.0).spec_with_flags(
                            z_old,
                            false,
                            t.1,
                            t.2,
                        ),
                        ..s
                    }
                },
                (PtrArithOperand::StackPointer, PtrArithOperand::Data(d)) => {
                    let t = spec_alu_add_sp(s.sp, d);
                    CpuView {
                        sp: t.0,
                        regs: s.regs.spec_with_flags(false, false, t.1, t.2),
                        ..s
                    }
                },
                _ => s,
            };
            (s2, true)
        },
        Instruction::Rotate(kind) => {
            let s2 = match kind {
                RotateKind::LeftCircular => spec_rotate_op(
                    s,
                    true,
                    false,
                    false,
                    ArithmeticOperand::Register(Register::A),
                ),
                RotateKind::Left => spec_rotate_op(
                    s,
                    true,
                    true,
                    false,
                    ArithmeticOperand::Register(Register::A),
                ),
                RotateKind::RightCircular => spec_rotate_op(
                    s,
                    false,
                    false,
                    false,
                    ArithmeticOperand::Register(Register::A),
                ),
                RotateKind::Right => spec_rotate_op(
                    s,
                    false,
                    true,
                    false,
                    ArithmeticOperand::Register(Register::A),
                ),
            };
            (s2, true)
        },
        Instruction::Jump(kind) => match kind {
            JumpKind::JumpRelative(off) => (CpuView { pc: wrap16(s.pc + sext8(off)), ..s }, true),
            JumpKind::JumpRelativeConditional(cond, off) => if spec_cond(s, cond) {
                (CpuView { pc: wrap16(s.pc + sext8(off)), ..s }, true)
            } else {
                (s, false)
            },
            JumpKind::Jump(a16) => (CpuView { pc: a16, ..s }, true),
            JumpKind::JumpConditional(cond, a16) => if spec_cond(s, cond) {
                (CpuView { pc: a16, ..s }, true)
            } else {
                (s, false)
            },
            JumpKind::JumpHl => (CpuView { pc: s.regs.spec_pair(RegisterPair::Hl), ..s }, true),
        },
        Instruction::Call(kind) => match kind {
            CallKind::Call(a16) => (CpuView { pc: a16, ..spec_push(s, s.pc) }, true),
            CallKind::CallConditional(a16, cond) => if spec_cond(s, cond) {
                (CpuView { pc: a16, ..spec_push(s, s.pc) }, true)
            } else {
                (s, false)
            },
        },
        Instruction::Return(kind) => match kind {
            ReturnKind::Return => (spec_pop_into(s, Load16Target::StackPointer), true),
            ReturnKind::ReturnConditional(cond) => if spec_cond(s, cond) {
                (spec_pop_into(s, Load16Target::StackPointer), true)
            } else {
                (s, false)
            },
            ReturnKind::ReturnInterrupt => (
                CpuView { ime: true, ..spec_pop_into(s, Load16Target::StackPointer) },
                true,
            ),
        },
        Instruction::Pop(rr) => (spec_pop_into(s, Load16Target::Register16(rr)), true),
        Instruction::Push(rr) => (spec_push(s, s.regs.spec_pair(rr)), true),
        Instruction::DisableInterrupts => (CpuView { ime: false, ime_pending: false, ..s }, true),
        Instruction::EnableInterrupts => (CpuView { ime_pending: true, ..s }, true),
        Instruction::Restart(n) => (
            CpuView { pc: (8 * n) as u16, ..spec_push(s, s.pc) },
            true,
        ),
        Instruction::Instruction16(op) => (spec_execute_i16(s, op), true),
    };
    (st.0, spec_cycles_value(cyc, st.1))
}

/// One CPU step. A halted CPU idles one cycle until an interrupt is both
/// requested and enabled. An enable scheduled by EI takes effect here, after
/// the instruction that followed EI. If IME is on and an interrupt is
/// pending, it is serviced: IME off, its IF bit cleared, PC pushed, PC set
/// to its vector, five cycles. Otherwise the instruction at PC runs; an
/// undefined opcode is reported and changes nothing.
pub open spec fn spec_step(s: CpuView) -> (CpuView, Result<u8, DecodeError>) {
    let ie = spec_read(s.mem, gb::IE);
    let iflags = spec_read(s.mem, gb::IF);
    let pending = ie & iflags & 0x1F != 0;
    if s.halted && !pending {
        (s, Ok(1))
    } else {
        let s = CpuView { halted: false, ..s };
        let can_service = s.ime;
        let s = if s.ime_pending {
            CpuView { ime: true, ime_pending: false, ..s }
        } else {
            s
        };
        if can_service && pending {
            match spec_pending_interrupt(s.mem) {
                Some(interrupt) => {
                    let s1 = CpuView {
                        ime: false,
                        mem: spec_write(s.mem, gb::IF, iflags & !spec_interrupt_mask(interrupt)),
                        ..s
                    };
                    (CpuView { pc: spec_interrupt_address(interrupt), ..spec_push(s1, s1.pc) }, Ok(5))
                },
                None => (s, Ok(5)),
            }
        } else {
            let b0 = spec_read(s.mem, s.pc);
            let b1 = spec_read(s.mem, wrap16(s.pc + 1));
            let b2 = spec_read(s.mem, wrap16(s.pc + 2));
            match spec_decode(b0, b1, b2) {
                Some(i) => {
                    let t = spec_execute(s, i);
                    (t.0, Ok(t.1))
                },
                None => (s, Err(DecodeError::InvalidOpcode(s.pc, b0))),
            }
        }
    }
}

impl Cpu {
    pub open spec fn wf(&self) -> bool {
        self.memory.wf()
    }

    /// A CPU over the given address space: registers cleared, PC at the
    /// boot ROM's first byte, SP at the top of HRAM, and the LCD in
    /// OAM-search mode.
    pub fn new(memory: Memory) -> (r: Cpu)
        requires
            memory.wf(),
        ensures
            r.wf(),
            r@ == (CpuView {
                regs: Registers { a: 0, b: 0, c: 0, d: 0, e: 0, h: 0, l: 0, f: 0 },
                pc: 0,
                sp: gb::INIT_SP,
                ime: false,
                ime_pending: false,
                halted: false,
                mem: spec_write(memory@, gb::LCD_STAT, 0x02),
            }),
    {
        let mut memory = memory;
        memory.write_byte(gb::LCD_STAT, 0x02);
        Cpu {
            registers: Registers::new(),
            pc: 0,
            sp: gb::INIT_SP,
            memory,
            interrupt_handler: InterruptHandler::new(),
            halted: false,
        }
    }

    fn check_condition(&self, cond: &JumpCondition) -> (b: bool)
        ensures
            b == spec_cond(self@, *cond),
    {
        match cond {
            JumpCondition::Zero => self.registers.get_flag(Flag::Zero),
            JumpCondition::NonZero => !self.registers.get_flag(Flag::Zero),
            JumpCondition::Carry => self.registers.get_flag(Flag::Carry),
            JumpCondition::NonCarry => !self.registers.get_flag(Flag::Carry),
        }
    }

    fn arith_val(&self, op: &ArithmeticOperand) -> (v: u8)
        requires
            self.wf(),
        ensures
            v == spec_arith_val(self@, *op),
    {
        match op {
            ArithmeticOperand::Register(r) => self.registers.get(r),
            ArithmeticOperand::AtHl => {
                let addr = self.registers.get_16bit(&RegisterPair::Hl);
                self.memory.read_byte(addr)
            },
            ArithmeticOperand::Data(d) => *d,
        }
    }

    fn arith_store(&mut self, op: &ArithmeticOperand, v: u8)
        requires
            old(self).wf(),
        ensures
            final(self).wf(),
            final(self)@ == spec_arith_store(old(self)@, *op, v),
    {
        match op {
            ArithmeticOperand::Register(r) => self.registers.set(r, v),
            ArithmeticOperand::AtHl => {
                let addr = self.registers.get_16bit(&RegisterPair::Hl);
                self.memory.write_byte(addr, v);
            },
            ArithmeticOperand::Data(_) => {},
        }
    }

    fn load8_read(&mut self, op: &Load8Operand) -> (v: u8)
        requires
            old(self).wf(),
        ensures
            final(self).wf(),
            v == spec_load8_val(old(self)@, *op),
            final(self)@ == (CpuView { regs: spec_load8_bump(old(self)@.regs, *op), ..old(self)@ }),
    {
        match op {
            Load8Operand::Register(r) => self.registers.get(r),
            Load8Operand::Data(d) => *d,
            Load8Operand::AtReg16(rr) => {
                let addr = self.registers.get_16bit(rr);
                self.memory.read_byte(addr)
            },
            Load8Operand::AtC => {
                let addr = 0xFF00 + self.registers.get(&Register::C) as u16;
                self.memory.read_byte(addr)
            },
            Load8Operand::AtAddress8(a8) => {
                let addr = 0xFF00 + *a8 as u16;
                self.memory.read_byte(addr)
            },
            Load8Operand::AtAddress16(a16) => self.memory.read_byte(*a16),
            Load8Operand::AtHli => {
                let addr = self.registers.get_16bit(&RegisterPair::Hl);
                let v = self.memory.read_byte(addr);
                self.registers.set_16bit(&RegisterPair::Hl, wrap_add16(addr, 1));
                v
            },
            Load8Operand::AtHld => {
                let addr = self.registers.get_16bit(&RegisterPair::Hl);
                let v = self.memory.read_byte(addr);
                self.registers.set_16bit(&RegisterPair::Hl, wrap_sub16(addr, 1));
                v
            },
        }
    }

    fn load8_write(&mut self, op: &Load8Operand, v: u8)
        requires
            old(self).wf(),
        ensures
            final(self).wf(),
            final(self)@ == spec_load8_store(old(self)@, *op, v),
    {
        match op {
            Load8Operand::Register(r) => self.registers.set(r, v),
            Load8Operand::Data(_) => {},
            Load8Operand::AtReg16(rr) => {
                let addr = self.registers.get_16bit(rr);
                self.memory.write_byte(addr, v);
            },
            Load8Operand::AtC => {
                let addr = 0xFF00 + self.registers.get(&Register::C) as u16;
                self.memory.write_byte(addr, v);
            },
            Load8Operand::AtAddress8(a8) => {
                let addr = 0xFF00 + *a8 as u16;
                self.memory.write_byte(addr, v);
            },
            Load8Operand::AtAddress16(a16) => {
                self.memory.write_byte(*a16, v);
            },
            Load8Operand::AtHli => {
                let addr = self.registers.get_16bit(&RegisterPair::Hl);
                self.memory.write_byte(addr, v);
                self.registers.set_16bit(&RegisterPair::Hl, wrap_add16(addr, 1));
            },
            Load8Operand::AtHld => {
                let addr = self.registers.get_16bit(&RegisterPair::Hl);
                self.memory.write_byte(addr, v);
                self.registers.set_16bit(&RegisterPair::Hl, wrap_sub16(addr, 1));
            },
        }
    }

    pub fn push(&mut self, val: u16)
        requires
            old(self).wf(),
        ensures
            final(self).wf(),
            final(self)@ == spec_push(old(self)@, val),
    {
        let a1 = wrap_sub16(self.sp, 1);
        self.memory.write_byte(a1, (val / 256) as u8);
        let a2 = wrap_sub16(self.sp, 2);
        self.memory.write_byte(a2, (val % 256) as u8);
        self.sp = a2;
    }

    pub fn pop(&mut self, target: &Load16Target)
        requires
            old(self).wf(),
        ensures
            final(self).wf(),
            final(self)@ == spec_pop_into(old(self)@, *target),
    {
        let val = self.memory.read_2_bytes(self.sp);
        self.sp = wrap_add16(self.sp, 2);
        match target {
            Load16Target::StackPointer => {
                self.pc = val;
            },
            Load16Target::Register16(rr) => {
                self.registers.set_16bit(rr, val);
            },
            Load16Target::Address(_) => {},
        }
    }

    pub fn rotate(&mut self, left: bool, through_carry: bool, set_zero: bool, op: &ArithmeticOperand)
        requires
            old(self).wf(),
        ensures
            final(self).wf(),
            final(self)@ == spec_rotate_op(old(self)@, left, through_carry, set_zero, *op),
    {
        let cin = self.registers.get_flag(Flag::Carry);
        let v = self.arith_val(op);
        let (r, cout) = alu_rotate(v, left, through_carry, cin);
        self.arith_store(op, r);
        self.registers.set_flags(set_zero && r == 0, false, false, cout);
    }

    pub fn shift(&mut self, left: bool, logical: bool, op: &ArithmeticOperand)
        requires
            old(self).wf(),
        ensures
            final(self).wf(),
            final(self)@ == spec_shift_op(old(self)@, left, logical, *op),
    {
        let v = self.arith_val(op);
        let (r, cout) = alu_shift(v, left, logical);
        self.arith_store(op, r);
        self.registers.set_flags(r == 0, false, false, cout);
    }

    pub fn set_bit(&mut self, index: u8, op: &ArithmeticOperand, bit: u8)
        requires
            old(self).wf(),
        ensures
            final(self).wf(),
            final(self)@ == spec_set_bit_op(old(self)@, index, *op, bit),
    {
        let v = self.arith_val(op);
        let r = with_bit(v, index, bit);
        self.arith_store(op, r);
    }

    pub fn execute_instruction_16(&mut self, instruction: &Instruction16)
        requires
            old(self).wf(),
        ensures
            final(self).wf(),
            final(self)@ == spec_execute_i16(old(self)@, *instruction),
    {
        match instruction {
            Instruction16::RotateLeftCircular(op) => self.rotate(true, false, true, op),
            Instruction16::RotateLeft(op) => self.rotate(true, true, true, op),
            Instruction16::RotateRightCircular(op) => self.rotate(false, false, true, op),
            Instruction16::RotateRight(op) => self.rotate(false, true, true, op),
            Instruction16::ShiftLeft(op) => self.shift(true, false, op),
            Instruction16::ShiftRightArithmetic(op) => self.shift(false, false, op),
            Instruction16::ShiftRightLogical(op) => self.shift(false, true, op),
            Instruction16::Swap(op) => {
                let v = self.arith_val(op);
                let r = alu_swap(v);
                self.arith_store(op, r);
                self.registers.set_flags(r == 0, false, false, false);
            },
            Instruction16::BitTest(n, op) => {
                let v = self.arith_val(op);
                let b = bit_value(v, *n);
                let c_old = self.registers.get_flag(Flag::Carry);
                self.registers.set_flags(b == 0, false, true, c_old);
            },
            Instruction16::BitReset(n, op) => self.set_bit(*n, op, 0),
            Instruction16::BitSet(n, op) => self.set_bit(*n, op, 1),
        }
    }

    /// Executes one already-decoded instruction: the state moves exactly as
    /// `spec_execute` says, and the returned count is the consumed m-cycles.
    pub fn execute(&mut self, i: &Instruction) -> (c: u8)
        requires
            old(self).wf(),
        ensures
            final(self).wf(),
            final(self)@ == spec_execute(old(self)@, *i).0,
            c == spec_execute(old(self)@, *i).1,
    {
        match *i {
            Instruction::Nop | Instruction::Stop | Instruction::Halt | Instruction::SetCarryFlag
                | Instruction::FlipCarry | Instruction::Complement | Instruction::DecimalAdjust
                | Instruction::Rotate(_) | Instruction::EnableInterrupts
                | Instruction::DisableInterrupts => self.execute_misc(i),
            Instruction::Load16(_, _) | Instruction::Load8(_, _) | Instruction::Pop(_)
                | Instruction::Push(_) => self.execute_load(i),
            Instruction::Add(_) | Instruction::AddCarry(_) | Instruction::Sub(_)
                | Instruction::SubCarry(_) | Instruction::And(_) | Instruction::Or(_)
                | Instruction::Xor(_) | Instruction::Compare(_) | Instruction::Increment(_)
                | Instruction::Decrement(_) | Instruction::IncrementPtr(_)
                | Instruction::DecrementPtr(_) | Instruction::AddPtr(_, _) => self.execute_alu(i),
            Instruction::Jump(_) | Instruction::Call(_) | Instruction::Return(_)
                | Instruction::Restart(_) | Instruction::Instruction16(_) => self.execute_flow(i),
        }
    }

    /// The instructions that touch no operand: stalls, flag toggles, the
    /// accumulator rotates and adjustments, and the IME switches.
    #[verifier::rlimit(100)]
    fn execute_misc(&mut self, i: &Instruction) -> (c: u8)
        requires
            old(self).wf(),
            (*i matches Instruction::Nop) || (*i matches Instruction::Stop) || (*i
                matches Instruction::Halt) || (*i matches Instruction::SetCarryFlag) || (*i
                matches Instruction::FlipCarry) || (*i matches Instruction::Complement) || (*i
                matches Instruction::DecimalAdjust) || (*i matches Instruction::Rotate(_)) || (*i
                matches Instruction::EnableInterrupts) || (*i
                matches Instruction::DisableInterrupts),
        ensures
            final(self).wf(),
            final(self)@ == spec_execute(old(self)@, *i).0,
            c == spec_execute(old(self)@, *i).1,
    {
        let (size, cycles) = Instruction::size_and_cycles(i);
        self.pc = wrap_add16(self.pc, size as u16);
        let taken: bool = true;
        match *i {
            Instruction::Nop => {},
            Instruction::Stop => {
                self.halted = true;
            },
            Instruction::Halt => {
                self.halted = true;
            },
            Instruction::SetCarryFlag => {
                let z = self.registers.get_flag(Flag::Zero);
                self.registers.set_flags(z, false, false, true);
            },
            Instruction::FlipCarry => {
                let z = self.registers.get_flag(Flag::Zero);
                let cf = self.registers.get_flag(Flag::Carry);
                self.registers.set_flags(z, false, false, !cf);
            },
            Instruction::Complement => {
                let z = self.registers.get_flag(Flag::Zero);
                let cf = self.registers.get_flag(Flag::Carry);
                let a = self.registers.get(&Register::A);
                self.registers.set(&Register::A, !a);
                self.registers.set_flags(z, true, true, cf);
            },
            Instruction::DecimalAdjust => {
                let a = self.registers.get(&Register::A);
                let nf = self.registers.get_flag(Flag::Subtract);
                let hf = self.registers.get_flag(Flag::HalfCarry);
                let cf = self.registers.get_flag(Flag::Carry);
                let (r, z, c2) = alu_daa(a, nf, hf, cf);
                self.registers.set(&Register::A, r);
                self.registers.set_flags(z, nf, false, c2);
            },
            Instruction::Rotate(kind) => match kind {
                RotateKind::LeftCircular => {
                    self.rotate(true, false, false, &ArithmeticOperand::Register(Register::A))
                },
                RotateKind::Left => {
                    self.rotate(true, true, false, &ArithmeticOperand::Register(Register::A))
                },
                RotateKind::RightCircular => {
                    self.rotate(false, false, false, &ArithmeticOperand::Register(Register::A))
                },
                RotateKind::Right => {
                    self.rotate(false, true, false, &ArithmeticOperand::Register(Register::A))
                },
            },
            Instruction::DisableInterrupts => self.interrupt_handler.disable_interrupts(),
            Instruction::EnableInterrupts => {
                self.interrupt_handler.ime_pending = true;
            },
            _ => {},
        };
        proof {
            assert(self@ == spec_execute(old(self)@, *i).0);
        }
        let resolved = Cpu::update_cycles(cycles, taken);
        match resolved {
            Cycles::Cycles(n) => n,
            Cycles::ConditionalCycles(n, _) => n,
        }
    }

    /// The 8-bit and 16-bit loads and the stack pushes and pops.
    fn execute_load(&mut self, i: &Instruction) -> (c: u8)
        requires
            old(self).wf(),
            (*i matches Instruction::Load16(_, _)) || (*i matches Instruction::Load8(_, _)) || (*i
                matches Instruction::Pop(_)) || (*i matches Instruction::Push(_)),
        ensures
            final(self).wf(),
            final(self)@ == spec_execute(old(self)@, *i).0,
            c == spec_execute(old(self)@, *i).1,
    {
        let (size, cycles) = Instruction::size_and_cycles(i);
        self.pc = wrap_add16(self.pc, size as u16);
        let taken: bool = true;
        match *i {
            Instruction::Load16(target, source) => match (target, source) {
                (Load16Target::Register16(rr), Load16Source::Data(d16)) => {
                    self.registers.set_16bit(&rr, d16);
                },
                (Load16Target::StackPointer, Load16Source::Data(d16)) => {
                    self.sp = d16;
                },
                (Load16Target::Address(a16), Load16Source::StackPointer) => {
                    let sp = self.sp;
                    self.memory.write_2_bytes(a16, sp);
                },
                (Load16Target::StackPointer, Load16Source::Hl) => {
                    self.sp = self.registers.get_16bit(&RegisterPair::Hl);
                },
                (Load16Target::Register16(rr), Load16Source::SpPlus(d)) => {
                    let (r, hf, cf) = alu_add_sp(self.sp, d);
                    self.registers.set_16bit(&rr, r);
                    self.registers.set_flags(false, false, hf, cf);
                },
                _ => {},
            },
            Instruction::Load8(target, source) => {
                let v = self.load8_read(&source);
                self.load8_write(&target, v);
            },
            Instruction::Pop(rr) => self.pop(&Load16Target::Register16(rr)),
            Instruction::Push(rr) => {
                let v = self.registers.get_16bit(&rr);
                self.push(v);
            },
            _ => {},
        };
        proof {
            assert(self@ == spec_execute(old(self)@, *i).0);
        }
        let resolved = Cpu::update_cycles(cycles, taken);
        match resolved {
            Cycles::Cycles(n) => n,
            Cycles::ConditionalCycles(n, _) => n,
        }
    }

    /// The arithmetic and logic instructions, 8-bit and 16-bit.
    fn execute_alu(&mut self, i: &Instruction) -> (c: u8)
        requires
            old(self).wf(),
            (*i matches Instruction::Add(_)) || (*i matches Instruction::AddCarry(_)) || (*i
                matches Instruction::Sub(_)) || (*i matches Instruction::SubCarry(_)) || (*i
                matches Instruction::And(_)) || (*i matches Instruction::Or(_)) || (*i
                matches Instruction::Xor(_)) || (*i matches Instruction::Compare(_)) || (*i
                matches Instruction::Increment(_)) || (*i matches Instruction::Decrement(_)) || (*i
                matches Instruction::IncrementPtr(_)) || (*i matches Instruction::DecrementPtr(_))
                || (*i matches Instruction::AddPtr(_, _)),
        ensures
            final(self).wf(),
            final(self)@ == spec_execute(old(self)@, *i).0,
            c == spec_execute(old(self)@, *i).1,
    {
        let (size, cycles) = Instruction::size_and_cycles(i);
        self.pc = wrap_add16(self.pc, size as u16);
        let taken: bool = true;
        match *i {
            Instruction::Add(op) => {
                let x = self.arith_val(&op);
                let a = self.registers.get(&Register::A);
                let (r, z, n, h, cf) = alu_add(a, x, false);
                self.registers.set(&Register::A, r);
                self.registers.set_flags(z, n, h, cf);
            },
            Instruction::AddCarry(op) => {
                let x = self.arith_val(&op);
                let a = self.registers.get(&Register::A);
                let cin = self.registers.get_flag(Flag::Carry);
                let (r, z, n, h, cf) = alu_add(a, x, cin);
                self.registers.set(&Register::A, r);
                self.registers.set_flags(z, n, h, cf);
            },
            Instruction::Sub(op) => {
                let x = self.arith_val(&op);
                let a = self.registers.get(&Register::A);
                let (r, z, n, h, cf) = alu_sub(a, x, false);
                self.registers.set(&Register::A, r);
                self.registers.set_flags(z, n, h, cf);
            },
            Instruction::SubCarry(op) => {
                let x = self.arith_val(&op);
                let a = self.registers.get(&Register::A);
                let cin = self.registers.get_flag(Flag::Carry);
                let (r, z, n, h, cf) = alu_sub(a, x, cin);
                self.registers.set(&Register::A, r);
                self.registers.set_flags(z, n, h, cf);
            },
            Instruction::And(op) => {
                let x = self.arith_val(&op);
                let a = self.registers.get(&Register::A);
                let (r, z, n, h, cf) = alu_and(a, x);
                self.registers.set(&Register::A, r);
                self.registers.set_flags(z, n, h, cf);
            },
            Instruction::Or(op) => {
                let x = self.arith_val(&op);
                let a = self.registers.get(&Register::A);
                let (r, z, n, h, cf) = alu_or(a, x);
                self.registers.set(&Register::A, r);
                self.registers.set_flags(z, n, h, cf);
            },
            Instruction::Xor(op) => {
                let x = self.arith_val(&op);
                let a = self.registers.get(&Register::A);
                let (r, z, n, h, cf) = alu_xor(a, x);
                self.registers.set(&Register::A, r);
                self.registers.set_flags(z, n, h, cf);
            },
            Instruction::Compare(op) => {
                let x = self.arith_val(&op);
                let a = self.registers.get(&Register::A);
                let (_r, z, n, h, cf) = alu_sub(a, x, false);
                self.registers.set_flags(z, n, h, cf);
            },
            Instruction::Increment(op) => {
                let v = self.arith_val(&op);
                let (r, z, n, h) = alu_inc(v);
                let cf = self.registers.get_flag(Flag::Carry);
                self.arith_store(&op, r);
                self.registers.set_flags(z, n, h, cf);
            },
            Instruction::Decrement(op) => {
                let v = self.arith_val(&op);
                let (r, z, n, h) = alu_dec(v);
                let cf = self.registers.get_flag(Flag::Carry);
                self.arith_store(&op, r);
                self.registers.set_flags(z, n, h, cf);
            },
            Instruction::IncrementPtr(op) => match op {
                PtrArithOperand::Register16(rr) => {
                    let v = self.registers.get_16bit(&rr);
                    self.registers.set_16bit(&rr, wrap_add16(v, 1));
                },
                PtrArithOperand::StackPointer => {
                    self.sp = wrap_add16(self.sp, 1);
                },
                PtrArithOperand::Data(_) => {},
            },
            Instruction::DecrementPtr(op) => match op {
                PtrArithOperand::Register16(rr) => {
                    let v = self.registers.get_16bit(&rr);
                    self.registers.set_16bit(&rr, wrap_sub16(v, 1));
                },
                PtrArithOperand::StackPointer => {
                    self.sp = wrap_sub16(self.sp, 1);
                },
                PtrArithOperand::Data(_) => {},
            },
            Instruction::AddPtr(op1, op2) => match (op1, op2) {
                (PtrArithOperand::Register16(rr), PtrArithOperand::Register16(rr2)) => {
                    let x = self.registers.get_16bit(&rr2);
                    let v = self.registers.get_16bit(&rr);
                    let z = self.registers.get_flag(Flag::Zero);
                    let (r, h, cf) = alu_add16(v, x);
                    self.registers.set_16bit(&rr, r);
                    self.registers.set_flags(z, false, h, cf);
                },
                (PtrArithOperand::Register16(rr), PtrArithOperand::StackPointer) => {
                    let x = self.sp;
                    let v = self.registers.get_16bit(&rr);
                    let z = self.registers.get_flag(Flag::Zero);
                    let (r, h, cf) = alu_add16(v, x);
                    self.registers.set_16bit(&rr, r);
                    self.registers.set_flags(z, false, h, cf);
                },
                (PtrArithOperand::StackPointer, PtrArithOperand::Data(d)) => {
                    let (r, h, cf) = alu_add_sp(self.sp, d);
                    self.sp = r;
                    self.registers.set_flags(false, false, h, cf);
                },
                _ => {},
            },
            _ => {},
        };
        proof {
            assert(self@ == spec_execute(old(self)@, *i).0);
        }
        let resolved = Cpu::update_cycles(cycles, taken);
        match resolved {
            Cycles::Cycles(n) => n,
            Cycles::ConditionalCycles(n, _) => n,
        }
    }

    /// The control flow: jumps, calls, returns, restarts, and the
    /// prefixed page.
    fn execute_flow(&mut self, i: &Instruction) -> (c: u8)
        requires
            old(self).wf(),
            (*i matches Instruction::Jump(_)) || (*i matches Instruction::Call(_)) || (*i
                matches Instruction::Return(_)) || (*i matches Instruction::Restart(_)) || (*i
                matches Instruction::Instruction16(_)),
        ensures
            final(self).wf(),
            final(self)@ == spec_execute(old(self)@, *i).0,
            c == spec_execute(old(self)@, *i).1,
    {
        let (size, cycles) = Instruction::size_and_cycles(i);
        self.pc = wrap_add16(self.pc, size as u16);
        let mut taken: bool = true;
        match *i {
            Instruction::Jump(kind) => match kind {
                JumpKind::JumpRelative(off) => {
                    self.pc = wrap_add16_signed(self.pc, off);
                },
                JumpKind::JumpRelativeConditional(cond, off) => {
                    if self.check_condition(&cond) {
                        self.pc = wrap_add16_signed(self.pc, off);
                    } else {
                        taken = false;
                    }
                },
                JumpKind::Jump(a16) => {
                    self.pc = a16;
                },
                JumpKind::JumpConditional(cond, a16) => {
                    if self.check_condition(&cond) {
                        self.pc = a16;
                    } else {
                        taken = false;
                    }
                },
                JumpKind::JumpHl => {
                    self.pc = self.registers.get_16bit(&RegisterPair::Hl);
                },
            },
            Instruction::Call(kind) => match kind {
                CallKind::Call(a16) => {
                    let pc = self.pc;
                    self.push(pc);
                    self.pc = a16;
                },
                CallKind::CallConditional(a16, cond) => {
                    if self.check_condition(&cond) {
                        let pc = self.pc;
                        self.push(pc);
                        self.pc = a16;
                    } else {
                        taken = false;
                    }
                },
            },
            Instruction::Return(kind) => match kind {
                ReturnKind::Return => self.pop(&Load16Target::StackPointer),
                ReturnKind::ReturnConditional(cond) => {
                    if self.check_condition(&cond) {
                        self.pop(&Load16Target::StackPointer);
                    } else {
                        taken = false;
                    }
                },
                ReturnKind::ReturnInterrupt => {
                    self.pop(&Load16Target::StackPointer);
                    self.interrupt_handler.enable_interrupts();
                },
            },
            Instruction::Restart(n) => {
                let pc = self.pc;
                self.push(pc);
                self.pc = 8 * n as u16;
            },
            Instruction::Instruction16(op) => self.execute_instruction_16(&op),
            _ => {},
        };
        proof {
            assert(self@ == spec_execute(old(self)@, *i).0);
        }
        let resolved = Cpu::update_cycles(cycles, taken);
        match resolved {
            Cycles::Cycles(n) => n,
            Cycles::ConditionalCycles(n, _) => n,
        }
    }

    /// One step of the machine, as `spec_step` describes: interrupt
    /// servicing when due, else decode and execute at PC. An undefined
    /// opcode is reported with its address and leaves the state unchanged.
    pub fn step(&mut self) -> (r: Result<u8, DecodeError>)
        requires
            old(self).wf(),
        ensures
            final(self).wf(),
            final(self)@ == spec_step(old(self)@).0,
            r == spec_step(old(self)@).1,
    {
        let ie = self.memory.read_byte(gb::IE);
        let iflags = self.memory.read_byte(gb::IF);
        let pending = ie & iflags & 0x1F != 0;
        if self.halted && !pending {
            return Ok(1);
        }
        self.halted = false;
        let can_service = self.interrupt_handler.ime;
        if self.interrupt_handler.ime_pending {
            self.interrupt_handler.ime = true;
            self.interrupt_handler.ime_pending = false;
        }
        if can_service && pending {
            proof {
                lemma_pending_iff_mask(self.memory@);
            }
            let handler = self.interrupt_handler;
            match handler.check_interrupts(&mut self.memory) {
                Some(interrupt) => {
                    self.interrupt_handler.ime = false;
                    let pc = self.pc;
                    self.push(pc);
                    self.pc = address_for_interrupt(interrupt);
                    Ok(5)
                },
                None => Ok(5),
            }
        } else {
            match Instruction::from_bytes(&self.memory, self.pc) {
                Ok(i) => Ok(self.execute(&i)),
                Err(e) => Err(e),
            }
        }
    }

    pub fn update_cycles(cycles: Cycles, branch_taken: bool) -> (r: Cycles)
        ensures
            r == Cycles::Cycles(spec_cycles_value(cycles, branch_taken)),
    {
        match cycles {
            Cycles::Cycles(_n) => cycles,
            Cycles::ConditionalCycles(n, m) => {
                if branch_taken {
                    Cycles::Cycles(n)
                } else {
                    Cycles::Cycles(m)
                }
            },
        }
    }
}

/// After `PUSH rr; POP rr` the machine is back where it started, but for
/// what the two instructions are allowed to touch: the pair holds its old
/// value again — for AF the value with F's low nibble zeroed, for the other
/// pairs the whole register file is untouched — SP is restored, the flags,
/// IME and halt state are untouched, and of memory only the two stack bytes
/// below the old SP changed, now holding the pushed pair. This needs the
/// two stack bytes to land in plain RAM and away from the DMA register
/// (a write there starts the documented OAM copy).
pub proof fn lemma_push_pop_round_trip(s: CpuView, rr: RegisterPair)
    requires
        s.mem.wf(),
        crate::memory::ram_writable(wrap16(s.sp - 1)),
        crate::memory::ram_writable(wrap16(s.sp - 2)),
        wrap16(s.sp - 1) != 0xFF46,
        wrap16(s.sp - 2) != 0xFF46,
    ensures
        ({
            let s1 = spec_execute(s, Instruction::Push(rr)).0;
            let s2 = spec_execute(s1, Instruction::Pop(rr)).0;
            &&& s2.sp == s.sp
            &&& (rr != RegisterPair::Af ==> s2.regs == s.regs)
            &&& (rr == RegisterPair::Af ==> s2.regs.spec_pair(rr) == s.regs.spec_pair(rr) & 0xFFF0)
            &&& s2.pc == wrap16(s.pc + 2)
            &&& s2.ime == s.ime
            &&& s2.ime_pending == s.ime_pending
            &&& s2.halted == s.halted
            &&& spec_read(s2.mem, wrap16(s.sp - 1)) == (s.regs.spec_pair(rr) / 256) as u8
            &&& spec_read(s2.mem, wrap16(s.sp - 2)) == (s.regs.spec_pair(rr) % 256) as u8
            &&& forall|a: u16|
                a != wrap16(s.sp - 1) && a != wrap16(s.sp - 2) ==> spec_read(s2.mem, a)
                    == spec_read(s.mem, a)
        }),
{
    let v = s.regs.spec_pair(rr);
    let hi = (v / 256) as u8;
    let lo = (v % 256) as u8;
    let a1 = wrap16(s.sp - 1);
    let a2 = wrap16(s.sp - 2);
    let sp = s.sp as int;
    assert(a1 != a2);
    assert(wrap16(a2 + 1) == a1);
    assert(wrap16(a2 + 2) == s.sp);
    let s1 = spec_execute(s, Instruction::Push(rr)).0;
    let m1 = spec_write(s.mem, a1, hi);
    assert(s1.mem == spec_write(m1, a2, lo));
    assert(s1.sp == a2);
    assert(s1.regs == s.regs);
    crate::memory::lemma_write_read_byte(m1, a2, lo);
    crate::memory::lemma_write_read_byte(s.mem, a1, hi);
    crate::memory::lemma_write_other_byte(m1, a2, a1, lo);
    assert(spec_read(s1.mem, a2) == lo);
    assert(spec_read(s1.mem, a1) == hi);
    assert(spec_read_word(s1.mem, s1.sp) == v);
    let s2 = spec_execute(s1, Instruction::Pop(rr)).0;
    assert(s2.sp == s.sp);
    assert(s2.regs == s1.regs.spec_set_pair(rr, v));
    crate::cpu::registers::lemma_set_pair_get_pair(s1.regs, rr, v);
    // popping the very bytes just pushed restores the register file
    if rr != RegisterPair::Af {
        match rr {
            RegisterPair::Bc => {
                vstd::arithmetic::div_mod::lemma_fundamental_div_mod_converse(
                    v as int,
                    256,
                    s.regs.b as int,
                    s.regs.c as int,
                );
            },
            RegisterPair::De => {
                vstd::arithmetic::div_mod::lemma_fundamental_div_mod_converse(
                    v as int,
                    256,
                    s.regs.d as int,
                    s.regs.e as int,
                );
            },
            RegisterPair::Hl => {
                vstd::arithmetic::div_mod::lemma_fundamental_div_mod_converse(
                    v as int,
                    256,
                    s.regs.h as int,
                    s.regs.l as int,
                );
            },
            RegisterPair::Af => {},
        }
        assert(s2.regs =~= s.regs);
    }
    // the two instructions are one byte each
    assert(s2.pc == wrap16(s.pc + 2)) by {
        vstd::arithmetic::div_mod::lemma_add_mod_noop_right(1, s.pc + 1, 0x10000);
    }
    // nothing but the two stack bytes moved in memory
    assert forall|a: u16| a != a1 && a != a2 implies spec_read(s2.mem, a) == spec_read(
        s.mem,
        a,
    ) by {
        crate::memory::lemma_write_other_byte(s.mem, a1, a, hi);
        crate::memory::lemma_write_other_byte(m1, a2, a, lo);
    }
}

} // verus!
