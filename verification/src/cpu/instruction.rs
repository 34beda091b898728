//! The SM83 instruction set: one variant per semantic family, the decoder
//! over the opcode map (including the 0xCB-prefixed page), and the size and
//! cycle metadata of every instruction.

use vstd::prelude::*;

use crate::arith::wrap16;
use crate::arith::wrap_add16;
use crate::cpu::registers::Register;
use crate::cpu::registers::RegisterPair;
use crate::memory::Memory;
use crate::memory::spec_read;
use crate::timer::Cycles;

verus! {

#[derive(Clone, Copy, Debug, PartialEq, Eq, Structural)]
pub enum Instruction {
    Nop,
    Stop,
    Halt,
    Load16(Load16Target, Load16Source),
    Load8(Load8Operand, Load8Operand),
    Add(ArithmeticOperand),
    Sub(ArithmeticOperand),
    AddCarry(ArithmeticOperand),
    SubCarry(ArithmeticOperand),
    And(ArithmeticOperand),
    Or(ArithmeticOperand),
    Xor(ArithmeticOperand),
    Compare(ArithmeticOperand),
    Increment(ArithmeticOperand),
    Decrement(ArithmeticOperand),
    AddPtr(PtrArithOperand, PtrArithOperand),
    IncrementPtr(PtrArithOperand),
    DecrementPtr(PtrArithOperand),
    Jump(JumpKind),
    EnableInterrupts,
    DisableInterrupts,
    Pop(RegisterPair),
    Push(RegisterPair),
    Return(ReturnKind),
    Rotate(RotateKind),
    SetCarryFlag,
    DecimalAdjust,
    Restart(u8),
    Call(CallKind),
    Instruction16(Instruction16),
    Complement,
    FlipCarry,
}

#[derive(Clone, Copy, Debug, PartialEq, Eq, Structural)]
pub enum Load16Target {
    Register16(RegisterPair),
    StackPointer,
    Address(u16),
}

#[derive(Clone, Copy, Debug, PartialEq, Eq, Structural)]
pub enum Load16Source {
    StackPointer,
    Data(u16),
    SpPlus(i8),
    Hl,
}

#[derive(Clone, Copy, Debug, PartialEq, Eq, Structural)]
pub enum Load8Operand {
    Register(Register),
    AtAddress16(u16),
    AtAddress8(u8),
    AtC,
    AtReg16(RegisterPair),
    AtHli,
    AtHld,
    Data(u8),
}

#[derive(Clone, Copy, Debug, PartialEq, Eq, Structural)]
pub enum ArithmeticOperand {
    Register(Register),
    AtHl,
    Data(u8),
}

#[derive(Clone, Copy, Debug, PartialEq, Eq, Structural)]
pub enum PtrArithOperand {
    Register16(RegisterPair),
    StackPointer,
    Data(i8),
}

#[derive(Clone, Copy, Debug, PartialEq, Eq, Structural)]
pub enum JumpKind {
    JumpRelative(u8),
    JumpRelativeConditional(JumpCondition, u8),
    Jump(u16),
    JumpConditional(JumpCondition, u16),
    JumpHl,
}

#[derive(Clone, Copy, Debug, PartialEq, Eq, Structural)]
pub enum JumpCondition {
    Zero,
    NonZero,
    Carry,
    NonCarry,
}

#[derive(Clone, Copy, Debug, PartialEq, Eq, Structural)]
pub enum ReturnKind {
    Return,
    ReturnInterrupt,
    ReturnConditional(JumpCondition),
}

/// The 0xCB-prefixed page: rotates, shifts, swap and single-bit operations.
#[derive(Clone, Copy, Debug, PartialEq, Eq, Structural)]
pub enum Instruction16 {
    RotateLeftCircular(ArithmeticOperand),
    RotateLeft(ArithmeticOperand),
    RotateRightCircular(ArithmeticOperand),
    RotateRight(ArithmeticOperand),
    ShiftLeft(ArithmeticOperand),
    ShiftRightArithmetic(ArithmeticOperand),
    ShiftRightLogical(ArithmeticOperand),
    Swap(ArithmeticOperand),
    BitTest(u8, ArithmeticOperand),
    BitReset(u8, ArithmeticOperand),
    BitSet(u8, ArithmeticOperand),
}

/// The four rotates of the accumulator: RLCA, RLA, RRCA, RRA.
#[derive(Clone, Copy, Debug, PartialEq, Eq, Structural)]
pub enum RotateKind {
    Left,
    LeftCircular,
    Right,
    RightCircular,
}

#[derive(Clone, Copy, Debug, PartialEq, Eq, Structural)]
pub enum CallKind {
    Call(u16),
    CallConditional(u16, JumpCondition),
}

/// Decoding fails only on the eleven opcode bytes the SM83 leaves undefined.
#[derive(Clone, Copy, Debug, PartialEq, Eq, Structural)]
pub enum DecodeError {
    InvalidOpcode(u16, u8),
}

/// A byte reinterpreted as a signed displacement, two's complement.
pub open spec fn spec_u8_to_i8(b: u8) -> i8 {
    if b < 128 {
        b as i8
    } else {
        (b - 256) as i8
    }
}

pub fn u8_to_i8(b: u8) -> (r: i8)
    ensures
        r == spec_u8_to_i8(b),
{
    if b < 128 {
        b as i8
    } else {
        let w: i16 = b as i16 - 256;
        w as i8
    }
}

/// Register operand of the 8-bit register table, index 0..7:
/// B, C, D, E, H, L, (HL), A.
pub open spec fn spec_ld_operand(k: u8) -> Load8Operand {
    if k == 0 {
        Load8Operand::Register(Register::B)
    } else if k == 1 {
        Load8Operand::Register(Register::C)
    } else if k == 2 {
        Load8Operand::Register(Register::D)
    } else if k == 3 {
        Load8Operand::Register(Register::E)
    } else if k == 4 {
        Load8Operand::Register(Register::H)
    } else if k == 5 {
        Load8Operand::Register(Register::L)
    } else if k == 6 {
        Load8Operand::AtReg16(RegisterPair::Hl)
    } else {
        Load8Operand::Register(Register::A)
    }
}

fn ld_operand(k: u8) -> (r: Load8Operand)
    ensures
        r == spec_ld_operand(k),
{
    if k == 0 {
        Load8Operand::Register(Register::B)
    } else if k == 1 {
        Load8Operand::Register(Register::C)
    } else if k == 2 {
        Load8Operand::Register(Register::D)
    } else if k == 3 {
        Load8Operand::Register(Register::E)
    } else if k == 4 {
        Load8Operand::Register(Register::H)
    } else if k == 5 {
        Load8Operand::Register(Register::L)
    } else if k == 6 {
        Load8Operand::AtReg16(RegisterPair::Hl)
    } else {
        Load8Operand::Register(Register::A)
    }
}

/// Arithmetic operand of the same table, index 0..7: B, C, D, E, H, L, (HL), A.
pub open spec fn spec_arith_operand(k: u8) -> ArithmeticOperand {
    if k == 0 {
        ArithmeticOperand::Register(Register::B)
    } else if k == 1 {
        ArithmeticOperand::Register(Register::C)
    } else if k == 2 {
        ArithmeticOperand::Register(Register::D)
    } else if k == 3 {
        ArithmeticOperand::Register(Register::E)
    } else if k == 4 {
        ArithmeticOperand::Register(Register::H)
    } else if k == 5 {
        ArithmeticOperand::Register(Register::L)
    } else if k == 6 {
        ArithmeticOperand::AtHl
    } else {
        ArithmeticOperand::Register(Register::A)
    }
}

fn arith_operand(k: u8) -> (r: ArithmeticOperand)
    ensures
        r == spec_arith_operand(k),
{
    if k == 0 {
        ArithmeticOperand::Register(Register::B)
    } else if k == 1 {
        ArithmeticOperand::Register(Register::C)
    } else if k == 2 {
        ArithmeticOperand::Register(Register::D)
    } else if k == 3 {
        ArithmeticOperand::Register(Register::E)
    } else if k == 4 {
        ArithmeticOperand::Register(Register::H)
    } else if k == 5 {
        ArithmeticOperand::Register(Register::L)
    } else if k == 6 {
        ArithmeticOperand::AtHl
    } else {
        ArithmeticOperand::Register(Register::A)
    }
}

/// The register pair of the rows 0..3 in the upper-left opcode quadrant:
/// BC, DE, HL (row 3 is SP and is handled at each use).
pub open spec fn spec_row_pair(hi: u8) -> RegisterPair {
    if hi == 0 {
        RegisterPair::Bc
    } else if hi == 1 {
        RegisterPair::De
    } else {
        RegisterPair::Hl
    }
}

fn row_pair(hi: u8) -> (r: RegisterPair)
    ensures
        r == spec_row_pair(hi),
{
    if hi == 0 {
        RegisterPair::Bc
    } else if hi == 1 {
        RegisterPair::De
    } else {
        RegisterPair::Hl
    }
}

/// The register pair of the PUSH/POP rows: BC, DE, HL, AF.
pub open spec fn spec_stack_pair(hi: u8) -> RegisterPair {
    if hi == 0xC {
        RegisterPair::Bc
    } else if hi == 0xD {
        RegisterPair::De
    } else if hi == 0xE {
        RegisterPair::Hl
    } else {
        RegisterPair::Af
    }
}

fn stack_pair(hi: u8) -> (r: RegisterPair)
    ensures
        r == spec_stack_pair(hi),
{
    if hi == 0xC {
        RegisterPair::Bc
    } else if hi == 0xD {
        RegisterPair::De
    } else if hi == 0xE {
        RegisterPair::Hl
    } else {
        RegisterPair::Af
    }
}

/// The 0xCB-prefixed page, decoded from its suffix byte: operation in the
/// upper five bits, register operand in the lower three.
pub open spec fn spec_decode_suffix(b: u8) -> Instruction16 {
    let op = b / 8;
    let reg = spec_arith_operand(b % 8);
    if op == 0 {
        Instruction16::RotateLeftCircular(reg)
    } else if op == 1 {
        Instruction16::RotateRightCircular(reg)
    } else if op == 2 {
        Instruction16::RotateLeft(reg)
    } else if op == 3 {
        Instruction16::RotateRight(reg)
    } else if op == 4 {
        Instruction16::ShiftLeft(reg)
    } else if op == 5 {
        Instruction16::ShiftRightArithmetic(reg)
    } else if op == 6 {
        Instruction16::Swap(reg)
    } else if op == 7 {
        Instruction16::ShiftRightLogical(reg)
    } else if op < 16 {
        Instruction16::BitTest((op - 8) as u8, reg)
    } else if op < 24 {
        Instruction16::BitReset((op - 16) as u8, reg)
    } else {
        Instruction16::BitSet((op - 24) as u8, reg)
    }
}

/// The full opcode map over the first three bytes at the decoded address.
/// `None` marks the eleven undefined opcodes.
pub open spec fn spec_decode(b0: u8, b1: u8, b2: u8) -> Option<Instruction> {
    let hi = b0 / 16;
    let lo = b0 % 16;
    let d16 = (b1 + b2 * 256) as u16;
    if b0 == 0x00 {
        Some(Instruction::Nop)
    } else if b0 == 0x10 {
        Some(Instruction::Stop)
    } else if b0 == 0x76 {
        Some(Instruction::Halt)
    } else if b0 == 0xCB {
        Some(Instruction::Instruction16(spec_decode_suffix(b1)))
    } else if hi <= 3 {
        if lo == 0x0 {
            if hi == 2 {
                Some(Instruction::Jump(JumpKind::JumpRelativeConditional(
                    JumpCondition::NonZero,
                    b1,
                )))
            } else {
                Some(Instruction::Jump(JumpKind::JumpRelativeConditional(
                    JumpCondition::NonCarry,
                    b1,
                )))
            }
        } else if lo == 0x1 {
            if hi == 3 {
                Some(Instruction::Load16(Load16Target::StackPointer, Load16Source::Data(d16)))
            } else {
                Some(Instruction::Load16(
                    Load16Target::Register16(spec_row_pair(hi)),
                    Load16Source::Data(d16),
                ))
            }
        } else if lo == 0x2 {
            let target = if hi == 2 {
                Load8Operand::AtHli
            } else if hi == 3 {
                Load8Operand::AtHld
            } else {
                Load8Operand::AtReg16(spec_row_pair(hi))
            };
            Some(Instruction::Load8(target, Load8Operand::Register(Register::A)))
        } else if lo == 0x3 {
            if hi == 3 {
                Some(Instruction::IncrementPtr(PtrArithOperand::StackPointer))
            } else {
                Some(Instruction::IncrementPtr(PtrArithOperand::Register16(spec_row_pair(hi))))
            }
        } else if lo == 0x4 || lo == 0x5 {
            let target = spec_arith_operand(if hi == 3 {
                6u8
            } else {
                (2 * hi) as u8
            });
            if lo == 0x4 {
                Some(Instruction::Increment(target))
            } else {
                Some(Instruction::Decrement(target))
            }
        } else if lo == 0x6 {
            let target = spec_ld_operand(if hi == 3 {
                6u8
            } else {
                (2 * hi) as u8
            });
            Some(Instruction::Load8(target, Load8Operand::Data(b1)))
        } else if lo == 0x7 {
            if hi == 0 {
                Some(Instruction::Rotate(RotateKind::LeftCircular))
            } else if hi == 1 {
                Some(Instruction::Rotate(RotateKind::Left))
            } else if hi == 2 {
                Some(Instruction::DecimalAdjust)
            } else {
                Some(Instruction::SetCarryFlag)
            }
        } else if lo == 0x8 {
            if hi == 0 {
                Some(Instruction::Load16(Load16Target::Address(d16), Load16Source::StackPointer))
            } else if hi == 1 {
                Some(Instruction::Jump(JumpKind::JumpRelative(b1)))
            } else if hi == 2 {
                Some(Instruction::Jump(JumpKind::JumpRelativeConditional(JumpCondition::Zero, b1)))
            } else {
                Some(Instruction::Jump(JumpKind::JumpRelativeConditional(JumpCondition::Carry, b1)))
            }
        } else if lo == 0x9 {
            let operand = if hi == 3 {
                PtrArithOperand::StackPointer
            } else {
                PtrArithOperand::Register16(spec_row_pair(hi))
            };
            Some(Instruction::AddPtr(PtrArithOperand::Register16(RegisterPair::Hl), operand))
        } else if lo == 0xA {
            let source = if hi == 2 {
                Load8Operand::AtHli
            } else if hi == 3 {
                Load8Operand::AtHld
            } else {
                Load8Operand::AtReg16(spec_row_pair(hi))
            };
            Some(Instruction::Load8(Load8Operand::Register(Register::A), source))
        } else if lo == 0xB {
            if hi == 3 {
                Some(Instruction::DecrementPtr(PtrArithOperand::StackPointer))
            } else {
                Some(Instruction::DecrementPtr(PtrArithOperand::Register16(spec_row_pair(hi))))
            }
        } else if lo == 0xC || lo == 0xD {
            let target = spec_arith_operand(if hi == 3 {
                7u8
            } else {
                (2 * hi + 1) as u8
            });
            if lo == 0xC {
                Some(Instruction::Increment(target))
            } else {
                Some(Instruction::Decrement(target))
            }
        } else if lo == 0xE {
            let target = spec_ld_operand(if hi == 3 {
                7u8
            } else {
                (2 * hi + 1) as u8
            });
            Some(Instruction::Load8(target, Load8Operand::Data(b1)))
        } else {
            if hi == 0 {
                Some(Instruction::Rotate(RotateKind::RightCircular))
            } else if hi == 1 {
                Some(Instruction::Rotate(RotateKind::Right))
            } else if hi == 2 {
                Some(Instruction::Complement)
            } else {
                Some(Instruction::FlipCarry)
            }
        }
    } else if hi <= 7 {
        let target = spec_ld_operand(((b0 - 0x40) / 8) as u8);
        let source = spec_ld_operand(lo % 8);
        Some(Instruction::Load8(target, source))
    } else if hi <= 0xB {
        let family = ((b0 - 0x80) / 8) as u8;
        let operand = spec_arith_operand(lo % 8);
        if family == 0 {
            Some(Instruction::Add(operand))
        } else if family == 1 {
            Some(Instruction::AddCarry(operand))
        } else if family == 2 {
            Some(Instruction::Sub(operand))
        } else if family == 3 {
            Some(Instruction::SubCarry(operand))
        } else if family == 4 {
            Some(Instruction::And(operand))
        } else if family == 5 {
            Some(Instruction::Xor(operand))
        } else if family == 6 {
            Some(Instruction::Or(operand))
        } else {
            Some(Instruction::Compare(operand))
        }
    } else {
        if lo == 0x0 {
            if hi == 0xC {
                Some(Instruction::Return(ReturnKind::ReturnConditional(JumpCondition::NonZero)))
            } else if hi == 0xD {
                Some(Instruction::Return(ReturnKind::ReturnConditional(JumpCondition::NonCarry)))
            } else if hi == 0xE {
                Some(Instruction::Load8(
                    Load8Operand::AtAddress8(b1),
                    Load8Operand::Register(Register::A),
                ))
            } else {
                Some(Instruction::Load8(
                    Load8Operand::Register(Register::A),
                    Load8Operand::AtAddress8(b1),
                ))
            }
        } else if lo == 0x1 {
            Some(Instruction::Pop(spec_stack_pair(hi)))
        } else if lo == 0x2 {
            if hi == 0xC {
                Some(Instruction::Jump(JumpKind::JumpConditional(JumpCondition::NonZero, d16)))
            } else if hi == 0xD {
                Some(Instruction::Jump(JumpKind::JumpConditional(JumpCondition::NonCarry, d16)))
            } else if hi == 0xE {
                Some(Instruction::Load8(Load8Operand::AtC, Load8Operand::Register(Register::A)))
            } else {
                Some(Instruction::Load8(Load8Operand::Register(Register::A), Load8Operand::AtC))
            }
        } else if lo == 0x3 {
            if hi == 0xC {
                Some(Instruction::Jump(JumpKind::Jump(d16)))
            } else if hi == 0xF {
                Some(Instruction::DisableInterrupts)
            } else {
                None
            }
        } else if lo == 0x4 {
            if hi == 0xC {
                Some(Instruction::Call(CallKind::CallConditional(d16, JumpCondition::NonZero)))
            } else if hi == 0xD {
                Some(Instruction::Call(CallKind::CallConditional(d16, JumpCondition::NonCarry)))
            } else {
                None
            }
        } else if lo == 0x5 {
            Some(Instruction::Push(spec_stack_pair(hi)))
        } else if lo == 0x6 {
            let operand = ArithmeticOperand::Data(b1);
            if hi == 0xC {
                Some(Instruction::Add(operand))
            } else if hi == 0xD {
                Some(Instruction::Sub(operand))
            } else if hi == 0xE {
                Some(Instruction::And(operand))
            } else {
                Some(Instruction::Or(operand))
            }
        } else if lo == 0x7 {
            Some(Instruction::Restart((2 * (hi - 0xC)) as u8))
        } else if lo == 0x8 {
            if hi == 0xC {
                Some(Instruction::Return(ReturnKind::ReturnConditional(JumpCondition::Zero)))
            } else if hi == 0xD {
                Some(Instruction::Return(ReturnKind::ReturnConditional(JumpCondition::Carry)))
            } else if hi == 0xE {
                Some(Instruction::AddPtr(
                    PtrArithOperand::StackPointer,
                    PtrArithOperand::Data(spec_u8_to_i8(b1)),
                ))
            } else {
                Some(Instruction::Load16(
                    Load16Target::Register16(RegisterPair::Hl),
                    Load16Source::SpPlus(spec_u8_to_i8(b1)),
                ))
            }
        } else if lo == 0x9 {
            if hi == 0xC {
                Some(Instruction::Return(ReturnKind::Return))
            } else if hi == 0xD {
                Some(Instruction::Return(ReturnKind::ReturnInterrupt))
            } else if hi == 0xE {
                Some(Instruction::Jump(JumpKind::JumpHl))
            } else {
                Some(Instruction::Load16(Load16Target::StackPointer, Load16Source::Hl))
            }
        } else if lo == 0xA {
            if hi == 0xC {
                Some(Instruction::Jump(JumpKind::JumpConditional(JumpCondition::Zero, d16)))
            } else if hi == 0xD {
                Some(Instruction::Jump(JumpKind::JumpConditional(JumpCondition::Carry, d16)))
            } else if hi == 0xE {
                Some(Instruction::Load8(
                    Load8Operand::AtAddress16(d16),
                    Load8Operand::Register(Register::A),
                ))
            } else {
                Some(Instruction::Load8(
                    Load8Operand::Register(Register::A),
                    Load8Operand::AtAddress16(d16),
                ))
            }
        } else if lo == 0xB {
            if hi == 0xF {
                Some(Instruction::EnableInterrupts)
            } else {
                None
            }
        } else if lo == 0xC {
            if hi == 0xC {
                Some(Instruction::Call(CallKind::CallConditional(d16, JumpCondition::Zero)))
            } else if hi == 0xD {
                Some(Instruction::Call(CallKind::CallConditional(d16, JumpCondition::Carry)))
            } else {
                None
            }
        } else if lo == 0xD {
            if hi == 0xC {
                Some(Instruction::Call(CallKind::Call(d16)))
            } else {
                None
            }
        } else if lo == 0xE {
            let operand = ArithmeticOperand::Data(b1);
            if hi == 0xC {
                Some(Instruction::AddCarry(operand))
            } else if hi == 0xD {
                Some(Instruction::SubCarry(operand))
            } else if hi == 0xE {
                Some(Instruction::Xor(operand))
            } else {
                Some(Instruction::Compare(operand))
            }
        } else {
            Some(Instruction::Restart((2 * (hi - 0xC) + 1) as u8))
        }
    }
}

/// Size in bytes and m-cycle cost of every instruction. Operand shapes the
/// decoder never produces take their family's register cost.
pub open spec fn spec_size_and_cycles(i: Instruction) -> (u8, Cycles) {
    match i {
        Instruction::Nop => (1, Cycles::Cycles(1)),
        Instruction::Stop => (2, Cycles::Cycles(1)),
        Instruction::Halt => (1, Cycles::Cycles(1)),
        Instruction::Complement => (1, Cycles::Cycles(1)),
        Instruction::FlipCarry => (1, Cycles::Cycles(1)),
        Instruction::Load16(target, source) => match source {
            Load16Source::Data(_) => (3, Cycles::Cycles(3)),
            Load16Source::StackPointer => (3, Cycles::Cycles(5)),
            Load16Source::SpPlus(_) => (2, Cycles::Cycles(3)),
            Load16Source::Hl => (1, Cycles::Cycles(2)),
        },
        Instruction::Load8(target, source) => match target {
            Load8Operand::Register(_) => match source {
                Load8Operand::Register(_) => (1, Cycles::Cycles(1)),
                Load8Operand::Data(_) => (2, Cycles::Cycles(2)),
                Load8Operand::AtReg16(_) => (1, Cycles::Cycles(2)),
                Load8Operand::AtHli => (1, Cycles::Cycles(2)),
                Load8Operand::AtHld => (1, Cycles::Cycles(2)),
                Load8Operand::AtC => (1, Cycles::Cycles(2)),
                Load8Operand::AtAddress8(_) => (2, Cycles::Cycles(3)),
                Load8Operand::AtAddress16(_) => (3, Cycles::Cycles(4)),
            },
            Load8Operand::AtReg16(_) => match source {
                Load8Operand::Data(_) => (2, Cycles::Cycles(3)),
                _ => (1, Cycles::Cycles(2)),
            },
            Load8Operand::AtHli => (1, Cycles::Cycles(2)),
            Load8Operand::AtHld => (1, Cycles::Cycles(2)),
            Load8Operand::AtC => (1, Cycles::Cycles(2)),
            Load8Operand::AtAddress8(_) => (2, Cycles::Cycles(3)),
            Load8Operand::AtAddress16(_) => (3, Cycles::Cycles(4)),
            Load8Operand::Data(_) => (1, Cycles::Cycles(1)),
        },
        Instruction::Add(operand) | Instruction::Sub(operand) | Instruction::AddCarry(operand)
            | Instruction::SubCarry(operand) | Instruction::And(operand)
            | Instruction::Or(operand) | Instruction::Xor(operand)
            | Instruction::Compare(operand) => match operand {
            ArithmeticOperand::Register(_) => (1, Cycles::Cycles(1)),
            ArithmeticOperand::AtHl => (1, Cycles::Cycles(2)),
            ArithmeticOperand::Data(_) => (2, Cycles::Cycles(2)),
        },
        Instruction::Increment(target) | Instruction::Decrement(target) => match target {
            ArithmeticOperand::AtHl => (1, Cycles::Cycles(3)),
            _ => (1, Cycles::Cycles(1)),
        },
        Instruction::AddPtr(operand1, _) => match operand1 {
            PtrArithOperand::StackPointer => (2, Cycles::Cycles(4)),
            _ => (1, Cycles::Cycles(2)),
        },
        Instruction::IncrementPtr(_) => (1, Cycles::Cycles(2)),
        Instruction::DecrementPtr(_) => (1, Cycles::Cycles(2)),
        Instruction::Jump(kind) => match kind {
            JumpKind::Jump(_) => (3, Cycles::Cycles(4)),
            JumpKind::JumpConditional(_, _) => (3, Cycles::ConditionalCycles(4, 3)),
            JumpKind::JumpRelative(_) => (2, Cycles::Cycles(3)),
            JumpKind::JumpRelativeConditional(_, _) => (2, Cycles::ConditionalCycles(3, 2)),
            JumpKind::JumpHl => (1, Cycles::Cycles(1)),
        },
        Instruction::EnableInterrupts => (1, Cycles::Cycles(1)),
        Instruction::DisableInterrupts => (1, Cycles::Cycles(1)),
        Instruction::Pop(_) => (1, Cycles::Cycles(3)),
        Instruction::Push(_) => (1, Cycles::Cycles(4)),
        Instruction::Rotate(_) => (1, Cycles::Cycles(1)),
        Instruction::SetCarryFlag => (1, Cycles::Cycles(1)),
        Instruction::DecimalAdjust => (1, Cycles::Cycles(1)),
        Instruction::Call(kind) => match kind {
            CallKind::Call(_) => (3, Cycles::Cycles(6)),
            CallKind::CallConditional(_, _) => (3, Cycles::ConditionalCycles(6, 3)),
        },
        Instruction::Restart(_) => (1, Cycles::Cycles(4)),
        Instruction::Return(kind) => match kind {
            ReturnKind::Return => (1, Cycles::Cycles(4)),
            ReturnKind::ReturnConditional(_) => (1, Cycles::ConditionalCycles(5, 2)),
            ReturnKind::ReturnInterrupt => (1, Cycles::Cycles(4)),
        },
        Instruction::Instruction16(i16op) => match spec_i16_operand(i16op) {
            ArithmeticOperand::AtHl => if i16op matches Instruction16::BitTest(_, _) {
                (2, Cycles::Cycles(3))
            } else {
                (2, Cycles::Cycles(4))
            },
            _ => (2, Cycles::Cycles(2)),
        },
    }
}

/// The register operand a prefixed operation works on.
pub open spec fn spec_i16_operand(i: Instruction16) -> ArithmeticOperand {
    match i {
        Instruction16::RotateLeftCircular(operand) => operand,
        Instruction16::RotateLeft(operand) => operand,
        Instruction16::RotateRightCircular(operand) => operand,
        Instruction16::RotateRight(operand) => operand,
        Instruction16::ShiftLeft(operand) => operand,
        Instruction16::ShiftRightArithmetic(operand) => operand,
        Instruction16::ShiftRightLogical(operand) => operand,
        Instruction16::Swap(operand) => operand,
        Instruction16::BitTest(_, operand) => operand,
        Instruction16::BitReset(_, operand) => operand,
        Instruction16::BitSet(_, operand) => operand,
    }
}

impl Instruction {
    /// Decodes the instruction at address `a`. The decoder only reads:
    /// memory is untouched. Exactly the eleven undefined opcode bytes
    /// yield an error naming the address and the byte.
    pub fn from_bytes(memory: &Memory, a: u16) -> (r: Result<Instruction, DecodeError>)
        requires
            memory.wf(),
        ensures
            ({
                let b0 = spec_read(memory@, a);
                let b1 = spec_read(memory@, wrap16(a + 1));
                let b2 = spec_read(memory@, wrap16(a + 2));
                match spec_decode(b0, b1, b2) {
                    Some(i) => r == Ok::<Instruction, DecodeError>(i),
                    None => r == Err::<Instruction, DecodeError>(DecodeError::InvalidOpcode(a, b0)),
                }
            }),
    {
        let b0 = memory.read_byte(a);
        let b1 = memory.read_byte(wrap_add16(a, 1));
        let b2 = memory.read_byte(wrap_add16(a, 2));
        let hi = b0 / 16;
        let lo = b0 % 16;
        let d16: u16 = b1 as u16 + b2 as u16 * 256;
        if b0 == 0x00 {
            Ok(Instruction::Nop)
        } else if b0 == 0x10 {
            Ok(Instruction::Stop)
        } else if b0 == 0x76 {
            Ok(Instruction::Halt)
        } else if b0 == 0xCB {
            Ok(Instruction::Instruction16(Instruction::decode_i16_suffix(b1)))
        } else if hi <= 3 {
            if lo == 0x0 {
                if hi == 2 {
                    Ok(Instruction::Jump(JumpKind::JumpRelativeConditional(
                        JumpCondition::NonZero,
                        b1,
                    )))
                } else {
                    Ok(Instruction::Jump(JumpKind::JumpRelativeConditional(
                        JumpCondition::NonCarry,
                        b1,
                    )))
                }
            } else if lo == 0x1 {
                if hi == 3 {
                    Ok(Instruction::Load16(Load16Target::StackPointer, Load16Source::Data(d16)))
                } else {
                    Ok(Instruction::Load16(
                        Load16Target::Register16(row_pair(hi)),
                        Load16Source::Data(d16),
                    ))
                }
            } else if lo == 0x2 {
                let target = if hi == 2 {
                    Load8Operand::AtHli
                } else if hi == 3 {
                    Load8Operand::AtHld
                } else {
                    Load8Operand::AtReg16(row_pair(hi))
                };
                Ok(Instruction::Load8(target, Load8Operand::Register(Register::A)))
            } else if lo == 0x3 {
                if hi == 3 {
                    Ok(Instruction::IncrementPtr(PtrArithOperand::StackPointer))
                } else {
                    Ok(Instruction::IncrementPtr(PtrArithOperand::Register16(row_pair(hi))))
                }
            } else if lo == 0x4 || lo == 0x5 {
                let target = arith_operand(if hi == 3 {
                    6u8
                } else {
                    2 * hi
                });
                if lo == 0x4 {
                    Ok(Instruction::Increment(target))
                } else {
                    Ok(Instruction::Decrement(target))
                }
            } else if lo == 0x6 {
                let target = ld_operand(if hi == 3 {
                    6u8
                } else {
                    2 * hi
                });
                Ok(Instruction::Load8(target, Load8Operand::Data(b1)))
            } else if lo == 0x7 {
                if hi == 0 {
                    Ok(Instruction::Rotate(RotateKind::LeftCircular))
                } else if hi == 1 {
                    Ok(Instruction::Rotate(RotateKind::Left))
                } else if hi == 2 {
                    Ok(Instruction::DecimalAdjust)
                } else {
                    Ok(Instruction::SetCarryFlag)
                }
            } else if lo == 0x8 {
                if hi == 0 {
                    Ok(Instruction::Load16(Load16Target::Address(d16), Load16Source::StackPointer))
                } else if hi == 1 {
                    Ok(Instruction::Jump(JumpKind::JumpRelative(b1)))
                } else if hi == 2 {
                    Ok(Instruction::Jump(JumpKind::JumpRelativeConditional(
                        JumpCondition::Zero,
                        b1,
                    )))
                } else {
                    Ok(Instruction::Jump(JumpKind::JumpRelativeConditional(
                        JumpCondition::Carry,
                        b1,
                    )))
                }
            } else if lo == 0x9 {
                let operand = if hi == 3 {
                    PtrArithOperand::StackPointer
                } else {
                    PtrArithOperand::Register16(row_pair(hi))
                };
                Ok(Instruction::AddPtr(PtrArithOperand::Register16(RegisterPair::Hl), operand))
            } else if lo == 0xA {
                let source = if hi == 2 {
                    Load8Operand::AtHli
                } else if hi == 3 {
                    Load8Operand::AtHld
                } else {
                    Load8Operand::AtReg16(row_pair(hi))
                };
                Ok(Instruction::Load8(Load8Operand::Register(Register::A), source))
            } else if lo == 0xB {
                if hi == 3 {
                    Ok(Instruction::DecrementPtr(PtrArithOperand::StackPointer))
                } else {
                    Ok(Instruction::DecrementPtr(PtrArithOperand::Register16(row_pair(hi))))
                }
            } else if lo == 0xC || lo == 0xD {
                let target = arith_operand(if hi == 3 {
                    7u8
                } else {
                    2 * hi + 1
                });
                if lo == 0xC {
                    Ok(Instruction::Increment(target))
                } else {
                    Ok(Instruction::Decrement(target))
                }
            } else if lo == 0xE {
                let target = ld_operand(if hi == 3 {
                    7u8
                } else {
                    2 * hi + 1
                });
                Ok(Instruction::Load8(target, Load8Operand::Data(b1)))
            } else {
                if hi == 0 {
                    Ok(Instruction::Rotate(RotateKind::RightCircular))
                } else if hi == 1 {
                    Ok(Instruction::Rotate(RotateKind::Right))
                } else if hi == 2 {
                    Ok(Instruction::Complement)
                } else {
                    Ok(Instruction::FlipCarry)
                }
            }
        } else if hi <= 7 {
            let target = ld_operand((b0 - 0x40) / 8);
            let source = ld_operand(lo % 8);
            Ok(Instruction::Load8(target, source))
        } else if hi <= 0xB {
            let family = (b0 - 0x80) / 8;
            let operand = arith_operand(lo % 8);
            if family == 0 {
                Ok(Instruction::Add(operand))
            } else if family == 1 {
                Ok(Instruction::AddCarry(operand))
            } else if family == 2 {
                Ok(Instruction::Sub(operand))
            } else if family == 3 {
                Ok(Instruction::SubCarry(operand))
            } else if family == 4 {
                Ok(Instruction::And(operand))
            } else if family == 5 {
                Ok(Instruction::Xor(operand))
            } else if family == 6 {
                Ok(Instruction::Or(operand))
            } else {
                Ok(Instruction::Compare(operand))
            }
        } else {
            if lo == 0x0 {
                if hi == 0xC {
                    Ok(Instruction::Return(ReturnKind::ReturnConditional(JumpCondition::NonZero)))
                } else if hi == 0xD {
                    Ok(Instruction::Return(ReturnKind::ReturnConditional(JumpCondition::NonCarry)))
                } else if hi == 0xE {
                    Ok(Instruction::Load8(
                        Load8Operand::AtAddress8(b1),
                        Load8Operand::Register(Register::A),
                    ))
                } else {
                    Ok(Instruction::Load8(
                        Load8Operand::Register(Register::A),
                        Load8Operand::AtAddress8(b1),
                    ))
                }
            } else if lo == 0x1 {
                Ok(Instruction::Pop(stack_pair(hi)))
            } else if lo == 0x2 {
                if hi == 0xC {
                    Ok(Instruction::Jump(JumpKind::JumpConditional(JumpCondition::NonZero, d16)))
                } else if hi == 0xD {
                    Ok(Instruction::Jump(JumpKind::JumpConditional(JumpCondition::NonCarry, d16)))
                } else if hi == 0xE {
                    Ok(Instruction::Load8(Load8Operand::AtC, Load8Operand::Register(Register::A)))
                } else {
                    Ok(Instruction::Load8(Load8Operand::Register(Register::A), Load8Operand::AtC))
                }
            } else if lo == 0x3 {
                if hi == 0xC {
                    Ok(Instruction::Jump(JumpKind::Jump(d16)))
                } else if hi == 0xF {
                    Ok(Instruction::DisableInterrupts)
                } else {
                    Err(DecodeError::InvalidOpcode(a, b0))
                }
            } else if lo == 0x4 {
                if hi == 0xC {
                    Ok(Instruction::Call(CallKind::CallConditional(d16, JumpCondition::NonZero)))
                } else if hi == 0xD {
                    Ok(Instruction::Call(CallKind::CallConditional(d16, JumpCondition::NonCarry)))
                } else {
                    Err(DecodeError::InvalidOpcode(a, b0))
                }
            } else if lo == 0x5 {
                Ok(Instruction::Push(stack_pair(hi)))
            } else if lo == 0x6 {
                let operand = ArithmeticOperand::Data(b1);
                if hi == 0xC {
                    Ok(Instruction::Add(operand))
                } else if hi == 0xD {
                    Ok(Instruction::Sub(operand))
                } else if hi == 0xE {
                    Ok(Instruction::And(operand))
                } else {
                    Ok(Instruction::Or(operand))
                }
            } else if lo == 0x7 {
                Ok(Instruction::Restart(2 * (hi - 0xC)))
            } else if lo == 0x8 {
                if hi == 0xC {
                    Ok(Instruction::Return(ReturnKind::ReturnConditional(JumpCondition::Zero)))
                } else if hi == 0xD {
                    Ok(Instruction::Return(ReturnKind::ReturnConditional(JumpCondition::Carry)))
                } else if hi == 0xE {
                    Ok(Instruction::AddPtr(
                        PtrArithOperand::StackPointer,
                        PtrArithOperand::Data(u8_to_i8(b1)),
                    ))
                } else {
                    Ok(Instruction::Load16(
                        Load16Target::Register16(RegisterPair::Hl),
                        Load16Source::SpPlus(u8_to_i8(b1)),
                    ))
                }
            } else if lo == 0x9 {
                if hi == 0xC {
                    Ok(Instruction::Return(ReturnKind::Return))
                } else if hi == 0xD {
                    Ok(Instruction::Return(ReturnKind::ReturnInterrupt))
                } else if hi == 0xE {
                    Ok(Instruction::Jump(JumpKind::JumpHl))
                } else {
                    Ok(Instruction::Load16(Load16Target::StackPointer, Load16Source::Hl))
                }
            } else if lo == 0xA {
                if hi == 0xC {
                    Ok(Instruction::Jump(JumpKind::JumpConditional(JumpCondition::Zero, d16)))
                } else if hi == 0xD {
                    Ok(Instruction::Jump(JumpKind::JumpConditional(JumpCondition::Carry, d16)))
                } else if hi == 0xE {
                    Ok(Instruction::Load8(
                        Load8Operand::AtAddress16(d16),
                        Load8Operand::Register(Register::A),
                    ))
                } else {
                    Ok(Instruction::Load8(
                        Load8Operand::Register(Register::A),
                        Load8Operand::AtAddress16(d16),
                    ))
                }
            } else if lo == 0xB {
                if hi == 0xF {
                    Ok(Instruction::EnableInterrupts)
                } else {
                    Err(DecodeError::InvalidOpcode(a, b0))
                }
            } else if lo == 0xC {
                if hi == 0xC {
                    Ok(Instruction::Call(CallKind::CallConditional(d16, JumpCondition::Zero)))
                } else if hi == 0xD {
                    Ok(Instruction::Call(CallKind::CallConditional(d16, JumpCondition::Carry)))
                } else {
                    Err(DecodeError::InvalidOpcode(a, b0))
                }
            } else if lo == 0xD {
                if hi == 0xC {
                    Ok(Instruction::Call(CallKind::Call(d16)))
                } else {
                    Err(DecodeError::InvalidOpcode(a, b0))
                }
            } else if lo == 0xE {
                let operand = ArithmeticOperand::Data(b1);
                if hi == 0xC {
                    Ok(Instruction::AddCarry(operand))
                } else if hi == 0xD {
                    Ok(Instruction::SubCarry(operand))
                } else if hi == 0xE {
                    Ok(Instruction::Xor(operand))
                } else {
                    Ok(Instruction::Compare(operand))
                }
            } else {
                Ok(Instruction::Restart(2 * (hi - 0xC) + 1))
            }
        }
    }

    fn decode_i16_suffix(suffix: u8) -> (r: Instruction16)
        ensures
            r == spec_decode_suffix(suffix),
    {
        let op = suffix / 8;
        let reg = arith_operand(suffix % 8);
        if op == 0 {
            Instruction16::RotateLeftCircular(reg)
        } else if op == 1 {
            Instruction16::RotateRightCircular(reg)
        } else if op == 2 {
            Instruction16::RotateLeft(reg)
        } else if op == 3 {
            Instruction16::RotateRight(reg)
        } else if op == 4 {
            Instruction16::ShiftLeft(reg)
        } else if op == 5 {
            Instruction16::ShiftRightArithmetic(reg)
        } else if op == 6 {
            Instruction16::Swap(reg)
        } else if op == 7 {
            Instruction16::ShiftRightLogical(reg)
        } else if op < 16 {
            Instruction16::BitTest(op - 8, reg)
        } else if op < 24 {
            Instruction16::BitReset(op - 16, reg)
        } else {
            Instruction16::BitSet(op - 24, reg)
        }
    }

    pub fn size_and_cycles(i: &Instruction) -> (r: (u8, Cycles))
        ensures
            r == spec_size_and_cycles(*i),
    {
        match i {
            Instruction::Nop => (1, Cycles::Cycles(1)),
            Instruction::Stop => (2, Cycles::Cycles(1)),
            Instruction::Halt => (1, Cycles::Cycles(1)),
            Instruction::Complement => (1, Cycles::Cycles(1)),
            Instruction::FlipCarry => (1, Cycles::Cycles(1)),
            Instruction::Load16(_, source) => match source {
                Load16Source::Data(_) => (3, Cycles::Cycles(3)),
                Load16Source::StackPointer => (3, Cycles::Cycles(5)),
                Load16Source::SpPlus(_) => (2, Cycles::Cycles(3)),
                Load16Source::Hl => (1, Cycles::Cycles(2)),
            },
            Instruction::Load8(target, source) => match target {
                Load8Operand::Register(_) => match source {
                    Load8Operand::Register(_) => (1, Cycles::Cycles(1)),
                    Load8Operand::Data(_) => (2, Cycles::Cycles(2)),
                    Load8Operand::AtReg16(_) => (1, Cycles::Cycles(2)),
                    Load8Operand::AtHli => (1, Cycles::Cycles(2)),
                    Load8Operand::AtHld => (1, Cycles::Cycles(2)),
                    Load8Operand::AtC => (1, Cycles::Cycles(2)),
                    Load8Operand::AtAddress8(_) => (2, Cycles::Cycles(3)),
                    Load8Operand::AtAddress16(_) => (3, Cycles::Cycles(4)),
                },
                Load8Operand::AtReg16(_) => match source {
                    Load8Operand::Data(_) => (2, Cycles::Cycles(3)),
                    _ => (1, Cycles::Cycles(2)),
                },
                Load8Operand::AtHli => (1, Cycles::Cycles(2)),
                Load8Operand::AtHld => (1, Cycles::Cycles(2)),
                Load8Operand::AtC => (1, Cycles::Cycles(2)),
                Load8Operand::AtAddress8(_) => (2, Cycles::Cycles(3)),
                Load8Operand::AtAddress16(_) => (3, Cycles::Cycles(4)),
                Load8Operand::Data(_) => (1, Cycles::Cycles(1)),
            },
            Instruction::Add(operand) | Instruction::Sub(operand)
                | Instruction::AddCarry(operand) | Instruction::SubCarry(operand)
                | Instruction::And(operand) | Instruction::Or(operand)
                | Instruction::Xor(operand) | Instruction::Compare(operand) => match operand {
                ArithmeticOperand::Register(_) => (1, Cycles::Cycles(1)),
                ArithmeticOperand::AtHl => (1, Cycles::Cycles(2)),
                ArithmeticOperand::Data(_) => (2, Cycles::Cycles(2)),
            },
            Instruction::Increment(target) | Instruction::Decrement(target) => match target {
                ArithmeticOperand::AtHl => (1, Cycles::Cycles(3)),
                _ => (1, Cycles::Cycles(1)),
            },
            Instruction::AddPtr(operand1, _) => match operand1 {
                PtrArithOperand::StackPointer => (2, Cycles::Cycles(4)),
                _ => (1, Cycles::Cycles(2)),
            },
            Instruction::IncrementPtr(_) => (1, Cycles::Cycles(2)),
            Instruction::DecrementPtr(_) => (1, Cycles::Cycles(2)),
            Instruction::Jump(kind) => match kind {
                JumpKind::Jump(_) => (3, Cycles::Cycles(4)),
                JumpKind::JumpConditional(_, _) => (3, Cycles::ConditionalCycles(4, 3)),
                JumpKind::JumpRelative(_) => (2, Cycles::Cycles(3)),
                JumpKind::JumpRelativeConditional(_, _) => (2, Cycles::ConditionalCycles(3, 2)),
                JumpKind::JumpHl => (1, Cycles::Cycles(1)),
            },
            Instruction::EnableInterrupts => (1, Cycles::Cycles(1)),
            Instruction::DisableInterrupts => (1, Cycles::Cycles(1)),
            Instruction::Pop(_) => (1, Cycles::Cycles(3)),
            Instruction::Push(_) => (1, Cycles::Cycles(4)),
            Instruction::Rotate(_) => (1, Cycles::Cycles(1)),
            Instruction::SetCarryFlag => (1, Cycles::Cycles(1)),
            Instruction::DecimalAdjust => (1, Cycles::Cycles(1)),
            Instruction::Call(kind) => match kind {
                CallKind::Call(_) => (3, Cycles::Cycles(6)),
                CallKind::CallConditional(_, _) => (3, Cycles::ConditionalCycles(6, 3)),
            },
            Instruction::Restart(_) => (1, Cycles::Cycles(4)),
            Instruction::Return(kind) => match kind {
                ReturnKind::Return => (1, Cycles::Cycles(4)),
                ReturnKind::ReturnConditional(_) => (1, Cycles::ConditionalCycles(5, 2)),
                ReturnKind::ReturnInterrupt => (1, Cycles::Cycles(4)),
            },
            Instruction::Instruction16(i16op) => {
                let operand = Instruction::i16_operand(i16op);
                match operand {
                    ArithmeticOperand::AtHl => match i16op {
                        Instruction16::BitTest(_, _) => (2, Cycles::Cycles(3)),
                        _ => (2, Cycles::Cycles(4)),
                    },
                    _ => (2, Cycles::Cycles(2)),
                }
            },
        }
    }

    fn i16_operand(i: &Instruction16) -> (r: ArithmeticOperand)
        ensures
            r == spec_i16_operand(*i),
    {
        match i {
            Instruction16::RotateLeftCircular(operand) => *operand,
            Instruction16::RotateLeft(operand) => *operand,
            Instruction16::RotateRightCircular(operand) => *operand,
            Instruction16::RotateRight(operand) => *operand,
            Instruction16::ShiftLeft(operand) => *operand,
            Instruction16::ShiftRightArithmetic(operand) => *operand,
            Instruction16::ShiftRightLogical(operand) => *operand,
            Instruction16::Swap(operand) => *operand,
            Instruction16::BitTest(_, operand) => *operand,
            Instruction16::BitReset(_, operand) => *operand,
            Instruction16::BitSet(_, operand) => *operand,
        }
    }
}

/// The table index of an 8-bit register operand: B, C, D, E, H, L, (HL), A.
pub open spec fn spec_arith_idx(op: ArithmeticOperand) -> Option<u8> {
    match op {
        ArithmeticOperand::Register(r) => match r {
            Register::B => Some(0),
            Register::C => Some(1),
            Register::D => Some(2),
            Register::E => Some(3),
            Register::H => Some(4),
            Register::L => Some(5),
            Register::A => Some(7),
        },
        ArithmeticOperand::AtHl => Some(6),
        ArithmeticOperand::Data(_) => None,
    }
}

/// The table index of an 8-bit load operand; only the eight register-table
/// shapes have one.
pub open spec fn spec_ld_idx(op: Load8Operand) -> Option<u8> {
    match op {
        Load8Operand::Register(r) => match r {
            Register::B => Some(0),
            Register::C => Some(1),
            Register::D => Some(2),
            Register::E => Some(3),
            Register::H => Some(4),
            Register::L => Some(5),
            Register::A => Some(7),
        },
        Load8Operand::AtReg16(rr) => if rr == RegisterPair::Hl {
            Some(6)
        } else {
            None
        },
        _ => None,
    }
}

/// The suffix byte of a prefixed operation, when its operand is encodable.
pub open spec fn spec_encode_suffix(i: Instruction16) -> Option<u8> {
    let group: Option<u8> = match i {
        Instruction16::RotateLeftCircular(_) => Some(0),
        Instruction16::RotateRightCircular(_) => Some(1),
        Instruction16::RotateLeft(_) => Some(2),
        Instruction16::RotateRight(_) => Some(3),
        Instruction16::ShiftLeft(_) => Some(4),
        Instruction16::ShiftRightArithmetic(_) => Some(5),
        Instruction16::Swap(_) => Some(6),
        Instruction16::ShiftRightLogical(_) => Some(7),
        Instruction16::BitTest(n, _) => if n < 8 {
            Some((8 + n) as u8)
        } else {
            None
        },
        Instruction16::BitReset(n, _) => if n < 8 {
            Some((16 + n) as u8)
        } else {
            None
        },
        Instruction16::BitSet(n, _) => if n < 8 {
            Some((24 + n) as u8)
        } else {
            None
        },
    };
    match (group, spec_arith_idx(spec_i16_operand(i))) {
        (Some(g), Some(k)) => Some((g * 8 + k) as u8),
        _ => None,
    }
}

/// The bytes an instruction assembles to: the inverse of the opcode map,
/// defined exactly on what the decoder can produce (STOP assembles to its
/// canonical two-byte form 0x10 0x00).
pub open spec fn spec_encode(i: Instruction) -> Option<Seq<u8>> {
    let one = |b: u8| Some(seq![b]);
    let two = |b: u8, d: u8| Some(seq![b, d]);
    let three = |b: u8, d16: u16| Some(seq![b, (d16 % 256) as u8, (d16 / 256) as u8]);
    match i {
        Instruction::Nop => one(0x00),
        Instruction::Stop => two(0x10, 0x00),
        Instruction::Halt => one(0x76),
        Instruction::Complement => one(0x2F),
        Instruction::FlipCarry => one(0x3F),
        Instruction::SetCarryFlag => one(0x37),
        Instruction::DecimalAdjust => one(0x27),
        Instruction::EnableInterrupts => one(0xFB),
        Instruction::DisableInterrupts => one(0xF3),
        Instruction::Load16(target, source) => match (target, source) {
            (Load16Target::Register16(RegisterPair::Bc), Load16Source::Data(d16)) => three(
                0x01,
                d16,
            ),
            (Load16Target::Register16(RegisterPair::De), Load16Source::Data(d16)) => three(
                0x11,
                d16,
            ),
            (Load16Target::Register16(RegisterPair::Hl), Load16Source::Data(d16)) => three(
                0x21,
                d16,
            ),
            (Load16Target::StackPointer, Load16Source::Data(d16)) => three(0x31, d16),
            (Load16Target::Address(a16), Load16Source::StackPointer) => three(0x08, a16),
            (Load16Target::Register16(RegisterPair::Hl), Load16Source::SpPlus(d)) => two(
                0xF8,
                crate::cpu::alu::spec_i8_to_u8(d),
            ),
            (Load16Target::StackPointer, Load16Source::Hl) => one(0xF9),
            _ => None,
        },
        Instruction::Load8(target, source) => match (target, source) {
            (Load8Operand::AtC, Load8Operand::Register(Register::A)) => one(0xE2),
            (Load8Operand::Register(Register::A), Load8Operand::AtC) => one(0xF2),
            (Load8Operand::AtAddress8(a8), Load8Operand::Register(Register::A)) => two(0xE0, a8),
            (Load8Operand::Register(Register::A), Load8Operand::AtAddress8(a8)) => two(0xF0, a8),
            (Load8Operand::AtAddress16(a16), Load8Operand::Register(Register::A)) => three(
                0xEA,
                a16,
            ),
            (Load8Operand::Register(Register::A), Load8Operand::AtAddress16(a16)) => three(
                0xFA,
                a16,
            ),
            (Load8Operand::AtHli, Load8Operand::Register(Register::A)) => one(0x22),
            (Load8Operand::AtHld, Load8Operand::Register(Register::A)) => one(0x32),
            (Load8Operand::Register(Register::A), Load8Operand::AtHli) => one(0x2A),
            (Load8Operand::Register(Register::A), Load8Operand::AtHld) => one(0x3A),
            (Load8Operand::AtReg16(RegisterPair::Bc), Load8Operand::Register(Register::A)) => one(
                0x02,
            ),
            (Load8Operand::AtReg16(RegisterPair::De), Load8Operand::Register(Register::A)) => one(
                0x12,
            ),
            (Load8Operand::Register(Register::A), Load8Operand::AtReg16(RegisterPair::Bc)) => one(
                0x0A,
            ),
            (Load8Operand::Register(Register::A), Load8Operand::AtReg16(RegisterPair::De)) => one(
                0x1A,
            ),
            (t, Load8Operand::Data(d)) => match spec_ld_idx(t) {
                Some(ti) => two((0x06 + 8 * ti) as u8, d),
                None => None,
            },
            (t, s) => match (spec_ld_idx(t), spec_ld_idx(s)) {
                (Some(ti), Some(si)) => if ti == 6 && si == 6 {
                    None
                } else {
                    one((0x40 + 8 * ti + si) as u8)
                },
                _ => None,
            },
        },
        Instruction::Add(op) => match spec_arith_idx(op) {
            Some(k) => one((0x80 + k) as u8),
            None => match op {
                ArithmeticOperand::Data(d) => two(0xC6, d),
                _ => None,
            },
        },
        Instruction::AddCarry(op) => match spec_arith_idx(op) {
            Some(k) => one((0x88 + k) as u8),
            None => match op {
                ArithmeticOperand::Data(d) => two(0xCE, d),
                _ => None,
            },
        },
        Instruction::Sub(op) => match spec_arith_idx(op) {
            Some(k) => one((0x90 + k) as u8),
            None => match op {
                ArithmeticOperand::Data(d) => two(0xD6, d),
                _ => None,
            },
        },
        Instruction::SubCarry(op) => match spec_arith_idx(op) {
            Some(k) => one((0x98 + k) as u8),
            None => match op {
                ArithmeticOperand::Data(d) => two(0xDE, d),
                _ => None,
            },
        },
        Instruction::And(op) => match spec_arith_idx(op) {
            Some(k) => one((0xA0 + k) as u8),
            None => match op {
                ArithmeticOperand::Data(d) => two(0xE6, d),
                _ => None,
            },
        },
        Instruction::Xor(op) => match spec_arith_idx(op) {
            Some(k) => one((0xA8 + k) as u8),
            None => match op {
                ArithmeticOperand::Data(d) => two(0xEE, d),
                _ => None,
            },
        },
        Instruction::Or(op) => match spec_arith_idx(op) {
            Some(k) => one((0xB0 + k) as u8),
            None => match op {
                ArithmeticOperand::Data(d) => two(0xF6, d),
                _ => None,
            },
        },
        Instruction::Compare(op) => match spec_arith_idx(op) {
            Some(k) => one((0xB8 + k) as u8),
            None => match op {
                ArithmeticOperand::Data(d) => two(0xFE, d),
                _ => None,
            },
        },
        Instruction::Increment(op) => match spec_arith_idx(op) {
            Some(k) => one((0x04 + 8 * k) as u8),
            None => None,
        },
        Instruction::Decrement(op) => match spec_arith_idx(op) {
            Some(k) => one((0x05 + 8 * k) as u8),
            None => None,
        },
        Instruction::IncrementPtr(op) => match op {
            PtrArithOperand::Register16(RegisterPair::Bc) => one(0x03),
            PtrArithOperand::Register16(RegisterPair::De) => one(0x13),
            PtrArithOperand::Register16(RegisterPair::Hl) => one(0x23),
            PtrArithOperand::StackPointer => one(0x33),
            _ => None,
        },
        Instruction::DecrementPtr(op) => match op {
            PtrArithOperand::Register16(RegisterPair::Bc) => one(0x0B),
            PtrArithOperand::Register16(RegisterPair::De) => one(0x1B),
            PtrArithOperand::Register16(RegisterPair::Hl) => one(0x2B),
            PtrArithOperand::StackPointer => one(0x3B),
            _ => None,
        },
        Instruction::AddPtr(op1, op2) => match (op1, op2) {
            (
                PtrArithOperand::Register16(RegisterPair::Hl),
                PtrArithOperand::Register16(RegisterPair::Bc),
            ) => one(0x09),
            (
                PtrArithOperand::Register16(RegisterPair::Hl),
                PtrArithOperand::Register16(RegisterPair::De),
            ) => one(0x19),
            (
                PtrArithOperand::Register16(RegisterPair::Hl),
                PtrArithOperand::Register16(RegisterPair::Hl),
            ) => one(0x29),
            (PtrArithOperand::Register16(RegisterPair::Hl), PtrArithOperand::StackPointer) => one(
                0x39,
            ),
            (PtrArithOperand::StackPointer, PtrArithOperand::Data(d)) => two(
                0xE8,
                crate::cpu::alu::spec_i8_to_u8(d),
            ),
            _ => None,
        },
        Instruction::Rotate(kind) => match kind {
            RotateKind::LeftCircular => one(0x07),
            RotateKind::Left => one(0x17),
            RotateKind::RightCircular => one(0x0F),
            RotateKind::Right => one(0x1F),
        },
        Instruction::Jump(kind) => match kind {
            JumpKind::JumpRelative(off) => two(0x18, off),
            JumpKind::JumpRelativeConditional(cond, off) => match cond {
                JumpCondition::NonZero => two(0x20, off),
                JumpCondition::Zero => two(0x28, off),
                JumpCondition::NonCarry => two(0x30, off),
                JumpCondition::Carry => two(0x38, off),
            },
            JumpKind::Jump(a16) => three(0xC3, a16),
            JumpKind::JumpConditional(cond, a16) => match cond {
                JumpCondition::NonZero => three(0xC2, a16),
                JumpCondition::Zero => three(0xCA, a16),
                JumpCondition::NonCarry => three(0xD2, a16),
                JumpCondition::Carry => three(0xDA, a16),
            },
            JumpKind::JumpHl => one(0xE9),
        },
        Instruction::Call(kind) => match kind {
            CallKind::Call(a16) => three(0xCD, a16),
            CallKind::CallConditional(a16, cond) => match cond {
                JumpCondition::NonZero => three(0xC4, a16),
                JumpCondition::Zero => three(0xCC, a16),
                JumpCondition::NonCarry => three(0xD4, a16),
                JumpCondition::Carry => three(0xDC, a16),
            },
        },
        Instruction::Return(kind) => match kind {
            ReturnKind::Return => one(0xC9),
            ReturnKind::ReturnInterrupt => one(0xD9),
            ReturnKind::ReturnConditional(cond) => match cond {
                JumpCondition::NonZero => one(0xC0),
                JumpCondition::Zero => one(0xC8),
                JumpCondition::NonCarry => one(0xD0),
                JumpCondition::Carry => one(0xD8),
            },
        },
        Instruction::Pop(rr) => match rr {
            RegisterPair::Bc => one(0xC1),
            RegisterPair::De => one(0xD1),
            RegisterPair::Hl => one(0xE1),
            RegisterPair::Af => one(0xF1),
        },
        Instruction::Push(rr) => match rr {
            RegisterPair::Bc => one(0xC5),
            RegisterPair::De => one(0xD5),
            RegisterPair::Hl => one(0xE5),
            RegisterPair::Af => one(0xF5),
        },
        Instruction::Restart(n) => if n < 8 {
            one((0xC7 + 8 * n) as u8)
        } else {
            None
        },
        Instruction::Instruction16(op) => match spec_encode_suffix(op) {
            Some(suffix) => two(0xCB, suffix),
            None => None,
        },
    }
}

/// Re-encoding is a left inverse of decoding: every decoded instruction
/// assembles back to exactly the bytes it was decoded from. The one
/// exception is STOP, whose second byte the hardware ignores; it
/// re-assembles to its canonical form 0x10 0x00.
#[verifier::rlimit(100)]
#[verifier::spinoff_prover]
pub proof fn lemma_encode_left_inverse(b0: u8, b1: u8, b2: u8)
    ensures
        spec_decode(b0, b1, b2) matches Some(i) ==> {
            let size = spec_size_and_cycles(i).0;
            match spec_encode(i) {
                Some(bytes) => {
                    &&& bytes.len() == size
                    &&& bytes[0] == b0
                    &&& (size >= 2 && i != Instruction::Stop ==> bytes[1] == b1)
                    &&& (size == 3 ==> bytes[2] == b2)
                },
                None => false,
            }
        },
{
    let d16 = (b1 + b2 * 256) as u16;
    assert(d16 % 256 == b1 && d16 / 256 == b2) by {
        vstd::arithmetic::div_mod::lemma_fundamental_div_mod_converse(
            b1 + b2 * 256,
            256,
            b2 as int,
            b1 as int,
        );
    }
    assert(b1 / 8 * 8 + b1 % 8 == b1) by {
        vstd::arithmetic::div_mod::lemma_fundamental_div_mod(b1 as int, 8);
    }
    assert((b0 - 0x40) / 8 * 8 + (b0 - 0x40) % 8 == b0 - 0x40 && (b0 - 0x80) / 8 * 8 + (b0 - 0x80)
        % 8 == b0 - 0x80) by {
        vstd::arithmetic::div_mod::lemma_fundamental_div_mod(b0 - 0x40, 8);
        vstd::arithmetic::div_mod::lemma_fundamental_div_mod(b0 - 0x80, 8);
    }
    assert(b0 / 16 * 16 + b0 % 16 == b0) by {
        vstd::arithmetic::div_mod::lemma_fundamental_div_mod(b0 as int, 16);
    }
}

/// An instruction's `size` is exactly the number of bytes the decoder
/// consumes: bytes past it do not change the decoded instruction, and
/// whether decoding succeeds depends on the opcode byte alone.
pub proof fn lemma_decode_consumes_size(b0: u8, b1: u8, b2: u8, c1: u8, c2: u8)
    ensures
        spec_decode(b0, b1, b2) is None ==> spec_decode(b0, c1, c2) is None,
        spec_decode(b0, b1, b2) matches Some(i) ==> {
            let size = spec_size_and_cycles(i).0;
            &&& 1 <= size <= 3
            &&& (size == 1 ==> spec_decode(b0, c1, c2) == Some(i))
            &&& (size == 2 ==> spec_decode(b0, b1, c2) == Some(i))
        },
{
}

} // verus!
