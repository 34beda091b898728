//! Readable text for instructions and machine state: the disassembly the
//! debugger-style tests rely on.

use vstd::prelude::*;
use vstd::string::StringExecFns;

use crate::cpu::instruction::ArithmeticOperand;
use crate::cpu::instruction::CallKind;
use crate::cpu::instruction::Instruction;
use crate::cpu::instruction::Instruction16;
use crate::cpu::instruction::JumpCondition;
use crate::cpu::instruction::JumpKind;
use crate::cpu::instruction::Load16Source;
use crate::cpu::instruction::Load16Target;
use crate::cpu::instruction::Load8Operand;
use crate::cpu::instruction::PtrArithOperand;
use crate::cpu::instruction::ReturnKind;
use crate::cpu::instruction::RotateKind;
use crate::cpu::registers::Flag;
use crate::cpu::registers::Register;
use crate::cpu::registers::RegisterPair;
use crate::cpu::registers::Registers;
use crate::ppu::Pixel;
use crate::timer::Cycles;

verus! {

/// The decimal digit characters, '0' for 0 up to '9' for 9.
pub open spec fn spec_digit(d: int) -> char {
    if d == 0 {
        '0'
    } else if d == 1 {
        '1'
    } else if d == 2 {
        '2'
    } else if d == 3 {
        '3'
    } else if d == 4 {
        '4'
    } else if d == 5 {
        '5'
    } else if d == 6 {
        '6'
    } else if d == 7 {
        '7'
    } else if d == 8 {
        '8'
    } else {
        '9'
    }
}

/// The lower-case hexadecimal digit characters.
pub open spec fn spec_hex_digit(d: int) -> char {
    if d < 10 {
        spec_digit(d)
    } else if d == 10 {
        'a'
    } else if d == 11 {
        'b'
    } else if d == 12 {
        'c'
    } else if d == 13 {
        'd'
    } else if d == 14 {
        'e'
    } else {
        'f'
    }
}

/// The decimal text of a nonnegative number, no leading zeros.
pub open spec fn spec_dec(n: int) -> Seq<char>
    decreases n,
{
    if n < 10 {
        seq![spec_digit(n)]
    } else {
        spec_dec(n / 10) + seq![spec_digit(n % 10)]
    }
}

/// The decimal text of a signed number, with a leading minus when negative.
pub open spec fn spec_dec_signed(n: int) -> Seq<char> {
    if n < 0 {
        seq!['-'] + spec_dec(-n)
    } else {
        spec_dec(n)
    }
}

/// The "0x"-prefixed lower-case hexadecimal text of a nonnegative number.
pub open spec fn spec_hex(n: int) -> Seq<char> {
    seq!['0', 'x'] + spec_hex_rec(n)
}

pub open spec fn spec_hex_rec(n: int) -> Seq<char>
    decreases n,
{
    if n < 16 {
        seq![spec_hex_digit(n)]
    } else {
        spec_hex_rec(n / 16) + seq![spec_hex_digit(n % 16)]
    }
}

fn digit_str(d: u8) -> (r: &'static str)
    requires
        d < 10,
    ensures
        r@ == seq![spec_digit(d as int)],
{
    proof {
        reveal_strlit("0");
        reveal_strlit("1");
        reveal_strlit("2");
        reveal_strlit("3");
        reveal_strlit("4");
        reveal_strlit("5");
        reveal_strlit("6");
        reveal_strlit("7");
        reveal_strlit("8");
        reveal_strlit("9");
    }
    let r = if d == 0 {
        "0"
    } else if d == 1 {
        "1"
    } else if d == 2 {
        "2"
    } else if d == 3 {
        "3"
    } else if d == 4 {
        "4"
    } else if d == 5 {
        "5"
    } else if d == 6 {
        "6"
    } else if d == 7 {
        "7"
    } else if d == 8 {
        "8"
    } else {
        "9"
    };
    proof {
        assert(r@ =~= seq![spec_digit(d as int)]);
    }
    r
}

fn hex_digit_str(d: u8) -> (r: &'static str)
    requires
        d < 16,
    ensures
        r@ == seq![spec_hex_digit(d as int)],
{
    if d < 10 {
        digit_str(d)
    } else {
        proof {
            reveal_strlit("a");
            reveal_strlit("b");
            reveal_strlit("c");
            reveal_strlit("d");
            reveal_strlit("e");
            reveal_strlit("f");
        }
        let r = if d == 10 {
            "a"
        } else if d == 11 {
            "b"
        } else if d == 12 {
            "c"
        } else if d == 13 {
            "d"
        } else if d == 14 {
            "e"
        } else {
            "f"
        };
        proof {
            assert(r@ =~= seq![spec_hex_digit(d as int)]);
        }
        r
    }
}

/// A number in decimal.
pub fn dec_str(n: u16) -> (s: String)
    ensures
        s@ == spec_dec(n as int),
    decreases n,
{
    if n < 10 {
        let mut s = String::new();
        s.append(digit_str(n as u8));
        s
    } else {
        let mut s = dec_str(n / 10);
        s.append(digit_str((n % 10) as u8));
        s
    }
}

/// A signed displacement in decimal.
pub fn dec_str_i8(n: i8) -> (s: String)
    ensures
        s@ == spec_dec_signed(n as int),
{
    proof {
        reveal_strlit("-");
    }
    if n < 0 {
        let mut s = String::from_str("-");
        let mag: i16 = -(n as i16);
        s.append(dec_str(mag as u16).as_str());
        proof {
            assert(s@ =~= spec_dec_signed(n as int));
        }
        s
    } else {
        dec_str(n as u16)
    }
}

/// A number in "0x"-prefixed hexadecimal.
pub fn hex_str(n: u16) -> (s: String)
    ensures
        s@ == spec_hex(n as int),
{
    proof {
        reveal_strlit("0x");
    }
    let mut s = String::from_str("0x");
    s.append(hex_rec_str(n).as_str());
    proof {
        assert(s@ =~= spec_hex(n as int));
    }
    s
}

fn hex_rec_str(n: u16) -> (s: String)
    ensures
        s@ == spec_hex_rec(n as int),
    decreases n,
{
    if n < 16 {
        let mut s = String::new();
        s.append(hex_digit_str(n as u8));
        s
    } else {
        let mut s = hex_rec_str(n / 16);
        s.append(hex_digit_str((n % 16) as u8));
        s
    }
}

impl Register {
    pub open spec fn spec_text(self) -> Seq<char> {
        match self {
            Register::A => "A"@,
            Register::B => "B"@,
            Register::C => "C"@,
            Register::D => "D"@,
            Register::E => "E"@,
            Register::H => "H"@,
            Register::L => "L"@,
        }
    }

    pub fn text(&self) -> (s: String)
        ensures
            s@ == self.spec_text(),
    {
        match self {
            Register::A => String::from_str("A"),
            Register::B => String::from_str("B"),
            Register::C => String::from_str("C"),
            Register::D => String::from_str("D"),
            Register::E => String::from_str("E"),
            Register::H => String::from_str("H"),
            Register::L => String::from_str("L"),
        }
    }
}

impl RegisterPair {
    pub open spec fn spec_text(self) -> Seq<char> {
        match self {
            RegisterPair::Af => "AF"@,
            RegisterPair::Bc => "BC"@,
            RegisterPair::De => "DE"@,
            RegisterPair::Hl => "HL"@,
        }
    }

    pub fn text(&self) -> (s: String)
        ensures
            s@ == self.spec_text(),
    {
        match self {
            RegisterPair::Af => String::from_str("AF"),
            RegisterPair::Bc => String::from_str("BC"),
            RegisterPair::De => String::from_str("DE"),
            RegisterPair::Hl => String::from_str("HL"),
        }
    }
}

impl JumpCondition {
    pub open spec fn spec_text(self) -> Seq<char> {
        match self {
            JumpCondition::Zero => "Z"@,
            JumpCondition::NonZero => "NZ"@,
            JumpCondition::Carry => "C"@,
            JumpCondition::NonCarry => "NC"@,
        }
    }

    pub fn text(&self) -> (s: String)
        ensures
            s@ == self.spec_text(),
    {
        match self {
            JumpCondition::Zero => String::from_str("Z"),
            JumpCondition::NonZero => String::from_str("NZ"),
            JumpCondition::Carry => String::from_str("C"),
            JumpCondition::NonCarry => String::from_str("NC"),
        }
    }
}

impl Load16Target {
    pub open spec fn spec_text(self) -> Seq<char> {
        match self {
            Load16Target::Register16(rr) => rr.spec_text(),
            Load16Target::StackPointer => "SP"@,
            Load16Target::Address(a16) => "$"@ + spec_hex(a16 as int),
        }
    }

    pub fn text(&self) -> (s: String)
        ensures
            s@ == self.spec_text(),
    {
        match self {
            Load16Target::Register16(rr) => rr.text(),
            Load16Target::StackPointer => String::from_str("SP"),
            Load16Target::Address(a16) => {
                let mut s = String::from_str("$");
                s.append(hex_str(*a16).as_str());
                s
            },
        }
    }
}

impl Load16Source {
    pub open spec fn spec_text(self) -> Seq<char> {
        match self {
            Load16Source::Hl => "HL"@,
            Load16Source::StackPointer => "SP"@,
            Load16Source::SpPlus(r8) => "SP+"@ + spec_dec_signed(r8 as int),
            Load16Source::Data(d16) => "$"@ + spec_hex(d16 as int),
        }
    }

    pub fn text(&self) -> (s: String)
        ensures
            s@ == self.spec_text(),
    {
        match self {
            Load16Source::Hl => String::from_str("HL"),
            Load16Source::StackPointer => String::from_str("SP"),
            Load16Source::SpPlus(r8) => {
                let mut s = String::from_str("SP+");
                s.append(dec_str_i8(*r8).as_str());
                s
            },
            Load16Source::Data(d16) => {
                let mut s = String::from_str("$");
                s.append(hex_str(*d16).as_str());
                s
            },
        }
    }
}

impl Load8Operand {
    pub open spec fn spec_text(self) -> Seq<char> {
        match self {
            Load8Operand::Register(r) => r.spec_text(),
            Load8Operand::AtC => "(C)"@,
            Load8Operand::AtReg16(rr) => "("@ + rr.spec_text() + ")"@,
            Load8Operand::AtHli => "(HL+)"@,
            Load8Operand::AtHld => "(HL-)"@,
            Load8Operand::AtAddress16(a16) => "("@ + spec_hex(a16 as int) + ")"@,
            Load8Operand::AtAddress8(a8) => "("@ + spec_hex(a8 as int) + ")"@,
            Load8Operand::Data(d8) => "$"@ + spec_hex(d8 as int),
        }
    }

    pub fn text(&self) -> (s: String)
        ensures
            s@ == self.spec_text(),
    {
        match self {
            Load8Operand::Register(r) => r.text(),
            Load8Operand::AtC => String::from_str("(C)"),
            Load8Operand::AtReg16(rr) => {
                let mut s = String::from_str("(");
                s.append(rr.text().as_str());
                s.append(")");
                s
            },
            Load8Operand::AtHli => String::from_str("(HL+)"),
            Load8Operand::AtHld => String::from_str("(HL-)"),
            Load8Operand::AtAddress16(a16) => {
                let mut s = String::from_str("(");
                s.append(hex_str(*a16).as_str());
                s.append(")");
                s
            },
            Load8Operand::AtAddress8(a8) => {
                let mut s = String::from_str("(");
                s.append(hex_str(*a8 as u16).as_str());
                s.append(")");
                s
            },
            Load8Operand::Data(d8) => {
                let mut s = String::from_str("$");
                s.append(hex_str(*d8 as u16).as_str());
                s
            },
        }
    }
}

impl ArithmeticOperand {
    pub open spec fn spec_text(self) -> Seq<char> {
        match self {
            ArithmeticOperand::Register(r) => r.spec_text(),
            ArithmeticOperand::AtHl => "(HL)"@,
            ArithmeticOperand::Data(d8) => "$"@ + spec_dec(d8 as int),
        }
    }

    pub fn text(&self) -> (s: String)
        ensures
            s@ == self.spec_text(),
    {
        match self {
            ArithmeticOperand::Register(r) => r.text(),
            ArithmeticOperand::AtHl => String::from_str("(HL)"),
            ArithmeticOperand::Data(d8) => {
                let mut s = String::from_str("$");
                s.append(dec_str(*d8 as u16).as_str());
                s
            },
        }
    }
}

impl PtrArithOperand {
    pub open spec fn spec_text(self) -> Seq<char> {
        match self {
            PtrArithOperand::Register16(rr) => "("@ + rr.spec_text() + ")"@,
            PtrArithOperand::StackPointer => "SP"@,
            PtrArithOperand::Data(d) => "$"@ + spec_dec_signed(d as int),
        }
    }

    pub fn text(&self) -> (s: String)
        ensures
            s@ == self.spec_text(),
    {
        match self {
            PtrArithOperand::Register16(rr) => {
                let mut s = String::from_str("(");
                s.append(rr.text().as_str());
                s.append(")");
                s
            },
            PtrArithOperand::StackPointer => String::from_str("SP"),
            PtrArithOperand::Data(d) => {
                let mut s = String::from_str("$");
                s.append(dec_str_i8(*d).as_str());
                s
            },
        }
    }
}

impl JumpKind {
    pub open spec fn spec_text(self) -> Seq<char> {
        match self {
            JumpKind::JumpRelative(offset) => "R "@ + spec_dec(offset as int),
            JumpKind::JumpRelativeConditional(cond, offset) => "R "@ + cond.spec_text() + " "@
                + spec_dec(offset as int),
            JumpKind::Jump(address) => "P "@ + spec_dec(address as int),
            JumpKind::JumpConditional(cond, address) => "P "@ + cond.spec_text() + " "@ + spec_dec(
                address as int,
            ),
            JumpKind::JumpHl => "P (HL)"@,
        }
    }

    pub fn text(&self) -> (s: String)
        ensures
            s@ == self.spec_text(),
    {
        match self {
            JumpKind::JumpRelative(offset) => {
                let mut s = String::from_str("R ");
                s.append(dec_str(*offset as u16).as_str());
                s
            },
            JumpKind::JumpRelativeConditional(cond, offset) => {
                let mut s = String::from_str("R ");
                s.append(cond.text().as_str());
                s.append(" ");
                s.append(dec_str(*offset as u16).as_str());
                s
            },
            JumpKind::Jump(address) => {
                let mut s = String::from_str("P ");
                s.append(dec_str(*address).as_str());
                s
            },
            JumpKind::JumpConditional(cond, address) => {
                let mut s = String::from_str("P ");
                s.append(cond.text().as_str());
                s.append(" ");
                s.append(dec_str(*address).as_str());
                s
            },
            JumpKind::JumpHl => String::from_str("P (HL)"),
        }
    }
}

impl ReturnKind {
    pub open spec fn spec_text(self) -> Seq<char> {
        match self {
            ReturnKind::Return => ""@,
            ReturnKind::ReturnInterrupt => "I"@,
            ReturnKind::ReturnConditional(cond) => " "@ + cond.spec_text(),
        }
    }

    pub fn text(&self) -> (s: String)
        ensures
            s@ == self.spec_text(),
    {
        proof {
            reveal_strlit("");
            assert(""@ =~= Seq::<char>::empty());
        }
        match self {
            ReturnKind::Return => String::new(),
            ReturnKind::ReturnInterrupt => String::from_str("I"),
            ReturnKind::ReturnConditional(cond) => {
                let mut s = String::from_str(" ");
                s.append(cond.text().as_str());
                s
            },
        }
    }
}

impl RotateKind {
    pub open spec fn spec_text(self) -> Seq<char> {
        match self {
            RotateKind::Left => "L"@,
            RotateKind::LeftCircular => "LC"@,
            RotateKind::Right => "R"@,
            RotateKind::RightCircular => "RC"@,
        }
    }

    pub fn text(&self) -> (s: String)
        ensures
            s@ == self.spec_text(),
    {
        match self {
            RotateKind::Left => String::from_str("L"),
            RotateKind::LeftCircular => String::from_str("LC"),
            RotateKind::Right => String::from_str("R"),
            RotateKind::RightCircular => String::from_str("RC"),
        }
    }
}

impl CallKind {
    pub open spec fn spec_text(self) -> Seq<char> {
        match self {
            CallKind::Call(a16) => spec_dec(a16 as int),
            CallKind::CallConditional(a16, cond) => spec_dec(a16 as int) + " "@ + cond.spec_text(),
        }
    }

    pub fn text(&self) -> (s: String)
        ensures
            s@ == self.spec_text(),
    {
        match self {
            CallKind::Call(a16) => dec_str(*a16),
            CallKind::CallConditional(a16, cond) => {
                let mut s = dec_str(*a16);
                s.append(" ");
                s.append(cond.text().as_str());
                s
            },
        }
    }
}

impl Instruction16 {
    pub open spec fn spec_text(self) -> Seq<char> {
        match self {
            Instruction16::RotateLeftCircular(reg) => "RLC "@ + reg.spec_text(),
            Instruction16::RotateLeft(reg) => "RL "@ + reg.spec_text(),
            Instruction16::RotateRightCircular(reg) => "RRC "@ + reg.spec_text(),
            Instruction16::RotateRight(reg) => "RR "@ + reg.spec_text(),
            Instruction16::ShiftLeft(reg) => "SLA "@ + reg.spec_text(),
            Instruction16::ShiftRightArithmetic(reg) => "SRA "@ + reg.spec_text(),
            Instruction16::ShiftRightLogical(reg) => "SRL "@ + reg.spec_text(),
            Instruction16::Swap(reg) => "SWAP "@ + reg.spec_text(),
            Instruction16::BitTest(i, reg) => "BIT "@ + spec_dec(i as int) + " "@ + reg.spec_text(),
            Instruction16::BitReset(i, reg) => "RES "@ + spec_dec(i as int) + " "@
                + reg.spec_text(),
            Instruction16::BitSet(i, reg) => "SET "@ + spec_dec(i as int) + " "@ + reg.spec_text(),
        }
    }

    pub fn text(&self) -> (s: String)
        ensures
            s@ == self.spec_text(),
    {
        match self {
            Instruction16::RotateLeftCircular(reg) => {
                let mut s = String::from_str("RLC ");
                s.append(reg.text().as_str());
                s
            },
            Instruction16::RotateLeft(reg) => {
                let mut s = String::from_str("RL ");
                s.append(reg.text().as_str());
                s
            },
            Instruction16::RotateRightCircular(reg) => {
                let mut s = String::from_str("RRC ");
                s.append(reg.text().as_str());
                s
            },
            Instruction16::RotateRight(reg) => {
                let mut s = String::from_str("RR ");
                s.append(reg.text().as_str());
                s
            },
            Instruction16::ShiftLeft(reg) => {
                let mut s = String::from_str("SLA ");
                s.append(reg.text().as_str());
                s
            },
            Instruction16::ShiftRightArithmetic(reg) => {
                let mut s = String::from_str("SRA ");
                s.append(reg.text().as_str());
                s
            },
            Instruction16::ShiftRightLogical(reg) => {
                let mut s = String::from_str("SRL ");
                s.append(reg.text().as_str());
                s
            },
            Instruction16::Swap(reg) => {
                let mut s = String::from_str("SWAP ");
                s.append(reg.text().as_str());
                s
            },
            Instruction16::BitTest(i, reg) => {
                let mut s = String::from_str("BIT ");
                s.append(dec_str(*i as u16).as_str());
                s.append(" ");
                s.append(reg.text().as_str());
                s
            },
            Instruction16::BitReset(i, reg) => {
                let mut s = String::from_str("RES ");
                s.append(dec_str(*i as u16).as_str());
                s.append(" ");
                s.append(reg.text().as_str());
                s
            },
            Instruction16::BitSet(i, reg) => {
                let mut s = String::from_str("SET ");
                s.append(dec_str(*i as u16).as_str());
                s.append(" ");
                s.append(reg.text().as_str());
                s
            },
        }
    }
}

impl Instruction {
    pub open spec fn spec_text(self) -> Seq<char> {
        match self {
            Instruction::Nop => "NOP"@,
            Instruction::Stop => "STOP"@,
            Instruction::Halt => "HALT"@,
            Instruction::Complement => "CPL"@,
            Instruction::FlipCarry => "CCF"@,
            Instruction::Load16(target, source) => "LD "@ + target.spec_text() + ","@
                + source.spec_text(),
            Instruction::Load8(target, source) => "LD "@ + target.spec_text() + ","@
                + source.spec_text(),
            Instruction::Add(operand) => "ADD "@ + operand.spec_text(),
            Instruction::Sub(operand) => "SUB "@ + operand.spec_text(),
            Instruction::AddCarry(operand) => "ADC "@ + operand.spec_text(),
            Instruction::SubCarry(operand) => "SBC "@ + operand.spec_text(),
            Instruction::And(operand) => "AND "@ + operand.spec_text(),
            Instruction::Or(operand) => "OR "@ + operand.spec_text(),
            Instruction::Xor(operand) => "XOR "@ + operand.spec_text(),
            Instruction::Compare(operand) => "CP "@ + operand.spec_text(),
            Instruction::Increment(operand) => "INC "@ + operand.spec_text(),
            Instruction::Decrement(operand) => "DEC "@ + operand.spec_text(),
            Instruction::AddPtr(operand1, operand2) => "ADD "@ + operand1.spec_text() + ","@
                + operand2.spec_text(),
            Instruction::IncrementPtr(operand) => "INC "@ + operand.spec_text(),
            Instruction::DecrementPtr(operand) => "DEC "@ + operand.spec_text(),
            Instruction::Jump(kind) => "J"@ + kind.spec_text(),
            Instruction::EnableInterrupts => "EI"@,
            Instruction::DisableInterrupts => "DI"@,
            Instruction::Pop(reg_pair) => "POP "@ + reg_pair.spec_text(),
            Instruction::Push(reg_pair) => "PUSH "@ + reg_pair.spec_text(),
            Instruction::Rotate(kind) => "R"@ + kind.spec_text() + "A"@,
            Instruction::SetCarryFlag => "SCF"@,
            Instruction::DecimalAdjust => "DAA"@,
            Instruction::Call(kind) => "CALL "@ + kind.spec_text(),
            Instruction::Restart(n) => "RST "@ + spec_dec(n as int),
            Instruction::Return(kind) => "RET"@ + kind.spec_text(),
            Instruction::Instruction16(instruction) => instruction.spec_text(),
        }
    }

    /// The disassembly of one instruction.
    pub fn text(&self) -> (s: String)
        ensures
            s@ == self.spec_text(),
    {
        match self {
            Instruction::Nop => String::from_str("NOP"),
            Instruction::Stop => String::from_str("STOP"),
            Instruction::Halt => String::from_str("HALT"),
            Instruction::Complement => String::from_str("CPL"),
            Instruction::FlipCarry => String::from_str("CCF"),
            Instruction::Load16(target, source) => {
                let mut s = String::from_str("LD ");
                s.append(target.text().as_str());
                s.append(",");
                s.append(source.text().as_str());
                s
            },
            Instruction::Load8(target, source) => {
                let mut s = String::from_str("LD ");
                s.append(target.text().as_str());
                s.append(",");
                s.append(source.text().as_str());
                s
            },
            Instruction::Add(operand) => {
                let mut s = String::from_str("ADD ");
                s.append(operand.text().as_str());
                s
            },
            Instruction::Sub(operand) => {
                let mut s = String::from_str("SUB ");
                s.append(operand.text().as_str());
                s
            },
            Instruction::AddCarry(operand) => {
                let mut s = String::from_str("ADC ");
                s.append(operand.text().as_str());
                s
            },
            Instruction::SubCarry(operand) => {
                let mut s = String::from_str("SBC ");
                s.append(operand.text().as_str());
                s
            },
            Instruction::And(operand) => {
                let mut s = String::from_str("AND ");
                s.append(operand.text().as_str());
                s
            },
            Instruction::Or(operand) => {
                let mut s = String::from_str("OR ");
                s.append(operand.text().as_str());
                s
            },
            Instruction::Xor(operand) => {
                let mut s = String::from_str("XOR ");
                s.append(operand.text().as_str());
                s
            },
            Instruction::Compare(operand) => {
                let mut s = String::from_str("CP ");
                s.append(operand.text().as_str());
                s
            },
            Instruction::Increment(operand) => {
                let mut s = String::from_str("INC ");
                s.append(operand.text().as_str());
                s
            },
            Instruction::Decrement(operand) => {
                let mut s = String::from_str("DEC ");
                s.append(operand.text().as_str());
                s
            },
            Instruction::AddPtr(operand1, operand2) => {
                let mut s = String::from_str("ADD ");
                s.append(operand1.text().as_str());
                s.append(",");
                s.append(operand2.text().as_str());
                s
            },
            Instruction::IncrementPtr(operand) => {
                let mut s = String::from_str("INC ");
                s.append(operand.text().as_str());
                s
            },
            Instruction::DecrementPtr(operand) => {
                let mut s = String::from_str("DEC ");
                s.append(operand.text().as_str());
                s
            },
            Instruction::Jump(kind) => {
                let mut s = String::from_str("J");
                s.append(kind.text().as_str());
                s
            },
            Instruction::EnableInterrupts => String::from_str("EI"),
            Instruction::DisableInterrupts => String::from_str("DI"),
            Instruction::Pop(reg_pair) => {
                let mut s = String::from_str("POP ");
                s.append(reg_pair.text().as_str());
                s
            },
            Instruction::Push(reg_pair) => {
                let mut s = String::from_str("PUSH ");
                s.append(reg_pair.text().as_str());
                s
            },
            Instruction::Rotate(kind) => {
                let mut s = String::from_str("R");
                s.append(kind.text().as_str());
                s.append("A");
                s
            },
            Instruction::SetCarryFlag => String::from_str("SCF"),
            Instruction::DecimalAdjust => String::from_str("DAA"),
            Instruction::Call(kind) => {
                let mut s = String::from_str("CALL ");
                s.append(kind.text().as_str());
                s
            },
            Instruction::Restart(n) => {
                let mut s = String::from_str("RST ");
                s.append(dec_str(*n as u16).as_str());
                s
            },
            Instruction::Return(kind) => {
                let mut s = String::from_str("RET");
                s.append(kind.text().as_str());
                s
            },
            Instruction::Instruction16(instruction) => instruction.text(),
        }
    }
}

impl Cycles {
    pub open spec fn spec_text(self) -> Seq<char> {
        match self {
            Cycles::Cycles(cycles) => spec_dec(cycles as int),
            Cycles::ConditionalCycles(taken, not_taken) => spec_dec(taken as int) + "/"@ + spec_dec(
                not_taken as int,
            ),
        }
    }

    pub fn text(&self) -> (s: String)
        ensures
            s@ == self.spec_text(),
    {
        match self {
            Cycles::Cycles(cycles) => dec_str(*cycles as u16),
            Cycles::ConditionalCycles(taken, not_taken) => {
                let mut s = dec_str(*taken as u16);
                s.append("/");
                s.append(dec_str(*not_taken as u16).as_str());
                s
            },
        }
    }
}

impl Pixel {
    pub open spec fn spec_text(self) -> Seq<char> {
        "[color_index: "@ + spec_dec(self.color_index as int) + " prio: "@ + spec_dec(
            self.prio as int,
        ) + "]"@
    }

    pub fn text(&self) -> (s: String)
        ensures
            s@ == self.spec_text(),
    {
        let mut s = String::from_str("[color_index: ");
        s.append(dec_str(self.color_index as u16).as_str());
        s.append(" prio: ");
        s.append(dec_str(self.prio as u16).as_str());
        s.append("]");
        s
    }
}

impl Registers {
    pub open spec fn spec_flag_bit_text(self, flag: Flag) -> Seq<char> {
        if self.spec_flag(flag) {
            "1"@
        } else {
            "0"@
        }
    }

    pub open spec fn spec_text(self) -> Seq<char> {
        "[ a: "@ + spec_hex(self.a as int) + ", b: "@ + spec_hex(self.b as int) + ", c: "@
            + spec_hex(self.c as int) + ", d: "@ + spec_hex(self.d as int) + ", e: "@ + spec_hex(
            self.e as int,
        ) + ", h: "@ + spec_hex(self.h as int) + ", l: "@ + spec_hex(self.l as int) + ", Z: "@
            + self.spec_flag_bit_text(Flag::Zero) + " N: "@ + self.spec_flag_bit_text(
            Flag::Subtract,
        ) + " H: "@ + self.spec_flag_bit_text(Flag::HalfCarry) + " C: "@ + self.spec_flag_bit_text(
            Flag::Carry,
        ) + " ]"@
    }

    /// The register dump line a debugger prints.
    pub fn text(&self) -> (s: String)
        ensures
            s@ == self.spec_text(),
    {
        let mut s = String::from_str("[ a: ");
        s.append(hex_str(self.a as u16).as_str());
        s.append(", b: ");
        s.append(hex_str(self.b as u16).as_str());
        s.append(", c: ");
        s.append(hex_str(self.c as u16).as_str());
        s.append(", d: ");
        s.append(hex_str(self.d as u16).as_str());
        s.append(", e: ");
        s.append(hex_str(self.e as u16).as_str());
        s.append(", h: ");
        s.append(hex_str(self.h as u16).as_str());
        s.append(", l: ");
        s.append(hex_str(self.l as u16).as_str());
        s.append(", Z: ");
        s.append(self.flag_bit_text(Flag::Zero));
        s.append(" N: ");
        s.append(self.flag_bit_text(Flag::Subtract));
        s.append(" H: ");
        s.append(self.flag_bit_text(Flag::HalfCarry));
        s.append(" C: ");
        s.append(self.flag_bit_text(Flag::Carry));
        s.append(" ]");
        s
    }

    fn flag_bit_text(&self, flag: Flag) -> (s: &'static str)
        ensures
            s@ == self.spec_flag_bit_text(flag),
    {
        if self.get_flag(flag) {
            "1"
        } else {
            "0"
        }
    }
}

} // verus!
