//! The instruction set: the operations, the shape of their operands, and the
//! opcode table that fixes how each is written in code.
//!
//! | opcode | instruction | operands |
//! |---|---|---|
//! | 0 | `NOP` | none |
//! | 1 | `MOV` | register, literal |
//! | 2 | `MOVR` | register, register |
//! | 3 | `JMP` | register |
//! | 4 | `JE` | register |
//! | 5 | `JNE` | register |
//! | 6 | `CMP` | register, register |
//! | 7 | `PRINTR` | register |
//! | 8 | `PRINTV` | address |
//! | 9 | `VSTORE` | address, literal |
//! | 10 | `VLOAD` | address |
//! | 11 | `VSTORER` | address, register |
//! | 12 | `VLOADR` | register, address |
//! | 13 | `ADD` | register, register |
//! | 14 | `SUB` | register, register |
//! | 15 | `MUL` | register, register |
//! | 16 | `DIV` | register, register |
//! | 17 | `VPUSH` | literal |
//! | 18 | `VPUSHR` | register |
//! | 19 | `VPOP` | register |
//! | 20 | `CALL` | register |
//! | 21 | `RET` | none |
//! | 22 | `HALT` | none |
//! | 23 | `JG` | register |
//! | 24 | `JL` | register |
//! | 25 | `AND` | register, register |
//! | 26 | `OR` | register, register |
//! | 27 | `XOR` | register, register |
//! | 28 | `SHR` | register, literal |
//! | 29 | `SHL` | register, literal |
//!
//! A register operand is one byte. An address operand is four bytes, most
//! significant first. A literal is the tag byte of its kind followed by the
//! payload in as many bytes as the kind is wide, most significant first.
use crate::value::{Immediate, Kind};
use vstd::prelude::*;

verus! {

/// Index of a register.
pub type Register = usize;

/// Index of a heap cell, or an offset into the code.
pub type Address = usize;

/// Number of registers of a machine.
pub const REGISTERS: usize = 8;

/// An instruction with its operands.
#[derive(Clone, Copy, Debug, PartialEq, Eq, Structural)]
pub enum Instruction {
    /// Do nothing.
    NOP(),
    /// Move a literal into a register.
    MOV(Register, Immediate),
    /// Copy the second register into the first.
    MOVR(Register, Register),
    /// Jump to the offset held in the register.
    JMP(Register),
    /// Jump if the last comparison found its operands equal.
    JE(Register),
    /// Jump if the last comparison found its operands unequal.
    JNE(Register),
    /// Jump if the last comparison found the first operand greater.
    JG(Register),
    /// Jump if the last comparison found the first operand less.
    JL(Register),
    /// Compare two registers and set the flags.
    CMP(Register, Register),
    /// Emit the contents of a register.
    PRINTR(Register),
    /// Emit the contents of a heap cell.
    PRINTV(Address),
    /// Store a literal into a heap cell.
    VSTORE(Address, Immediate),
    /// Push the contents of a heap cell onto the stack.
    VLOAD(Address),
    /// Store the contents of a register into a heap cell.
    VSTORER(Address, Register),
    /// Load a heap cell into a register.
    VLOADR(Register, Address),
    /// Push the sum of two registers onto the stack.
    ADD(Register, Register),
    /// Push the difference of two registers onto the stack.
    SUB(Register, Register),
    /// Push the product of two registers onto the stack.
    MUL(Register, Register),
    /// Push the quotient of two registers onto the stack.
    DIV(Register, Register),
    /// Push the bitwise AND of two registers onto the stack.
    AND(Register, Register),
    /// Push the bitwise OR of two registers onto the stack.
    OR(Register, Register),
    /// Push the bitwise XOR of two registers onto the stack.
    XOR(Register, Register),
    /// Push the register shifted to the right by a literal onto the stack.
    SHR(Register, Immediate),
    /// Push the register shifted to the left by a literal onto the stack.
    SHL(Register, Immediate),
    /// Push a literal onto the stack.
    VPUSH(Immediate),
    /// Push the contents of a register onto the stack.
    VPUSHR(Register),
    /// Pop the top of the stack into a register.
    VPOP(Register),
    /// Push the offset of the next instruction, and jump to the offset held
    /// in the register.
    CALL(Register),
    /// Pop an offset from the stack and jump to it.
    RET(),
    /// Stop the machine.
    HALT(),
}

/// Which operands follow an opcode, in the order in which they are written.
#[derive(Clone, Copy, Debug, PartialEq, Eq, Structural)]
pub enum Shape {
    Plain,
    Reg,
    RegReg,
    Addr,
    AddrImm,
    AddrReg,
    RegAddr,
    RegImm,
    Imm,
}

/// The operands of an instruction, laid out by role. A role that the
/// instruction has no operand for holds zero, or the empty value.
#[derive(Clone, Copy, Debug, PartialEq, Eq, Structural)]
pub struct Operands {
    pub first: Register,
    pub second: Register,
    pub address: Address,
    pub literal: Immediate,
}

impl Shape {
    /// The shape of the operands that follow an opcode, if the opcode names an
    /// instruction.
    pub open spec fn spec_of(opcode: u8) -> Option<Shape> {
        match opcode {
            0 | 21 | 22 => Some(Shape::Plain),
            3 | 4 | 5 | 7 | 18 | 19 | 20 | 23 | 24 => Some(Shape::Reg),
            2 | 6 | 13 | 14 | 15 | 16 | 25 | 26 | 27 => Some(Shape::RegReg),
            8 | 10 => Some(Shape::Addr),
            9 => Some(Shape::AddrImm),
            11 => Some(Shape::AddrReg),
            12 => Some(Shape::RegAddr),
            1 | 28 | 29 => Some(Shape::RegImm),
            17 => Some(Shape::Imm),
            _ => None,
        }
    }

    /// Number of operand bytes that come before the literal, or in all where
    /// the shape has no literal.
    pub open spec fn spec_fixed(self) -> usize {
        match self {
            Shape::Plain | Shape::Imm => 0,
            Shape::Reg | Shape::RegImm => 1,
            Shape::RegReg => 2,
            Shape::Addr | Shape::AddrImm => 4,
            Shape::AddrReg | Shape::RegAddr => 5,
        }
    }

    /// Whether the last operand is a literal.
    pub open spec fn spec_has_literal(self) -> bool {
        self == Shape::AddrImm || self == Shape::RegImm || self == Shape::Imm
    }

    #[verifier::when_used_as_spec(spec_of)]
    pub fn of(opcode: u8) -> (shape: Option<Shape>)
        ensures
            shape == Shape::spec_of(opcode),
    {
        match opcode {
            0 | 21 | 22 => Some(Shape::Plain),
            3 | 4 | 5 | 7 | 18 | 19 | 20 | 23 | 24 => Some(Shape::Reg),
            2 | 6 | 13 | 14 | 15 | 16 | 25 | 26 | 27 => Some(Shape::RegReg),
            8 | 10 => Some(Shape::Addr),
            9 => Some(Shape::AddrImm),
            11 => Some(Shape::AddrReg),
            12 => Some(Shape::RegAddr),
            1 | 28 | 29 => Some(Shape::RegImm),
            17 => Some(Shape::Imm),
            _ => None,
        }
    }

    #[verifier::when_used_as_spec(spec_fixed)]
    pub fn fixed(self) -> (n: usize)
        ensures
            n == self.spec_fixed(),
    {
        match self {
            Shape::Plain | Shape::Imm => 0,
            Shape::Reg | Shape::RegImm => 1,
            Shape::RegReg => 2,
            Shape::Addr | Shape::AddrImm => 4,
            Shape::AddrReg | Shape::RegAddr => 5,
        }
    }

    #[verifier::when_used_as_spec(spec_has_literal)]
    pub fn has_literal(self) -> (b: bool)
        ensures
            b == self.spec_has_literal(),
    {
        match self {
            Shape::AddrImm | Shape::RegImm | Shape::Imm => true,
            _ => false,
        }
    }
}

impl Instruction {
    /// The byte that names the instruction in code.
    pub open spec fn spec_opcode(self) -> u8 {
        match self {
            Instruction::NOP() => 0,
            Instruction::MOV(_, _) => 1,
            Instruction::MOVR(_, _) => 2,
            Instruction::JMP(_) => 3,
            Instruction::JE(_) => 4,
            Instruction::JNE(_) => 5,
            Instruction::JG(_) => 23,
            Instruction::JL(_) => 24,
            Instruction::CMP(_, _) => 6,
            Instruction::PRINTR(_) => 7,
            Instruction::PRINTV(_) => 8,
            Instruction::VSTORE(_, _) => 9,
            Instruction::VLOAD(_) => 10,
            Instruction::VSTORER(_, _) => 11,
            Instruction::VLOADR(_, _) => 12,
            Instruction::ADD(_, _) => 13,
            Instruction::SUB(_, _) => 14,
            Instruction::MUL(_, _) => 15,
            Instruction::DIV(_, _) => 16,
            Instruction::AND(_, _) => 25,
            Instruction::OR(_, _) => 26,
            Instruction::XOR(_, _) => 27,
            Instruction::SHR(_, _) => 28,
            Instruction::SHL(_, _) => 29,
            Instruction::VPUSH(_) => 17,
            Instruction::VPUSHR(_) => 18,
            Instruction::VPOP(_) => 19,
            Instruction::CALL(_) => 20,
            Instruction::RET() => 21,
            Instruction::HALT() => 22,
        }
    }

    /// The operands of the instruction.
    pub open spec fn spec_operands(self) -> Operands {
        match self {
            Instruction::NOP() => Operands { first: 0, second: 0, address: 0, literal: Immediate::Empty() },
            Instruction::MOV(r, v) => Operands { first: r, second: 0, address: 0, literal: v },
            Instruction::MOVR(r, s) => Operands { first: r, second: s, address: 0, literal: Immediate::Empty() },
            Instruction::JMP(r) => Operands { first: r, second: 0, address: 0, literal: Immediate::Empty() },
            Instruction::JE(r) => Operands { first: r, second: 0, address: 0, literal: Immediate::Empty() },
            Instruction::JNE(r) => Operands { first: r, second: 0, address: 0, literal: Immediate::Empty() },
            Instruction::JG(r) => Operands { first: r, second: 0, address: 0, literal: Immediate::Empty() },
            Instruction::JL(r) => Operands { first: r, second: 0, address: 0, literal: Immediate::Empty() },
            Instruction::CMP(r, s) => Operands { first: r, second: s, address: 0, literal: Immediate::Empty() },
            Instruction::PRINTR(r) => Operands { first: r, second: 0, address: 0, literal: Immediate::Empty() },
            Instruction::PRINTV(a) => Operands { first: 0, second: 0, address: a, literal: Immediate::Empty() },
            Instruction::VSTORE(a, v) => Operands { first: 0, second: 0, address: a, literal: v },
            Instruction::VLOAD(a) => Operands { first: 0, second: 0, address: a, literal: Immediate::Empty() },
            Instruction::VSTORER(a, r) => Operands { first: r, second: 0, address: a, literal: Immediate::Empty() },
            Instruction::VLOADR(r, a) => Operands { first: r, second: 0, address: a, literal: Immediate::Empty() },
            Instruction::ADD(r, s) => Operands { first: r, second: s, address: 0, literal: Immediate::Empty() },
            Instruction::SUB(r, s) => Operands { first: r, second: s, address: 0, literal: Immediate::Empty() },
            Instruction::MUL(r, s) => Operands { first: r, second: s, address: 0, literal: Immediate::Empty() },
            Instruction::DIV(r, s) => Operands { first: r, second: s, address: 0, literal: Immediate::Empty() },
            Instruction::AND(r, s) => Operands { first: r, second: s, address: 0, literal: Immediate::Empty() },
            Instruction::OR(r, s) => Operands { first: r, second: s, address: 0, literal: Immediate::Empty() },
            Instruction::XOR(r, s) => Operands { first: r, second: s, address: 0, literal: Immediate::Empty() },
            Instruction::SHR(r, v) => Operands { first: r, second: 0, address: 0, literal: v },
            Instruction::SHL(r, v) => Operands { first: r, second: 0, address: 0, literal: v },
            Instruction::VPUSH(v) => Operands { first: 0, second: 0, address: 0, literal: v },
            Instruction::VPUSHR(r) => Operands { first: r, second: 0, address: 0, literal: Immediate::Empty() },
            Instruction::VPOP(r) => Operands { first: r, second: 0, address: 0, literal: Immediate::Empty() },
            Instruction::CALL(r) => Operands { first: r, second: 0, address: 0, literal: Immediate::Empty() },
            Instruction::RET() => Operands { first: 0, second: 0, address: 0, literal: Immediate::Empty() },
            Instruction::HALT() => Operands { first: 0, second: 0, address: 0, literal: Immediate::Empty() },
        }
    }

    /// The instruction that an opcode names, with its operands taken from
    /// `ops`, if the opcode names one.
    pub open spec fn spec_assemble(opcode: u8, ops: Operands) -> Option<Instruction> {
        match opcode {
            0 => Some(Instruction::NOP()),
            1 => Some(Instruction::MOV(ops.first, ops.literal)),
            2 => Some(Instruction::MOVR(ops.first, ops.second)),
            3 => Some(Instruction::JMP(ops.first)),
            4 => Some(Instruction::JE(ops.first)),
            5 => Some(Instruction::JNE(ops.first)),
            6 => Some(Instruction::CMP(ops.first, ops.second)),
            7 => Some(Instruction::PRINTR(ops.first)),
            8 => Some(Instruction::PRINTV(ops.address)),
            9 => Some(Instruction::VSTORE(ops.address, ops.literal)),
            10 => Some(Instruction::VLOAD(ops.address)),
            11 => Some(Instruction::VSTORER(ops.address, ops.first)),
            12 => Some(Instruction::VLOADR(ops.first, ops.address)),
            13 => Some(Instruction::ADD(ops.first, ops.second)),
            14 => Some(Instruction::SUB(ops.first, ops.second)),
            15 => Some(Instruction::MUL(ops.first, ops.second)),
            16 => Some(Instruction::DIV(ops.first, ops.second)),
            17 => Some(Instruction::VPUSH(ops.literal)),
            18 => Some(Instruction::VPUSHR(ops.first)),
            19 => Some(Instruction::VPOP(ops.first)),
            20 => Some(Instruction::CALL(ops.first)),
            21 => Some(Instruction::RET()),
            22 => Some(Instruction::HALT()),
            23 => Some(Instruction::JG(ops.first)),
            24 => Some(Instruction::JL(ops.first)),
            25 => Some(Instruction::AND(ops.first, ops.second)),
            26 => Some(Instruction::OR(ops.first, ops.second)),
            27 => Some(Instruction::XOR(ops.first, ops.second)),
            28 => Some(Instruction::SHR(ops.first, ops.literal)),
            29 => Some(Instruction::SHL(ops.first, ops.literal)),
            _ => None,
        }
    }

    /// The shape of the instruction's operands.
    pub open spec fn spec_shape(self) -> Shape {
        match self {
            Instruction::NOP() => Shape::Plain,
            Instruction::MOV(_, _) => Shape::RegImm,
            Instruction::MOVR(_, _) => Shape::RegReg,
            Instruction::JMP(_) => Shape::Reg,
            Instruction::JE(_) => Shape::Reg,
            Instruction::JNE(_) => Shape::Reg,
            Instruction::JG(_) => Shape::Reg,
            Instruction::JL(_) => Shape::Reg,
            Instruction::CMP(_, _) => Shape::RegReg,
            Instruction::PRINTR(_) => Shape::Reg,
            Instruction::PRINTV(_) => Shape::Addr,
            Instruction::VSTORE(_, _) => Shape::AddrImm,
            Instruction::VLOAD(_) => Shape::Addr,
            Instruction::VSTORER(_, _) => Shape::AddrReg,
            Instruction::VLOADR(_, _) => Shape::RegAddr,
            Instruction::ADD(_, _) => Shape::RegReg,
            Instruction::SUB(_, _) => Shape::RegReg,
            Instruction::MUL(_, _) => Shape::RegReg,
            Instruction::DIV(_, _) => Shape::RegReg,
            Instruction::AND(_, _) => Shape::RegReg,
            Instruction::OR(_, _) => Shape::RegReg,
            Instruction::XOR(_, _) => Shape::RegReg,
            Instruction::SHR(_, _) => Shape::RegImm,
            Instruction::SHL(_, _) => Shape::RegImm,
            Instruction::VPUSH(_) => Shape::Imm,
            Instruction::VPUSHR(_) => Shape::Reg,
            Instruction::VPOP(_) => Shape::Reg,
            Instruction::CALL(_) => Shape::Reg,
            Instruction::RET() => Shape::Plain,
            Instruction::HALT() => Shape::Plain,
        }
    }

    /// Number of bytes that the instruction occupies in code.
    pub open spec fn spec_width(self) -> usize {
        let shape = self.spec_shape();
        if shape.spec_has_literal() {
            (2 + shape.spec_fixed() + self.spec_operands().literal.kind().spec_width()) as usize
        } else {
            (1 + shape.spec_fixed()) as usize
        }
    }

    #[verifier::when_used_as_spec(spec_opcode)]
    pub fn opcode(self) -> (opcode: u8)
        ensures
            opcode == self.spec_opcode(),
    {
        match self {
            Instruction::NOP() => 0,
            Instruction::MOV(_, _) => 1,
            Instruction::MOVR(_, _) => 2,
            Instruction::JMP(_) => 3,
            Instruction::JE(_) => 4,
            Instruction::JNE(_) => 5,
            Instruction::JG(_) => 23,
            Instruction::JL(_) => 24,
            Instruction::CMP(_, _) => 6,
            Instruction::PRINTR(_) => 7,
            Instruction::PRINTV(_) => 8,
            Instruction::VSTORE(_, _) => 9,
            Instruction::VLOAD(_) => 10,
            Instruction::VSTORER(_, _) => 11,
            Instruction::VLOADR(_, _) => 12,
            Instruction::ADD(_, _) => 13,
            Instruction::SUB(_, _) => 14,
            Instruction::MUL(_, _) => 15,
            Instruction::DIV(_, _) => 16,
            Instruction::AND(_, _) => 25,
            Instruction::OR(_, _) => 26,
            Instruction::XOR(_, _) => 27,
            Instruction::SHR(_, _) => 28,
            Instruction::SHL(_, _) => 29,
            Instruction::VPUSH(_) => 17,
            Instruction::VPUSHR(_) => 18,
            Instruction::VPOP(_) => 19,
            Instruction::CALL(_) => 20,
            Instruction::RET() => 21,
            Instruction::HALT() => 22,
        }
    }

    #[verifier::when_used_as_spec(spec_operands)]
    pub fn operands(self) -> (ops: Operands)
        ensures
            ops == self.spec_operands(),
    {
        match self {
            Instruction::NOP() => Operands { first: 0, second: 0, address: 0, literal: Immediate::Empty() },
            Instruction::MOV(r, v) => Operands { first: r, second: 0, address: 0, literal: v },
            Instruction::MOVR(r, s) => Operands { first: r, second: s, address: 0, literal: Immediate::Empty() },
            Instruction::JMP(r) => Operands { first: r, second: 0, address: 0, literal: Immediate::Empty() },
            Instruction::JE(r) => Operands { first: r, second: 0, address: 0, literal: Immediate::Empty() },
            Instruction::JNE(r) => Operands { first: r, second: 0, address: 0, literal: Immediate::Empty() },
            Instruction::JG(r) => Operands { first: r, second: 0, address: 0, literal: Immediate::Empty() },
            Instruction::JL(r) => Operands { first: r, second: 0, address: 0, literal: Immediate::Empty() },
            Instruction::CMP(r, s) => Operands { first: r, second: s, address: 0, literal: Immediate::Empty() },
            Instruction::PRINTR(r) => Operands { first: r, second: 0, address: 0, literal: Immediate::Empty() },
            Instruction::PRINTV(a) => Operands { first: 0, second: 0, address: a, literal: Immediate::Empty() },
            Instruction::VSTORE(a, v) => Operands { first: 0, second: 0, address: a, literal: v },
            Instruction::VLOAD(a) => Operands { first: 0, second: 0, address: a, literal: Immediate::Empty() },
            Instruction::VSTORER(a, r) => Operands { first: r, second: 0, address: a, literal: Immediate::Empty() },
            Instruction::VLOADR(r, a) => Operands { first: r, second: 0, address: a, literal: Immediate::Empty() },
            Instruction::ADD(r, s) => Operands { first: r, second: s, address: 0, literal: Immediate::Empty() },
            Instruction::SUB(r, s) => Operands { first: r, second: s, address: 0, literal: Immediate::Empty() },
            Instruction::MUL(r, s) => Operands { first: r, second: s, address: 0, literal: Immediate::Empty() },
            Instruction::DIV(r, s) => Operands { first: r, second: s, address: 0, literal: Immediate::Empty() },
            Instruction::AND(r, s) => Operands { first: r, second: s, address: 0, literal: Immediate::Empty() },
            Instruction::OR(r, s) => Operands { first: r, second: s, address: 0, literal: Immediate::Empty() },
            Instruction::XOR(r, s) => Operands { first: r, second: s, address: 0, literal: Immediate::Empty() },
            Instruction::SHR(r, v) => Operands { first: r, second: 0, address: 0, literal: v },
            Instruction::SHL(r, v) => Operands { first: r, second: 0, address: 0, literal: v },
            Instruction::VPUSH(v) => Operands { first: 0, second: 0, address: 0, literal: v },
            Instruction::VPUSHR(r) => Operands { first: r, second: 0, address: 0, literal: Immediate::Empty() },
            Instruction::VPOP(r) => Operands { first: r, second: 0, address: 0, literal: Immediate::Empty() },
            Instruction::CALL(r) => Operands { first: r, second: 0, address: 0, literal: Immediate::Empty() },
            Instruction::RET() => Operands { first: 0, second: 0, address: 0, literal: Immediate::Empty() },
            Instruction::HALT() => Operands { first: 0, second: 0, address: 0, literal: Immediate::Empty() },
        }
    }

    #[verifier::when_used_as_spec(spec_assemble)]
    pub fn assemble(opcode: u8, ops: Operands) -> (inst: Option<Instruction>)
        ensures
            inst == Instruction::spec_assemble(opcode, ops),
    {
        match opcode {
            0 => Some(Instruction::NOP()),
            1 => Some(Instruction::MOV(ops.first, ops.literal)),
            2 => Some(Instruction::MOVR(ops.first, ops.second)),
            3 => Some(Instruction::JMP(ops.first)),
            4 => Some(Instruction::JE(ops.first)),
            5 => Some(Instruction::JNE(ops.first)),
            6 => Some(Instruction::CMP(ops.first, ops.second)),
            7 => Some(Instruction::PRINTR(ops.first)),
            8 => Some(Instruction::PRINTV(ops.address)),
            9 => Some(Instruction::VSTORE(ops.address, ops.literal)),
            10 => Some(Instruction::VLOAD(ops.address)),
            11 => Some(Instruction::VSTORER(ops.address, ops.first)),
            12 => Some(Instruction::VLOADR(ops.first, ops.address)),
            13 => Some(Instruction::ADD(ops.first, ops.second)),
            14 => Some(Instruction::SUB(ops.first, ops.second)),
            15 => Some(Instruction::MUL(ops.first, ops.second)),
            16 => Some(Instruction::DIV(ops.first, ops.second)),
            17 => Some(Instruction::VPUSH(ops.literal)),
            18 => Some(Instruction::VPUSHR(ops.first)),
            19 => Some(Instruction::VPOP(ops.first)),
            20 => Some(Instruction::CALL(ops.first)),
            21 => Some(Instruction::RET()),
            22 => Some(Instruction::HALT()),
            23 => Some(Instruction::JG(ops.first)),
            24 => Some(Instruction::JL(ops.first)),
            25 => Some(Instruction::AND(ops.first, ops.second)),
            26 => Some(Instruction::OR(ops.first, ops.second)),
            27 => Some(Instruction::XOR(ops.first, ops.second)),
            28 => Some(Instruction::SHR(ops.first, ops.literal)),
            29 => Some(Instruction::SHL(ops.first, ops.literal)),
            _ => None,
        }
    }

    #[verifier::when_used_as_spec(spec_shape)]
    pub fn shape(self) -> (shape: Shape)
        ensures
            shape == self.spec_shape(),
    {
        match self {
            Instruction::NOP() => Shape::Plain,
            Instruction::MOV(_, _) => Shape::RegImm,
            Instruction::MOVR(_, _) => Shape::RegReg,
            Instruction::JMP(_) => Shape::Reg,
            Instruction::JE(_) => Shape::Reg,
            Instruction::JNE(_) => Shape::Reg,
            Instruction::JG(_) => Shape::Reg,
            Instruction::JL(_) => Shape::Reg,
            Instruction::CMP(_, _) => Shape::RegReg,
            Instruction::PRINTR(_) => Shape::Reg,
            Instruction::PRINTV(_) => Shape::Addr,
            Instruction::VSTORE(_, _) => Shape::AddrImm,
            Instruction::VLOAD(_) => Shape::Addr,
            Instruction::VSTORER(_, _) => Shape::AddrReg,
            Instruction::VLOADR(_, _) => Shape::RegAddr,
            Instruction::ADD(_, _) => Shape::RegReg,
            Instruction::SUB(_, _) => Shape::RegReg,
            Instruction::MUL(_, _) => Shape::RegReg,
            Instruction::DIV(_, _) => Shape::RegReg,
            Instruction::AND(_, _) => Shape::RegReg,
            Instruction::OR(_, _) => Shape::RegReg,
            Instruction::XOR(_, _) => Shape::RegReg,
            Instruction::SHR(_, _) => Shape::RegImm,
            Instruction::SHL(_, _) => Shape::RegImm,
            Instruction::VPUSH(_) => Shape::Imm,
            Instruction::VPUSHR(_) => Shape::Reg,
            Instruction::VPOP(_) => Shape::Reg,
            Instruction::CALL(_) => Shape::Reg,
            Instruction::RET() => Shape::Plain,
            Instruction::HALT() => Shape::Plain,
        }
    }

    #[verifier::when_used_as_spec(spec_width)]
    pub fn width(self) -> (width: usize)
        ensures
            width == self.spec_width(),
    {
        let shape = self.shape();
        if shape.has_literal() {
            2 + shape.fixed() + self.operands().literal.kind().width()
        } else {
            1 + shape.fixed()
        }
    }

    /// The opcode table is consistent: an instruction's opcode announces the
    /// instruction's own shape, and names the instruction again when it is
    /// given the instruction's operands.
    pub proof fn lemma_opcode(self)
        ensures
            Shape::spec_of(self.spec_opcode()) == Some(self.spec_shape()),
            Instruction::spec_assemble(self.spec_opcode(), self.spec_operands()) == Some(self),
            1 <= self.spec_width() <= 14,
    {
    }
}

} // verus!
