//! What can go wrong while a program runs.
use vstd::prelude::*;

verus! {

/// Why the bytes at the instruction pointer are no instruction.
#[derive(Clone, Copy, Debug, PartialEq, Eq, Structural)]
pub enum DecodeError {
    /// The opcode byte, or the kind byte of a literal, names nothing.
    InvalidOpcode,
    /// The code ends before the instruction does.
    TruncatedInstruction,
}

/// Why an instruction could not be carried out.
#[derive(Clone, Copy, Debug, PartialEq, Eq, Structural)]
pub enum ExecutionError {
    /// A register operand is not one of the eight registers.
    InvalidRegister,
    /// A heap address lies at or beyond the heap's size.
    OutOfBounds,
    /// A value was taken from an empty stack.
    StackUnderflow,
    /// The operands are of different kinds, or of a kind the operation is not
    /// defined on.
    TypeMismatch,
    /// An integer was divided by zero.
    DivisionByZero,
    /// The value to jump to is no offset into the code.
    InvalidJumpTarget,
}

/// The error that stopped a machine.
#[derive(Clone, Copy, Debug, PartialEq, Eq, Structural)]
pub enum Fault {
    Decode(DecodeError),
    Execution(ExecutionError),
}

} // verus!
