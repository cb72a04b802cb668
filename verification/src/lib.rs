//! A small virtual machine with eight registers, an operand stack and a
//! fixed-size heap, interpreting a compact binary instruction set.
//!
//! Every function of the engine carries a contract over a mathematical model
//! of the machine, and the contracts are machine-checked.
//!
//! - [`value`]: tagged values, the currency of registers, stack and heap.
//! - [`alu`]: what the two-operand instructions compute.
//! - [`instruction`]: the instruction set and its opcode table.
//! - [`codec`]: how instructions are written as bytes and read back.
//! - [`machine`]: the model of the machine, cycle by cycle.
//! - [`vm`]: the executable machine, held to the model.
//! - [`laws`]: what holds of every machine.
//! - [`text`]: how emitted values read.
//!
//! # Choices
//!
//! - Integer arithmetic wraps, for every integer kind alike; nothing
//!   saturates. A quotient is rounded toward zero.
//! - Operands of different kinds are never converted: they are a
//!   `TypeMismatch`. The empty kind takes part in no operation.
//! - A shift moves by its second operand modulo the bit count of the kind,
//!   and its result goes onto the stack, like that of every other operation.
//! - `JL` jumps where the last comparison found neither "greater" nor "equal".
//! - A fault changes nothing: the machine stops as it was before the
//!   instruction, with the pointer at that instruction.
//! - A run is one-shot: [`VM::cpu`] starts an idle machine and does nothing on
//!   any other. A machine that a limit has cut off goes on by
//!   [`VM::advance`], cycle by cycle by [`VM::step`].
//! - The floating-point kinds are stored and moved as bit patterns. Their
//!   arithmetic and their text are the host's: the machine waits for the
//!   host's answer, and takes it by [`VM::resume`].
pub mod alu;
pub mod codec;
pub mod error;
pub mod instruction;
pub mod laws;
pub mod machine;
pub mod text;
pub mod value;
pub mod vm;

pub use alu::{alu, compare, AluOp};
pub use codec::decode;
pub use error::{DecodeError, ExecutionError, Fault};
pub use instruction::{Address, Instruction, Operands, Register, Shape};
pub use machine::{FloatAnswer, FloatOp, FloatRequest, Machine, Outcome, Status};
pub use value::{Immediate, Kind};
pub use vm::VM;
