//! The mathematical model of the machine: its state, what one instruction does
//! to it, and how a run proceeds from cycle to cycle.
//!
//! Everything here is ghost code. The executable engine is held to it.
//!
//! Two things the engine leaves to its host. What `PRINTR` and `PRINTV` emit
//! is appended to the machine's output, for the host to write. And arithmetic
//! on the floating-point kinds is not done here: an `ADD`, `SUB`, `MUL`, `DIV`
//! or `CMP` whose registers hold two values of one floating-point kind is
//! deferred to the host, which answers with the result.
use crate::alu::{alu_spec, compare_spec, AluOp};
use crate::codec::decode_spec;
use crate::error::{ExecutionError, Fault};
use crate::instruction::{Address, Instruction, Register, REGISTERS};
use crate::value::Immediate;
use vstd::prelude::*;

verus! {

/// The floating-point operations that the engine leaves to its host.
#[derive(Clone, Copy, Debug, PartialEq, Eq, Structural)]
pub enum FloatOp {
    Add,
    Sub,
    Mul,
    Div,
    Compare,
}

/// What the host is asked to compute: `left op right`, on two values of one
/// floating-point kind.
#[derive(Clone, Copy, Debug, PartialEq, Eq, Structural)]
pub struct FloatRequest {
    pub op: FloatOp,
    pub left: Immediate,
    pub right: Immediate,
}

/// The host's answer to a [`FloatRequest`]: the number that an arithmetic
/// operation yields, or how a comparison came out.
#[derive(Clone, Copy, Debug, PartialEq, Eq, Structural)]
pub enum FloatAnswer {
    Number(Immediate),
    Order { equal: bool, greater: bool },
}

/// How one instruction ended.
#[derive(Clone, Copy, Debug, PartialEq, Eq, Structural)]
pub enum Outcome {
    /// Go on with the next instruction.
    Continue,
    /// Go on at the given offset.
    Jump(Address),
    /// Stop.
    Halt,
    /// Stop with an error. The machine is as it was before the instruction.
    Fault(ExecutionError),
    /// The instruction needs floating-point arithmetic. The machine is as it
    /// was before the instruction.
    Defer(FloatRequest),
}

/// Where a machine stands in its life.
#[derive(Clone, Copy, Debug, PartialEq, Eq, Structural)]
pub enum Status {
    /// Built, not yet started.
    Idle,
    /// Started, and not stopped.
    Running,
    /// Stopped by `HALT` or by reaching the end of the code.
    Halted,
    /// Stopped by an error.
    Faulted(Fault),
    /// Waiting for the host's answer to a request.
    Awaiting(FloatRequest),
}

/// The state of a machine.
pub struct Machine {
    pub code: Seq<u8>,
    pub ip: nat,
    pub flag_eq: bool,
    pub flag_gt: bool,
    pub registers: Seq<Immediate>,
    pub stack: Seq<Immediate>,
    pub heap: Seq<Immediate>,
    pub output: Seq<Immediate>,
    pub status: Status,
}

/// The floating-point operation that an instruction stands for when its
/// registers hold floating-point values.
pub open spec fn float_op(inst: Instruction) -> Option<FloatOp> {
    match inst {
        Instruction::ADD(_, _) => Some(FloatOp::Add),
        Instruction::SUB(_, _) => Some(FloatOp::Sub),
        Instruction::MUL(_, _) => Some(FloatOp::Mul),
        Instruction::DIV(_, _) => Some(FloatOp::Div),
        Instruction::CMP(_, _) => Some(FloatOp::Compare),
        _ => None,
    }
}

/// The offset that a value names: its payload, where the value is of an
/// integer kind and the payload is no offset beyond `limit`.
pub open spec fn offset_of(v: Immediate, limit: nat) -> Option<Address> {
    if v.kind().spec_is_integer() && 0 <= v.payload() <= limit {
        Some(v.payload() as usize)
    } else {
        None
    }
}

impl Machine {
    /// A machine has eight registers, and code that fits in memory.
    pub open spec fn wf(self) -> bool {
        self.registers.len() == REGISTERS && self.code.len() <= usize::MAX
    }

    /// The machine after `v` was pushed onto its stack.
    pub open spec fn push(self, v: Immediate) -> Machine {
        Machine { stack: self.stack.push(v), ..self }
    }

    /// The machine after `v` was written to register `r`.
    pub open spec fn set_register(self, r: Register, v: Immediate) -> Machine {
        Machine { registers: self.registers.update(r as int, v), ..self }
    }

    /// The machine after `v` was written to heap cell `a`.
    pub open spec fn store(self, a: Address, v: Immediate) -> Machine {
        Machine { heap: self.heap.update(a as int, v), ..self }
    }

    /// The machine after `v` was emitted.
    pub open spec fn emit(self, v: Immediate) -> Machine {
        Machine { output: self.output.push(v), ..self }
    }

    /// The machine unchanged, and the fault.
    pub open spec fn fault(self, e: ExecutionError) -> (Machine, Outcome) {
        (self, Outcome::Fault(e))
    }

    /// A jump through register `r` that is taken where `taken` holds. The
    /// register's value is looked at only where the jump is taken.
    pub open spec fn jump(self, r: Register, taken: bool) -> (Machine, Outcome) {
        if r >= REGISTERS {
            self.fault(ExecutionError::InvalidRegister)
        } else if !taken {
            (self, Outcome::Continue)
        } else {
            match offset_of(self.registers[r as int], self.code.len()) {
                Some(target) => (self, Outcome::Jump(target)),
                None => self.fault(ExecutionError::InvalidJumpTarget),
            }
        }
    }

    /// An operation of the arithmetic and logic unit on a register and a
    /// second value; the result goes onto the stack.
    pub open spec fn compute(self, op: AluOp, r: Register, second: Immediate) -> (
        Machine,
        Outcome,
    ) {
        if r >= REGISTERS {
            self.fault(ExecutionError::InvalidRegister)
        } else {
            match alu_spec(op, self.registers[r as int], second) {
                Ok(v) => (self.push(v), Outcome::Continue),
                Err(e) => self.fault(e),
            }
        }
    }

    /// An operation of the arithmetic and logic unit on two registers.
    pub open spec fn compute_registers(self, op: AluOp, r: Register, s: Register) -> (
        Machine,
        Outcome,
    ) {
        if s >= REGISTERS {
            self.fault(ExecutionError::InvalidRegister)
        } else {
            self.compute(op, r, self.registers[s as int])
        }
    }

    /// What an instruction does where no floating-point arithmetic is asked
    /// for.
    ///
    /// A heap address is checked before a register index, and the stack before
    /// the register that a popped value goes to; a register index is checked
    /// before what the register holds.
    pub open spec fn perform(self, inst: Instruction) -> (Machine, Outcome) {
        match inst {
            Instruction::NOP() => (self, Outcome::Continue),
            Instruction::MOV(r, v) => if r < REGISTERS {
                (self.set_register(r, v), Outcome::Continue)
            } else {
                self.fault(ExecutionError::InvalidRegister)
            },
            Instruction::MOVR(r, s) => if r < REGISTERS && s < REGISTERS {
                (self.set_register(r, self.registers[s as int]), Outcome::Continue)
            } else {
                self.fault(ExecutionError::InvalidRegister)
            },
            Instruction::JMP(r) => self.jump(r, true),
            Instruction::JE(r) => self.jump(r, self.flag_eq),
            Instruction::JNE(r) => self.jump(r, !self.flag_eq),
            Instruction::JG(r) => self.jump(r, self.flag_gt),
            Instruction::JL(r) => self.jump(r, !self.flag_gt && !self.flag_eq),
            Instruction::CMP(r, s) => if r < REGISTERS && s < REGISTERS {
                match compare_spec(self.registers[r as int], self.registers[s as int]) {
                    Ok((equal, greater)) => (
                        Machine { flag_eq: equal, flag_gt: greater, ..self },
                        Outcome::Continue,
                    ),
                    Err(e) => self.fault(e),
                }
            } else {
                self.fault(ExecutionError::InvalidRegister)
            },
            Instruction::PRINTR(r) => if r < REGISTERS {
                (self.emit(self.registers[r as int]), Outcome::Continue)
            } else {
                self.fault(ExecutionError::InvalidRegister)
            },
            Instruction::PRINTV(a) => if a < self.heap.len() {
                (self.emit(self.heap[a as int]), Outcome::Continue)
            } else {
                self.fault(ExecutionError::OutOfBounds)
            },
            Instruction::VSTORE(a, v) => if a < self.heap.len() {
                (self.store(a, v), Outcome::Continue)
            } else {
                self.fault(ExecutionError::OutOfBounds)
            },
            Instruction::VLOAD(a) => if a < self.heap.len() {
                (self.push(self.heap[a as int]), Outcome::Continue)
            } else {
                self.fault(ExecutionError::OutOfBounds)
            },
            Instruction::VSTORER(a, r) => if a >= self.heap.len() {
                self.fault(ExecutionError::OutOfBounds)
            } else if r >= REGISTERS {
                self.fault(ExecutionError::InvalidRegister)
            } else {
                (self.store(a, self.registers[r as int]), Outcome::Continue)
            },
            Instruction::VLOADR(r, a) => if a >= self.heap.len() {
                self.fault(ExecutionError::OutOfBounds)
            } else if r >= REGISTERS {
                self.fault(ExecutionError::InvalidRegister)
            } else {
                (self.set_register(r, self.heap[a as int]), Outcome::Continue)
            },
            Instruction::ADD(r, s) => self.compute_registers(AluOp::Add, r, s),
            Instruction::SUB(r, s) => self.compute_registers(AluOp::Sub, r, s),
            Instruction::MUL(r, s) => self.compute_registers(AluOp::Mul, r, s),
            Instruction::DIV(r, s) => self.compute_registers(AluOp::Div, r, s),
            Instruction::AND(r, s) => self.compute_registers(AluOp::And, r, s),
            Instruction::OR(r, s) => self.compute_registers(AluOp::Or, r, s),
            Instruction::XOR(r, s) => self.compute_registers(AluOp::Xor, r, s),
            Instruction::SHR(r, v) => self.compute(AluOp::Shr, r, v),
            Instruction::SHL(r, v) => self.compute(AluOp::Shl, r, v),
            Instruction::VPUSH(v) => (self.push(v), Outcome::Continue),
            Instruction::VPUSHR(r) => if r < REGISTERS {
                (self.push(self.registers[r as int]), Outcome::Continue)
            } else {
                self.fault(ExecutionError::InvalidRegister)
            },
            Instruction::VPOP(r) => if self.stack.len() == 0 {
                self.fault(ExecutionError::StackUnderflow)
            } else if r >= REGISTERS {
                self.fault(ExecutionError::InvalidRegister)
            } else {
                (
                    Machine {
                        registers: self.registers.update(r as int, self.stack.last()),
                        stack: self.stack.drop_last(),
                        ..self
                    },
                    Outcome::Continue,
                )
            },
            Instruction::CALL(r) => if r >= REGISTERS {
                self.fault(ExecutionError::InvalidRegister)
            } else {
                match offset_of(self.registers[r as int], self.code.len()) {
                    None => self.fault(ExecutionError::InvalidJumpTarget),
                    Some(target) => if self.ip + inst.spec_width() > self.code.len() {
                        self.fault(ExecutionError::InvalidJumpTarget)
                    } else {
                        (
                            self.push(Immediate::U64((self.ip + inst.spec_width()) as u64)),
                            Outcome::Jump(target),
                        )
                    },
                }
            },
            Instruction::RET() => if self.stack.len() == 0 {
                self.fault(ExecutionError::StackUnderflow)
            } else {
                match offset_of(self.stack.last(), self.code.len()) {
                    None => self.fault(ExecutionError::InvalidJumpTarget),
                    Some(target) => (
                        Machine { stack: self.stack.drop_last(), ..self },
                        Outcome::Jump(target),
                    ),
                }
            },
            Instruction::HALT() => (self, Outcome::Halt),
        }
    }

    /// The floating-point arithmetic that an instruction asks for: `ADD`,
    /// `SUB`, `MUL`, `DIV` and `CMP` ask for it where both registers exist
    /// and hold values of one floating-point kind.
    pub open spec fn float_request(self, inst: Instruction) -> Option<FloatRequest> {
        let ops = inst.spec_operands();
        match float_op(inst) {
            Some(op) => if ops.first < REGISTERS && ops.second < REGISTERS
                && self.registers[ops.first as int].kind().spec_is_float()
                && self.registers[ops.second as int].kind()
                == self.registers[ops.first as int].kind() {
                Some(
                    FloatRequest {
                        op,
                        left: self.registers[ops.first as int],
                        right: self.registers[ops.second as int],
                    },
                )
            } else {
                None
            },
            None => None,
        }
    }

    /// What an instruction does once the host has answered its request. A
    /// comparison takes its flags from the answer; an arithmetic operation
    /// pushes the answer's number, which must be of the operands' kind. An
    /// answer of the wrong form is a `TypeMismatch`.
    pub open spec fn answered(self, request: FloatRequest, answer: FloatAnswer) -> (
        Machine,
        Outcome,
    ) {
        match answer {
            FloatAnswer::Order { equal, greater } => if request.op == FloatOp::Compare {
                (Machine { flag_eq: equal, flag_gt: greater, ..self }, Outcome::Continue)
            } else {
                self.fault(ExecutionError::TypeMismatch)
            },
            FloatAnswer::Number(v) => if request.op != FloatOp::Compare && v.kind()
                == request.left.kind() {
                (self.push(v), Outcome::Continue)
            } else {
                self.fault(ExecutionError::TypeMismatch)
            },
        }
    }

    /// What an instruction does to the machine, and how it ends.
    ///
    /// `answer` is the host's answer to the instruction's floating-point
    /// request, if the host has given one; without it such an instruction is
    /// deferred. An instruction that asks for nothing ignores it.
    pub open spec fn transition(self, inst: Instruction, answer: Option<FloatAnswer>) -> (
        Machine,
        Outcome,
    ) {
        match self.float_request(inst) {
            Some(request) => match answer {
                Some(a) => self.answered(request, a),
                None => (self, Outcome::Defer(request)),
            },
            None => self.perform(inst),
        }
    }

    /// One cycle of a running machine: read the instruction at the
    /// instruction pointer, carry it out, and move the pointer.
    ///
    /// At the end of the code the machine halts. An instruction that cannot
    /// be read or carried out leaves the machine faulted, with the pointer at
    /// that instruction.
    pub open spec fn cycle(self, answer: Option<FloatAnswer>) -> Machine {
        if self.ip >= self.code.len() {
            Machine { status: Status::Halted, ..self }
        } else {
            match decode_spec(self.code, self.ip as int) {
                Err(e) => Machine { status: Status::Faulted(Fault::Decode(e)), ..self },
                Ok(inst) => {
                    let (next, outcome) = self.transition(inst, answer);
                    match outcome {
                        Outcome::Continue => Machine {
                            ip: self.ip + inst.spec_width() as nat,
                            ..next
                        },
                        Outcome::Jump(target) => Machine { ip: target as nat, ..next },
                        Outcome::Halt => Machine { status: Status::Halted, ..next },
                        Outcome::Fault(e) => Machine {
                            status: Status::Faulted(Fault::Execution(e)),
                            ..next
                        },
                        Outcome::Defer(request) => Machine {
                            status: Status::Awaiting(request),
                            ..next
                        },
                    }
                },
            }
        }
    }

    /// One step: a cycle if the machine is running, nothing otherwise.
    pub open spec fn step(self) -> Machine {
        if self.status == Status::Running {
            self.cycle(None)
        } else {
            self
        }
    }

    /// At most `fuel` steps.
    pub open spec fn run(self, fuel: nat) -> Machine
        decreases fuel,
    {
        if fuel == 0 {
            self
        } else {
            self.step().run((fuel - 1) as nat)
        }
    }

    /// The machine set running, if it was idle.
    pub open spec fn start(self) -> Machine {
        if self.status == Status::Idle {
            Machine { status: Status::Running, ..self }
        } else {
            self
        }
    }

    /// The machine after the host answered: if it was waiting, the cycle that
    /// was deferred, now with the answer.
    pub open spec fn resume(self, answer: FloatAnswer) -> Machine {
        match self.status {
            Status::Awaiting(_) => Machine { status: Status::Running, ..self }.cycle(
                Some(answer),
            ),
            _ => self,
        }
    }
}

} // verus!
