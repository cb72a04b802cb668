//! The executable machine.
//!
//! A [`VM`] is built from code and a heap size, and run by [`VM::cpu`]. Each
//! of its functions is held to the model in [`crate::machine`]: the view of a
//! `VM` is a [`Machine`], and a function's contract says which `Machine` the
//! call leaves behind.
use crate::alu::{alu, compare, AluOp};
use crate::codec::{decode, decode_spec};
use crate::error::{DecodeError, ExecutionError, Fault};
use crate::instruction::{Address, Instruction, Register, REGISTERS};
use crate::machine::{
    float_op, offset_of, FloatAnswer, FloatOp, FloatRequest, Machine, Outcome, Status,
};
use crate::value::Immediate;
use vstd::prelude::*;

verus! {

/// A machine: code, an instruction pointer, two flags, eight registers, an
/// operand stack, a heap of fixed size, and what the program has emitted.
pub struct VM {
    stack: Vec<Immediate>,
    data: Vec<Immediate>,
    code: Vec<u8>,
    ip: Address,
    flag_eq: bool,
    flag_gt: bool,
    registers: [Immediate; 8],
    status: Status,
    output: Vec<Immediate>,
}

impl View for VM {
    type V = Machine;

    closed spec fn view(&self) -> Machine {
        Machine {
            code: self.code@,
            ip: self.ip as nat,
            flag_eq: self.flag_eq,
            flag_gt: self.flag_gt,
            registers: self.registers@,
            stack: self.stack@,
            heap: self.data@,
            output: self.output@,
            status: self.status,
        }
    }
}

/// The state of a machine that was built and not yet started: the pointer at
/// the first byte, the flags down, every register and heap cell an unsigned
/// byte of zero, stack and output empty.
pub open spec fn initial(code: Seq<u8>, heap_size: nat) -> Machine {
    Machine {
        code,
        ip: 0,
        flag_eq: false,
        flag_gt: false,
        registers: Seq::new(REGISTERS as nat, |i: int| Immediate::U8(0)),
        stack: Seq::empty(),
        heap: Seq::new(heap_size, |i: int| Immediate::U8(0)),
        output: Seq::empty(),
        status: Status::Idle,
    }
}

/// The offset that a value names, if it names one up to `limit`.
fn offset(v: Immediate, limit: usize) -> (r: Option<Address>)
    ensures
        r == offset_of(v, limit as nat),
{
    let n: u64 = match v {
        Immediate::U8(x) => x as u64,
        Immediate::U16(x) => x as u64,
        Immediate::U32(x) => x as u64,
        Immediate::U64(x) => x,
        Immediate::I8(x) => if x < 0 {
            return None;
        } else {
            x as u64
        },
        Immediate::I16(x) => if x < 0 {
            return None;
        } else {
            x as u64
        },
        Immediate::I32(x) => if x < 0 {
            return None;
        } else {
            x as u64
        },
        Immediate::I64(x) => if x < 0 {
            return None;
        } else {
            x as u64
        },
        _ => {
            return None;
        },
    };
    if n <= limit as u64 {
        Some(n as usize)
    } else {
        None
    }
}

/// The floating-point operation that an instruction stands for.
fn float_operation(inst: Instruction) -> (r: Option<FloatOp>)
    ensures
        r == float_op(inst),
{
    match inst {
        Instruction::ADD(_, _) => Some(FloatOp::Add),
        Instruction::SUB(_, _) => Some(FloatOp::Sub),
        Instruction::MUL(_, _) => Some(FloatOp::Mul),
        Instruction::DIV(_, _) => Some(FloatOp::Div),
        Instruction::CMP(_, _) => Some(FloatOp::Compare),
        _ => None,
    }
}

impl VM {
    /// Builds a machine for the given code, with a heap of `heap_size` cells.
    pub fn new(code: Vec<u8>, heap_size: usize) -> (vm: VM)
        ensures
            vm@ == initial(code@, heap_size as nat),
    {
        let mut data: Vec<Immediate> = Vec::new();
        let mut i: usize = 0;
        while i < heap_size
            invariant
                i <= heap_size,
                data@ == Seq::new(i as nat, |k: int| Immediate::U8(0)),
            decreases heap_size - i,
        {
            data.push(Immediate::U8(0));
            i += 1;
            assert(data@ =~= Seq::new(i as nat, |k: int| Immediate::U8(0)));
        }
        let vm = VM {
            ip: 0,
            flag_eq: false,
            flag_gt: false,
            registers: [Immediate::U8(0);8],
            code,
            stack: Vec::new(),
            data,
            status: Status::Idle,
            output: Vec::new(),
        };
        assert(vm.registers@ =~= Seq::new(REGISTERS as nat, |i: int| Immediate::U8(0)));
        vm
    }

    /// The view of a machine is well formed.
    pub proof fn lemma_wf(&self)
        ensures
            self@.wf(),
    {
        vstd::std_specs::vec::axiom_spec_len(&self.code);
        vstd::array::array_len_matches_n(&self.registers);
    }

    fn fault(&self, e: ExecutionError) -> (out: Outcome)
        ensures
            (self@, out) == self@.fault(e),
    {
        Outcome::Fault(e)
    }

    fn push(&mut self, v: Immediate)
        ensures
            final(self)@ == old(self)@.push(v),
    {
        self.stack.push(v);
    }

    fn jump(&self, r: Register, taken: bool) -> (out: Outcome)
        ensures
            (self@, out) == self@.jump(r, taken),
    {
        if r >= REGISTERS {
            Outcome::Fault(ExecutionError::InvalidRegister)
        } else if !taken {
            Outcome::Continue
        } else {
            match offset(self.registers[r], self.code.len()) {
                Some(target) => Outcome::Jump(target),
                None => Outcome::Fault(ExecutionError::InvalidJumpTarget),
            }
        }
    }

    fn compute(&mut self, op: AluOp, r: Register, second: Immediate) -> (out: Outcome)
        ensures
            (final(self)@, out) == old(self)@.compute(op, r, second),
    {
        if r >= REGISTERS {
            Outcome::Fault(ExecutionError::InvalidRegister)
        } else {
            match alu(op, self.registers[r], second) {
                Ok(v) => {
                    self.stack.push(v);
                    Outcome::Continue
                },
                Err(e) => Outcome::Fault(e),
            }
        }
    }

    fn compute_registers(&mut self, op: AluOp, r: Register, s: Register) -> (out: Outcome)
        ensures
            (final(self)@, out) == old(self)@.compute_registers(op, r, s),
    {
        if s >= REGISTERS {
            Outcome::Fault(ExecutionError::InvalidRegister)
        } else {
            let second = self.registers[s];
            self.compute(op, r, second)
        }
    }

    fn perform(&mut self, inst: Instruction) -> (out: Outcome)
        ensures
            (final(self)@, out) == old(self)@.perform(inst),
    {
        match inst {
            Instruction::NOP() => Outcome::Continue,
            Instruction::MOV(r, v) => if r < REGISTERS {
                self.registers[r] = v;
                Outcome::Continue
            } else {
                Outcome::Fault(ExecutionError::InvalidRegister)
            },
            Instruction::MOVR(r, s) => if r < REGISTERS && s < REGISTERS {
                let v = self.registers[s];
                self.registers[r] = v;
                Outcome::Continue
            } else {
                Outcome::Fault(ExecutionError::InvalidRegister)
            },
            Instruction::JMP(r) => self.jump(r, true),
            Instruction::JE(r) => self.jump(r, self.flag_eq),
            Instruction::JNE(r) => self.jump(r, !self.flag_eq),
            Instruction::JG(r) => self.jump(r, self.flag_gt),
            Instruction::JL(r) => self.jump(r, !self.flag_gt && !self.flag_eq),
            Instruction::CMP(r, s) => if r < REGISTERS && s < REGISTERS {
                match compare(self.registers[r], self.registers[s]) {
                    Ok((equal, greater)) => {
                        self.flag_eq = equal;
                        self.flag_gt = greater;
                        Outcome::Continue
                    },
                    Err(e) => Outcome::Fault(e),
                }
            } else {
                Outcome::Fault(ExecutionError::InvalidRegister)
            },
            Instruction::PRINTR(r) => if r < REGISTERS {
                let v = self.registers[r];
                self.output.push(v);
                Outcome::Continue
            } else {
                Outcome::Fault(ExecutionError::InvalidRegister)
            },
            Instruction::PRINTV(a) => if a < self.data.len() {
                let v = self.data[a];
                self.output.push(v);
                Outcome::Continue
            } else {
                Outcome::Fault(ExecutionError::OutOfBounds)
            },
            Instruction::VSTORE(a, v) => if a < self.data.len() {
                self.data[a] = v;
                Outcome::Continue
            } else {
                Outcome::Fault(ExecutionError::OutOfBounds)
            },
            Instruction::VLOAD(a) => if a < self.data.len() {
                let v = self.data[a];
                self.stack.push(v);
                Outcome::Continue
            } else {
                Outcome::Fault(ExecutionError::OutOfBounds)
            },
            Instruction::VSTORER(a, r) => if a >= self.data.len() {
                Outcome::Fault(ExecutionError::OutOfBounds)
            } else if r >= REGISTERS {
                Outcome::Fault(ExecutionError::InvalidRegister)
            } else {
                let v = self.registers[r];
                self.data[a] = v;
                Outcome::Continue
            },
            Instruction::VLOADR(r, a) => if a >= self.data.len() {
                Outcome::Fault(ExecutionError::OutOfBounds)
            } else if r >= REGISTERS {
                Outcome::Fault(ExecutionError::InvalidRegister)
            } else {
                let v = self.data[a];
                self.registers[r] = v;
                Outcome::Continue
            },
            Instruction::ADD(r, s) => self.compute_registers(AluOp::Add, r, s),
            Instruction::SUB(r, s) => self.compute_registers(AluOp::Sub, r, s),
            Instruction::MUL(r, s) => self.compute_registers(AluOp::Mul, r, s),
            Instruction::DIV(r, s) => self.compute_registers(AluOp::Div, r, s),
            Instruction::AND(r, s) => self.compute_registers(AluOp::And, r, s),
            Instruction::OR(r, s) => self.compute_registers(AluOp::Or, r, s),
            Instruction::XOR(r, s) => self.compute_registers(AluOp::Xor, r, s),
            Instruction::SHR(r, v) => self.compute(AluOp::Shr, r, v),
            Instruction::SHL(r, v) => self.compute(AluOp::Shl, r, v),
            Instruction::VPUSH(v) => {
                self.stack.push(v);
                Outcome::Continue
            },
            Instruction::VPUSHR(r) => if r < REGISTERS {
                let v = self.registers[r];
                self.stack.push(v);
                Outcome::Continue
            } else {
                Outcome::Fault(ExecutionError::InvalidRegister)
            },
            Instruction::VPOP(r) => if self.stack.len() == 0 {
                Outcome::Fault(ExecutionError::StackUnderflow)
            } else if r >= REGISTERS {
                Outcome::Fault(ExecutionError::InvalidRegister)
            } else {
                match self.stack.pop() {
                    Some(v) => {
                        self.registers[r] = v;
                    },
                    None => {},
                }
                Outcome::Continue
            },
            Instruction::CALL(r) => if r >= REGISTERS {
                Outcome::Fault(ExecutionError::InvalidRegister)
            } else {
                match offset(self.registers[r], self.code.len()) {
                    None => Outcome::Fault(ExecutionError::InvalidJumpTarget),
                    Some(target) => {
                        let width = inst.width();
                        if self.ip > self.code.len() || self.code.len() - self.ip < width {
                            Outcome::Fault(ExecutionError::InvalidJumpTarget)
                        } else {
                            self.stack.push(Immediate::U64((self.ip + width) as u64));
                            Outcome::Jump(target)
                        }
                    },
                }
            },
            Instruction::RET() => if self.stack.len() == 0 {
                Outcome::Fault(ExecutionError::StackUnderflow)
            } else {
                match offset(self.stack[self.stack.len() - 1], self.code.len()) {
                    None => Outcome::Fault(ExecutionError::InvalidJumpTarget),
                    Some(target) => {
                        self.stack.pop();
                        Outcome::Jump(target)
                    },
                }
            },
            Instruction::HALT() => Outcome::Halt,
        }
    }

    /// The floating-point arithmetic that an instruction asks of the host in
    /// the machine's present state, if it asks for any.
    pub fn float_request(&self, inst: Instruction) -> (r: Option<FloatRequest>)
        ensures
            r == self@.float_request(inst),
    {
        let ops = inst.operands();
        match float_operation(inst) {
            Some(op) => {
                if ops.first < REGISTERS && ops.second < REGISTERS {
                    let left = self.registers[ops.first];
                    let right = self.registers[ops.second];
                    if left.kind().is_float() && right.kind() == left.kind() {
                        Some(FloatRequest { op, left, right })
                    } else {
                        None
                    }
                } else {
                    None
                }
            },
            None => None,
        }
    }

    fn answered(&mut self, request: FloatRequest, answer: FloatAnswer) -> (out: Outcome)
        ensures
            (final(self)@, out) == old(self)@.answered(request, answer),
    {
        match answer {
            FloatAnswer::Order { equal, greater } => if request.op == FloatOp::Compare {
                self.flag_eq = equal;
                self.flag_gt = greater;
                Outcome::Continue
            } else {
                Outcome::Fault(ExecutionError::TypeMismatch)
            },
            FloatAnswer::Number(v) => if request.op != FloatOp::Compare && v.kind()
                == request.left.kind() {
                self.stack.push(v);
                Outcome::Continue
            } else {
                Outcome::Fault(ExecutionError::TypeMismatch)
            },
        }
    }

    fn apply(&mut self, inst: Instruction, answer: Option<FloatAnswer>) -> (out: Outcome)
        ensures
            (final(self)@, out) == old(self)@.transition(inst, answer),
    {
        match self.float_request(inst) {
            Some(request) => match answer {
                Some(a) => self.answered(request, a),
                None => Outcome::Defer(request),
            },
            None => self.perform(inst),
        }
    }

    /// Reads the instruction at the instruction pointer, and says how many
    /// bytes it occupies.
    pub fn decode(&self) -> (r: Result<(Instruction, usize), DecodeError>)
        ensures
            match r {
                Ok((inst, width)) => decode_spec(self@.code, self@.ip as int) == Ok::<
                    Instruction,
                    DecodeError,
                >(inst) && width == inst.spec_width() && self@.ip + width <= self@.code.len(),
                Err(e) => decode_spec(self@.code, self@.ip as int) == Err::<
                    Instruction,
                    DecodeError,
                >(e),
            },
    {
        decode(self.code.as_slice(), self.ip)
    }

    /// Carries out one instruction on the registers, the stack, the heap, the
    /// flags and the output, and says how it ended. The instruction pointer
    /// and the status are left to the caller.
    ///
    /// On a fault nothing is changed. An instruction that needs
    /// floating-point arithmetic is deferred, and nothing is changed.
    pub fn execute(&mut self, inst: Instruction) -> (out: Outcome)
        ensures
            (final(self)@, out) == old(self)@.transition(inst, None),
    {
        self.apply(inst, None)
    }

    fn cycle(&mut self, answer: Option<FloatAnswer>)
        ensures
            final(self)@ == old(self)@.cycle(answer),
    {
        if self.ip >= self.code.len() {
            self.status = Status::Halted;
            return ;
        }
        match self.decode() {
            Err(e) => {
                self.status = Status::Faulted(Fault::Decode(e));
            },
            Ok((inst, width)) => {
                proof {
                    self.lemma_wf();
                    crate::laws::lemma_frame(self@, inst, answer);
                    crate::laws::lemma_jump_within(self@, inst, answer);
                }
                match self.apply(inst, answer) {
                    Outcome::Continue => {
                        self.ip = self.ip + width;
                    },
                    Outcome::Jump(target) => {
                        self.ip = target;
                    },
                    Outcome::Halt => {
                        self.status = Status::Halted;
                    },
                    Outcome::Fault(e) => {
                        self.status = Status::Faulted(Fault::Execution(e));
                    },
                    Outcome::Defer(request) => {
                        self.status = Status::Awaiting(request);
                    },
                }
            },
        }
    }

    /// The offset of the instruction that is carried out next.
    pub fn ip(&self) -> (ip: Address)
        ensures
            ip == self@.ip,
    {
        self.ip
    }

    /// Whether the last comparison found its operands equal.
    pub fn flag_eq(&self) -> (b: bool)
        ensures
            b == self@.flag_eq,
    {
        self.flag_eq
    }

    /// Whether the last comparison found its first operand greater.
    pub fn flag_gt(&self) -> (b: bool)
        ensures
            b == self@.flag_gt,
    {
        self.flag_gt
    }

    /// What register `r` holds, if there is such a register.
    pub fn register(&self, r: Register) -> (v: Option<Immediate>)
        ensures
            v == (if r < REGISTERS {
                Some(self@.registers[r as int])
            } else {
                None
            }),
    {
        if r < REGISTERS {
            Some(self.registers[r])
        } else {
            None
        }
    }

    /// The operand stack, the top last.
    pub fn stack(&self) -> (stack: &Vec<Immediate>)
        ensures
            stack@ == self@.stack,
    {
        &self.stack
    }

    /// The heap.
    pub fn heap(&self) -> (heap: &Vec<Immediate>)
        ensures
            heap@ == self@.heap,
    {
        &self.data
    }

    /// The code.
    pub fn code(&self) -> (code: &Vec<u8>)
        ensures
            code@ == self@.code,
    {
        &self.code
    }

    /// What the program has emitted so far and the host has not taken yet,
    /// the oldest first.
    pub fn output(&self) -> (output: &Vec<Immediate>)
        ensures
            output@ == self@.output,
    {
        &self.output
    }

    /// Hands over what the program has emitted, and empties the output.
    pub fn take_output(&mut self) -> (output: Vec<Immediate>)
        ensures
            output@ == old(self)@.output,
            final(self)@ == (Machine { output: Seq::empty(), ..old(self)@ }),
    {
        let mut output: Vec<Immediate> = Vec::new();
        core::mem::swap(&mut self.output, &mut output);
        output
    }

    /// Where the machine stands in its life.
    pub fn status(&self) -> (status: Status)
        ensures
            status == self@.status,
    {
        self.status
    }

    /// Whether the machine was started and has not stopped.
    pub fn is_executing(&self) -> (b: bool)
        ensures
            b == (self@.status == Status::Running),
    {
        match self.status {
            Status::Running => true,
            _ => false,
        }
    }

    /// One cycle, if the machine is running: read the instruction at the
    /// pointer, carry it out, move the pointer. Returns the status after it.
    pub fn step(&mut self) -> (status: Status)
        ensures
            final(self)@ == old(self)@.step(),
            status == final(self)@.status,
    {
        if self.is_executing() {
            self.cycle(None);
        }
        self.status
    }

    /// At most `limit` cycles of a running machine. Returns the status after
    /// them: `Running` if the machine could go on.
    pub fn advance(&mut self, limit: u64) -> (status: Status)
        ensures
            final(self)@ == old(self)@.run(limit as nat),
            status == final(self)@.status,
    {
        let mut done: u64 = 0;
        while done < limit && self.is_executing()
            invariant
                done <= limit,
                self@.run((limit - done) as nat) == old(self)@.run(limit as nat),
            decreases limit - done,
        {
            self.cycle(None);
            done += 1;
        }
        proof {
            if done < limit {
                crate::laws::lemma_run_stopped(self@, (limit - done) as nat);
            }
        }
        self.status
    }

    /// Sets an idle machine running, without carrying out any instruction.
    /// On a machine that was started before, the call does nothing. Returns
    /// the status after the call.
    pub fn start(&mut self) -> (status: Status)
        ensures
            final(self)@ == old(self)@.start(),
            status == final(self)@.status,
    {
        match self.status {
            Status::Idle => {
                self.status = Status::Running;
            },
            _ => {},
        }
        self.status
    }

    /// Runs the machine: an idle machine is started, and runs until it halts,
    /// faults or waits for its host. On a machine that was started before,
    /// the call does nothing. Returns the status after the call.
    ///
    /// A run is cut off after `u64::MAX` cycles; the machine is then still
    /// `Running`, and [`advance`](VM::advance) takes it further.
    pub fn cpu(&mut self) -> (status: Status)
        ensures
            final(self)@ == (if old(self)@.status == Status::Idle {
                old(self)@.start().run(u64::MAX as nat)
            } else {
                old(self)@
            }),
            status == final(self)@.status,
    {
        match self.status {
            Status::Idle => {
                self.start();
                self.advance(u64::MAX)
            },
            _ => self.status,
        }
    }

    /// Hands the host's answer to a waiting machine, which carries out the
    /// deferred instruction with it and runs on as [`cpu`](VM::cpu) does. On
    /// a machine that is not waiting, the call does nothing. Returns the
    /// status after the call.
    pub fn resume(&mut self, answer: FloatAnswer) -> (status: Status)
        ensures
            final(self)@ == (if old(self)@.status is Awaiting {
                old(self)@.resume(answer).run(u64::MAX as nat)
            } else {
                old(self)@
            }),
            status == final(self)@.status,
    {
        match self.status {
            Status::Awaiting(_) => {
                self.status = Status::Running;
                self.cycle(Some(answer));
                self.advance(u64::MAX)
            },
            _ => self.status,
        }
    }
}

} // verus!
