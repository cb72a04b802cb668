//! What holds of every machine: laws that relate several instructions or
//! several steps, each proved from the model.
use crate::alu::AluOp;
use crate::codec::decode_spec;
use crate::error::ExecutionError;
use crate::instruction::{Address, Instruction, Register, REGISTERS};
use crate::machine::{offset_of, FloatAnswer, Machine, Outcome, Status};
use crate::value::Immediate;
use vstd::prelude::*;

verus! {

/// Whether `next` is `m` up to registers, stack, heap cells, flags and output.
pub open spec fn framed(m: Machine, next: Machine) -> bool {
    &&& next.code == m.code
    &&& next.ip == m.ip
    &&& next.status == m.status
    &&& next.heap.len() == m.heap.len()
}

/// Whether an outcome promises that nothing was changed.
pub open spec fn quiet(outcome: Outcome) -> bool {
    outcome is Fault || outcome is Defer || outcome is Halt
}

proof fn lemma_frame_compute(m: Machine, op: AluOp, r: Register, second: Immediate)
    ensures
        framed(m, m.compute(op, r, second).0),
        quiet(m.compute(op, r, second).1) ==> m.compute(op, r, second).0 == m,
{
}

proof fn lemma_frame_perform(m: Machine, inst: Instruction)
    ensures
        framed(m, m.perform(inst).0),
        quiet(m.perform(inst).1) ==> m.perform(inst).0 == m,
{
    match inst {
        Instruction::ADD(r, s) => {
            lemma_frame_compute(m, AluOp::Add, r, m.registers[s as int]);
        },
        Instruction::SUB(r, s) => {
            lemma_frame_compute(m, AluOp::Sub, r, m.registers[s as int]);
        },
        Instruction::MUL(r, s) => {
            lemma_frame_compute(m, AluOp::Mul, r, m.registers[s as int]);
        },
        Instruction::DIV(r, s) => {
            lemma_frame_compute(m, AluOp::Div, r, m.registers[s as int]);
        },
        Instruction::AND(r, s) => {
            lemma_frame_compute(m, AluOp::And, r, m.registers[s as int]);
        },
        Instruction::OR(r, s) => {
            lemma_frame_compute(m, AluOp::Or, r, m.registers[s as int]);
        },
        Instruction::XOR(r, s) => {
            lemma_frame_compute(m, AluOp::Xor, r, m.registers[s as int]);
        },
        Instruction::SHR(r, v) => {
            lemma_frame_compute(m, AluOp::Shr, r, v);
        },
        Instruction::SHL(r, v) => {
            lemma_frame_compute(m, AluOp::Shl, r, v);
        },
        _ => {},
    }
}

/// An instruction touches neither the code, the instruction pointer nor the
/// status, and does not resize the heap. One that ends in a fault, or is
/// deferred, or halts, changes nothing at all.
pub proof fn lemma_frame(m: Machine, inst: Instruction, answer: Option<FloatAnswer>)
    ensures
        framed(m, m.transition(inst, answer).0),
        quiet(m.transition(inst, answer).1) ==> m.transition(inst, answer).0 == m,
{
    lemma_frame_perform(m, inst);
}

/// An instruction leaves a well-formed machine well formed, and a jump goes
/// to an offset within the code, or to its end.
pub proof fn lemma_jump_within(m: Machine, inst: Instruction, answer: Option<FloatAnswer>)
    requires
        m.wf(),
    ensures
        m.transition(inst, answer).0.wf(),
        m.transition(inst, answer).1 matches Outcome::Jump(target) ==> target <= m.code.len(),
{
}

/// A machine that is not running stays as it is, however many steps it is
/// given.
pub proof fn lemma_run_stopped(m: Machine, fuel: nat)
    requires
        m.status != Status::Running,
    ensures
        m.run(fuel) == m,
    decreases fuel,
{
    if fuel > 0 {
        lemma_run_stopped(m, (fuel - 1) as nat);
    }
}

/// Steps add up: `a + b` steps are `a` steps and then `b` more.
pub proof fn lemma_run_split(m: Machine, a: nat, b: nat)
    ensures
        m.run(a + b) == m.run(a).run(b),
    decreases a,
{
    if a > 0 {
        lemma_run_split(m.step(), (a - 1) as nat, b);
    }
}

/// Only a comparison writes the flags.
pub proof fn lemma_flags(m: Machine, inst: Instruction, answer: Option<FloatAnswer>)
    requires
        !(inst is CMP),
    ensures
        m.transition(inst, answer).0.flag_eq == m.flag_eq,
        m.transition(inst, answer).0.flag_gt == m.flag_gt,
{
    lemma_frame_perform(m, inst);
    match inst {
        Instruction::ADD(r, s) => {
            lemma_flags_compute(m, AluOp::Add, r, m.registers[s as int]);
        },
        Instruction::SUB(r, s) => {
            lemma_flags_compute(m, AluOp::Sub, r, m.registers[s as int]);
        },
        Instruction::MUL(r, s) => {
            lemma_flags_compute(m, AluOp::Mul, r, m.registers[s as int]);
        },
        Instruction::DIV(r, s) => {
            lemma_flags_compute(m, AluOp::Div, r, m.registers[s as int]);
        },
        Instruction::AND(r, s) => {
            lemma_flags_compute(m, AluOp::And, r, m.registers[s as int]);
        },
        Instruction::OR(r, s) => {
            lemma_flags_compute(m, AluOp::Or, r, m.registers[s as int]);
        },
        Instruction::XOR(r, s) => {
            lemma_flags_compute(m, AluOp::Xor, r, m.registers[s as int]);
        },
        Instruction::SHR(r, v) => {
            lemma_flags_compute(m, AluOp::Shr, r, v);
        },
        Instruction::SHL(r, v) => {
            lemma_flags_compute(m, AluOp::Shl, r, v);
        },
        _ => {},
    }
}

proof fn lemma_flags_compute(m: Machine, op: AluOp, r: Register, second: Immediate)
    ensures
        m.compute(op, r, second).0.flag_eq == m.flag_eq,
        m.compute(op, r, second).0.flag_gt == m.flag_gt,
{
}

/// A literal that is pushed and then popped into a register ends up in that
/// register, and the stack is as it was before the push.
pub proof fn lemma_push_pop(m: Machine, v: Immediate, r: Register)
    requires
        m.wf(),
        r < REGISTERS,
    ensures
        ({
            let (pushed, first) = m.transition(Instruction::VPUSH(v), None);
            let (popped, second) = pushed.transition(Instruction::VPOP(r), None);
            &&& first == Outcome::Continue
            &&& second == Outcome::Continue
            &&& popped.registers[r as int] == v
            &&& popped.stack == m.stack
            &&& popped == m.set_register(r, v)
        }),
{
    let pushed = m.transition(Instruction::VPUSH(v), None).0;
    assert(pushed.stack.drop_last() =~= m.stack);
}

/// Popping from an empty stack faults with `StackUnderflow`, whatever the
/// register, and changes nothing.
pub proof fn lemma_pop_empty(m: Machine, r: Register)
    requires
        m.stack.len() == 0,
    ensures
        m.transition(Instruction::VPOP(r), None) == (
            m,
            Outcome::Fault(ExecutionError::StackUnderflow),
        ),
{
}

/// A literal that is stored in a heap cell and then loaded from it is pushed
/// onto the stack.
pub proof fn lemma_store_load(m: Machine, a: Address, v: Immediate)
    requires
        a < m.heap.len(),
    ensures
        ({
            let (stored, first) = m.transition(Instruction::VSTORE(a, v), None);
            let (loaded, second) = stored.transition(Instruction::VLOAD(a), None);
            &&& first == Outcome::Continue
            &&& second == Outcome::Continue
            &&& loaded.stack == m.stack.push(v)
            &&& loaded.heap == m.heap.update(a as int, v)
        }),
{
}

/// The heap address that an instruction reads or writes, if it has one.
pub open spec fn heap_address(inst: Instruction) -> Option<Address> {
    match inst {
        Instruction::PRINTV(a) => Some(a),
        Instruction::VSTORE(a, _) => Some(a),
        Instruction::VLOAD(a) => Some(a),
        Instruction::VSTORER(a, _) => Some(a),
        Instruction::VLOADR(_, a) => Some(a),
        _ => None,
    }
}

/// Every access to a heap address at or beyond the heap's size faults with
/// `OutOfBounds`, whatever the instruction's other operand, and changes
/// nothing.
pub proof fn lemma_out_of_bounds(m: Machine, inst: Instruction, answer: Option<FloatAnswer>)
    requires
        heap_address(inst) matches Some(a) && a >= m.heap.len(),
    ensures
        m.transition(inst, answer) == (m, Outcome::Fault(ExecutionError::OutOfBounds)),
{
}

/// Dividing by a register that holds an integer zero of the dividend's kind
/// faults with `DivisionByZero`, and changes nothing: nothing is pushed.
pub proof fn lemma_division_by_zero(m: Machine, r: Register, s: Register)
    requires
        r < REGISTERS,
        s < REGISTERS,
        m.registers[s as int].kind().spec_is_integer(),
        m.registers[s as int].payload() == 0,
        m.registers[r as int].kind() == m.registers[s as int].kind(),
    ensures
        m.transition(Instruction::DIV(r, s), None) == (
            m,
            Outcome::Fault(ExecutionError::DivisionByZero),
        ),
{
}

/// After a comparison of two registers that hold integers of one kind, `JG`
/// jumps exactly where the first was greater, and then to the offset that its
/// own register holds.
pub proof fn lemma_compare_jump(m: Machine, r: Register, s: Register, t: Register)
    requires
        m.wf(),
        r < REGISTERS,
        s < REGISTERS,
        t < REGISTERS,
        m.registers[r as int].kind().spec_is_integer(),
        m.registers[r as int].kind() == m.registers[s as int].kind(),
    ensures
        ({
            let greater = m.registers[r as int].payload() > m.registers[s as int].payload();
            let (compared, first) = m.transition(Instruction::CMP(r, s), None);
            let (jumped, second) = compared.transition(Instruction::JG(t), None);
            &&& first == Outcome::Continue
            &&& compared.flag_gt == greater
            &&& compared.flag_eq == (m.registers[r as int].payload() == m.registers[s
                as int].payload())
            &&& jumped == compared
            &&& !greater ==> second == Outcome::Continue
            &&& greater ==> second == (match offset_of(m.registers[t as int], m.code.len()) {
                Some(target) => Outcome::Jump(target),
                None => Outcome::Fault(ExecutionError::InvalidJumpTarget),
            })
        }),
{
}

/// A call and the return that answers it: when a running machine carries out
/// a `CALL` and, at any later time, a machine with the same code and with the
/// stack as the call left it carries out a `RET`, execution goes on at the
/// instruction that follows the `CALL`, with the stack as it was before the
/// call.
pub proof fn lemma_call_return(m: Machine, r: Register, later: Machine)
    requires
        m.wf(),
        m.status == Status::Running,
        decode_spec(m.code, m.ip as int) == Ok::<Instruction, crate::error::DecodeError>(
            Instruction::CALL(r),
        ),
        m.step().status == Status::Running,
        later.status == Status::Running,
        later.code == m.code,
        later.stack == m.step().stack,
        decode_spec(later.code, later.ip as int) == Ok::<Instruction, crate::error::DecodeError>(
            Instruction::RET(),
        ),
    ensures
        later.step().status == Status::Running,
        later.step().ip == m.ip + Instruction::CALL(r).spec_width(),
        later.step().stack == m.stack,
{
    crate::codec::lemma_decode_within(m.code, m.ip as int);
    crate::codec::lemma_decode_within(later.code, later.ip as int);
    let called = m.transition(Instruction::CALL(r), None).0;
    assert(called.stack.drop_last() =~= m.stack);
}

} // verus!
