//! The arithmetic and logic unit: what the two-operand instructions compute.
//!
//! Both operands must be of the same integer kind. Sums, differences, products
//! and quotients are computed on the integers and then wrapped into the kind's
//! range, so every integer kind overflows in the same way: two's complement.
//! Nothing saturates.
use crate::error::ExecutionError;
use crate::value::{Immediate, Kind};
use vstd::prelude::*;

verus! {

/// The operations of the unit.
#[derive(Clone, Copy, Debug, PartialEq, Eq, Structural)]
pub enum AluOp {
    Add,
    Sub,
    Mul,
    Div,
    And,
    Or,
    Xor,
    Shr,
    Shl,
}

/// `x` divided by `d`, rounded toward zero.
pub open spec fn quotient(x: int, d: int) -> int {
    let magnitude = vstd::math::abs(x) / vstd::math::abs(d);
    if (x < 0) == (d < 0) {
        magnitude as int
    } else {
        -magnitude
    }
}

/// By how many bits a shift moves, given its second operand: the operand's
/// payload modulo the bit count of its kind.
pub open spec fn shift_amount(by: Immediate) -> u32 {
    (by.payload() % by.kind().bits()) as u32
}

/// Bitwise AND of two values of one integer kind.
pub open spec fn bit_and(a: Immediate, b: Immediate) -> Immediate {
    match (a, b) {
        (Immediate::U8(x), Immediate::U8(y)) => Immediate::U8(x & y),
        (Immediate::I8(x), Immediate::I8(y)) => Immediate::I8(x & y),
        (Immediate::U16(x), Immediate::U16(y)) => Immediate::U16(x & y),
        (Immediate::I16(x), Immediate::I16(y)) => Immediate::I16(x & y),
        (Immediate::U32(x), Immediate::U32(y)) => Immediate::U32(x & y),
        (Immediate::I32(x), Immediate::I32(y)) => Immediate::I32(x & y),
        (Immediate::U64(x), Immediate::U64(y)) => Immediate::U64(x & y),
        (Immediate::I64(x), Immediate::I64(y)) => Immediate::I64(x & y),
        _ => a,
    }
}

/// Bitwise OR of two values of one integer kind.
pub open spec fn bit_or(a: Immediate, b: Immediate) -> Immediate {
    match (a, b) {
        (Immediate::U8(x), Immediate::U8(y)) => Immediate::U8(x | y),
        (Immediate::I8(x), Immediate::I8(y)) => Immediate::I8(x | y),
        (Immediate::U16(x), Immediate::U16(y)) => Immediate::U16(x | y),
        (Immediate::I16(x), Immediate::I16(y)) => Immediate::I16(x | y),
        (Immediate::U32(x), Immediate::U32(y)) => Immediate::U32(x | y),
        (Immediate::I32(x), Immediate::I32(y)) => Immediate::I32(x | y),
        (Immediate::U64(x), Immediate::U64(y)) => Immediate::U64(x | y),
        (Immediate::I64(x), Immediate::I64(y)) => Immediate::I64(x | y),
        _ => a,
    }
}

/// Bitwise XOR of two values of one integer kind.
pub open spec fn bit_xor(a: Immediate, b: Immediate) -> Immediate {
    match (a, b) {
        (Immediate::U8(x), Immediate::U8(y)) => Immediate::U8(x ^ y),
        (Immediate::I8(x), Immediate::I8(y)) => Immediate::I8(x ^ y),
        (Immediate::U16(x), Immediate::U16(y)) => Immediate::U16(x ^ y),
        (Immediate::I16(x), Immediate::I16(y)) => Immediate::I16(x ^ y),
        (Immediate::U32(x), Immediate::U32(y)) => Immediate::U32(x ^ y),
        (Immediate::I32(x), Immediate::I32(y)) => Immediate::I32(x ^ y),
        (Immediate::U64(x), Immediate::U64(y)) => Immediate::U64(x ^ y),
        (Immediate::I64(x), Immediate::I64(y)) => Immediate::I64(x ^ y),
        _ => a,
    }
}

/// An integer value moved `n` bits to the left; the bits that leave the kind's width are lost.
pub open spec fn shift_left(a: Immediate, n: u32) -> Immediate {
    match a {
        Immediate::U8(x) => Immediate::U8(x << n),
        Immediate::I8(x) => Immediate::I8(x << n),
        Immediate::U16(x) => Immediate::U16(x << n),
        Immediate::I16(x) => Immediate::I16(x << n),
        Immediate::U32(x) => Immediate::U32(x << n),
        Immediate::I32(x) => Immediate::I32(x << n),
        Immediate::U64(x) => Immediate::U64(x << n),
        Immediate::I64(x) => Immediate::I64(x << n),
        _ => a,
    }
}

/// An integer value moved `n` bits to the right; a signed value keeps its sign.
pub open spec fn shift_right(a: Immediate, n: u32) -> Immediate {
    match a {
        Immediate::U8(x) => Immediate::U8(x >> n),
        Immediate::I8(x) => Immediate::I8(x >> n),
        Immediate::U16(x) => Immediate::U16(x >> n),
        Immediate::I16(x) => Immediate::I16(x >> n),
        Immediate::U32(x) => Immediate::U32(x >> n),
        Immediate::I32(x) => Immediate::I32(x >> n),
        Immediate::U64(x) => Immediate::U64(x >> n),
        Immediate::I64(x) => Immediate::I64(x >> n),
        _ => a,
    }
}

/// What an operation yields on two values: a value of the operands' kind, or
/// the fault it ends in.
pub open spec fn alu_spec(op: AluOp, a: Immediate, b: Immediate) -> Result<
    Immediate,
    ExecutionError,
> {
    let kind = a.kind();
    if b.kind() != kind || !kind.is_integer() {
        Err(ExecutionError::TypeMismatch)
    } else {
        match op {
            AluOp::Add => Ok(kind.wrapped(a.payload() + b.payload())),
            AluOp::Sub => Ok(kind.wrapped(a.payload() - b.payload())),
            AluOp::Mul => Ok(kind.wrapped(a.payload() * b.payload())),
            AluOp::Div => if b.payload() == 0 {
                Err(ExecutionError::DivisionByZero)
            } else {
                Ok(kind.wrapped(quotient(a.payload(), b.payload())))
            },
            AluOp::And => Ok(bit_and(a, b)),
            AluOp::Or => Ok(bit_or(a, b)),
            AluOp::Xor => Ok(bit_xor(a, b)),
            AluOp::Shr => Ok(shift_right(a, shift_amount(b))),
            AluOp::Shl => Ok(shift_left(a, shift_amount(b))),
        }
    }
}

/// What a comparison sets the flags to: whether the first value equals the
/// second, and whether it is greater.
pub open spec fn compare_spec(a: Immediate, b: Immediate) -> Result<(bool, bool), ExecutionError> {
    if b.kind() != a.kind() || !a.kind().is_integer() {
        Err(ExecutionError::TypeMismatch)
    } else {
        Ok((a.payload() == b.payload(), a.payload() > b.payload()))
    }
}

/// A quotient of two payloads of a signed kind leaves the kind's range in one
/// case only: the lowest payload divided by minus one.
proof fn lemma_quotient_range(x: int, d: int, half: int)
    requires
        d != 0,
        -half <= x < half,
        -half <= d < half,
    ensures
        -half <= quotient(x, d) <= half,
        quotient(x, d) == half ==> x == -half && d == -1,
        x == 0 ==> quotient(x, d) == 0,
{
    let a = vstd::math::abs(x) as int;
    let b = vstd::math::abs(d) as int;
    vstd::arithmetic::div_mod::lemma_div_pos_is_pos(a, b);
    if a == 0 {
        vstd::arithmetic::div_mod::lemma_div_basics(b);
    } else if b == 1 {
        vstd::arithmetic::div_mod::lemma_div_basics(a);
    } else {
        vstd::arithmetic::div_mod::lemma_div_decreases(a, b);
    }
}

fn alu_u8(op: AluOp, x: u8, y: u8) -> (r: Result<u8, ExecutionError>)
    ensures
        match r {
            Ok(v) => alu_spec(op, Immediate::U8(x), Immediate::U8(y)) == Ok::<
                Immediate,
                ExecutionError,
            >(Immediate::U8(v)),
            Err(e) => alu_spec(op, Immediate::U8(x), Immediate::U8(y)) == Err::<
                Immediate,
                ExecutionError,
            >(e),
        },
{
    proof {
        crate::value::lemma_wrap(Kind::U8, x + y);
        crate::value::lemma_wrap(Kind::U8, x + y - 0x100);
        crate::value::lemma_wrap(Kind::U8, x - y);
        crate::value::lemma_wrap(Kind::U8, x - y + 0x100);
        crate::value::lemma_wrap(Kind::U8, x * y);
    }
    match op {
        AluOp::Add => Ok(x.wrapping_add(y)),
        AluOp::Sub => Ok(x.wrapping_sub(y)),
        AluOp::Mul => Ok(x.wrapping_mul(y)),
        AluOp::Div => if y == 0 {
            Err(ExecutionError::DivisionByZero)
        } else {
            let q: u8 = x / y;
            proof {
                crate::value::lemma_wrap(Kind::U8, q as int);
            }
            Ok(q)
        },
        AluOp::And => Ok(x & y),
        AluOp::Or => Ok(x | y),
        AluOp::Xor => Ok(x ^ y),
        AluOp::Shr => Ok(x.wrapping_shr((y % 8) as u32)),
        AluOp::Shl => Ok(x.wrapping_shl((y % 8) as u32)),
    }
}

fn alu_i8(op: AluOp, x: i8, y: i8) -> (r: Result<i8, ExecutionError>)
    ensures
        match r {
            Ok(v) => alu_spec(op, Immediate::I8(x), Immediate::I8(y)) == Ok::<
                Immediate,
                ExecutionError,
            >(Immediate::I8(v)),
            Err(e) => alu_spec(op, Immediate::I8(x), Immediate::I8(y)) == Err::<
                Immediate,
                ExecutionError,
            >(e),
        },
{
    proof {
        crate::value::lemma_wrap(Kind::I8, x + y);
        crate::value::lemma_wrap(Kind::I8, x - y);
        crate::value::lemma_wrap(Kind::I8, x * y);
    }
    match op {
        AluOp::Add => Ok(x.wrapping_add(y)),
        AluOp::Sub => Ok(x.wrapping_sub(y)),
        AluOp::Mul => Ok(x.wrapping_mul(y)),
        AluOp::Div => if y == 0 {
            Err(ExecutionError::DivisionByZero)
        } else {
            proof {
                lemma_quotient_range(x as int, y as int, 0x80);
                crate::value::lemma_wrap(Kind::I8, quotient(x as int, y as int));
            }
            match x.checked_div(y) {
                Some(q) => Ok(q),
                None => Ok(i8::MIN),
            }
        },
        AluOp::And => Ok(x & y),
        AluOp::Or => Ok(x | y),
        AluOp::Xor => Ok(x ^ y),
        AluOp::Shr => match y.checked_rem_euclid(8) {
            Some(n) => Ok(x.wrapping_shr(n as u32)),
            None => Ok(x),
        },
        AluOp::Shl => match y.checked_rem_euclid(8) {
            Some(n) => Ok(x.wrapping_shl(n as u32)),
            None => Ok(x),
        },
    }
}

fn alu_u16(op: AluOp, x: u16, y: u16) -> (r: Result<u16, ExecutionError>)
    ensures
        match r {
            Ok(v) => alu_spec(op, Immediate::U16(x), Immediate::U16(y)) == Ok::<
                Immediate,
                ExecutionError,
            >(Immediate::U16(v)),
            Err(e) => alu_spec(op, Immediate::U16(x), Immediate::U16(y)) == Err::<
                Immediate,
                ExecutionError,
            >(e),
        },
{
    proof {
        crate::value::lemma_wrap(Kind::U16, x + y);
        crate::value::lemma_wrap(Kind::U16, x + y - 0x1_0000);
        crate::value::lemma_wrap(Kind::U16, x - y);
        crate::value::lemma_wrap(Kind::U16, x - y + 0x1_0000);
        crate::value::lemma_wrap(Kind::U16, x * y);
    }
    match op {
        AluOp::Add => Ok(x.wrapping_add(y)),
        AluOp::Sub => Ok(x.wrapping_sub(y)),
        AluOp::Mul => Ok(x.wrapping_mul(y)),
        AluOp::Div => if y == 0 {
            Err(ExecutionError::DivisionByZero)
        } else {
            let q: u16 = x / y;
            proof {
                crate::value::lemma_wrap(Kind::U16, q as int);
            }
            Ok(q)
        },
        AluOp::And => Ok(x & y),
        AluOp::Or => Ok(x | y),
        AluOp::Xor => Ok(x ^ y),
        AluOp::Shr => Ok(x.wrapping_shr((y % 16) as u32)),
        AluOp::Shl => Ok(x.wrapping_shl((y % 16) as u32)),
    }
}

fn alu_i16(op: AluOp, x: i16, y: i16) -> (r: Result<i16, ExecutionError>)
    ensures
        match r {
            Ok(v) => alu_spec(op, Immediate::I16(x), Immediate::I16(y)) == Ok::<
                Immediate,
                ExecutionError,
            >(Immediate::I16(v)),
            Err(e) => alu_spec(op, Immediate::I16(x), Immediate::I16(y)) == Err::<
                Immediate,
                ExecutionError,
            >(e),
        },
{
    proof {
        crate::value::lemma_wrap(Kind::I16, x + y);
        crate::value::lemma_wrap(Kind::I16, x - y);
        crate::value::lemma_wrap(Kind::I16, x * y);
    }
    match op {
        AluOp::Add => Ok(x.wrapping_add(y)),
        AluOp::Sub => Ok(x.wrapping_sub(y)),
        AluOp::Mul => Ok(x.wrapping_mul(y)),
        AluOp::Div => if y == 0 {
            Err(ExecutionError::DivisionByZero)
        } else {
            proof {
                lemma_quotient_range(x as int, y as int, 0x8000);
                crate::value::lemma_wrap(Kind::I16, quotient(x as int, y as int));
            }
            match x.checked_div(y) {
                Some(q) => Ok(q),
                None => Ok(i16::MIN),
            }
        },
        AluOp::And => Ok(x & y),
        AluOp::Or => Ok(x | y),
        AluOp::Xor => Ok(x ^ y),
        AluOp::Shr => match y.checked_rem_euclid(16) {
            Some(n) => Ok(x.wrapping_shr(n as u32)),
            None => Ok(x),
        },
        AluOp::Shl => match y.checked_rem_euclid(16) {
            Some(n) => Ok(x.wrapping_shl(n as u32)),
            None => Ok(x),
        },
    }
}

fn alu_u32(op: AluOp, x: u32, y: u32) -> (r: Result<u32, ExecutionError>)
    ensures
        match r {
            Ok(v) => alu_spec(op, Immediate::U32(x), Immediate::U32(y)) == Ok::<
                Immediate,
                ExecutionError,
            >(Immediate::U32(v)),
            Err(e) => alu_spec(op, Immediate::U32(x), Immediate::U32(y)) == Err::<
                Immediate,
                ExecutionError,
            >(e),
        },
{
    proof {
        crate::value::lemma_wrap(Kind::U32, x + y);
        crate::value::lemma_wrap(Kind::U32, x + y - 0x1_0000_0000);
        crate::value::lemma_wrap(Kind::U32, x - y);
        crate::value::lemma_wrap(Kind::U32, x - y + 0x1_0000_0000);
        crate::value::lemma_wrap(Kind::U32, x * y);
    }
    match op {
        AluOp::Add => Ok(x.wrapping_add(y)),
        AluOp::Sub => Ok(x.wrapping_sub(y)),
        AluOp::Mul => Ok(x.wrapping_mul(y)),
        AluOp::Div => if y == 0 {
            Err(ExecutionError::DivisionByZero)
        } else {
            let q: u32 = x / y;
            proof {
                crate::value::lemma_wrap(Kind::U32, q as int);
            }
            Ok(q)
        },
        AluOp::And => Ok(x & y),
        AluOp::Or => Ok(x | y),
        AluOp::Xor => Ok(x ^ y),
        AluOp::Shr => Ok(x.wrapping_shr((y % 32) as u32)),
        AluOp::Shl => Ok(x.wrapping_shl((y % 32) as u32)),
    }
}

fn alu_i32(op: AluOp, x: i32, y: i32) -> (r: Result<i32, ExecutionError>)
    ensures
        match r {
            Ok(v) => alu_spec(op, Immediate::I32(x), Immediate::I32(y)) == Ok::<
                Immediate,
                ExecutionError,
            >(Immediate::I32(v)),
            Err(e) => alu_spec(op, Immediate::I32(x), Immediate::I32(y)) == Err::<
                Immediate,
                ExecutionError,
            >(e),
        },
{
    proof {
        crate::value::lemma_wrap(Kind::I32, x + y);
        crate::value::lemma_wrap(Kind::I32, x - y);
        crate::value::lemma_wrap(Kind::I32, x * y);
    }
    match op {
        AluOp::Add => Ok(x.wrapping_add(y)),
        AluOp::Sub => Ok(x.wrapping_sub(y)),
        AluOp::Mul => Ok(x.wrapping_mul(y)),
        AluOp::Div => if y == 0 {
            Err(ExecutionError::DivisionByZero)
        } else {
            proof {
                lemma_quotient_range(x as int, y as int, 0x8000_0000);
                crate::value::lemma_wrap(Kind::I32, quotient(x as int, y as int));
            }
            match x.checked_div(y) {
                Some(q) => Ok(q),
                None => Ok(i32::MIN),
            }
        },
        AluOp::And => Ok(x & y),
        AluOp::Or => Ok(x | y),
        AluOp::Xor => Ok(x ^ y),
        AluOp::Shr => match y.checked_rem_euclid(32) {
            Some(n) => Ok(x.wrapping_shr(n as u32)),
            None => Ok(x),
        },
        AluOp::Shl => match y.checked_rem_euclid(32) {
            Some(n) => Ok(x.wrapping_shl(n as u32)),
            None => Ok(x),
        },
    }
}

fn alu_u64(op: AluOp, x: u64, y: u64) -> (r: Result<u64, ExecutionError>)
    ensures
        match r {
            Ok(v) => alu_spec(op, Immediate::U64(x), Immediate::U64(y)) == Ok::<
                Immediate,
                ExecutionError,
            >(Immediate::U64(v)),
            Err(e) => alu_spec(op, Immediate::U64(x), Immediate::U64(y)) == Err::<
                Immediate,
                ExecutionError,
            >(e),
        },
{
    proof {
        crate::value::lemma_wrap(Kind::U64, x + y);
        crate::value::lemma_wrap(Kind::U64, x + y - 0x1_0000_0000_0000_0000);
        crate::value::lemma_wrap(Kind::U64, x - y);
        crate::value::lemma_wrap(Kind::U64, x - y + 0x1_0000_0000_0000_0000);
        crate::value::lemma_wrap(Kind::U64, x * y);
    }
    match op {
        AluOp::Add => Ok(x.wrapping_add(y)),
        AluOp::Sub => Ok(x.wrapping_sub(y)),
        AluOp::Mul => Ok(x.wrapping_mul(y)),
        AluOp::Div => if y == 0 {
            Err(ExecutionError::DivisionByZero)
        } else {
            let q: u64 = x / y;
            proof {
                crate::value::lemma_wrap(Kind::U64, q as int);
            }
            Ok(q)
        },
        AluOp::And => Ok(x & y),
        AluOp::Or => Ok(x | y),
        AluOp::Xor => Ok(x ^ y),
        AluOp::Shr => Ok(x.wrapping_shr((y % 64) as u32)),
        AluOp::Shl => Ok(x.wrapping_shl((y % 64) as u32)),
    }
}

fn alu_i64(op: AluOp, x: i64, y: i64) -> (r: Result<i64, ExecutionError>)
    ensures
        match r {
            Ok(v) => alu_spec(op, Immediate::I64(x), Immediate::I64(y)) == Ok::<
                Immediate,
                ExecutionError,
            >(Immediate::I64(v)),
            Err(e) => alu_spec(op, Immediate::I64(x), Immediate::I64(y)) == Err::<
                Immediate,
                ExecutionError,
            >(e),
        },
{
    proof {
        crate::value::lemma_wrap(Kind::I64, x + y);
        crate::value::lemma_wrap(Kind::I64, x - y);
        crate::value::lemma_wrap(Kind::I64, x * y);
    }
    match op {
        AluOp::Add => Ok(x.wrapping_add(y)),
        AluOp::Sub => Ok(x.wrapping_sub(y)),
        AluOp::Mul => Ok(x.wrapping_mul(y)),
        AluOp::Div => if y == 0 {
            Err(ExecutionError::DivisionByZero)
        } else {
            proof {
                lemma_quotient_range(x as int, y as int, 0x8000_0000_0000_0000);
                crate::value::lemma_wrap(Kind::I64, quotient(x as int, y as int));
            }
            match x.checked_div(y) {
                Some(q) => Ok(q),
                None => Ok(i64::MIN),
            }
        },
        AluOp::And => Ok(x & y),
        AluOp::Or => Ok(x | y),
        AluOp::Xor => Ok(x ^ y),
        AluOp::Shr => match y.checked_rem_euclid(64) {
            Some(n) => Ok(x.wrapping_shr(n as u32)),
            None => Ok(x),
        },
        AluOp::Shl => match y.checked_rem_euclid(64) {
            Some(n) => Ok(x.wrapping_shl(n as u32)),
            None => Ok(x),
        },
    }
}

/// Applies an operation to two values.
///
/// Faults with `TypeMismatch` unless both are of one integer kind, and with
/// `DivisionByZero` on a division by an integer zero.
pub fn alu(op: AluOp, a: Immediate, b: Immediate) -> (r: Result<Immediate, ExecutionError>)
    ensures
        r == alu_spec(op, a, b),
{
    match (a, b) {
        (Immediate::U8(x), Immediate::U8(y)) => match alu_u8(op, x, y) {
            Ok(v) => Ok(Immediate::U8(v)),
            Err(e) => Err(e),
        },
        (Immediate::I8(x), Immediate::I8(y)) => match alu_i8(op, x, y) {
            Ok(v) => Ok(Immediate::I8(v)),
            Err(e) => Err(e),
        },
        (Immediate::U16(x), Immediate::U16(y)) => match alu_u16(op, x, y) {
            Ok(v) => Ok(Immediate::U16(v)),
            Err(e) => Err(e),
        },
        (Immediate::I16(x), Immediate::I16(y)) => match alu_i16(op, x, y) {
            Ok(v) => Ok(Immediate::I16(v)),
            Err(e) => Err(e),
        },
        (Immediate::U32(x), Immediate::U32(y)) => match alu_u32(op, x, y) {
            Ok(v) => Ok(Immediate::U32(v)),
            Err(e) => Err(e),
        },
        (Immediate::I32(x), Immediate::I32(y)) => match alu_i32(op, x, y) {
            Ok(v) => Ok(Immediate::I32(v)),
            Err(e) => Err(e),
        },
        (Immediate::U64(x), Immediate::U64(y)) => match alu_u64(op, x, y) {
            Ok(v) => Ok(Immediate::U64(v)),
            Err(e) => Err(e),
        },
        (Immediate::I64(x), Immediate::I64(y)) => match alu_i64(op, x, y) {
            Ok(v) => Ok(Immediate::I64(v)),
            Err(e) => Err(e),
        },
        _ => Err(ExecutionError::TypeMismatch),
    }
}

/// Compares two values of one integer kind: whether the first equals the
/// second, and whether it is greater. Faults with `TypeMismatch` otherwise.
pub fn compare(a: Immediate, b: Immediate) -> (r: Result<(bool, bool), ExecutionError>)
    ensures
        r == compare_spec(a, b),
{
    match (a, b) {
        (Immediate::U8(x), Immediate::U8(y)) => Ok((x == y, x > y)),
        (Immediate::I8(x), Immediate::I8(y)) => Ok((x == y, x > y)),
        (Immediate::U16(x), Immediate::U16(y)) => Ok((x == y, x > y)),
        (Immediate::I16(x), Immediate::I16(y)) => Ok((x == y, x > y)),
        (Immediate::U32(x), Immediate::U32(y)) => Ok((x == y, x > y)),
        (Immediate::I32(x), Immediate::I32(y)) => Ok((x == y, x > y)),
        (Immediate::U64(x), Immediate::U64(y)) => Ok((x == y, x > y)),
        (Immediate::I64(x), Immediate::I64(y)) => Ok((x == y, x > y)),
        _ => Err(ExecutionError::TypeMismatch),
    }
}

} // verus!
