use minivm::{alu, compare, AluOp, ExecutionError, Immediate};

#[test]
fn sums_wrap() {
    assert_eq!(alu(AluOp::Add, Immediate::U8(250), Immediate::U8(10)), Ok(Immediate::U8(4)));
    assert_eq!(alu(AluOp::Add, Immediate::I8(127), Immediate::I8(1)), Ok(Immediate::I8(-128)));
    assert_eq!(alu(AluOp::Add, Immediate::U16(65535), Immediate::U16(1)), Ok(Immediate::U16(0)));
    assert_eq!(
        alu(AluOp::Add, Immediate::I16(-32768), Immediate::I16(-1)),
        Ok(Immediate::I16(32767))
    );
    assert_eq!(
        alu(AluOp::Add, Immediate::U32(u32::MAX), Immediate::U32(2)),
        Ok(Immediate::U32(1))
    );
    assert_eq!(
        alu(AluOp::Add, Immediate::I32(i32::MAX), Immediate::I32(1)),
        Ok(Immediate::I32(i32::MIN))
    );
    assert_eq!(
        alu(AluOp::Add, Immediate::U64(u64::MAX), Immediate::U64(1)),
        Ok(Immediate::U64(0))
    );
    assert_eq!(
        alu(AluOp::Add, Immediate::I64(i64::MAX), Immediate::I64(1)),
        Ok(Immediate::I64(i64::MIN))
    );
    assert_eq!(alu(AluOp::Add, Immediate::U8(2), Immediate::U8(3)), Ok(Immediate::U8(5)));
}

#[test]
fn differences_wrap() {
    assert_eq!(alu(AluOp::Sub, Immediate::U8(3), Immediate::U8(5)), Ok(Immediate::U8(254)));
    assert_eq!(alu(AluOp::Sub, Immediate::I8(-128), Immediate::I8(1)), Ok(Immediate::I8(127)));
    assert_eq!(alu(AluOp::Sub, Immediate::U64(0), Immediate::U64(1)), Ok(Immediate::U64(u64::MAX)));
    assert_eq!(
        alu(AluOp::Sub, Immediate::I64(i64::MIN), Immediate::I64(1)),
        Ok(Immediate::I64(i64::MAX))
    );
    assert_eq!(alu(AluOp::Sub, Immediate::I16(10), Immediate::I16(25)), Ok(Immediate::I16(-15)));
}

#[test]
fn products_wrap() {
    assert_eq!(alu(AluOp::Mul, Immediate::U8(16), Immediate::U8(17)), Ok(Immediate::U8(16)));
    assert_eq!(alu(AluOp::Mul, Immediate::I8(64), Immediate::I8(2)), Ok(Immediate::I8(-128)));
    assert_eq!(alu(AluOp::Mul, Immediate::I8(-128), Immediate::I8(-1)), Ok(Immediate::I8(-128)));
    assert_eq!(
        alu(AluOp::Mul, Immediate::U32(0x1_0000), Immediate::U32(0x1_0000)),
        Ok(Immediate::U32(0))
    );
    assert_eq!(
        alu(AluOp::Mul, Immediate::U64(u64::MAX), Immediate::U64(u64::MAX)),
        Ok(Immediate::U64(1))
    );
    assert_eq!(
        alu(AluOp::Mul, Immediate::I64(i64::MIN), Immediate::I64(-1)),
        Ok(Immediate::I64(i64::MIN))
    );
    assert_eq!(alu(AluOp::Mul, Immediate::I32(-6), Immediate::I32(7)), Ok(Immediate::I32(-42)));
}

#[test]
fn quotients_round_toward_zero() {
    assert_eq!(alu(AluOp::Div, Immediate::U8(7), Immediate::U8(2)), Ok(Immediate::U8(3)));
    assert_eq!(alu(AluOp::Div, Immediate::I8(-7), Immediate::I8(2)), Ok(Immediate::I8(-3)));
    assert_eq!(alu(AluOp::Div, Immediate::I8(7), Immediate::I8(-2)), Ok(Immediate::I8(-3)));
    assert_eq!(alu(AluOp::Div, Immediate::I8(-7), Immediate::I8(-2)), Ok(Immediate::I8(3)));
    assert_eq!(alu(AluOp::Div, Immediate::I32(0), Immediate::I32(-5)), Ok(Immediate::I32(0)));
    assert_eq!(
        alu(AluOp::Div, Immediate::U64(u64::MAX), Immediate::U64(2)),
        Ok(Immediate::U64(u64::MAX / 2))
    );
}

#[test]
fn the_one_quotient_that_overflows_wraps() {
    assert_eq!(alu(AluOp::Div, Immediate::I8(-128), Immediate::I8(-1)), Ok(Immediate::I8(-128)));
    assert_eq!(
        alu(AluOp::Div, Immediate::I16(i16::MIN), Immediate::I16(-1)),
        Ok(Immediate::I16(i16::MIN))
    );
    assert_eq!(
        alu(AluOp::Div, Immediate::I32(i32::MIN), Immediate::I32(-1)),
        Ok(Immediate::I32(i32::MIN))
    );
    assert_eq!(
        alu(AluOp::Div, Immediate::I64(i64::MIN), Immediate::I64(-1)),
        Ok(Immediate::I64(i64::MIN))
    );
}

#[test]
fn division_by_zero_faults() {
    let zeros = [
        (Immediate::U8(1), Immediate::U8(0)),
        (Immediate::I8(1), Immediate::I8(0)),
        (Immediate::U16(1), Immediate::U16(0)),
        (Immediate::I16(1), Immediate::I16(0)),
        (Immediate::U32(1), Immediate::U32(0)),
        (Immediate::I32(1), Immediate::I32(0)),
        (Immediate::U64(1), Immediate::U64(0)),
        (Immediate::I64(1), Immediate::I64(0)),
    ];
    for (a, b) in zeros {
        assert_eq!(alu(AluOp::Div, a, b), Err(ExecutionError::DivisionByZero));
    }
}

#[test]
fn operands_of_different_kinds_are_a_type_mismatch() {
    let ops = [
        AluOp::Add,
        AluOp::Sub,
        AluOp::Mul,
        AluOp::Div,
        AluOp::And,
        AluOp::Or,
        AluOp::Xor,
        AluOp::Shr,
        AluOp::Shl,
    ];
    for op in ops {
        assert_eq!(
            alu(op, Immediate::U8(1), Immediate::I8(1)),
            Err(ExecutionError::TypeMismatch)
        );
        assert_eq!(
            alu(op, Immediate::U8(1), Immediate::U16(1)),
            Err(ExecutionError::TypeMismatch)
        );
        assert_eq!(
            alu(op, Immediate::Empty(), Immediate::Empty()),
            Err(ExecutionError::TypeMismatch)
        );
        assert_eq!(
            alu(op, Immediate::F32(0), Immediate::F32(0)),
            Err(ExecutionError::TypeMismatch)
        );
        assert_eq!(
            alu(op, Immediate::F64(0), Immediate::U64(0)),
            Err(ExecutionError::TypeMismatch)
        );
    }
    // a mismatch is found before a zero divisor is
    assert_eq!(
        alu(AluOp::Div, Immediate::U8(1), Immediate::I16(0)),
        Err(ExecutionError::TypeMismatch)
    );
}

#[test]
fn bitwise_operations() {
    assert_eq!(
        alu(AluOp::And, Immediate::U8(0b1100), Immediate::U8(0b1010)),
        Ok(Immediate::U8(0b1000))
    );
    assert_eq!(
        alu(AluOp::Or, Immediate::U8(0b1100), Immediate::U8(0b1010)),
        Ok(Immediate::U8(0b1110))
    );
    assert_eq!(
        alu(AluOp::Xor, Immediate::U8(0b1100), Immediate::U8(0b1010)),
        Ok(Immediate::U8(0b0110))
    );
    assert_eq!(alu(AluOp::And, Immediate::I8(-1), Immediate::I8(0x55)), Ok(Immediate::I8(0x55)));
    assert_eq!(alu(AluOp::Or, Immediate::I16(-256), Immediate::I16(0xff)), Ok(Immediate::I16(-1)));
    assert_eq!(alu(AluOp::Xor, Immediate::I32(-1), Immediate::I32(0)), Ok(Immediate::I32(-1)));
    assert_eq!(
        alu(AluOp::And, Immediate::U64(u64::MAX), Immediate::U64(0xdead_beef)),
        Ok(Immediate::U64(0xdead_beef))
    );
    assert_eq!(
        alu(AluOp::Xor, Immediate::I64(i64::MIN), Immediate::I64(-1)),
        Ok(Immediate::I64(i64::MAX))
    );
    assert_eq!(
        alu(AluOp::Or, Immediate::U16(0xf000), Immediate::U16(0x000f)),
        Ok(Immediate::U16(0xf00f))
    );
    assert_eq!(
        alu(AluOp::And, Immediate::U32(0xffff_0000), Immediate::U32(0x00ff_ff00)),
        Ok(Immediate::U32(0x00ff_0000))
    );
}

#[test]
fn shifts() {
    assert_eq!(alu(AluOp::Shl, Immediate::U8(1), Immediate::U8(3)), Ok(Immediate::U8(8)));
    assert_eq!(alu(AluOp::Shl, Immediate::U8(0x81), Immediate::U8(1)), Ok(Immediate::U8(2)));
    assert_eq!(alu(AluOp::Shr, Immediate::U8(0x80), Immediate::U8(7)), Ok(Immediate::U8(1)));
    assert_eq!(alu(AluOp::Shr, Immediate::I8(-8), Immediate::I8(1)), Ok(Immediate::I8(-4)));
    assert_eq!(alu(AluOp::Shr, Immediate::I8(-1), Immediate::I8(7)), Ok(Immediate::I8(-1)));
    assert_eq!(alu(AluOp::Shl, Immediate::I8(1), Immediate::I8(7)), Ok(Immediate::I8(-128)));
    assert_eq!(
        alu(AluOp::Shl, Immediate::U16(1), Immediate::U16(15)),
        Ok(Immediate::U16(0x8000))
    );
    assert_eq!(
        alu(AluOp::Shr, Immediate::I16(i16::MIN), Immediate::I16(15)),
        Ok(Immediate::I16(-1))
    );
    assert_eq!(
        alu(AluOp::Shl, Immediate::U32(1), Immediate::U32(31)),
        Ok(Immediate::U32(0x8000_0000))
    );
    assert_eq!(alu(AluOp::Shr, Immediate::I32(-64), Immediate::I32(3)), Ok(Immediate::I32(-8)));
    assert_eq!(
        alu(AluOp::Shl, Immediate::U64(1), Immediate::U64(63)),
        Ok(Immediate::U64(1 << 63))
    );
    assert_eq!(
        alu(AluOp::Shr, Immediate::I64(i64::MIN), Immediate::I64(63)),
        Ok(Immediate::I64(-1))
    );
}

#[test]
fn a_shift_moves_by_its_operand_modulo_the_bit_count() {
    assert_eq!(alu(AluOp::Shl, Immediate::U8(5), Immediate::U8(0)), Ok(Immediate::U8(5)));
    assert_eq!(alu(AluOp::Shl, Immediate::U8(5), Immediate::U8(8)), Ok(Immediate::U8(5)));
    assert_eq!(alu(AluOp::Shl, Immediate::U8(1), Immediate::U8(9)), Ok(Immediate::U8(2)));
    assert_eq!(alu(AluOp::Shr, Immediate::U16(4), Immediate::U16(17)), Ok(Immediate::U16(2)));
    // minus one is seven modulo eight
    assert_eq!(alu(AluOp::Shl, Immediate::I8(1), Immediate::I8(-1)), Ok(Immediate::I8(-128)));
    assert_eq!(alu(AluOp::Shr, Immediate::I8(-128), Immediate::I8(-1)), Ok(Immediate::I8(-1)));
    assert_eq!(
        alu(AluOp::Shl, Immediate::I64(1), Immediate::I64(i64::MIN)),
        Ok(Immediate::I64(1))
    );
    assert_eq!(alu(AluOp::Shl, Immediate::I32(3), Immediate::I32(-31)), Ok(Immediate::I32(6)));
    assert_eq!(
        alu(AluOp::Shr, Immediate::U64(1 << 40), Immediate::U64(64 + 40)),
        Ok(Immediate::U64(1))
    );
}

#[test]
fn comparisons() {
    assert_eq!(compare(Immediate::U8(10), Immediate::U8(8)), Ok((false, true)));
    assert_eq!(compare(Immediate::U8(8), Immediate::U8(10)), Ok((false, false)));
    assert_eq!(compare(Immediate::U8(8), Immediate::U8(8)), Ok((true, false)));
    assert_eq!(compare(Immediate::I8(-1), Immediate::I8(1)), Ok((false, false)));
    assert_eq!(compare(Immediate::I16(1), Immediate::I16(-1)), Ok((false, true)));
    assert_eq!(compare(Immediate::U16(0xffff), Immediate::U16(1)), Ok((false, true)));
    assert_eq!(compare(Immediate::I32(i32::MIN), Immediate::I32(i32::MAX)), Ok((false, false)));
    assert_eq!(compare(Immediate::U32(7), Immediate::U32(7)), Ok((true, false)));
    assert_eq!(compare(Immediate::I64(-5), Immediate::I64(-6)), Ok((false, true)));
    assert_eq!(compare(Immediate::U64(u64::MAX), Immediate::U64(0)), Ok((false, true)));
}

#[test]
fn comparisons_across_kinds_are_a_type_mismatch() {
    assert_eq!(
        compare(Immediate::U8(1), Immediate::I8(1)),
        Err(ExecutionError::TypeMismatch)
    );
    assert_eq!(
        compare(Immediate::Empty(), Immediate::Empty()),
        Err(ExecutionError::TypeMismatch)
    );
    assert_eq!(
        compare(Immediate::F32(0), Immediate::F32(0)),
        Err(ExecutionError::TypeMismatch)
    );
    assert_eq!(
        compare(Immediate::U64(1), Immediate::F64(1)),
        Err(ExecutionError::TypeMismatch)
    );
}
