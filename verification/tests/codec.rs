use minivm::codec::decode;
use minivm::{DecodeError, Immediate, Instruction};

fn every_opcode() -> Vec<Instruction> {
    vec![
        Instruction::NOP(),
        Instruction::MOV(3, Immediate::I16(-2)),
        Instruction::MOVR(1, 2),
        Instruction::JMP(7),
        Instruction::JE(0),
        Instruction::JNE(1),
        Instruction::JG(2),
        Instruction::JL(3),
        Instruction::CMP(4, 5),
        Instruction::PRINTR(6),
        Instruction::PRINTV(1023),
        Instruction::VSTORE(0x0102_0304, Immediate::U64(0x1122_3344_5566_7788)),
        Instruction::VLOAD(0),
        Instruction::VSTORER(65536, 7),
        Instruction::VLOADR(0, 0xffff_ffff),
        Instruction::ADD(0, 1),
        Instruction::SUB(1, 0),
        Instruction::MUL(2, 3),
        Instruction::DIV(3, 2),
        Instruction::AND(4, 4),
        Instruction::OR(5, 6),
        Instruction::XOR(6, 5),
        Instruction::SHR(0, Immediate::U8(3)),
        Instruction::SHL(1, Immediate::I32(-1)),
        Instruction::VPUSH(Immediate::F64(2.5f64.to_bits())),
        Instruction::VPUSHR(255),
        Instruction::VPOP(0),
        Instruction::CALL(2),
        Instruction::RET(),
        Instruction::HALT(),
    ]
}

#[test]
fn decoding_inverts_encoding_for_every_opcode() {
    let all = every_opcode();
    assert_eq!(all.len(), 30);
    for inst in all {
        let bytes = inst.encode().unwrap();
        assert_eq!(bytes.len(), inst.width());
        assert_eq!(bytes[0], inst.opcode());
        assert_eq!(decode(&bytes, 0), Ok((inst, bytes.len())));
    }
}

#[test]
fn decoding_inverts_encoding_for_every_kind_of_literal() {
    let literals = [
        Immediate::Empty(),
        Immediate::U8(200),
        Immediate::I8(-100),
        Immediate::U16(0xbeef),
        Immediate::I16(i16::MIN),
        Immediate::U32(0xdead_beef),
        Immediate::I32(-123456),
        Immediate::U64(u64::MAX),
        Immediate::I64(i64::MIN),
        Immediate::F32(3.25f32.to_bits()),
        Immediate::F64((-1.0e300f64).to_bits()),
    ];
    for v in literals {
        for inst in [Instruction::VPUSH(v), Instruction::MOV(5, v), Instruction::VSTORE(9, v)] {
            let bytes = inst.encode().unwrap();
            assert_eq!(decode(&bytes, 0), Ok((inst, bytes.len())));
        }
    }
}

#[test]
fn decoding_inverts_encoding_in_the_middle_of_code() {
    let mut code: Vec<u8> = vec![0, 0, 22];
    let mut placed: Vec<(usize, Instruction)> = Vec::new();
    for inst in every_opcode() {
        placed.push((code.len(), inst));
        code.extend(inst.encode().unwrap());
    }
    code.push(0);
    for (at, inst) in placed {
        assert_eq!(decode(&code, at), Ok((inst, inst.width())));
    }
}

#[test]
fn opcodes_and_widths() {
    let table: [(Instruction, u8, usize); 30] = [
        (Instruction::NOP(), 0, 1),
        (Instruction::MOV(0, Immediate::U8(0)), 1, 4),
        (Instruction::MOVR(0, 0), 2, 3),
        (Instruction::JMP(0), 3, 2),
        (Instruction::JE(0), 4, 2),
        (Instruction::JNE(0), 5, 2),
        (Instruction::CMP(0, 0), 6, 3),
        (Instruction::PRINTR(0), 7, 2),
        (Instruction::PRINTV(0), 8, 5),
        (Instruction::VSTORE(0, Immediate::U16(0)), 9, 8),
        (Instruction::VLOAD(0), 10, 5),
        (Instruction::VSTORER(0, 0), 11, 6),
        (Instruction::VLOADR(0, 0), 12, 6),
        (Instruction::ADD(0, 0), 13, 3),
        (Instruction::SUB(0, 0), 14, 3),
        (Instruction::MUL(0, 0), 15, 3),
        (Instruction::DIV(0, 0), 16, 3),
        (Instruction::VPUSH(Immediate::U64(0)), 17, 10),
        (Instruction::VPUSHR(0), 18, 2),
        (Instruction::VPOP(0), 19, 2),
        (Instruction::CALL(0), 20, 2),
        (Instruction::RET(), 21, 1),
        (Instruction::HALT(), 22, 1),
        (Instruction::JG(0), 23, 2),
        (Instruction::JL(0), 24, 2),
        (Instruction::AND(0, 0), 25, 3),
        (Instruction::OR(0, 0), 26, 3),
        (Instruction::XOR(0, 0), 27, 3),
        (Instruction::SHR(0, Immediate::Empty()), 28, 3),
        (Instruction::SHL(0, Immediate::I32(0)), 29, 7),
    ];
    for (inst, opcode, width) in table {
        assert_eq!(inst.opcode(), opcode);
        assert_eq!(inst.width(), width);
    }
}

#[test]
fn exact_bytes() {
    assert_eq!(Instruction::MOV(0, Immediate::U8(10)).encode(), Some(vec![1, 0, 0, 10]));
    assert_eq!(Instruction::CMP(0, 1).encode(), Some(vec![6, 0, 1]));
    assert_eq!(Instruction::JG(2).encode(), Some(vec![23, 2]));
    assert_eq!(Instruction::HALT().encode(), Some(vec![22]));
    assert_eq!(
        Instruction::VSTORE(0x0102_0304, Immediate::I16(-2)).encode(),
        Some(vec![9, 1, 2, 3, 4, 3, 0xff, 0xfe])
    );
    assert_eq!(
        Instruction::VLOADR(7, 258).encode(),
        Some(vec![12, 7, 0, 0, 1, 2])
    );
    assert_eq!(
        Instruction::VSTORER(258, 7).encode(),
        Some(vec![11, 0, 0, 1, 2, 7])
    );
    assert_eq!(
        Instruction::VPUSH(Immediate::U32(0x0a0b_0c0d)).encode(),
        Some(vec![17, 4, 0x0a, 0x0b, 0x0c, 0x0d])
    );
    assert_eq!(
        Instruction::VPUSH(Immediate::I64(-2)).encode(),
        Some(vec![17, 7, 0xff, 0xff, 0xff, 0xff, 0xff, 0xff, 0xff, 0xfe])
    );
    assert_eq!(
        Instruction::VPUSH(Immediate::F32(1.0f32.to_bits())).encode(),
        Some(vec![17, 8, 0x3f, 0x80, 0, 0])
    );
    assert_eq!(Instruction::VPUSH(Immediate::Empty()).encode(), Some(vec![17, 10]));
}

#[test]
fn decoding_reads_numbers_most_significant_byte_first() {
    assert_eq!(
        decode(&[1, 4, 2, 0x01, 0x02], 0),
        Ok((Instruction::MOV(4, Immediate::U16(0x0102)), 5))
    );
    assert_eq!(
        decode(&[8, 0, 0, 4, 0], 0),
        Ok((Instruction::PRINTV(1024), 5))
    );
    assert_eq!(
        decode(&[17, 5, 0xff, 0xff, 0xff, 0xfe], 0),
        Ok((Instruction::VPUSH(Immediate::I32(-2)), 6))
    );
    assert_eq!(
        decode(&[17, 1, 0x80], 0),
        Ok((Instruction::VPUSH(Immediate::I8(-128)), 3))
    );
}

#[test]
fn a_register_operand_is_read_as_it_stands() {
    assert_eq!(decode(&[3, 200], 0), Ok((Instruction::JMP(200), 2)));
    assert_eq!(decode(&[2, 8, 255], 0), Ok((Instruction::MOVR(8, 255), 3)));
}

#[test]
fn an_instruction_that_cannot_be_written() {
    assert_eq!(Instruction::JMP(256).encode(), None);
    assert_eq!(Instruction::MOVR(0, 256).encode(), None);
    assert_eq!(Instruction::MOVR(300, 0).encode(), None);
    assert_eq!(Instruction::VLOADR(usize::MAX, 0).encode(), None);
    assert_eq!(Instruction::JMP(255).encode(), Some(vec![3, 255]));
    if usize::BITS > 32 {
        let beyond = (u32::MAX as usize) + 1;
        assert_eq!(Instruction::VLOAD(beyond).encode(), None);
        assert_eq!(Instruction::VSTORE(beyond, Immediate::U8(1)).encode(), None);
    }
    assert_eq!(
        Instruction::VLOAD(u32::MAX as usize).encode(),
        Some(vec![10, 255, 255, 255, 255])
    );
}

#[test]
fn an_unknown_opcode_is_invalid() {
    assert_eq!(decode(&[30], 0), Err(DecodeError::InvalidOpcode));
    assert_eq!(decode(&[255, 0, 0, 0, 0, 0, 0, 0, 0, 0, 0, 0], 0), Err(DecodeError::InvalidOpcode));
    assert_eq!(decode(&[0, 99, 0], 1), Err(DecodeError::InvalidOpcode));
}

#[test]
fn an_unknown_kind_tag_is_invalid() {
    assert_eq!(decode(&[17, 11], 0), Err(DecodeError::InvalidOpcode));
    assert_eq!(decode(&[1, 0, 200, 0, 0, 0, 0, 0, 0, 0, 0], 0), Err(DecodeError::InvalidOpcode));
    assert_eq!(decode(&[9, 0, 0, 0, 0, 11, 0], 0), Err(DecodeError::InvalidOpcode));
}

#[test]
fn code_that_ends_too_soon_is_truncated() {
    assert_eq!(decode(&[], 0), Err(DecodeError::TruncatedInstruction));
    assert_eq!(decode(&[0], 1), Err(DecodeError::TruncatedInstruction));
    assert_eq!(decode(&[0], 100), Err(DecodeError::TruncatedInstruction));
    assert_eq!(decode(&[3], 0), Err(DecodeError::TruncatedInstruction));
    assert_eq!(decode(&[6, 0], 0), Err(DecodeError::TruncatedInstruction));
    assert_eq!(decode(&[8, 0, 0, 0], 0), Err(DecodeError::TruncatedInstruction));
    assert_eq!(decode(&[11, 0, 0, 0, 0], 0), Err(DecodeError::TruncatedInstruction));
    assert_eq!(decode(&[12, 0, 0, 0, 0], 0), Err(DecodeError::TruncatedInstruction));
    // the literal's tag byte is missing
    assert_eq!(decode(&[1, 0], 0), Err(DecodeError::TruncatedInstruction));
    assert_eq!(decode(&[17], 0), Err(DecodeError::TruncatedInstruction));
    assert_eq!(decode(&[9, 0, 0, 0, 0], 0), Err(DecodeError::TruncatedInstruction));
    // the literal's payload is cut short
    assert_eq!(decode(&[1, 0, 0], 0), Err(DecodeError::TruncatedInstruction));
    assert_eq!(decode(&[17, 6, 1, 2, 3, 4, 5, 6, 7], 0), Err(DecodeError::TruncatedInstruction));
    // a register that is missing is found before a tag that names nothing
    assert_eq!(decode(&[1], 0), Err(DecodeError::TruncatedInstruction));
}

#[test]
fn decoding_looks_only_at_the_instruction() {
    let code = [22, 1, 0, 0, 10, 255, 255];
    assert_eq!(decode(&code, 0), Ok((Instruction::HALT(), 1)));
    assert_eq!(decode(&code, 1), Ok((Instruction::MOV(0, Immediate::U8(10)), 4)));
    assert_eq!(decode(&code, 5), Err(DecodeError::InvalidOpcode));
}
