//! How instructions are written in code, and how they are read back.
//!
//! An instruction is its opcode byte followed by its operands in the order of
//! its shape. Numbers wider than a byte are written most significant byte
//! first. Reading is the inverse of writing: see [`lemma_decode_encode`].
use crate::error::DecodeError;
use crate::instruction::{Instruction, Operands, Shape};
use crate::value::{Immediate, Kind};
use vstd::prelude::*;

verus! {

/// Number of values that `width` bytes can spell: 256 to the power of `width`.
pub open spec fn capacity(width: nat) -> nat
    decreases width,
{
    if width == 0 {
        1
    } else {
        256 * capacity((width - 1) as nat)
    }
}

/// The number that bytes spell, most significant byte first.
pub open spec fn be_value(bytes: Seq<u8>) -> nat
    decreases bytes.len(),
{
    if bytes.len() == 0 {
        0
    } else {
        256 * be_value(bytes.drop_last()) + bytes.last() as nat
    }
}

/// The low `width` bytes of a number, most significant byte first.
pub open spec fn be_bytes(value: nat, width: nat) -> Seq<u8>
    decreases width,
{
    if width == 0 {
        Seq::empty()
    } else {
        be_bytes(value / 256, (width - 1) as nat).push((value % 256) as u8)
    }
}

/// The bytes of a literal: the tag of its kind, then its payload.
pub open spec fn literal_bytes(v: Immediate) -> Seq<u8> {
    seq![v.kind().spec_tag()] + be_bytes(v.spec_raw() as nat, v.kind().spec_width() as nat)
}

/// The bytes of the operands of an instruction of the given shape.
pub open spec fn operand_bytes(shape: Shape, ops: Operands) -> Seq<u8> {
    let first = seq![ops.first as u8];
    let second = seq![ops.second as u8];
    let address = be_bytes(ops.address as nat, 4);
    let literal = literal_bytes(ops.literal);
    match shape {
        Shape::Plain => Seq::empty(),
        Shape::Reg => first,
        Shape::RegReg => first + second,
        Shape::Addr => address,
        Shape::AddrImm => address + literal,
        Shape::AddrReg => address + first,
        Shape::RegAddr => first + address,
        Shape::RegImm => first + literal,
        Shape::Imm => literal,
    }
}

impl Instruction {
    /// Whether the instruction can be written: a register operand must fit in
    /// one byte and an address operand in four.
    pub open spec fn encodable(self) -> bool {
        let ops = self.spec_operands();
        ops.first < 0x100 && ops.second < 0x100 && ops.address < 0x1_0000_0000
    }

    /// The bytes of the instruction.
    pub open spec fn encoding(self) -> Seq<u8> {
        seq![self.spec_opcode()] + operand_bytes(self.spec_shape(), self.spec_operands())
    }
}

/// The literal whose first byte is at `at`.
pub open spec fn literal_at(code: Seq<u8>, at: int) -> Result<Immediate, DecodeError> {
    if at >= code.len() {
        Err(DecodeError::TruncatedInstruction)
    } else {
        match Kind::spec_from_tag(code[at]) {
            None => Err(DecodeError::InvalidOpcode),
            Some(kind) => if at + 1 + kind.spec_width() > code.len() {
                Err(DecodeError::TruncatedInstruction)
            } else {
                Ok(kind.wrapped(be_value(code.subrange(at + 1, at + 1 + kind.spec_width())) as int))
            },
        }
    }
}

/// Where, counted from the first operand byte, the first register of a shape
/// stands.
pub open spec fn first_offset(shape: Shape) -> int {
    if shape == Shape::AddrReg {
        4
    } else {
        0
    }
}

/// Where, counted from the first operand byte, the address of a shape stands.
pub open spec fn address_offset(shape: Shape) -> int {
    if shape == Shape::RegAddr {
        1
    } else {
        0
    }
}

/// The operands of the given shape whose first byte is at `at`.
pub open spec fn operands_at(code: Seq<u8>, at: int, shape: Shape) -> Result<
    Operands,
    DecodeError,
> {
    if at + shape.spec_fixed() > code.len() {
        Err(DecodeError::TruncatedInstruction)
    } else {
        let first: usize = match shape {
            Shape::Reg | Shape::RegReg | Shape::RegImm | Shape::RegAddr | Shape::AddrReg => code[at
                + first_offset(shape)] as usize,
            _ => 0,
        };
        let second: usize = match shape {
            Shape::RegReg => code[at + 1] as usize,
            _ => 0,
        };
        let address: usize = match shape {
            Shape::Addr | Shape::AddrImm | Shape::AddrReg | Shape::RegAddr => be_value(
                code.subrange(at + address_offset(shape), at + address_offset(shape) + 4),
            ) as usize,
            _ => 0,
        };
        if shape.spec_has_literal() {
            match literal_at(code, at + shape.spec_fixed()) {
                Ok(literal) => Ok(Operands { first, second, address, literal }),
                Err(e) => Err(e),
            }
        } else {
            Ok(Operands { first, second, address, literal: Immediate::Empty() })
        }
    }
}

/// The instruction whose opcode byte is at `ip`.
///
/// `TruncatedInstruction` where the code ends before the instruction does;
/// `InvalidOpcode` where the opcode byte names no instruction, or the tag byte
/// of a literal names no kind.
pub open spec fn decode_spec(code: Seq<u8>, ip: int) -> Result<Instruction, DecodeError> {
    if ip < 0 || ip >= code.len() {
        Err(DecodeError::TruncatedInstruction)
    } else {
        match Shape::spec_of(code[ip]) {
            None => Err(DecodeError::InvalidOpcode),
            Some(shape) => match operands_at(code, ip + 1, shape) {
                Err(e) => Err(e),
                Ok(ops) => match Instruction::spec_assemble(code[ip], ops) {
                    Some(inst) => Ok(inst),
                    None => Err(DecodeError::InvalidOpcode),
                },
            },
        }
    }
}

/// The capacities of the widths in use.
pub proof fn lemma_capacity()
    ensures
        capacity(0) == 1,
        capacity(1) == 0x100,
        capacity(2) == 0x1_0000,
        capacity(3) == 0x100_0000,
        capacity(4) == 0x1_0000_0000,
        capacity(5) == 0x100_0000_0000,
        capacity(6) == 0x1_0000_0000_0000,
        capacity(7) == 0x100_0000_0000_0000,
        capacity(8) == 0x1_0000_0000_0000_0000,
{
    reveal_with_fuel(capacity, 10);
}

/// Bytes spell a number below the capacity of their count.
pub proof fn lemma_be_value_bound(bytes: Seq<u8>)
    ensures
        be_value(bytes) < capacity(bytes.len()),
    decreases bytes.len(),
{
    if bytes.len() > 0 {
        lemma_be_value_bound(bytes.drop_last());
    }
}

/// A number is written in as many bytes as asked for.
pub proof fn lemma_be_bytes_len(value: nat, width: nat)
    ensures
        be_bytes(value, width).len() == width,
    decreases width,
{
    if width > 0 {
        lemma_be_bytes_len(value / 256, (width - 1) as nat);
    }
}

/// The bytes of a number that fits spell that number.
pub proof fn lemma_be_round_trip(value: nat, width: nat)
    requires
        value < capacity(width),
    ensures
        be_value(be_bytes(value, width)) == value,
    decreases width,
{
    if width > 0 {
        let head = be_bytes(value / 256, (width - 1) as nat);
        lemma_be_round_trip(value / 256, (width - 1) as nat);
        assert(head.push((value % 256) as u8).drop_last() =~= head);
    }
}

/// The width of a kind counts the bytes whose capacity is the kind's modulus.
pub proof fn lemma_kind_capacity(kind: Kind)
    ensures
        capacity(kind.spec_width() as nat) == kind.modulus(),
{
    lemma_capacity();
}

/// Where the bytes of a literal stand in code, the literal is read back.
pub proof fn lemma_literal_at(code: Seq<u8>, at: int, v: Immediate)
    requires
        0 <= at,
        at + literal_bytes(v).len() <= code.len(),
        code.subrange(at, at + literal_bytes(v).len()) == literal_bytes(v),
    ensures
        literal_at(code, at) == Ok::<Immediate, DecodeError>(v),
        literal_bytes(v).len() == 1 + v.kind().spec_width(),
{
    let kind = v.kind();
    let width = kind.spec_width() as nat;
    let raw = v.spec_raw() as nat;
    let bytes = literal_bytes(v);
    lemma_be_bytes_len(raw, width);
    v.lemma_payload();
    lemma_kind_capacity(kind);
    lemma_be_round_trip(raw, width);
    assert(code[at] == bytes[0]);
    assert(Kind::spec_from_tag(kind.spec_tag()) == Some(kind));
    assert(code.subrange(at + 1, at + 1 + width) =~= be_bytes(raw, width)) by {
        assert forall|i: int| 0 <= i < width implies code[at + 1 + i] == be_bytes(raw, width)[i] by {
            assert(code[at + 1 + i] == code.subrange(at, at + bytes.len())[1 + i]);
        }
    }
}

/// Where the four bytes of an address stand in code, they spell the address.
pub proof fn lemma_address_at(code: Seq<u8>, at: int, address: nat)
    requires
        0 <= at,
        at + 4 <= code.len(),
        address < 0x1_0000_0000,
        code.subrange(at, at + 4) == be_bytes(address, 4),
    ensures
        be_value(code.subrange(at, at + 4)) == address,
{
    lemma_capacity();
    lemma_be_round_trip(address, 4);
}

/// Decoding inverts encoding: wherever the bytes of an instruction stand in
/// code, decoding at their first byte gives the instruction back, and the
/// instruction's width is the number of its bytes.
pub proof fn lemma_decode_encode(inst: Instruction, before: Seq<u8>, after: Seq<u8>)
    requires
        inst.encodable(),
    ensures
        decode_spec(before + inst.encoding() + after, before.len() as int) == Ok::<
            Instruction,
            DecodeError,
        >(inst),
        inst.encoding().len() == inst.spec_width(),
{
    let code = before + inst.encoding() + after;
    let ip = before.len() as int;
    let shape = inst.spec_shape();
    let ops = inst.spec_operands();
    let enc = inst.encoding();
    let tail = operand_bytes(shape, ops);
    let literal = literal_bytes(ops.literal);
    let address = be_bytes(ops.address as nat, 4);
    inst.lemma_opcode();
    lemma_be_bytes_len(ops.address as nat, 4);
    lemma_be_bytes_len(
        ops.literal.spec_raw() as nat,
        ops.literal.kind().spec_width() as nat,
    );
    assert(enc.len() == 1 + tail.len());
    assert(code[ip] == enc[0]);
    assert(code.subrange(ip + 1, ip + 1 + tail.len()) =~= tail) by {
        assert forall|i: int| 0 <= i < tail.len() implies code[ip + 1 + i] == tail[i] by {
            assert(code[ip + 1 + i] == enc[1 + i]);
        }
    }
    let at = ip + 1;
    if shape == Shape::Addr || shape == Shape::AddrImm || shape == Shape::AddrReg {
        assert(code.subrange(at, at + 4) =~= address) by {
            assert forall|i: int| 0 <= i < 4 implies code[at + i] == address[i] by {
                assert(code[at + i] == code.subrange(at, at + tail.len())[i]);
            }
        }
        lemma_address_at(code, at, ops.address as nat);
    }
    if shape == Shape::RegAddr {
        assert(code.subrange(at + 1, at + 5) =~= address) by {
            assert forall|i: int| 0 <= i < 4 implies code[at + 1 + i] == address[i] by {
                assert(code[at + 1 + i] == code.subrange(at, at + tail.len())[1 + i]);
            }
        }
        lemma_address_at(code, at + 1, ops.address as nat);
    }
    if shape.spec_has_literal() {
        let fixed = shape.spec_fixed() as int;
        assert(tail.len() == fixed + literal.len());
        assert(code.subrange(at + fixed, at + fixed + literal.len()) =~= literal) by {
            assert forall|i: int| 0 <= i < literal.len() implies code[at + fixed + i]
                == literal[i] by {
                assert(code[at + fixed + i] == code.subrange(at, at + tail.len())[fixed + i]);
            }
        }
        lemma_literal_at(code, at + fixed, ops.literal);
    }
    if shape == Shape::Reg || shape == Shape::RegReg || shape == Shape::RegImm || shape
        == Shape::RegAddr {
        assert(code[at] == code.subrange(at, at + tail.len())[0]);
    }
    if shape == Shape::RegReg {
        assert(code[at + 1] == code.subrange(at, at + tail.len())[1]);
    }
    if shape == Shape::AddrReg {
        assert(code[at + 4] == code.subrange(at, at + tail.len())[4]);
    }
    assert(operands_at(code, at, shape) == Ok::<Operands, DecodeError>(ops));
}

/// Reads `width` bytes at `at` as one number.
fn read_be(code: &[u8], at: usize, width: usize) -> (value: u64)
    requires
        width <= 8,
        at + width <= code@.len(),
    ensures
        value == be_value(code@.subrange(at as int, at + width)),
{
    let len = code.len();
    let mut value: u64 = 0;
    let mut i: usize = 0;
    while i < width
        invariant
            i <= width <= 8,
            at + width <= code@.len() == len,
            value == be_value(code@.subrange(at as int, at + i)),
        decreases width - i,
    {
        proof {
            lemma_be_value_bound(code@.subrange(at as int, at + i));
            lemma_capacity();
            assert(code@.subrange(at as int, at + i + 1).drop_last() =~= code@.subrange(
                at as int,
                at + i,
            ));
        }
        value = value * 256 + code[at + i] as u64;
        i += 1;
    }
    value
}

/// The value that a kind tag and payload bytes spell, if the tag names a kind
/// and the bytes are as many as the kind is wide.
pub open spec fn value_of_bytes(tag: u8, payload: Seq<u8>) -> Option<Immediate> {
    match Kind::spec_from_tag(tag) {
        Some(kind) => if payload.len() == kind.spec_width() {
            Some(kind.wrapped(be_value(payload) as int))
        } else {
            None
        },
        None => None,
    }
}

impl Immediate {
    /// Builds a value from the tag byte of its kind and its payload bytes,
    /// most significant first. There is no value where the tag names no kind
    /// or the bytes are not as many as the kind is wide.
    pub fn from_bytes(tag: u8, payload: &[u8]) -> (r: Option<Immediate>)
        ensures
            r == value_of_bytes(tag, payload@),
    {
        match Kind::from_tag(tag) {
            Some(kind) => {
                if payload.len() == kind.width() {
                    assert(payload@.subrange(0, payload@.len() as int) =~= payload@);
                    Some(kind.from_raw(read_be(payload, 0, kind.width())))
                } else {
                    None
                }
            },
            None => None,
        }
    }

    /// The bytes of the value as a literal: the tag byte of its kind, then
    /// its payload, most significant byte first.
    pub fn to_bytes(self) -> (bytes: Vec<u8>)
        ensures
            bytes@ == literal_bytes(self),
    {
        let mut out: Vec<u8> = Vec::new();
        push_literal(&mut out, self);
        assert(out@ =~= literal_bytes(self));
        out
    }

    /// A value is read back from the bytes it is written as.
    pub proof fn lemma_bytes_round_trip(self)
        ensures
            literal_bytes(self).len() == 1 + self.kind().spec_width(),
            value_of_bytes(literal_bytes(self)[0], literal_bytes(self).skip(1)) == Some(self),
    {
        let kind = self.kind();
        let width = kind.spec_width() as nat;
        let raw = self.spec_raw() as nat;
        lemma_be_bytes_len(raw, width);
        self.lemma_payload();
        lemma_kind_capacity(kind);
        lemma_be_round_trip(raw, width);
        assert(literal_bytes(self).skip(1) =~= be_bytes(raw, width));
        assert(Kind::spec_from_tag(kind.spec_tag()) == Some(kind));
    }
}

/// Reads the literal whose tag byte is at `at`.
fn read_literal(code: &[u8], at: usize) -> (r: Result<Immediate, DecodeError>)
    ensures
        r == literal_at(code@, at as int),
{
    if at >= code.len() {
        return Err(DecodeError::TruncatedInstruction);
    }
    match Kind::from_tag(code[at]) {
        None => Err(DecodeError::InvalidOpcode),
        Some(kind) => {
            let width = kind.width();
            if code.len() - at - 1 < width {
                Err(DecodeError::TruncatedInstruction)
            } else {
                Ok(kind.from_raw(read_be(code, at + 1, width)))
            }
        },
    }
}

/// Reads the operands of the given shape whose first byte is at `at`.
fn read_operands(code: &[u8], at: usize, shape: Shape) -> (r: Result<Operands, DecodeError>)
    requires
        at <= code@.len(),
    ensures
        r == operands_at(code@, at as int, shape),
{
    if code.len() - at < shape.fixed() {
        return Err(DecodeError::TruncatedInstruction);
    }
    let first: usize = match shape {
        Shape::Reg | Shape::RegReg | Shape::RegImm | Shape::RegAddr => code[at] as usize,
        Shape::AddrReg => code[at + 4] as usize,
        _ => 0,
    };
    let second: usize = match shape {
        Shape::RegReg => code[at + 1] as usize,
        _ => 0,
    };
    let address: usize = match shape {
        Shape::Addr | Shape::AddrImm | Shape::AddrReg => read_be(code, at, 4) as usize,
        Shape::RegAddr => read_be(code, at + 1, 4) as usize,
        _ => 0,
    };
    if shape.has_literal() {
        match read_literal(code, at + shape.fixed()) {
            Ok(literal) => Ok(Operands { first, second, address, literal }),
            Err(e) => Err(e),
        }
    } else {
        Ok(Operands { first, second, address, literal: Immediate::Empty() })
    }
}

/// An instruction that was read lies within the code.
pub proof fn lemma_decode_within(code: Seq<u8>, ip: int)
    ensures
        decode_spec(code, ip) matches Ok(inst) ==> 0 <= ip && ip + inst.spec_width() <= code.len(),
{
    if let Ok(inst) = decode_spec(code, ip) {
        let shape = Shape::spec_of(code[ip]).unwrap();
        let ops = operands_at(code, ip + 1, shape).unwrap();
        assert(Instruction::spec_assemble(code[ip], ops) == Some(inst));
        assert(inst.spec_shape() == shape);
        assert(shape.spec_has_literal() ==> inst.spec_operands().literal == ops.literal);
    }
}

/// Reads the instruction whose opcode byte is at `ip`, and says how many bytes
/// it occupies.
///
/// Fails with `TruncatedInstruction` where the code ends before the
/// instruction does (so too where `ip` is at or beyond the end), and with
/// `InvalidOpcode` where the opcode byte names no instruction or the tag byte
/// of a literal names no kind.
pub fn decode(code: &[u8], ip: usize) -> (r: Result<(Instruction, usize), DecodeError>)
    ensures
        match r {
            Ok((inst, width)) => decode_spec(code@, ip as int) == Ok::<Instruction, DecodeError>(
                inst,
            ) && width == inst.spec_width() && ip + width <= code@.len(),
            Err(e) => decode_spec(code@, ip as int) == Err::<Instruction, DecodeError>(e),
        },
{
    if ip >= code.len() {
        return Err(DecodeError::TruncatedInstruction);
    }
    let opcode = code[ip];
    match Shape::of(opcode) {
        None => Err(DecodeError::InvalidOpcode),
        Some(shape) => match read_operands(code, ip + 1, shape) {
            Err(e) => Err(e),
            Ok(ops) => match Instruction::assemble(opcode, ops) {
                Some(inst) => {
                    proof {
                        lemma_decode_within(code@, ip as int);
                    }
                    Ok((inst, inst.width()))
                },
                None => Err(DecodeError::InvalidOpcode),
            },
        },
    }
}

/// Appends the low `width` bytes of a number, most significant first.
fn push_be(out: &mut Vec<u8>, value: u64, width: usize)
    ensures
        final(out)@ == old(out)@ + be_bytes(value as nat, width as nat),
    decreases width,
{
    if width > 0 {
        push_be(out, value / 256, (width - 1) as usize);
        out.push((value % 256) as u8);
        assert(out@ =~= old(out)@ + be_bytes(value as nat, width as nat));
    } else {
        assert(out@ =~= old(out)@ + be_bytes(value as nat, width as nat));
    }
}

/// Appends the bytes of a literal.
fn push_literal(out: &mut Vec<u8>, v: Immediate)
    ensures
        final(out)@ == old(out)@ + literal_bytes(v),
{
    out.push(v.kind().tag());
    push_be(out, v.raw(), v.kind().width());
    assert(out@ =~= old(out)@ + literal_bytes(v));
}

impl Instruction {
    /// Writes the instruction as bytes, if it can be written.
    pub fn encode(self) -> (r: Option<Vec<u8>>)
        ensures
            match r {
                Some(bytes) => self.encodable() && bytes@ == self.encoding(),
                None => !self.encodable(),
            },
    {
        let ops = self.operands();
        if ops.first >= 0x100 || ops.second >= 0x100 || ops.address as u64 >= 0x1_0000_0000 {
            return None;
        }
        let mut out: Vec<u8> = Vec::new();
        out.push(self.opcode());
        let ghost head = out@;
        assert(head =~= seq![self.spec_opcode()]);
        match self.shape() {
            Shape::Plain => {},
            Shape::Reg => {
                out.push(ops.first as u8);
            },
            Shape::RegReg => {
                out.push(ops.first as u8);
                out.push(ops.second as u8);
            },
            Shape::Addr => {
                push_be(&mut out, ops.address as u64, 4);
            },
            Shape::AddrImm => {
                push_be(&mut out, ops.address as u64, 4);
                push_literal(&mut out, ops.literal);
            },
            Shape::AddrReg => {
                push_be(&mut out, ops.address as u64, 4);
                out.push(ops.first as u8);
            },
            Shape::RegAddr => {
                out.push(ops.first as u8);
                push_be(&mut out, ops.address as u64, 4);
            },
            Shape::RegImm => {
                out.push(ops.first as u8);
                push_literal(&mut out, ops.literal);
            },
            Shape::Imm => {
                push_literal(&mut out, ops.literal);
            },
        }
        assert(out@ =~= head + operand_bytes(self.spec_shape(), ops));
        Some(out)
    }
}

} // verus!
