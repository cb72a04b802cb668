//! Tagged values: the one currency of registers, stack cells, heap cells and
//! instruction literals.
//!
//! A value carries its kind with it. The eight integer kinds hold their number;
//! the two floating-point kinds hold the IEEE-754 bit pattern of theirs, which
//! the engine stores and moves but never interprets.
use vstd::prelude::*;

verus! {

/// The kind of a tagged value.
#[derive(Clone, Copy, Debug, PartialEq, Eq, Structural)]
pub enum Kind {
    Empty,
    U8,
    I8,
    U16,
    I16,
    U32,
    I32,
    U64,
    I64,
    F32,
    F64,
}

/// A tagged value. `F32` and `F64` hold the bits of the number.
#[derive(Clone, Copy, Debug, PartialEq, Eq, Structural)]
pub enum Immediate {
    Empty(),
    U8(u8),
    I8(i8),
    U16(u16),
    I16(i16),
    U32(u32),
    I32(i32),
    U64(u64),
    I64(i64),
    F32(u32),
    F64(u64),
}

impl Kind {
    /// Number of bytes that a value of this kind occupies after its tag byte.
    pub open spec fn spec_width(self) -> usize {
        match self {
            Kind::Empty => 0,
            Kind::U8 | Kind::I8 => 1,
            Kind::U16 | Kind::I16 => 2,
            Kind::U32 | Kind::I32 | Kind::F32 => 4,
            Kind::U64 | Kind::I64 | Kind::F64 => 8,
        }
    }

    /// Number of distinct payloads: two to the power of the kind's bit count.
    pub open spec fn modulus(self) -> int {
        match self {
            Kind::Empty => 1,
            Kind::U8 | Kind::I8 => 0x100,
            Kind::U16 | Kind::I16 => 0x1_0000,
            Kind::U32 | Kind::I32 | Kind::F32 => 0x1_0000_0000,
            Kind::U64 | Kind::I64 | Kind::F64 => 0x1_0000_0000_0000_0000,
        }
    }

    /// Number of bits of the payload.
    pub open spec fn bits(self) -> int {
        8 * self.spec_width()
    }

    pub open spec fn is_signed(self) -> bool {
        self == Kind::I8 || self == Kind::I16 || self == Kind::I32 || self == Kind::I64
    }

    pub open spec fn spec_is_float(self) -> bool {
        self == Kind::F32 || self == Kind::F64
    }

    pub open spec fn spec_is_integer(self) -> bool {
        self != Kind::Empty && !self.spec_is_float()
    }

    /// Smallest payload of the kind.
    pub open spec fn lowest(self) -> int {
        if self.is_signed() {
            -(self.modulus() / 2)
        } else {
            0
        }
    }

    /// Largest payload of the kind.
    pub open spec fn highest(self) -> int {
        if self.is_signed() {
            self.modulus() / 2 - 1
        } else {
            self.modulus() - 1
        }
    }

    /// The payload of this kind that is congruent to `x` modulo
    /// [`modulus`](Kind::modulus): what two's-complement arithmetic keeps of `x`.
    pub open spec fn wrap(self, x: int) -> int {
        let r = x % self.modulus();
        if r > self.highest() {
            r - self.modulus()
        } else {
            r
        }
    }

    /// The value of this kind with payload `x`, for `lowest() <= x <= highest()`.
    pub open spec fn make(self, x: int) -> Immediate {
        match self {
            Kind::Empty => Immediate::Empty(),
            Kind::U8 => Immediate::U8(x as u8),
            Kind::I8 => Immediate::I8(x as i8),
            Kind::U16 => Immediate::U16(x as u16),
            Kind::I16 => Immediate::I16(x as i16),
            Kind::U32 => Immediate::U32(x as u32),
            Kind::I32 => Immediate::I32(x as i32),
            Kind::U64 => Immediate::U64(x as u64),
            Kind::I64 => Immediate::I64(x as i64),
            Kind::F32 => Immediate::F32(x as u32),
            Kind::F64 => Immediate::F64(x as u64),
        }
    }

    /// The value of this kind whose payload is `x` reduced into the kind's range.
    pub open spec fn wrapped(self, x: int) -> Immediate {
        self.make(self.wrap(x))
    }

    /// The byte that announces a value of this kind in code.
    pub open spec fn spec_tag(self) -> u8 {
        match self {
            Kind::U8 => 0,
            Kind::I8 => 1,
            Kind::U16 => 2,
            Kind::I16 => 3,
            Kind::U32 => 4,
            Kind::I32 => 5,
            Kind::U64 => 6,
            Kind::I64 => 7,
            Kind::F32 => 8,
            Kind::F64 => 9,
            Kind::Empty => 10,
        }
    }

    /// The kind that a tag byte announces, if any.
    pub open spec fn spec_from_tag(tag: u8) -> Option<Kind> {
        if tag == 0 {
            Some(Kind::U8)
        } else if tag == 1 {
            Some(Kind::I8)
        } else if tag == 2 {
            Some(Kind::U16)
        } else if tag == 3 {
            Some(Kind::I16)
        } else if tag == 4 {
            Some(Kind::U32)
        } else if tag == 5 {
            Some(Kind::I32)
        } else if tag == 6 {
            Some(Kind::U64)
        } else if tag == 7 {
            Some(Kind::I64)
        } else if tag == 8 {
            Some(Kind::F32)
        } else if tag == 9 {
            Some(Kind::F64)
        } else if tag == 10 {
            Some(Kind::Empty)
        } else {
            None
        }
    }

    #[verifier::when_used_as_spec(spec_width)]
    pub fn width(self) -> (w: usize)
        ensures
            w == self.spec_width(),
    {
        match self {
            Kind::Empty => 0,
            Kind::U8 | Kind::I8 => 1,
            Kind::U16 | Kind::I16 => 2,
            Kind::U32 | Kind::I32 | Kind::F32 => 4,
            Kind::U64 | Kind::I64 | Kind::F64 => 8,
        }
    }

    #[verifier::when_used_as_spec(spec_is_float)]
    pub fn is_float(self) -> (b: bool)
        ensures
            b == self.spec_is_float(),
    {
        match self {
            Kind::F32 | Kind::F64 => true,
            _ => false,
        }
    }

    #[verifier::when_used_as_spec(spec_is_integer)]
    pub fn is_integer(self) -> (b: bool)
        ensures
            b == self.spec_is_integer(),
    {
        match self {
            Kind::Empty | Kind::F32 | Kind::F64 => false,
            _ => true,
        }
    }

    #[verifier::when_used_as_spec(spec_tag)]
    pub fn tag(self) -> (t: u8)
        ensures
            t == self.spec_tag(),
    {
        match self {
            Kind::U8 => 0,
            Kind::I8 => 1,
            Kind::U16 => 2,
            Kind::I16 => 3,
            Kind::U32 => 4,
            Kind::I32 => 5,
            Kind::U64 => 6,
            Kind::I64 => 7,
            Kind::F32 => 8,
            Kind::F64 => 9,
            Kind::Empty => 10,
        }
    }

    #[verifier::when_used_as_spec(spec_from_tag)]
    pub fn from_tag(tag: u8) -> (k: Option<Kind>)
        ensures
            k == Kind::spec_from_tag(tag),
    {
        match tag {
            0 => Some(Kind::U8),
            1 => Some(Kind::I8),
            2 => Some(Kind::U16),
            3 => Some(Kind::I16),
            4 => Some(Kind::U32),
            5 => Some(Kind::I32),
            6 => Some(Kind::U64),
            7 => Some(Kind::I64),
            8 => Some(Kind::F32),
            9 => Some(Kind::F64),
            10 => Some(Kind::Empty),
            _ => None,
        }
    }

    /// Builds the value of this kind from the number that its payload bytes
    /// spell, keeping the low bits where the number is too wide.
    pub fn from_raw(self, raw: u64) -> (v: Immediate)
        ensures
            v == self.wrapped(raw as int),
    {
        match self {
            Kind::Empty => Immediate::Empty(),
            Kind::U8 => Immediate::U8((raw % 0x100) as u8),
            Kind::I8 => {
                let low: u64 = raw % 0x100;
                if low < 0x80 {
                    Immediate::I8(low as i8)
                } else {
                    Immediate::I8((low as i16 - 0x100) as i8)
                }
            },
            Kind::U16 => Immediate::U16((raw % 0x1_0000) as u16),
            Kind::I16 => {
                let low: u64 = raw % 0x1_0000;
                if low < 0x8000 {
                    Immediate::I16(low as i16)
                } else {
                    Immediate::I16((low as i32 - 0x1_0000) as i16)
                }
            },
            Kind::U32 => Immediate::U32((raw % 0x1_0000_0000) as u32),
            Kind::I32 => {
                let low: u64 = raw % 0x1_0000_0000;
                if low < 0x8000_0000 {
                    Immediate::I32(low as i32)
                } else {
                    Immediate::I32((low as i64 - 0x1_0000_0000) as i32)
                }
            },
            Kind::U64 => Immediate::U64(raw),
            Kind::I64 => {
                if raw < 0x8000_0000_0000_0000 {
                    Immediate::I64(raw as i64)
                } else {
                    Immediate::I64((raw - 0x8000_0000_0000_0000) as i64 + i64::MIN)
                }
            },
            Kind::F32 => Immediate::F32((raw % 0x1_0000_0000) as u32),
            Kind::F64 => Immediate::F64(raw),
        }
    }
}

impl Immediate {
    pub open spec fn spec_kind(self) -> Kind {
        match self {
            Immediate::Empty() => Kind::Empty,
            Immediate::U8(_) => Kind::U8,
            Immediate::I8(_) => Kind::I8,
            Immediate::U16(_) => Kind::U16,
            Immediate::I16(_) => Kind::I16,
            Immediate::U32(_) => Kind::U32,
            Immediate::I32(_) => Kind::I32,
            Immediate::U64(_) => Kind::U64,
            Immediate::I64(_) => Kind::I64,
            Immediate::F32(_) => Kind::F32,
            Immediate::F64(_) => Kind::F64,
        }
    }

    /// The number that the value holds: for an integer kind the integer, for a
    /// floating-point kind its bit pattern read as an unsigned integer, and
    /// zero for the empty kind.
    pub open spec fn payload(self) -> int {
        match self {
            Immediate::Empty() => 0,
            Immediate::U8(x) => x as int,
            Immediate::I8(x) => x as int,
            Immediate::U16(x) => x as int,
            Immediate::I16(x) => x as int,
            Immediate::U32(x) => x as int,
            Immediate::I32(x) => x as int,
            Immediate::U64(x) => x as int,
            Immediate::I64(x) => x as int,
            Immediate::F32(x) => x as int,
            Immediate::F64(x) => x as int,
        }
    }

    /// The payload as the unsigned number that its bytes spell in two's
    /// complement.
    pub open spec fn spec_raw(self) -> u64 {
        (self.payload() % self.spec_kind().modulus()) as u64
    }

    #[verifier::when_used_as_spec(spec_kind)]
    pub fn kind(self) -> (k: Kind)
        ensures
            k == self.spec_kind(),
    {
        match self {
            Immediate::Empty() => Kind::Empty,
            Immediate::U8(_) => Kind::U8,
            Immediate::I8(_) => Kind::I8,
            Immediate::U16(_) => Kind::U16,
            Immediate::I16(_) => Kind::I16,
            Immediate::U32(_) => Kind::U32,
            Immediate::I32(_) => Kind::I32,
            Immediate::U64(_) => Kind::U64,
            Immediate::I64(_) => Kind::I64,
            Immediate::F32(_) => Kind::F32,
            Immediate::F64(_) => Kind::F64,
        }
    }

    #[verifier::when_used_as_spec(spec_raw)]
    pub fn raw(self) -> (raw: u64)
        ensures
            raw == self.spec_raw(),
    {
        match self {
            Immediate::Empty() => 0,
            Immediate::U8(x) => x as u64,
            Immediate::I8(x) => if x >= 0 {
                x as u64
            } else {
                (x as i16 + 0x100) as u64
            },
            Immediate::U16(x) => x as u64,
            Immediate::I16(x) => if x >= 0 {
                x as u64
            } else {
                (x as i32 + 0x1_0000) as u64
            },
            Immediate::U32(x) => x as u64,
            Immediate::I32(x) => if x >= 0 {
                x as u64
            } else {
                (x as i64 + 0x1_0000_0000) as u64
            },
            Immediate::U64(x) => x,
            Immediate::I64(x) => if x >= 0 {
                x as u64
            } else {
                (x - i64::MIN) as u64 + 0x8000_0000_0000_0000
            },
            Immediate::F32(x) => x as u64,
            Immediate::F64(x) => x,
        }
    }

    /// A value is the value of its kind with its payload, and its payload
    /// lies in the range of its kind.
    pub proof fn lemma_payload(self)
        ensures
            self.kind().lowest() <= self.payload() <= self.kind().highest(),
            self.kind().make(self.payload()) == self,
            self.kind().wrap(self.payload()) == self.payload(),
            self.kind().wrapped(self.spec_raw() as int) == self,
            self.spec_raw() < self.kind().modulus(),
    {
    }
}

/// Wrapping lands in the kind's range, keeps what is in range, and does not
/// tell apart two numbers that differ by the modulus.
pub proof fn lemma_wrap(kind: Kind, x: int)
    ensures
        kind.lowest() <= kind.wrap(x) <= kind.highest(),
        kind.lowest() <= x <= kind.highest() ==> kind.wrap(x) == x,
        kind.wrap(x + kind.modulus()) == kind.wrap(x),
        kind.wrap(x - kind.modulus()) == kind.wrap(x),
        kind.wrapped(x).kind() == kind,
        kind.wrapped(x).payload() == kind.wrap(x),
{
    let m = kind.modulus();
    if kind.lowest() <= x <= kind.highest() {
        if x < 0 {
            assert(x % m == x + m) by {
                vstd::arithmetic::div_mod::lemma_fundamental_div_mod_converse(x, m, -1, x + m);
            }
        } else {
            assert(x % m == x) by {
                vstd::arithmetic::div_mod::lemma_small_mod(x as nat, m as nat);
            }
        }
    }
    assert((x + m) % m == x % m && (x - m) % m == x % m) by {
        vstd::arithmetic::div_mod::lemma_mod_multiples_vanish(1, x, m);
        vstd::arithmetic::div_mod::lemma_mod_multiples_vanish(-1, x, m);
    }
}

} // verus!
