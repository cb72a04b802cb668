//! How emitted values read: an integer in decimal, with a minus sign where it
//! is negative. A floating-point value has no text here: its host formats it
//! from the bits.
use crate::value::{Immediate, Kind};
use vstd::prelude::*;
use vstd::string::StringExecFns;

verus! {

/// The character of a decimal digit.
pub open spec fn digit(d: nat) -> char {
    if d == 0 {
        '0'
    } else if d == 1 {
        '1'
    } else if d == 2 {
        '2'
    } else if d == 3 {
        '3'
    } else if d == 4 {
        '4'
    } else if d == 5 {
        '5'
    } else if d == 6 {
        '6'
    } else if d == 7 {
        '7'
    } else if d == 8 {
        '8'
    } else {
        '9'
    }
}

/// A natural number in decimal, without leading zeros.
pub open spec fn decimal(n: nat) -> Seq<char>
    decreases n,
{
    if n < 10 {
        seq![digit(n)]
    } else {
        decimal(n / 10).push(digit(n % 10))
    }
}

/// An integer in decimal, with a minus sign where it is negative.
pub open spec fn signed_decimal(x: int) -> Seq<char> {
    if x < 0 {
        seq!['-'] + decimal((-x) as nat)
    } else {
        decimal(x as nat)
    }
}

/// The text of a value: the payload of an integer in decimal, `none` for the
/// empty value, and no text for a floating-point value.
pub open spec fn text_of(v: Immediate) -> Option<Seq<char>> {
    if v.kind().spec_is_float() {
        None
    } else if v.kind() == Kind::Empty {
        Some(seq!['n', 'o', 'n', 'e'])
    } else {
        Some(signed_decimal(v.payload()))
    }
}

fn digit_text(d: u64) -> (s: &'static str)
    requires
        d < 10,
    ensures
        s@ == seq![digit(d as nat)],
{
    proof {
        reveal_strlit("0");
        reveal_strlit("1");
        reveal_strlit("2");
        reveal_strlit("3");
        reveal_strlit("4");
        reveal_strlit("5");
        reveal_strlit("6");
        reveal_strlit("7");
        reveal_strlit("8");
        reveal_strlit("9");
    }
    let s = if d == 0 {
        "0"
    } else if d == 1 {
        "1"
    } else if d == 2 {
        "2"
    } else if d == 3 {
        "3"
    } else if d == 4 {
        "4"
    } else if d == 5 {
        "5"
    } else if d == 6 {
        "6"
    } else if d == 7 {
        "7"
    } else if d == 8 {
        "8"
    } else {
        "9"
    };
    assert(s@ =~= seq![digit(d as nat)]);
    s
}

fn push_decimal(out: &mut String, n: u64)
    ensures
        final(out)@ == old(out)@ + decimal(n as nat),
    decreases n,
{
    if n >= 10 {
        push_decimal(out, n / 10);
    }
    out.append(digit_text(n % 10));
    assert(out@ =~= old(out)@ + decimal(n as nat));
}

fn push_signed(out: &mut String, x: i64)
    ensures
        final(out)@ == old(out)@ + signed_decimal(x as int),
{
    if x < 0 {
        proof {
            reveal_strlit("-");
        }
        out.append("-");
        push_decimal(out, (-(x + 1)) as u64 + 1);
        assert(out@ =~= old(out)@ + signed_decimal(x as int));
    } else {
        push_decimal(out, x as u64);
    }
}

impl Immediate {
    /// The text of the value, as [`text_of`] defines it.
    pub fn text(self) -> (r: Option<String>)
        ensures
            match r {
                Some(s) => text_of(self) == Some(s@),
                None => text_of(self) is None,
            },
    {
        let mut out = String::new();
        match self {
            Immediate::F32(_) | Immediate::F64(_) => {
                return None;
            },
            Immediate::Empty() => {
                proof {
                    reveal_strlit("none");
                }
                out.append("none");
                assert(out@ =~= seq!['n', 'o', 'n', 'e']);
            },
            Immediate::U8(x) => push_decimal(&mut out, x as u64),
            Immediate::U16(x) => push_decimal(&mut out, x as u64),
            Immediate::U32(x) => push_decimal(&mut out, x as u64),
            Immediate::U64(x) => push_decimal(&mut out, x),
            Immediate::I8(x) => push_signed(&mut out, x as i64),
            Immediate::I16(x) => push_signed(&mut out, x as i64),
            Immediate::I32(x) => push_signed(&mut out, x as i64),
            Immediate::I64(x) => push_signed(&mut out, x),
        }
        assert(Some(out@) =~= text_of(self));
        Some(out)
    }
}

} // verus!
