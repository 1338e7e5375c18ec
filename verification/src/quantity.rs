//! Numeric quantities that the library carries or renders without computing
//! on them: fixed-point decimals and raw floating-point bit patterns.

use vstd::prelude::*;
use crate::text::{digit_char, nat_text, push_char, push_u64};

verus! {

/// A decimal quantity with three fractional digits, held as a count of thousandths.
/// It renders the way the shortest round-trip rendering of the same value does:
/// no exponent, no trailing zeros in the fraction, no fraction when it is zero.
#[derive(Debug, Clone, Copy, PartialEq, Eq, Structural)]
pub struct Decimal {
    pub thousandths: i64,
}

/// The fractional digits of `f` thousandths (1 to 999), without trailing zeros.
pub open spec fn fraction_text(f: nat) -> Seq<char> {
    let three = seq![digit_char(f / 100), digit_char((f / 10) % 10), digit_char(f % 10)];
    if f % 100 == 0 {
        three.take(1)
    } else if f % 10 == 0 {
        three.take(2)
    } else {
        three
    }
}

/// The rendering of a value given in thousandths.
pub open spec fn decimal_text(v: int) -> Seq<char> {
    let a: nat = if v < 0 { (-v) as nat } else { v as nat };
    let sign: Seq<char> = if v < 0 { seq!['-'] } else { seq![] };
    let whole = sign + nat_text(a / 1000);
    if a % 1000 == 0 {
        whole
    } else {
        whole + seq!['.'] + fraction_text(a % 1000)
    }
}

impl Decimal {
    /// The whole number `n`.
    pub fn from_int(n: i32) -> (res: Decimal)
        ensures
            res.thousandths == n * 1000,
    {
        Decimal { thousandths: (n as i64) * 1000 }
    }

    /// The value `thousandths / 1000`.
    pub fn from_thousandths(thousandths: i64) -> (res: Decimal)
        ensures
            res.thousandths == thousandths,
    {
        Decimal { thousandths }
    }

    /// The rendering of the value.
    pub open spec fn spec_text(self) -> Seq<char> {
        decimal_text(self.thousandths as int)
    }
}

fn digit(d: u64) -> (c: char)
    requires
        d < 10,
    ensures
        c == digit_char(d as nat),
{
    let b: u8 = 48u8 + (d as u8);
    b as char
}

/// Appends the rendering of a decimal quantity.
pub fn push_decimal(s: &mut String, d: Decimal)
    ensures
        final(s)@ == old(s)@ + d.spec_text(),
{
    let v = d.thousandths;
    let a: u64 = if v < 0 {
        push_char(s, '-');
        let m: i64 = -(v + 1);
        (m as u64) + 1
    } else {
        v as u64
    };
    let ghost mid = s@;
    push_u64(s, a / 1000);
    let f = a % 1000;
    if f != 0 {
        push_char(s, '.');
        push_char(s, digit(f / 100));
        if f % 100 != 0 {
            push_char(s, digit((f / 10) % 10));
            if f % 10 != 0 {
                push_char(s, digit(f % 10));
            }
        }
    }
    let ghost three = seq![digit_char((f / 100) as nat), digit_char(((f / 10) % 10) as nat), digit_char((f % 10) as nat)];
    assert(three.take(1) =~= seq![digit_char((f / 100) as nat)]);
    assert(three.take(2) =~= seq![digit_char((f / 100) as nat), digit_char(((f / 10) % 10) as nat)]);
    assert(final(s)@ =~= old(s)@ + d.spec_text());
}

/// The bit pattern of a double-precision floating-point value that the library
/// carries through unchanged; only the surrounding program computes with it.
#[derive(Debug, Clone, Copy, PartialEq, Eq, Structural)]
pub struct FloatBits {
    pub bits: u64,
}

impl FloatBits {
    /// The bit pattern of positive zero.
    pub fn zero() -> (res: FloatBits)
        ensures
            res.bits == 0,
    {
        FloatBits { bits: 0 }
    }
}

} // verus!
