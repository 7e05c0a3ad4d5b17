//! Decimal fixed-point numbers with nine fractional digits.
//!
//! A value is either a multiple of `1 / SCALE` that fits in 64 bits, or
//! undefined. Every operation is total: a result that cannot be represented,
//! and a division by zero, are undefined, and an undefined operand makes the
//! result undefined. Comparisons with an undefined operand are false.

use vstd::prelude::*;

verus! {

/// Number of raw units in one whole.
pub const SCALE: i64 = 1_000_000_000;

/// A raw value is kept only when it fits in 64 bits.
pub open spec fn lift(v: int) -> Option<int> {
    if i64::MIN <= v <= i64::MAX {
        Some(v)
    } else {
        None
    }
}

/// Quotient rounded toward zero, for a divisor other than zero.
pub open spec fn trunc_div(n: int, d: int) -> int {
    if n >= 0 && d > 0 {
        n / d
    } else if n < 0 && d > 0 {
        -((-n) / d)
    } else if n >= 0 {
        -(n / (-d))
    } else {
        (-n) / (-d)
    }
}

pub open spec fn sum(a: Option<int>, b: Option<int>) -> Option<int> {
    match (a, b) {
        (Some(x), Some(y)) => lift(x + y),
        _ => None,
    }
}

pub open spec fn difference(a: Option<int>, b: Option<int>) -> Option<int> {
    match (a, b) {
        (Some(x), Some(y)) => lift(x - y),
        _ => None,
    }
}

/// Product of two fixed-point values, rounded toward zero.
pub open spec fn product(a: Option<int>, b: Option<int>) -> Option<int> {
    match (a, b) {
        (Some(x), Some(y)) => lift(trunc_div(x * y, SCALE as int)),
        _ => None,
    }
}

/// Quotient of two fixed-point values, rounded toward zero; undefined for a
/// zero divisor.
pub open spec fn quotient(a: Option<int>, b: Option<int>) -> Option<int> {
    match (a, b) {
        (Some(x), Some(y)) => if y == 0 {
            None
        } else {
            lift(trunc_div(x * SCALE, y))
        },
        _ => None,
    }
}

/// Strict order; false when either side is undefined.
pub open spec fn less(a: Option<int>, b: Option<int>) -> bool {
    match (a, b) {
        (Some(x), Some(y)) => x < y,
        _ => false,
    }
}

#[derive(Clone, Copy, Debug, PartialEq, Eq)]
pub struct Fixed {
    pub raw: Option<i64>,
}

impl View for Fixed {
    type V = Option<int>;

    open spec fn view(&self) -> Option<int> {
        match self.raw {
            Some(r) => Some(r as int),
            None => None,
        }
    }
}

/// Truncating division of wide values by way of their magnitudes.
fn div_toward_zero(n: i128, d: i128) -> (q: i128)
    requires
        d != 0,
        -0x4000_0000_0000_0000_0000_0000_0000_0000 <= n <= 0x4000_0000_0000_0000_0000_0000_0000_0000,
        -0x4000_0000_0000_0000_0000_0000_0000_0000 <= d <= 0x4000_0000_0000_0000_0000_0000_0000_0000,
    ensures
        q == trunc_div(n as int, d as int),
{
    let n_abs: u128 = if n >= 0 { n as u128 } else { (-n) as u128 };
    let d_abs: u128 = if d >= 0 { d as u128 } else { (-d) as u128 };
    let q_abs: u128 = n_abs / d_abs;
    assert(q_abs <= n_abs) by (nonlinear_arith)
        requires
            q_abs == n_abs / d_abs,
            d_abs >= 1,
    ;
    let q: i128 = q_abs as i128;
    if (n >= 0) == (d > 0) {
        q
    } else {
        -q
    }
}

/// Narrows a wide raw value.
fn narrow(v: i128) -> (r: Fixed)
    ensures
        r@ == lift(v as int),
{
    if v < -0x8000_0000_0000_0000 || v > 0x7fff_ffff_ffff_ffff {
        Fixed { raw: None }
    } else {
        Fixed { raw: Some(v as i64) }
    }
}

impl Fixed {
    /// The value `raw / SCALE`.
    pub fn from_raw(raw: i64) -> (r: Fixed)
        ensures
            r@ == Some(raw as int),
    {
        Fixed { raw: Some(raw) }
    }

    /// The undefined value.
    pub fn undefined() -> (r: Fixed)
        ensures
            r@ == None::<int>,
    {
        Fixed { raw: None }
    }

    pub fn is_finite(&self) -> (b: bool)
        ensures
            b == (self@ is Some),
    {
        self.raw.is_some()
    }

    pub fn plus(self, other: Fixed) -> (r: Fixed)
        ensures
            r@ == sum(self@, other@),
    {
        match (self.raw, other.raw) {
            (Some(x), Some(y)) => narrow(x as i128 + y as i128),
            _ => Fixed { raw: None },
        }
    }

    pub fn minus(self, other: Fixed) -> (r: Fixed)
        ensures
            r@ == difference(self@, other@),
    {
        match (self.raw, other.raw) {
            (Some(x), Some(y)) => narrow(x as i128 - y as i128),
            _ => Fixed { raw: None },
        }
    }

    pub fn times(self, other: Fixed) -> (r: Fixed)
        ensures
            r@ == product(self@, other@),
    {
        match (self.raw, other.raw) {
            (Some(x), Some(y)) => {
                assert(-0x4000_0000_0000_0000_0000_0000_0000_0000 <= x * y
                    <= 0x4000_0000_0000_0000_0000_0000_0000_0000) by (nonlinear_arith)
                    requires
                        -0x8000_0000_0000_0000 <= x <= 0x8000_0000_0000_0000,
                        -0x8000_0000_0000_0000 <= y <= 0x8000_0000_0000_0000,
                ;
                let wide: i128 = x as i128 * y as i128;
                narrow(div_toward_zero(wide, SCALE as i128))
            },
            _ => Fixed { raw: None },
        }
    }

    pub fn over(self, other: Fixed) -> (r: Fixed)
        ensures
            r@ == quotient(self@, other@),
    {
        match (self.raw, other.raw) {
            (Some(x), Some(y)) => {
                if y == 0 {
                    Fixed { raw: None }
                } else {
                    let wide: i128 = x as i128 * SCALE as i128;
                    narrow(div_toward_zero(wide, y as i128))
                }
            },
            _ => Fixed { raw: None },
        }
    }

    pub fn lt(self, other: Fixed) -> (b: bool)
        ensures
            b == less(self@, other@),
    {
        match (self.raw, other.raw) {
            (Some(x), Some(y)) => x < y,
            _ => false,
        }
    }
}

} // verus!
