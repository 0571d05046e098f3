//! Fixed-point scalar arithmetic.
//!
//! All simulation quantities (positions, velocities, times) are carried as
//! signed 64-bit counts of thousandths, so `Fixed { raw: 500 }` is one half.
//! Every operation is total: sums, differences, products and quotients
//! saturate at the `i64` range, and products and quotients truncate toward
//! zero after rescaling, exactly as the spec functions below state.
use vstd::prelude::*;

verus! {

/// Number of raw units per whole unit.
pub const SCALE: i64 = 1000;

/// Clamp a mathematical integer into the `i64` range.
pub open spec fn sat64(x: int) -> int {
    if x > i64::MAX {
        i64::MAX as int
    } else if x < i64::MIN {
        i64::MIN as int
    } else {
        x
    }
}

/// Magnitude of an integer.
pub open spec fn abs_int(x: int) -> int {
    if x < 0 {
        -x
    } else {
        x
    }
}

/// Division truncating toward zero, as machine division does.
pub open spec fn tdiv(n: int, d: int) -> int
    recommends
        d != 0,
{
    if (n < 0) == (d < 0) {
        abs_int(n) / abs_int(d)
    } else {
        -(abs_int(n) / abs_int(d))
    }
}

/// Saturating fixed-point sum of two raw values.
pub open spec fn fx_add(a: int, b: int) -> int {
    sat64(a + b)
}

/// Saturating fixed-point difference of two raw values.
pub open spec fn fx_sub(a: int, b: int) -> int {
    sat64(a - b)
}

/// Saturating fixed-point product of two raw values: rescale by `SCALE`,
/// truncating toward zero.
pub open spec fn fx_mul(a: int, b: int) -> int {
    sat64(tdiv(a * b, SCALE as int))
}

/// Saturating fixed-point quotient of two raw values.
pub open spec fn fx_div(a: int, b: int) -> int
    recommends
        b != 0,
{
    sat64(tdiv(a * SCALE, b))
}

/// A whole number carried into fixed-point representation.
pub open spec fn fx_of_int(i: int) -> int {
    sat64(i * SCALE)
}

/// A scalar stored as a signed count of thousandths.
#[derive(Clone, Copy, PartialEq, Eq, Structural, Debug)]
pub struct Fixed {
    pub raw: i64,
}

/// Truncating division of machine integers, sign-split over unsigned division.
fn tdiv128(n: i128, d: i128) -> (r: i128)
    requires
        d != 0,
        n > i128::MIN,
        d > i128::MIN,
    ensures
        r == tdiv(n as int, d as int),
{
    let nn: u128 = if n >= 0 {
        n as u128
    } else {
        (-n) as u128
    };
    let dd: u128 = if d >= 0 {
        d as u128
    } else {
        (-d) as u128
    };
    let q: u128 = nn / dd;
    if (n >= 0) == (d >= 0) {
        q as i128
    } else {
        -(q as i128)
    }
}

/// Clamp a 128-bit quotient back into the raw `i64` range.
fn clamp128(q: i128) -> (r: i64)
    ensures
        r == sat64(q as int),
{
    if q > i64::MAX as i128 {
        i64::MAX
    } else if q < i64::MIN as i128 {
        i64::MIN
    } else {
        q as i64
    }
}

impl Fixed {
    /// The zero scalar.
    pub fn zero() -> (r: Fixed)
        ensures
            r.raw == 0,
    {
        Fixed { raw: 0 }
    }

    /// A whole number of units.
    pub fn from_int(i: i64) -> (r: Fixed)
        ensures
            r.raw == fx_of_int(i as int),
    {
        let i128v: i128 = i as i128;
        assert(i128v * (SCALE as i128) < i128::MAX && i128v * (SCALE as i128) > i128::MIN)
            by (nonlinear_arith)
            requires
                i64::MIN <= i128v <= i64::MAX,
        ;
        let p: i128 = i128v * (SCALE as i128);
        Fixed { raw: clamp128(p) }
    }

    /// Saturating sum.
    pub fn add(self, b: Fixed) -> (r: Fixed)
        ensures
            r.raw == fx_add(self.raw as int, b.raw as int),
    {
        match self.raw.checked_add(b.raw) {
            Some(s) => Fixed { raw: s },
            None => if b.raw > 0 {
                Fixed { raw: i64::MAX }
            } else {
                Fixed { raw: i64::MIN }
            },
        }
    }

    /// Saturating difference.
    pub fn sub(self, b: Fixed) -> (r: Fixed)
        ensures
            r.raw == fx_sub(self.raw as int, b.raw as int),
    {
        match self.raw.checked_sub(b.raw) {
            Some(s) => Fixed { raw: s },
            None => if b.raw < 0 {
                Fixed { raw: i64::MAX }
            } else {
                Fixed { raw: i64::MIN }
            },
        }
    }

    /// Saturating, truncating product.
    pub fn mul(self, b: Fixed) -> (r: Fixed)
        ensures
            r.raw == fx_mul(self.raw as int, b.raw as int),
    {
        let a128: i128 = self.raw as i128;
        let b128: i128 = b.raw as i128;
        assert(a128 * b128 < i128::MAX && a128 * b128 > i128::MIN) by (nonlinear_arith)
            requires
                i64::MIN <= a128 <= i64::MAX,
                i64::MIN <= b128 <= i64::MAX,
        ;
        let p: i128 = a128 * b128;
        let q: i128 = tdiv128(p, SCALE as i128);
        Fixed { raw: clamp128(q) }
    }

    /// Saturating, truncating quotient.
    pub fn div(self, b: Fixed) -> (r: Fixed)
        requires
            b.raw != 0,
        ensures
            r.raw == fx_div(self.raw as int, b.raw as int),
    {
        let a128: i128 = self.raw as i128;
        assert(a128 * (SCALE as i128) < i128::MAX && a128 * (SCALE as i128) > i128::MIN)
            by (nonlinear_arith)
            requires
                i64::MIN <= a128 <= i64::MAX,
        ;
        let p: i128 = a128 * (SCALE as i128);
        let q: i128 = tdiv128(p, b.raw as i128);
        Fixed { raw: clamp128(q) }
    }
}

} // verus!
