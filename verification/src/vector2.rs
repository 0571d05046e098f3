//! Two-dimensional vectors over the fixed-point scalar, with the damped
//! interpolation helper that shapes input response.
use vstd::prelude::*;

use crate::fixed::{fx_add, fx_div, fx_mul, fx_sub, sat64, tdiv, Fixed, SCALE};

verus! {

/// A 2D vector of fixed-point scalars.
#[derive(Clone, Copy, PartialEq, Eq, Structural, Debug)]
pub struct Vector2 {
    pub x: Fixed,
    pub y: Fixed,
}

/// One coordinate of a linear interpolation: `a * (1 - t) + b * t`.
pub open spec fn lerp1(a: int, b: int, t: int) -> int {
    fx_add(fx_mul(a, fx_sub(SCALE as int, t)), fx_mul(b, t))
}

/// The angular frequency of the damper: `2 / t`.
pub open spec fn sd_omega(t: int) -> int
    recommends
        t != 0,
{
    fx_div(2 * SCALE as int, t)
}

/// The exponential-decay factor, a cubic rational approximation of
/// `e^(-dot)`: `1 / (1 + dot + 0.48 dot^2 + 0.235 dot^3)`, with the products
/// associated exactly as they are computed.
pub open spec fn sd_exp(dot: int) -> int
    recommends
        sd_denom(dot) != 0,
{
    fx_div(SCALE as int, sd_denom(dot))
}

/// The denominator of the decay factor.
pub open spec fn sd_denom(dot: int) -> int {
    fx_add(
        fx_add(fx_add(SCALE as int, dot), fx_mul(fx_mul(480, dot), dot)),
        fx_mul(fx_mul(fx_mul(235, dot), dot), dot),
    )
}

/// One coordinate of the damped step before the overshoot test.
pub open spec fn sd_out1(a: int, b: int, omega: int, dt: int, exp: int) -> int {
    let change = fx_sub(a, b);
    let target = fx_sub(a, change);
    let temp = fx_mul(fx_add(a, fx_mul(omega, change)), dt);
    fx_add(target, fx_mul(fx_add(change, temp), exp))
}

/// One coordinate of the damped midpoint used only by the overshoot test.
pub open spec fn sd_cur1(a: int, b: int, omega: int, dt: int, exp: int) -> int {
    let change = fx_sub(a, b);
    let temp = fx_mul(fx_add(a, fx_mul(omega, change)), dt);
    fx_mul(fx_sub(a, fx_mul(omega, temp)), exp)
}

/// Whether the damped step runs past the point it is damping toward: the raw
/// dot product of (current - midpoint) and (output - current) is positive.
pub open spec fn sd_overshoot(a: Vector2, cur_x: int, cur_y: int, out_x: int, out_y: int) -> bool {
    fx_sub(a.x.raw as int, cur_x) * fx_sub(out_x, a.x.raw as int) + fx_sub(
        a.y.raw as int,
        cur_y,
    ) * fx_sub(out_y, a.y.raw as int) > 0
}

/// The full damped-interpolation step from `a` toward `b` with damping time
/// `t` over the frame time `dt`: the cubic-decay blend, clamped back to `a`
/// exactly when the step overshoots. The approach distance is unbounded, so
/// no change-magnitude clamp applies before the blend.
pub open spec fn spec_smooth_damp(a: Vector2, b: Vector2, t: Fixed, dt: Fixed) -> Vector2
    recommends
        t.raw != 0,
        sd_denom(fx_mul(sd_omega(t.raw as int), dt.raw as int)) != 0,
{
    let omega = sd_omega(t.raw as int);
    let dot = fx_mul(omega, dt.raw as int);
    let exp = sd_exp(dot);
    let out_x = sd_out1(a.x.raw as int, b.x.raw as int, omega, dt.raw as int, exp);
    let out_y = sd_out1(a.y.raw as int, b.y.raw as int, omega, dt.raw as int, exp);
    let cur_x = sd_cur1(a.x.raw as int, b.x.raw as int, omega, dt.raw as int, exp);
    let cur_y = sd_cur1(a.y.raw as int, b.y.raw as int, omega, dt.raw as int, exp);
    if sd_overshoot(a, cur_x, cur_y, out_x, out_y) {
        a
    } else {
        Vector2 { x: Fixed { raw: out_x as i64 }, y: Fixed { raw: out_y as i64 } }
    }
}

/// Fixed-point products of non-negative raw values are non-negative.
pub proof fn lemma_fx_mul_nonneg(a: int, b: int)
    requires
        a >= 0,
        b >= 0,
    ensures
        fx_mul(a, b) >= 0,
{
    assert(a * b >= 0) by (nonlinear_arith)
        requires
            a >= 0,
            b >= 0,
    ;
    assert(tdiv(a * b, SCALE as int) >= 0);
}

/// Fixed-point quotients of a non-negative value by a positive value are
/// non-negative.
pub proof fn lemma_fx_div_nonneg(a: int, b: int)
    requires
        a >= 0,
        b > 0,
    ensures
        fx_div(a, b) >= 0,
{
    assert(tdiv(a * SCALE, b) >= 0);
}

impl Vector2 {
    /// A vector from its two coordinates.
    pub fn new(x: Fixed, y: Fixed) -> (r: Self)
        ensures
            r.x == x,
            r.y == y,
    {
        Self { x, y }
    }

    /// The zero vector.
    pub fn zero() -> (r: Self)
        ensures
            r.x.raw == 0,
            r.y.raw == 0,
    {
        Self { x: Fixed { raw: 0 }, y: Fixed { raw: 0 } }
    }

    /// Componentwise saturating sum.
    pub fn add(self, b: Self) -> (r: Self)
        ensures
            r.x.raw == fx_add(self.x.raw as int, b.x.raw as int),
            r.y.raw == fx_add(self.y.raw as int, b.y.raw as int),
    {
        Self { x: self.x.add(b.x), y: self.y.add(b.y) }
    }

    /// Componentwise saturating difference.
    pub fn sub(self, b: Self) -> (r: Self)
        ensures
            r.x.raw == fx_sub(self.x.raw as int, b.x.raw as int),
            r.y.raw == fx_sub(self.y.raw as int, b.y.raw as int),
    {
        Self { x: self.x.sub(b.x), y: self.y.sub(b.y) }
    }

    /// Componentwise saturating, truncating product.
    pub fn mul(self, b: Self) -> (r: Self)
        ensures
            r.x.raw == fx_mul(self.x.raw as int, b.x.raw as int),
            r.y.raw == fx_mul(self.y.raw as int, b.y.raw as int),
    {
        Self { x: self.x.mul(b.x), y: self.y.mul(b.y) }
    }

    /// Componentwise saturating, truncating quotient.
    pub fn div(self, b: Self) -> (r: Self)
        requires
            b.x.raw != 0,
            b.y.raw != 0,
        ensures
            r.x.raw == fx_div(self.x.raw as int, b.x.raw as int),
            r.y.raw == fx_div(self.y.raw as int, b.y.raw as int),
    {
        Self { x: self.x.div(b.x), y: self.y.div(b.y) }
    }

    /// Both coordinates scaled by one scalar.
    pub fn scale(self, s: Fixed) -> (r: Self)
        ensures
            r.x.raw == fx_mul(self.x.raw as int, s.raw as int),
            r.y.raw == fx_mul(self.y.raw as int, s.raw as int),
    {
        Self { x: self.x.mul(s), y: self.y.mul(s) }
    }

    /// Linear interpolation from `a` to `b` by `t`, written back to `self`
    /// and returned.
    pub fn lerp(&mut self, a: Vector2, b: Vector2, t: Fixed) -> (r: Self)
        ensures
            r.x.raw == lerp1(a.x.raw as int, b.x.raw as int, t.raw as int),
            r.y.raw == lerp1(a.y.raw as int, b.y.raw as int, t.raw as int),
            *final(self) == r,
    {
        let one = Fixed { raw: SCALE };
        let x = a.x.mul(one.sub(t)).add(b.x.mul(t));
        let y = a.y.mul(one.sub(t)).add(b.y.mul(t));
        let s = Self { x, y };
        self.x = s.x;
        self.y = s.y;
        s
    }

    /// Critically-damped interpolation from `a` toward `b` with damping time
    /// constant `t` over the elapsed frame time `dt`, written back to `self`
    /// and returned. The damping time must be positive and the elapsed time
    /// non-negative, which keeps the decay denominator positive.
    pub fn smooth_damp(&mut self, a: Vector2, b: Vector2, t: Fixed, dt: Fixed) -> (r: Self)
        requires
            t.raw > 0,
            dt.raw >= 0,
        ensures
            r == spec_smooth_damp(a, b, t, dt),
            *final(self) == r,
    {
        let two = Fixed { raw: 2 * SCALE };
        let omega = two.div(t);
        proof {
            lemma_fx_div_nonneg(2 * SCALE as int, t.raw as int);
        }
        let dot = omega.mul(dt);
        proof {
            lemma_fx_mul_nonneg(omega.raw as int, dt.raw as int);
        }
        let dot2 = Fixed { raw: 480 }.mul(dot).mul(dot);
        let dot3 = Fixed { raw: 235 }.mul(dot).mul(dot).mul(dot);
        proof {
            lemma_fx_mul_nonneg(480, dot.raw as int);
            lemma_fx_mul_nonneg(fx_mul(480, dot.raw as int), dot.raw as int);
            lemma_fx_mul_nonneg(235, dot.raw as int);
            lemma_fx_mul_nonneg(fx_mul(235, dot.raw as int), dot.raw as int);
            lemma_fx_mul_nonneg(fx_mul(fx_mul(235, dot.raw as int), dot.raw as int), dot.raw as int);
        }
        let denom = Fixed { raw: SCALE }.add(dot).add(dot2).add(dot3);
        let exp = Fixed { raw: SCALE }.div(denom);

        let change_x = a.x.sub(b.x);
        let change_y = a.y.sub(b.y);

        let target_x = a.x.sub(change_x);
        let target_y = a.y.sub(change_y);

        let temp_x = a.x.add(omega.mul(change_x)).mul(dt);
        let temp_y = a.y.add(omega.mul(change_y)).mul(dt);

        let current_x = a.x.sub(omega.mul(temp_x)).mul(exp);
        let current_y = a.y.sub(omega.mul(temp_y)).mul(exp);

        let output_x = target_x.add(change_x.add(temp_x).mul(exp));
        let output_y = target_y.add(change_y.add(temp_y).mul(exp));

        let d1x: i128 = a.x.sub(current_x).raw as i128;
        let d1y: i128 = a.y.sub(current_y).raw as i128;
        let d2x: i128 = output_x.sub(a.x).raw as i128;
        let d2y: i128 = output_y.sub(a.y).raw as i128;
        assert(d1x * d2x < i128::MAX && d1x * d2x > i128::MIN && d1y * d2y < i128::MAX && d1y * d2y
            > i128::MIN) by (nonlinear_arith)
            requires
                i64::MIN <= d1x <= i64::MAX,
                i64::MIN <= d2x <= i64::MAX,
                i64::MIN <= d1y <= i64::MAX,
                i64::MIN <= d2y <= i64::MAX,
        ;
        let px: i128 = d1x * d2x;
        let py: i128 = d1y * d2y;

        let s = if px > -py {
            a
        } else {
            Self { x: output_x, y: output_y }
        };
        self.x = s.x;
        self.y = s.y;
        s
    }
}

impl Default for Vector2 {
    /// The zero vector.
    fn default() -> (r: Self)
        ensures
            r.x.raw == 0,
            r.y.raw == 0,
    {
        Self { x: Fixed { raw: 0 }, y: Fixed { raw: 0 } }
    }
}

} // verus!
