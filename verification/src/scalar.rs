//! Exact scalar arithmetic for layout coordinates.
//!
//! A coordinate is an `i64`; each arithmetic step clamps its mathematical
//! result into the representable range (`clip`), so no operation can panic.
//! Fractions in the unit interval (anchors, alignment, fill) are rationals
//! `num / den` with `num <= den`, and interpolation divides exactly like
//! Rust's truncating integer division.

use vstd::prelude::*;

verus! {

/// A layout coordinate or extent.
pub type Scalar = i64;

/// Clamp a mathematical integer into the representable scalar range.
pub open spec fn clip(v: int) -> int {
    if v > i64::MAX as int {
        i64::MAX as int
    } else if v < i64::MIN as int {
        i64::MIN as int
    } else {
        v
    }
}

/// Truncating division (round toward zero), as Rust's `/` on integers.
pub open spec fn div_trunc(a: int, d: int) -> int
    recommends
        d > 0,
{
    if a >= 0 {
        a / d
    } else {
        -((-a) / d)
    }
}

/// Truncating division of the product `a * m` by `d`.
pub open spec fn mul_div_trunc(a: int, m: int, d: int) -> int
    recommends
        d > 0,
{
    div_trunc(a * m, d)
}

/// The larger of two integers.
pub open spec fn max_i(a: int, b: int) -> int {
    if a >= b {
        a
    } else {
        b
    }
}

/// Saturating addition: the exact sum, clamped into the scalar range.
pub fn sat_add(a: Scalar, b: Scalar) -> (r: Scalar)
    ensures
        r as int == clip(a + b),
{
    let w: i128 = a as i128 + b as i128;
    if w > i64::MAX as i128 {
        i64::MAX
    } else if w < i64::MIN as i128 {
        i64::MIN
    } else {
        w as i64
    }
}

/// Saturating subtraction: the exact difference, clamped into the scalar range.
pub fn sat_sub(a: Scalar, b: Scalar) -> (r: Scalar)
    ensures
        r as int == clip(a - b),
{
    let w: i128 = a as i128 - b as i128;
    if w > i64::MAX as i128 {
        i64::MAX
    } else if w < i64::MIN as i128 {
        i64::MIN
    } else {
        w as i64
    }
}

/// The larger of two scalars.
pub fn scalar_max(a: Scalar, b: Scalar) -> (r: Scalar)
    ensures
        r as int == max_i(a as int, b as int),
{
    if a >= b {
        a
    } else {
        b
    }
}

/// A rational in the unit interval: `num / den` with `num <= den`.
#[derive(Clone, Copy, Debug, PartialEq, Eq, Structural)]
pub struct Fraction {
    pub num: u32,
    pub den: u32,
}

impl Fraction {
    /// A fraction denotes a unit-interval rational only when its denominator
    /// is positive and its numerator does not exceed it.
    pub open spec fn valid(self) -> bool {
        1 <= self.den && self.num <= self.den
    }

    /// The fraction `num / den`.
    pub fn new(num: u32, den: u32) -> (r: Fraction)
        requires
            1 <= den,
            num <= den,
        ensures
            r == (Fraction { num, den }),
            r.valid(),
    {
        Fraction { num, den }
    }

    /// The fraction zero.
    pub fn zero() -> (r: Fraction)
        ensures
            r == (Fraction { num: 0u32, den: 1u32 }),
            r.valid(),
    {
        Fraction { num: 0, den: 1 }
    }

    /// The fraction one.
    pub fn one() -> (r: Fraction)
        ensures
            r == (Fraction { num: 1u32, den: 1u32 }),
            r.valid(),
    {
        Fraction { num: 1, den: 1 }
    }
}

/// Interpolation between `a` and `b` by the fraction `f`:
/// `a + (b - a) * num / den`, clamped into the scalar range.
pub open spec fn lerp_s(a: int, b: int, f: Fraction) -> int
    recommends
        f.valid(),
{
    clip(a + mul_div_trunc(b - a, f.num as int, f.den as int))
}

/// The magnitude of the interpolation step never exceeds the magnitude of
/// `delta` when the fraction lies in the unit interval.
proof fn lemma_frac_step_bound(delta: int, num: int, den: int)
    requires
        1 <= den,
        0 <= num <= den,
        delta >= 0,
    ensures
        0 <= (delta * num) / den <= delta,
{
    assert(delta * num >= 0) by (nonlinear_arith)
        requires
            delta >= 0,
            num >= 0,
    ;
    assert(delta * num <= delta * den) by (nonlinear_arith)
        requires
            delta >= 0,
            num <= den,
    ;
    assert((delta * num) / den >= 0) by (nonlinear_arith)
        requires
            delta * num >= 0,
            den >= 1,
    ;
    assert((delta * num) / den <= (delta * den) / den) by (nonlinear_arith)
        requires
            delta * num <= delta * den,
            den >= 1,
    ;
    assert((delta * den) / den == delta) by (nonlinear_arith)
        requires
            den >= 1,
    ;
}

/// Clamp a nonnegative magnitude with a sign into the scalar range.
fn clamp_signed(neg: bool, q: u128) -> (r: Scalar)
    ensures
        r as int == clip(if neg { -(q as int) } else { q as int }),
{
    if neg {
        if q > 0x8000_0000_0000_0000u128 {
            i64::MIN
        } else {
            (-(q as i128)) as i64
        }
    } else {
        if q > i64::MAX as u128 {
            i64::MAX
        } else {
            q as i64
        }
    }
}

/// Truncating division of the product `a * m` by `d`, clamped into the
/// scalar range.
pub fn mul_div_clip(a: Scalar, m: u32, d: u128) -> (r: Scalar)
    requires
        d > 0,
    ensures
        r as int == clip(mul_div_trunc(a as int, m as int, d as int)),
{
    let neg: bool = a < 0;
    let mag: u128 = if neg {
        (-(a as i128)) as u128
    } else {
        a as u128
    };
    proof {
        assert(mag as int * (m as int) <= 0x8000_0000_0000_0000 * 0x1_0000_0000int)
            by (nonlinear_arith)
            requires
                0 <= mag as int <= 0x8000_0000_0000_0000,
                0 <= m as int <= 0x1_0000_0000,
        ;
    }
    let prod: u128 = mag * (m as u128);
    let q: u128 = prod / d;
    proof {
        let am = a as int * m as int;
        assert(prod as int == mag as int * m as int);
        if neg {
            assert((-(a as int)) * (m as int) == -(a as int * m as int)) by (nonlinear_arith);
            assert(a as int * m as int <= 0) by (nonlinear_arith)
                requires
                    a as int <= 0,
                    m as int >= 0,
            ;
            assert(q as int >= 0);
            if am == 0 {
                assert(prod == 0);
                assert(q == 0);
                assert(div_trunc(am, d as int) == 0);
            } else {
                assert(div_trunc(am, d as int) == -(q as int));
            }
        } else {
            assert(a as int * m as int >= 0) by (nonlinear_arith)
                requires
                    a as int >= 0,
                    m as int >= 0,
            ;
            assert(div_trunc(am, d as int) == q as int);
        }
    }
    clamp_signed(neg, q)
}

/// The product `n * s`, clamped into the scalar range.
pub fn sat_mul_count(n: usize, s: Scalar) -> (r: Scalar)
    ensures
        r as int == clip(n as int * s as int),
{
    let neg: bool = s < 0;
    let mag: u128 = if neg {
        (-(s as i128)) as u128
    } else {
        s as u128
    };
    proof {
        assert((n as int) * (mag as int) <= 0x1_0000_0000_0000_0000 * 0x8000_0000_0000_0000int)
            by (nonlinear_arith)
            requires
                0 <= n as int,
                (n as int) < 0x1_0000_0000_0000_0000,
                0 <= mag as int,
                (mag as int) <= 0x8000_0000_0000_0000,
        ;
    }
    let prod: u128 = (n as u128) * mag;
    proof {
        if neg {
            assert((n as int) * (s as int) == -((n as int) * (mag as int))) by (nonlinear_arith)
                requires
                    mag as int == -(s as int),
            ;
        } else {
            assert((n as int) * (s as int) >= 0) by (nonlinear_arith)
                requires
                    n as int >= 0,
                    s as int >= 0,
            ;
        }
    }
    clamp_signed(neg && prod > 0, prod)
}

/// Truncating division of a scalar by a positive count.
pub fn div_scalar(a: Scalar, d: u64) -> (r: Scalar)
    requires
        d > 0,
    ensures
        r as int == div_trunc(a as int, d as int),
{
    let neg: bool = a < 0;
    let mag: u128 = if neg {
        (-(a as i128)) as u128
    } else {
        a as u128
    };
    let q: u128 = mag / (d as u128);
    proof {
        lemma_frac_step_bound(mag as int, 1, d as int);
        assert(mag as int * 1 == mag as int) by (nonlinear_arith);
        assert(q as int <= mag as int);
        if neg {
            if a as int == 0 {
            } else {
                assert(div_trunc(a as int, d as int) == -(q as int));
            }
        } else {
            assert(div_trunc(a as int, d as int) == q as int);
        }
    }
    if neg {
        (-(q as i128)) as i64
    } else {
        q as i64
    }
}

/// Interpolate between `a` and `b` by the unit-interval fraction `f`.
pub fn lerp(a: Scalar, b: Scalar, f: Fraction) -> (r: Scalar)
    requires
        f.valid(),
    ensures
        r as int == lerp_s(a as int, b as int, f),
{
    let delta: i128 = b as i128 - a as i128;
    let neg: bool = delta < 0;
    let mag: u128 = if neg {
        (-delta) as u128
    } else {
        delta as u128
    };
    proof {
        assert(mag as int * (f.num as int) <= 0x1_0000_0000_0000_0000 * 0x1_0000_0000int)
            by (nonlinear_arith)
            requires
                0 <= mag as int <= 0x1_0000_0000_0000_0000,
                0 <= f.num as int <= 0x1_0000_0000,
        ;
    }
    let q: u128 = mag * (f.num as u128) / (f.den as u128);
    let part: i128 = if neg {
        proof {
            lemma_frac_step_bound(mag as int, f.num as int, f.den as int);
        }
        -(q as i128)
    } else {
        proof {
            lemma_frac_step_bound(mag as int, f.num as int, f.den as int);
        }
        q as i128
    };
    proof {
        let d = b - a;
        let n = f.num as int;
        let dn = f.den as int;
        if d >= 0 {
            assert(d * n >= 0) by (nonlinear_arith)
                requires
                    d >= 0,
                    n >= 0,
            ;
            assert(part == div_trunc(d * n, dn));
        } else {
            assert((-d) * n == -(d * n)) by (nonlinear_arith);
            assert(d * n <= 0) by (nonlinear_arith)
                requires
                    d <= 0,
                    n >= 0,
            ;
            if d * n == 0 {
                assert(part == 0);
                assert(div_trunc(0, dn) == 0);
            } else {
                assert(part == div_trunc(d * n, dn));
            }
        }
        assert(part == mul_div_trunc(b - a, f.num as int, f.den as int));
    }
    let w: i128 = a as i128 + part;
    if w > i64::MAX as i128 {
        i64::MAX
    } else if w < i64::MIN as i128 {
        i64::MIN
    } else {
        w as i64
    }
}

} // verus!
