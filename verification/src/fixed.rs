//! Binary fixed-point scalar arithmetic.
//!
//! Every real quantity in the library (field strengths, momenta, angles,
//! probabilities) is a [`Fix`]: an `i64` holding the value scaled by `2^32`.
//! All operations saturate at the representable range and round toward zero,
//! and each has an exact specification over mathematical integers, so the
//! numeric behaviour of the whole library is pinned down bit for bit.

use vstd::prelude::*;
use vstd::arithmetic::div_mod::{lemma_div_is_ordered, lemma_div_multiples_vanish, lemma_div_of0};

verus! {

/// Number of raw units per 1.0: `2^32`.
pub const SCALE: i64 = 4294967296;

/// Saturation of a mathematical integer into the `i64` range.
pub open spec fn sat_i64(x: int) -> int {
    if x > i64::MAX as int {
        i64::MAX as int
    } else if x < i64::MIN as int {
        i64::MIN as int
    } else {
        x
    }
}

/// Absolute value of a mathematical integer.
pub open spec fn abs_int(x: int) -> int {
    if x < 0 {
        -x
    } else {
        x
    }
}

/// Division truncated toward zero (the rounding used by all `Fix` ops).
pub open spec fn tdivs(n: int, d: int) -> int {
    if (n < 0) == (d < 0) {
        abs_int(n) / abs_int(d)
    } else {
        -(abs_int(n) / abs_int(d))
    }
}

/// Saturating fixed-point addition, on raw values.
pub open spec fn fadd(a: int, b: int) -> int {
    sat_i64(a + b)
}

/// Saturating fixed-point subtraction, on raw values.
pub open spec fn fsub(a: int, b: int) -> int {
    sat_i64(a - b)
}

/// Saturating fixed-point multiplication, on raw values.
pub open spec fn fmul(a: int, b: int) -> int {
    sat_i64(tdivs(a * b, SCALE as int))
}

/// Saturating fixed-point division, on raw values; division by zero gives 0.
pub open spec fn fdiv(a: int, b: int) -> int {
    if b == 0 {
        0
    } else {
        sat_i64(tdivs(a * (SCALE as int), b))
    }
}

/// Saturating fixed-point negation, on raw values.
pub open spec fn fneg(a: int) -> int {
    sat_i64(-a)
}

/// `r` is the integer square root of `n`: the greatest `r` with `r^2 <= n`.
pub open spec fn is_sqrt(n: int, r: int) -> bool {
    0 <= r && r * r <= n && n < (r + 1) * (r + 1)
}

/// Raw value of the fixed-point square root of a raw value `a`:
/// characterized, not computed; see [`lemma_sqrt_unique`].
pub open spec fn is_fsqrt(a: int, r: int) -> bool {
    if a <= 0 {
        r == 0
    } else {
        is_sqrt(a * (SCALE as int), r)
    }
}

/// The integer square root is unique.
pub proof fn lemma_sqrt_unique(n: int, r1: int, r2: int)
    requires
        is_sqrt(n, r1),
        is_sqrt(n, r2),
    ensures
        r1 == r2,
{
    if r1 < r2 {
        assert((r1 + 1) * (r1 + 1) <= r2 * r2) by (nonlinear_arith)
            requires 0 <= r1, 0 <= r2, r1 < r2;
    }
    if r2 < r1 {
        assert((r2 + 1) * (r2 + 1) <= r1 * r1) by (nonlinear_arith)
            requires 0 <= r1, 0 <= r2, r2 < r1;
    }
}

/// The fixed-point square root as a value: the unique witness of
/// [`is_fsqrt`].
pub open spec fn fsqrt_val(a: int) -> int {
    choose|r: int| is_fsqrt(a, r)
}

/// Total square-root function on raw values: 0 at or below 0, the
/// [`is_fsqrt`] witness above 0.
pub open spec fn fsqrt_spec(a: int) -> int {
    if a <= 0 {
        0
    } else {
        fsqrt_val(a)
    }
}

/// [`fsqrt_val`] is what any witness of [`is_fsqrt`] equals.
pub proof fn lemma_fsqrt_val(a: int, r: int)
    requires
        is_fsqrt(a, r),
    ensures
        r == fsqrt_val(a),
{
    let w = choose|w: int| is_fsqrt(a, w);
    assert(is_fsqrt(a, w));
    if a > 0 {
        lemma_sqrt_unique(a * (SCALE as int), r, w);
    }
}

/// Multiplying by zero gives exactly zero.
pub proof fn lemma_fmul_zero(a: int)
    ensures
        fmul(a, 0) == 0,
        fmul(0, a) == 0,
{
    assert(a * 0 == 0) by (nonlinear_arith);
    assert(0 * a == 0) by (nonlinear_arith);
    assert(abs_int(0int) / abs_int(SCALE as int) == 0) by {
        lemma_div_of0(SCALE as int);
    }
}

/// Multiplying a representable value by one is exact.
pub proof fn lemma_fmul_one(a: int)
    requires
        i64::MIN <= a <= i64::MAX,
    ensures
        fmul(SCALE as int, a) == a,
        fmul(a, SCALE as int) == a,
{
    let s = SCALE as int;
    assert(abs_int(s * a) == s * abs_int(a)) by (nonlinear_arith)
        requires s > 0;
    assert(abs_int(a * s) == s * abs_int(a)) by (nonlinear_arith)
        requires s > 0;
    assert((s * abs_int(a)) / s == abs_int(a)) by {
        lemma_div_multiples_vanish(abs_int(a), s);
    }
    assert(tdivs(s * a, s) == a);
    assert(tdivs(a * s, s) == a) by {
        assert(a * s == s * a) by (nonlinear_arith);
    }
}

/// A product with a factor of magnitude at most one has at most the other
/// factor's magnitude.
pub proof fn lemma_fmul_bounded(a: int, b: int)
    requires
        abs_int(b) <= SCALE as int,
    ensures
        abs_int(fmul(a, b)) <= abs_int(a),
{
    let s = SCALE as int;
    assert(abs_int(a * b) == abs_int(a) * abs_int(b)) by (nonlinear_arith);
    assert(abs_int(a) * abs_int(b) <= abs_int(a) * s) by (nonlinear_arith)
        requires 0 <= abs_int(b) <= s, 0 <= abs_int(a);
    lemma_div_is_ordered(abs_int(a * b), abs_int(a) * s, s);
    lemma_div_multiples_vanish(abs_int(a), s);
    assert(abs_int(a) * s == s * abs_int(a)) by (nonlinear_arith);
    lemma_div_is_ordered(0, abs_int(a * b), s);
    lemma_div_of0(s);
}

/// A product of nonnegative factors is nonnegative.
pub proof fn lemma_fmul_nonneg(a: int, b: int)
    requires
        a >= 0,
        b >= 0,
    ensures
        fmul(a, b) >= 0,
{
    assert(a * b >= 0) by (nonlinear_arith)
        requires a >= 0, b >= 0;
    lemma_div_is_ordered(0, a * b, SCALE as int);
    lemma_div_of0(SCALE as int);
}

/// A square root of a value at most one is at most one.
pub proof fn lemma_sqrt_le_one(a: int, r: int)
    requires
        is_fsqrt(a, r),
        a <= SCALE as int,
    ensures
        0 <= r <= SCALE as int,
{
    let s = SCALE as int;
    if a > 0 {
        assert(is_sqrt(a * s, r));
        assert(a * s <= s * s) by (nonlinear_arith)
            requires 0 < a <= s;
        if r > s {
            assert(r * r >= (s + 1) * (s + 1)) by (nonlinear_arith)
                requires r >= s + 1, s > 0;
            assert((s + 1) * (s + 1) > s * s) by (nonlinear_arith)
                requires s > 0;
        }
    }
}

/// Fixed-point scalar: the real number `raw / 2^32`.
#[derive(Clone, Copy, PartialEq, Eq, Structural, Debug)]
pub struct Fix {
    pub raw: i64,
}

/// Magnitude of an `i64` as a `u128`.
fn abs_u128(a: i64) -> (r: u128)
    ensures
        r == abs_int(a as int),
{
    if a < 0 {
        (-(a as i128)) as u128
    } else {
        a as u128
    }
}

/// Packs a sign and a magnitude into a saturated raw value.
fn sat_from_parts(neg: bool, q: u128) -> (r: Fix)
    ensures
        r.raw == sat_i64(if neg { -(q as int) } else { q as int }),
{
    if neg {
        if q >= 9223372036854775808u128 {
            Fix { raw: i64::MIN }
        } else {
            Fix { raw: -(q as i64) }
        }
    } else {
        if q >= 9223372036854775808u128 {
            Fix { raw: i64::MAX }
        } else {
            Fix { raw: q as i64 }
        }
    }
}

impl Fix {
    /// The value 0.
    pub fn zero() -> (r: Fix)
        ensures
            r.raw == 0,
    {
        Fix { raw: 0 }
    }

    /// The value 1.
    pub fn one() -> (r: Fix)
        ensures
            r.raw == SCALE as int,
    {
        Fix { raw: SCALE }
    }

    /// The integer `n` as a fixed-point value (saturating).
    pub fn from_int(n: i64) -> (r: Fix)
        ensures
            r.raw == sat_i64(n * (SCALE as int)),
    {
        let neg: bool = n < 0;
        let m: u128 = abs_u128(n);
        let p: u128 = m * 4294967296u128;
        proof {
            assert(m * 4294967296 == abs_int(n as int) * (SCALE as int)) by (nonlinear_arith)
                requires m == abs_int(n as int);
            assert(abs_int(n as int) * (SCALE as int) == abs_int(n * (SCALE as int))) by (nonlinear_arith);
            if n >= 0 {
                assert(n * (SCALE as int) >= 0) by (nonlinear_arith)
                    requires n >= 0;
            } else {
                assert(n * (SCALE as int) < 0) by (nonlinear_arith)
                    requires n < 0;
            }
        }
        sat_from_parts(neg, p)
    }

    /// Saturating addition.
    pub fn add(self, rhs: Fix) -> (r: Fix)
        ensures
            r.raw == fadd(self.raw as int, rhs.raw as int),
    {
        let s: i128 = self.raw as i128 + rhs.raw as i128;
        if s > i64::MAX as i128 {
            Fix { raw: i64::MAX }
        } else if s < i64::MIN as i128 {
            Fix { raw: i64::MIN }
        } else {
            Fix { raw: s as i64 }
        }
    }

    /// Saturating subtraction.
    pub fn sub(self, rhs: Fix) -> (r: Fix)
        ensures
            r.raw == fsub(self.raw as int, rhs.raw as int),
    {
        let s: i128 = self.raw as i128 - rhs.raw as i128;
        if s > i64::MAX as i128 {
            Fix { raw: i64::MAX }
        } else if s < i64::MIN as i128 {
            Fix { raw: i64::MIN }
        } else {
            Fix { raw: s as i64 }
        }
    }

    /// Saturating negation.
    pub fn neg(self) -> (r: Fix)
        ensures
            r.raw == fneg(self.raw as int),
    {
        if self.raw == i64::MIN {
            Fix { raw: i64::MAX }
        } else {
            Fix { raw: -self.raw }
        }
    }

    /// Absolute value (saturating at `i64::MAX`).
    pub fn abs(self) -> (r: Fix)
        ensures
            r.raw == sat_i64(abs_int(self.raw as int)),
    {
        if self.raw < 0 {
            self.neg()
        } else {
            self
        }
    }

    /// Saturating multiplication, rounding toward zero.
    pub fn mul(self, rhs: Fix) -> (r: Fix)
        ensures
            r.raw == fmul(self.raw as int, rhs.raw as int),
    {
        let a = self.raw;
        let b = rhs.raw;
        let neg: bool = (a < 0) != (b < 0);
        let ua: u128 = abs_u128(a);
        let ub: u128 = abs_u128(b);
        proof {
            assert(ua * ub <= 0x8000000000000000u128 * 0x8000000000000000u128) by (nonlinear_arith)
                requires ua <= 0x8000000000000000u128, ub <= 0x8000000000000000u128;
            assert(abs_int(a as int) * abs_int(b as int) == abs_int((a as int) * (b as int))) by (nonlinear_arith);
        }
        let p: u128 = ua * ub;
        let q: u128 = p / 4294967296u128;
        proof {
            let ab = (a as int) * (b as int);
            assert(q == abs_int(ab) / (SCALE as int));
            if a != 0 && b != 0 {
                if neg {
                    assert(ab < 0) by (nonlinear_arith)
                        requires (a < 0) != (b < 0), a != 0, b != 0, ab == (a as int) * (b as int);
                } else {
                    assert(ab > 0) by (nonlinear_arith)
                        requires (a < 0) == (b < 0), a != 0, b != 0, ab == (a as int) * (b as int);
                }
            } else {
                assert(ab == 0) by (nonlinear_arith)
                    requires a == 0 || b == 0, ab == (a as int) * (b as int);
            }
        }
        sat_from_parts(neg, q)
    }

    /// Saturating division, rounding toward zero; division by zero gives 0.
    pub fn div(self, rhs: Fix) -> (r: Fix)
        ensures
            r.raw == fdiv(self.raw as int, rhs.raw as int),
    {
        let a = self.raw;
        let b = rhs.raw;
        if b == 0 {
            return Fix { raw: 0 };
        }
        let neg: bool = (a < 0) != (b < 0);
        let ua: u128 = abs_u128(a);
        let ub: u128 = abs_u128(b);
        proof {
            assert(ua * 4294967296 <= 0x8000000000000000u128 * 4294967296) by (nonlinear_arith)
                requires ua <= 0x8000000000000000u128;
        }
        let p: u128 = ua * 4294967296u128;
        let q: u128 = p / ub;
        proof {
            let n = (a as int) * (SCALE as int);
            assert(abs_int(a as int) * (SCALE as int) == abs_int(n)) by (nonlinear_arith)
                requires n == (a as int) * (SCALE as int);
            assert(q == abs_int(n) / abs_int(b as int));
            if a != 0 {
                if neg {
                    assert((n < 0) != ((b as int) < 0)) by (nonlinear_arith)
                        requires (a < 0) != (b < 0), a != 0, b != 0, n == (a as int) * (SCALE as int);
                } else {
                    assert((n < 0) == ((b as int) < 0)) by (nonlinear_arith)
                        requires (a < 0) == (b < 0), a != 0, b != 0, n == (a as int) * (SCALE as int);
                }
            } else {
                assert(n == 0) by (nonlinear_arith)
                    requires a == 0, n == (a as int) * (SCALE as int);
            }
        }
        sat_from_parts(neg, q)
    }

    /// Fixed-point square root: for positive values, the greatest `r`
    /// with `r^2 <= self * 2^32` in raw units; 0 for values at or below 0.
    pub fn sqrt(self) -> (r: Fix)
        ensures
            is_fsqrt(self.raw as int, r.raw as int),
            r.raw == fsqrt_spec(self.raw as int),
            r.raw >= 0,
    {
        if self.raw <= 0 {
            proof {
                lemma_fsqrt_val(self.raw as int, 0);
            }
            return Fix { raw: 0 };
        }
        let n: u128 = (self.raw as u128) * 4294967296u128;
        proof {
            assert(n < 281474976710656u128 * 281474976710656u128) by (nonlinear_arith)
                requires n < 0x8000000000000000u128 * 4294967296u128;
        }
        let mut lo: u128 = 0;
        let mut hi: u128 = 281474976710656u128;
        while lo + 1 < hi
            invariant
                lo < hi,
                hi <= 281474976710656u128,
                lo * lo <= n,
                n < hi * hi,
            decreases hi - lo,
        {
            let mid: u128 = lo + (hi - lo) / 2;
            proof {
                assert(mid * mid < 281474976710657u128 * 281474976710657u128) by (nonlinear_arith)
                    requires mid <= 281474976710656u128;
            }
            if mid * mid <= n {
                lo = mid;
            } else {
                hi = mid;
            }
        }
        assert(is_sqrt(n as int, lo as int));
        proof {
            lemma_fsqrt_val(self.raw as int, lo as int);
        }
        Fix { raw: lo as i64 }
    }

    /// Clamp into `[0, 1]`.
    pub fn clamp01(self) -> (r: Fix)
        ensures
            r.raw == if self.raw < 0 { 0 } else if self.raw > SCALE as int { SCALE as int } else { self.raw as int },
    {
        if self.raw < 0 {
            Fix { raw: 0 }
        } else if self.raw > SCALE {
            Fix { raw: SCALE }
        } else {
            self
        }
    }
}

} // verus!
