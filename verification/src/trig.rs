//! Trigonometric and exponential approximants on [`Fix`].
//!
//! The library defines its own closed-form approximants: an angle is reduced
//! modulo `2*pi` and folded into a quadrant, then a fixed-order Taylor
//! polynomial is evaluated in fixed-point arithmetic. The specification of
//! each function is exactly the reduced, folded polynomial, so callers reason
//! about a pinned-down value, and results are clamped to their mathematical
//! range (`[-1, 1]` for sine and cosine, `[0, 1]` for the decaying
//! exponential).

use vstd::prelude::*;
use crate::fixed::{Fix, SCALE, fsub, fmul, fneg, abs_int};

verus! {

/// `2*pi` in raw fixed-point units.
pub const TAU_RAW: i64 = 26986075409;

/// `pi` in raw fixed-point units.
pub const PI_RAW: i64 = 13493037705;

/// `pi/2` in raw fixed-point units.
pub const HALF_PI_RAW: i64 = 6746518852;

/// `1/e` in raw fixed-point units.
pub const E_INV_RAW: i64 = 1580030169;

/// An angle folded into `(-pi, pi]` (up to one raw unit at the edges).
pub open spec fn reduce_angle(x: int) -> int {
    let m = abs_int(x) % (TAU_RAW as int);
    let m2 = if x < 0 && m != 0 {
        (TAU_RAW as int) - m
    } else {
        m
    };
    if m2 > PI_RAW as int {
        m2 - (TAU_RAW as int)
    } else {
        m2
    }
}

/// Cosine polynomial kernel on `[-pi/2, pi/2]`:
/// `1 - t/2 + t^2/24 - t^3/720 + t^4/40320` with `t = x^2`, evaluated
/// by Horner's rule in saturating fixed point.
pub open spec fn cos_kernel_spec(x: int) -> int {
    let t = fmul(x, x);
    let h = fsub(5965232, fmul(t, 106533));
    let h = fsub(178956971, fmul(t, h));
    let h = fsub(2147483648, fmul(t, h));
    fsub(SCALE as int, fmul(t, h))
}

/// Sine polynomial kernel on `[-pi/2, pi/2]`:
/// `x * (1 - t/6 + t^2/120 - t^3/5040 + t^4/362880)` with `t = x^2`.
pub open spec fn sin_kernel_spec(x: int) -> int {
    let t = fmul(x, x);
    let h = fsub(852176, fmul(t, 11836));
    let h = fsub(35791394, fmul(t, h));
    let h = fsub(715827883, fmul(t, h));
    fmul(x, fsub(SCALE as int, fmul(t, h)))
}

/// Clamp a raw value into `[-1, 1]`.
pub open spec fn clamp_pm1_spec(x: int) -> int {
    if x < -(SCALE as int) {
        -(SCALE as int)
    } else if x > SCALE as int {
        SCALE as int
    } else {
        x
    }
}

/// Clamp a raw value into `[0, 1]`.
pub open spec fn clamp01_spec(x: int) -> int {
    if x < 0 {
        0
    } else if x > SCALE as int {
        SCALE as int
    } else {
        x
    }
}

/// The library's cosine: reduction, quadrant folding, kernel, clamp.
pub open spec fn cos_spec(x: int) -> int {
    let r = reduce_angle(x);
    let a = abs_int(r);
    let k = if a > HALF_PI_RAW as int {
        fneg(cos_kernel_spec((PI_RAW as int) - a))
    } else {
        cos_kernel_spec(a)
    };
    clamp_pm1_spec(k)
}

/// The library's sine: reduction, quadrant folding, kernel, clamp.
pub open spec fn sin_spec(x: int) -> int {
    let r = reduce_angle(x);
    let a = abs_int(r);
    let folded = if a > HALF_PI_RAW as int {
        (PI_RAW as int) - a
    } else {
        a
    };
    let k = sin_kernel_spec(folded);
    if r < 0 {
        clamp_pm1_spec(fneg(k))
    } else {
        clamp_pm1_spec(k)
    }
}

/// Repeated multiplication by `1/e`, in saturating fixed point.
pub open spec fn einv_steps(v: int, k: nat) -> int
    decreases k,
{
    if k == 0 {
        v
    } else {
        fmul(einv_steps(v, (k - 1) as nat), E_INV_RAW as int)
    }
}

/// Exponential-decay polynomial kernel on `[0, 1)`:
/// `1 - f + f^2/2 - f^3/6 + f^4/24 - f^5/120 + f^6/720 - f^7/5040`.
pub open spec fn expn_kernel_spec(f: int) -> int {
    let h = fsub(5965232, fmul(f, 852176));
    let h = fsub(35791394, fmul(f, h));
    let h = fsub(178956971, fmul(f, h));
    let h = fsub(715827883, fmul(f, h));
    let h = fsub(2147483648, fmul(f, h));
    let h = fsub(SCALE as int, fmul(f, h));
    fsub(SCALE as int, fmul(f, h))
}

/// The library's decaying exponential `exp(-x)` for `x >= 0`:
/// split into integer and fractional parts, kernel on the fraction,
/// repeated `1/e` factors for the integer part, clamp into `[0, 1]`.
pub open spec fn exp_neg_spec(x: int) -> int {
    if x <= 0 {
        SCALE as int
    } else if x >= 23 * (SCALE as int) {
        0
    } else {
        let n = x / (SCALE as int);
        let f = x % (SCALE as int);
        clamp01_spec(einv_steps(expn_kernel_spec(f), n as nat))
    }
}

/// The approximants are exact at an angle of zero: cos 0 = 1, sin 0 = 0.
pub proof fn lemma_trig_at_zero()
    ensures
        cos_spec(0) == SCALE as int,
        sin_spec(0) == 0,
{
    assert forall|a: int| #[trigger] fmul(0, a) == 0 by {
        crate::fixed::lemma_fmul_zero(a);
    };
    assert(abs_int(0int) % (TAU_RAW as int) == 0);
    assert(reduce_angle(0) == 0);
    assert(cos_kernel_spec(0) == SCALE as int);
    assert(sin_kernel_spec(0) == 0);
}

impl Fix {
    /// Clamp into `[-1, 1]`.
    pub fn clamp_pm1(self) -> (r: Fix)
        ensures
            r.raw == clamp_pm1_spec(self.raw as int),
    {
        if self.raw < -SCALE {
            Fix { raw: -SCALE }
        } else if self.raw > SCALE {
            Fix { raw: SCALE }
        } else {
            self
        }
    }

    /// Fold this value, read as an angle, into `(-pi, pi]`.
    pub fn reduce_angle(self) -> (r: Fix)
        ensures
            r.raw == reduce_angle(self.raw as int),
            -(PI_RAW as int) <= r.raw <= PI_RAW as int,
    {
        let ux: u128 = if self.raw < 0 {
            (-(self.raw as i128)) as u128
        } else {
            self.raw as u128
        };
        let m: u64 = (ux % 26986075409u128) as u64;
        let m2: u64 = if self.raw < 0 && m != 0 {
            26986075409u64 - m
        } else {
            m
        };
        if m2 > PI_RAW as u64 {
            Fix { raw: (m2 as i64) - TAU_RAW }
        } else {
            Fix { raw: m2 as i64 }
        }
    }

    /// Cosine of this value, read as an angle in radians.
    pub fn cos(self) -> (r: Fix)
        ensures
            r.raw == cos_spec(self.raw as int),
            -(SCALE as int) <= r.raw <= SCALE as int,
    {
        let red = self.reduce_angle();
        let a = red.abs();
        let k: Fix = if a.raw > HALF_PI_RAW {
            let folded = Fix { raw: PI_RAW - a.raw };
            cos_kernel(folded).neg()
        } else {
            cos_kernel(a)
        };
        k.clamp_pm1()
    }

    /// Sine of this value, read as an angle in radians.
    pub fn sin(self) -> (r: Fix)
        ensures
            r.raw == sin_spec(self.raw as int),
            -(SCALE as int) <= r.raw <= SCALE as int,
    {
        let red = self.reduce_angle();
        let a = red.abs();
        let folded: Fix = if a.raw > HALF_PI_RAW {
            Fix { raw: PI_RAW - a.raw }
        } else {
            a
        };
        let k = sin_kernel(folded);
        if red.raw < 0 {
            k.neg().clamp_pm1()
        } else {
            k.clamp_pm1()
        }
    }

    /// The decaying exponential `exp(-self)` for nonnegative values;
    /// 1 for values at or below 0.
    pub fn exp_neg(self) -> (r: Fix)
        ensures
            r.raw == exp_neg_spec(self.raw as int),
            0 <= r.raw <= SCALE as int,
    {
        if self.raw <= 0 {
            return Fix { raw: SCALE };
        }
        if self.raw >= 23 * SCALE {
            return Fix { raw: 0 };
        }
        let ux: u64 = self.raw as u64;
        let n: u64 = ux / 4294967296u64;
        let f: u64 = ux % 4294967296u64;
        let kern = expn_kernel(Fix { raw: f as i64 });
        let mut cur = kern;
        let mut i: u64 = 0;
        while i < n
            invariant
                i <= n,
                cur.raw == einv_steps(kern.raw as int, i as nat),
            decreases n - i,
        {
            cur = cur.mul(Fix { raw: E_INV_RAW });
            i = i + 1;
        }
        cur.clamp01()
    }
}

/// Cosine polynomial kernel (see [`cos_kernel_spec`]).
fn cos_kernel(x: Fix) -> (r: Fix)
    ensures
        r.raw == cos_kernel_spec(x.raw as int),
{
    let t = x.mul(x);
    let h = Fix { raw: 5965232 }.sub(t.mul(Fix { raw: 106533 }));
    let h = Fix { raw: 178956971 }.sub(t.mul(h));
    let h = Fix { raw: 2147483648 }.sub(t.mul(h));
    Fix { raw: SCALE }.sub(t.mul(h))
}

/// Sine polynomial kernel (see [`sin_kernel_spec`]).
fn sin_kernel(x: Fix) -> (r: Fix)
    ensures
        r.raw == sin_kernel_spec(x.raw as int),
{
    let t = x.mul(x);
    let h = Fix { raw: 852176 }.sub(t.mul(Fix { raw: 11836 }));
    let h = Fix { raw: 35791394 }.sub(t.mul(h));
    let h = Fix { raw: 715827883 }.sub(t.mul(h));
    x.mul(Fix { raw: SCALE }.sub(t.mul(h)))
}

/// Exponential-decay polynomial kernel (see [`expn_kernel_spec`]).
fn expn_kernel(f: Fix) -> (r: Fix)
    ensures
        r.raw == expn_kernel_spec(f.raw as int),
{
    let h = Fix { raw: 5965232 }.sub(f.mul(Fix { raw: 852176 }));
    let h = Fix { raw: 35791394 }.sub(f.mul(h));
    let h = Fix { raw: 178956971 }.sub(f.mul(h));
    let h = Fix { raw: 715827883 }.sub(f.mul(h));
    let h = Fix { raw: 2147483648 }.sub(f.mul(h));
    let h = Fix { raw: SCALE }.sub(f.mul(h));
    Fix { raw: SCALE }.sub(f.mul(h))
}

} // verus!
