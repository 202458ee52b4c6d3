//! Three-vectors, four-vectors and Stokes vectors over [`Fix`].
//!
//! The metric convention is `(+,-,-,-)`: a massive particle's normalized
//! four-momentum has unit invariant norm after [`FourVector::unitize`], a
//! photon's is light-like after [`FourVector::lightlike`]. The two
//! invariants are proved, with the exact fixed-point error bound, in
//! [`lemma_unitize_timelike`] and [`lemma_lightlike_null`].

use vstd::prelude::*;
use vstd::arithmetic::div_mod::{lemma_div_is_ordered, lemma_div_multiples_vanish, lemma_fundamental_div_mod, lemma_mod_bound, lemma_div_of0};
use crate::fixed::{Fix, SCALE, fadd, fsub, fmul, fneg, is_fsqrt, is_sqrt, fsqrt_spec, tdivs, abs_int};
use crate::trig::{cos_spec, sin_spec};

verus! {

/// A spatial vector of three fixed-point components.
#[derive(Clone, Copy, PartialEq, Eq, Structural, Debug)]
pub struct ThreeVector {
    pub x: Fix,
    pub y: Fix,
    pub z: Fix,
}

/// Raw value of the dot product `a . b`, in saturating fixed point.
pub open spec fn dot3_spec(a: ThreeVector, b: ThreeVector) -> int {
    fadd(fadd(fmul(a.x.raw as int, b.x.raw as int), fmul(a.y.raw as int, b.y.raw as int)),
        fmul(a.z.raw as int, b.z.raw as int))
}

/// A three-vector from raw component values (which must be representable).
pub open spec fn v3(x: int, y: int, z: int) -> ThreeVector {
    ThreeVector { x: Fix { raw: x as i64 }, y: Fix { raw: y as i64 }, z: Fix { raw: z as i64 } }
}

/// Specification value of the componentwise sum.
pub open spec fn add3_spec(a: ThreeVector, b: ThreeVector) -> ThreeVector {
    v3(fadd(a.x.raw as int, b.x.raw as int), fadd(a.y.raw as int, b.y.raw as int),
        fadd(a.z.raw as int, b.z.raw as int))
}

/// Specification value of the componentwise difference.
pub open spec fn sub3_spec(a: ThreeVector, b: ThreeVector) -> ThreeVector {
    v3(fsub(a.x.raw as int, b.x.raw as int), fsub(a.y.raw as int, b.y.raw as int),
        fsub(a.z.raw as int, b.z.raw as int))
}

/// Specification value of the scalar multiple.
pub open spec fn scale3_spec(s: int, a: ThreeVector) -> ThreeVector {
    v3(fmul(s, a.x.raw as int), fmul(s, a.y.raw as int), fmul(s, a.z.raw as int))
}

/// Specification value of the rotation about the y axis.
pub open spec fn roty_spec(a: ThreeVector, ang: int) -> ThreeVector {
    v3(fadd(fmul(a.x.raw as int, cos_spec(ang)), fmul(a.z.raw as int, sin_spec(ang))),
        a.y.raw as int,
        fadd(fneg(fmul(a.x.raw as int, sin_spec(ang))), fmul(a.z.raw as int, cos_spec(ang))))
}

/// Specification value of the rotation about the z axis.
pub open spec fn rotz_spec(a: ThreeVector, ang: int) -> ThreeVector {
    v3(fsub(fmul(a.x.raw as int, cos_spec(ang)), fmul(a.y.raw as int, sin_spec(ang))),
        fadd(fmul(a.x.raw as int, sin_spec(ang)), fmul(a.y.raw as int, cos_spec(ang))),
        a.z.raw as int)
}

/// Specification value of the cross product.
pub open spec fn cross3_spec(a: ThreeVector, b: ThreeVector) -> ThreeVector {
    v3(fsub(fmul(a.y.raw as int, b.z.raw as int), fmul(a.z.raw as int, b.y.raw as int)),
        fsub(fmul(a.z.raw as int, b.x.raw as int), fmul(a.x.raw as int, b.z.raw as int)),
        fsub(fmul(a.x.raw as int, b.y.raw as int), fmul(a.y.raw as int, b.x.raw as int)))
}

impl ThreeVector {
    /// A vector from its three components.
    pub fn new(x: Fix, y: Fix, z: Fix) -> (r: ThreeVector)
        ensures
            r == (ThreeVector { x, y, z }),
    {
        ThreeVector { x, y, z }
    }

    /// The zero vector.
    pub fn zero() -> (r: ThreeVector)
        ensures
            r.x.raw == 0 && r.y.raw == 0 && r.z.raw == 0,
    {
        ThreeVector { x: Fix { raw: 0 }, y: Fix { raw: 0 }, z: Fix { raw: 0 } }
    }

    /// Componentwise sum.
    pub fn add(self, o: ThreeVector) -> (r: ThreeVector)
        ensures
            r.x.raw == fadd(self.x.raw as int, o.x.raw as int),
            r.y.raw == fadd(self.y.raw as int, o.y.raw as int),
            r.z.raw == fadd(self.z.raw as int, o.z.raw as int),
    {
        ThreeVector { x: self.x.add(o.x), y: self.y.add(o.y), z: self.z.add(o.z) }
    }

    /// Componentwise difference.
    pub fn sub(self, o: ThreeVector) -> (r: ThreeVector)
        ensures
            r.x.raw == fsub(self.x.raw as int, o.x.raw as int),
            r.y.raw == fsub(self.y.raw as int, o.y.raw as int),
            r.z.raw == fsub(self.z.raw as int, o.z.raw as int),
    {
        ThreeVector { x: self.x.sub(o.x), y: self.y.sub(o.y), z: self.z.sub(o.z) }
    }

    /// Scalar multiple.
    pub fn scale(self, s: Fix) -> (r: ThreeVector)
        ensures
            r.x.raw == fmul(s.raw as int, self.x.raw as int),
            r.y.raw == fmul(s.raw as int, self.y.raw as int),
            r.z.raw == fmul(s.raw as int, self.z.raw as int),
    {
        ThreeVector { x: s.mul(self.x), y: s.mul(self.y), z: s.mul(self.z) }
    }

    /// Dot product.
    pub fn dot(self, o: ThreeVector) -> (r: Fix)
        ensures
            r.raw == dot3_spec(self, o),
    {
        self.x.mul(o.x).add(self.y.mul(o.y)).add(self.z.mul(o.z))
    }

    /// Cross product.
    pub fn cross(self, o: ThreeVector) -> (r: ThreeVector)
        ensures
            r.x.raw == fsub(fmul(self.y.raw as int, o.z.raw as int), fmul(self.z.raw as int, o.y.raw as int)),
            r.y.raw == fsub(fmul(self.z.raw as int, o.x.raw as int), fmul(self.x.raw as int, o.z.raw as int)),
            r.z.raw == fsub(fmul(self.x.raw as int, o.y.raw as int), fmul(self.y.raw as int, o.x.raw as int)),
    {
        ThreeVector {
            x: self.y.mul(o.z).sub(self.z.mul(o.y)),
            y: self.z.mul(o.x).sub(self.x.mul(o.z)),
            z: self.x.mul(o.y).sub(self.y.mul(o.x)),
        }
    }

    /// Rotation about the y axis by `angle` radians:
    /// `x' = x cos a + z sin a`, `z' = -x sin a + z cos a`.
    pub fn rotate_around_y(self, angle: Fix) -> (r: ThreeVector)
        ensures
            r == roty_spec(self, angle.raw as int),
    {
        let c = angle.cos();
        let s = angle.sin();
        ThreeVector {
            x: self.x.mul(c).add(self.z.mul(s)),
            y: self.y,
            z: self.x.mul(s).neg().add(self.z.mul(c)),
        }
    }

    /// Rotation about the z axis by `angle` radians:
    /// `x' = x cos a - y sin a`, `y' = x sin a + y cos a`.
    pub fn rotate_around_z(self, angle: Fix) -> (r: ThreeVector)
        ensures
            r == rotz_spec(self, angle.raw as int),
    {
        let c = angle.cos();
        let s = angle.sin();
        ThreeVector {
            x: self.x.mul(c).sub(self.y.mul(s)),
            y: self.x.mul(s).add(self.y.mul(c)),
            z: self.z,
        }
    }
}

/// A spacetime vector: time component `t`, spatial components `x`, `y`, `z`.
#[derive(Clone, Copy, PartialEq, Eq, Structural, Debug)]
pub struct FourVector {
    pub t: Fix,
    pub x: Fix,
    pub y: Fix,
    pub z: Fix,
}

/// Raw value of the Minkowski inner product `a . b` under `(+,-,-,-)`,
/// in saturating fixed point.
pub open spec fn inner_spec(a: FourVector, b: FourVector) -> int {
    fsub(fsub(fsub(fmul(a.t.raw as int, b.t.raw as int), fmul(a.x.raw as int, b.x.raw as int)),
        fmul(a.y.raw as int, b.y.raw as int)), fmul(a.z.raw as int, b.z.raw as int))
}

/// The four-vector `v` carries the spatial part `s` and a time component
/// that closes the mass shell `t^2 = m2 + |s|^2` (in raw units, through
/// the fixed-point square root): `m2 = SCALE` for a massive particle,
/// `m2 = 0` for a photon.
pub open spec fn on_shell(v: FourVector, m2: int) -> bool {
    is_fsqrt(fadd(m2, dot3_spec(v.spatial(), v.spatial())), v.t.raw as int)
}

/// A four-vector from raw component values (which must be representable).
pub open spec fn v4(t: int, x: int, y: int, z: int) -> FourVector {
    FourVector {
        t: Fix { raw: t as i64 },
        x: Fix { raw: x as i64 },
        y: Fix { raw: y as i64 },
        z: Fix { raw: z as i64 },
    }
}

/// Specification value of the componentwise four-vector sum.
pub open spec fn add4_spec(a: FourVector, b: FourVector) -> FourVector {
    v4(fadd(a.t.raw as int, b.t.raw as int), fadd(a.x.raw as int, b.x.raw as int),
        fadd(a.y.raw as int, b.y.raw as int), fadd(a.z.raw as int, b.z.raw as int))
}

/// Specification value of the componentwise four-vector difference.
pub open spec fn sub4_spec(a: FourVector, b: FourVector) -> FourVector {
    v4(fsub(a.t.raw as int, b.t.raw as int), fsub(a.x.raw as int, b.x.raw as int),
        fsub(a.y.raw as int, b.y.raw as int), fsub(a.z.raw as int, b.z.raw as int))
}

/// Specification value of the four-vector scalar multiple.
pub open spec fn scale4_spec(s: int, a: FourVector) -> FourVector {
    v4(fmul(s, a.t.raw as int), fmul(s, a.x.raw as int), fmul(s, a.y.raw as int),
        fmul(s, a.z.raw as int))
}

/// Specification value of [`FourVector::unitize`].
pub open spec fn unitize_spec(v: FourVector) -> FourVector {
    v4(fsqrt_spec(fadd(SCALE as int, dot3_spec(v.spatial(), v.spatial()))), v.x.raw as int,
        v.y.raw as int, v.z.raw as int)
}

/// Specification value of [`FourVector::lightlike`].
pub open spec fn lightlike_spec(x: Fix, y: Fix, z: Fix) -> FourVector {
    v4(fsqrt_spec(dot3_spec(ThreeVector { x, y, z }, ThreeVector { x, y, z })), x.raw as int,
        y.raw as int, z.raw as int)
}

impl FourVector {
    /// A four-vector from its components.
    pub fn new(t: Fix, x: Fix, y: Fix, z: Fix) -> (r: FourVector)
        ensures
            r == (FourVector { t, x, y, z }),
    {
        FourVector { t, x, y, z }
    }

    /// The spatial part.
    pub open spec fn spatial(self) -> ThreeVector {
        ThreeVector { x: self.x, y: self.y, z: self.z }
    }

    /// The spatial part, as an executable value.
    pub fn spatial_part(self) -> (r: ThreeVector)
        ensures
            r == self.spatial(),
    {
        ThreeVector { x: self.x, y: self.y, z: self.z }
    }

    /// Componentwise sum.
    pub fn add(self, o: FourVector) -> (r: FourVector)
        ensures
            r.t.raw == fadd(self.t.raw as int, o.t.raw as int),
            r.x.raw == fadd(self.x.raw as int, o.x.raw as int),
            r.y.raw == fadd(self.y.raw as int, o.y.raw as int),
            r.z.raw == fadd(self.z.raw as int, o.z.raw as int),
    {
        FourVector { t: self.t.add(o.t), x: self.x.add(o.x), y: self.y.add(o.y), z: self.z.add(o.z) }
    }

    /// Componentwise difference.
    pub fn sub(self, o: FourVector) -> (r: FourVector)
        ensures
            r.t.raw == fsub(self.t.raw as int, o.t.raw as int),
            r.x.raw == fsub(self.x.raw as int, o.x.raw as int),
            r.y.raw == fsub(self.y.raw as int, o.y.raw as int),
            r.z.raw == fsub(self.z.raw as int, o.z.raw as int),
    {
        FourVector { t: self.t.sub(o.t), x: self.x.sub(o.x), y: self.y.sub(o.y), z: self.z.sub(o.z) }
    }

    /// Scalar multiple of all four components.
    pub fn scale(self, s: Fix) -> (r: FourVector)
        ensures
            r.t.raw == fmul(s.raw as int, self.t.raw as int),
            r.x.raw == fmul(s.raw as int, self.x.raw as int),
            r.y.raw == fmul(s.raw as int, self.y.raw as int),
            r.z.raw == fmul(s.raw as int, self.z.raw as int),
    {
        FourVector { t: s.mul(self.t), x: s.mul(self.x), y: s.mul(self.y), z: s.mul(self.z) }
    }

    /// Minkowski inner product under `(+,-,-,-)`.
    pub fn inner(self, o: FourVector) -> (r: Fix)
        ensures
            r.raw == inner_spec(self, o),
    {
        self.t.mul(o.t).sub(self.x.mul(o.x)).sub(self.y.mul(o.y)).sub(self.z.mul(o.z))
    }

    /// Rebuilds the time component so that the result is a normalized
    /// massive-particle momentum: `t = sqrt(1 + |spatial|^2)`.
    pub fn unitize(self) -> (r: FourVector)
        ensures
            r == unitize_spec(self),
            on_shell(r, SCALE as int),
            r.t.raw >= 0,
    {
        let s = self.spatial_part();
        let n = Fix { raw: SCALE }.add(s.dot(s));
        let t = n.sqrt();
        FourVector { t, x: self.x, y: self.y, z: self.z }
    }

    /// A light-like four-momentum from a spatial part: `t = sqrt(|spatial|^2)`.
    pub fn lightlike(x: Fix, y: Fix, z: Fix) -> (r: FourVector)
        ensures
            r == lightlike_spec(x, y, z),
            on_shell(r, 0),
            r.t.raw >= 0,
    {
        let s = ThreeVector { x, y, z };
        let t = s.dot(s).sqrt();
        FourVector { t, x, y, z }
    }
}

/// Squaring a component under the magnitude bound: exact division, no
/// saturation.
proof fn lemma_square_fmul(x: int)
    requires
        abs_int(x) <= 0x400000000000,
    ensures
        fmul(x, x) == (x * x) / (SCALE as int),
        0 <= fmul(x, x) <= 0x1000000000000000,
{
    let s = SCALE as int;
    assert(x * x == abs_int(x) * abs_int(x)) by (nonlinear_arith);
    assert(abs_int(x) * abs_int(x) <= 0x400000000000 * 0x400000000000) by (nonlinear_arith)
        requires 0 <= abs_int(x) <= 0x400000000000;
    assert(tdivs(x * x, s) == (x * x) / s);
    lemma_div_is_ordered(0, x * x, s);
    lemma_div_is_ordered(x * x, 0x400000000000int * 0x400000000000, s);
    assert((0x400000000000int * 0x400000000000) / s == 0x1000000000000000);
    lemma_div_of0(s);
}

/// The squared length of a spatial vector is nonnegative.
pub proof fn lemma_dot3_self_nonneg(a: ThreeVector)
    ensures
        dot3_spec(a, a) >= 0,
{
    let s = SCALE as int;
    let x = a.x.raw as int;
    let y = a.y.raw as int;
    let z = a.z.raw as int;
    assert(x * x >= 0) by (nonlinear_arith);
    assert(y * y >= 0) by (nonlinear_arith);
    assert(z * z >= 0) by (nonlinear_arith);
    lemma_div_is_ordered(0, x * x, s);
    lemma_div_is_ordered(0, y * y, s);
    lemma_div_is_ordered(0, z * z, s);
    lemma_div_of0(s);
}

/// A momentum on the massive shell has Lorentz factor at least one.
pub proof fn lemma_unitized_gamma(v: FourVector)
    requires
        on_shell(v, SCALE as int),
    ensures
        v.t.raw >= SCALE as int,
{
    let s = SCALE as int;
    let t = v.t.raw as int;
    lemma_dot3_self_nonneg(v.spatial());
    let d = dot3_spec(v.spatial(), v.spatial());
    let n = fadd(s, d);
    assert(n >= s);
    assert(is_sqrt(n * s, t));
    assert(n * s >= s * s) by (nonlinear_arith)
        requires n >= s, s > 0;
    assert(t + 1 > s) by (nonlinear_arith)
        requires (t + 1) * (t + 1) > s * s, t >= 0, s > 0;
}

/// Unitization invariant: a massive-particle momentum on the mass shell has
/// unit invariant norm, up to the scalar model's granularity. The deficit
/// `1 - u.u` is at most `(2 u_t + 1) / 2^32` raw units, about `2 gamma`
/// units in the last place: a relative tolerance of `(2 gamma + 1) 2^-32`,
/// around `5e-7` at `gamma = 1000`. This granularity bound is the model's
/// reading of the invariant's tolerance: a finer scale would tighten it
/// but could no longer represent `gamma^2`, which the shell construction
/// and the quantum-parameter computation must hold.
pub proof fn lemma_unitize_timelike(v: FourVector)
    requires
        on_shell(v, SCALE as int),
        abs_int(v.x.raw as int) <= 0x400000000000,
        abs_int(v.y.raw as int) <= 0x400000000000,
        abs_int(v.z.raw as int) <= 0x400000000000,
    ensures
        inner_spec(v, v) <= SCALE as int,
        (SCALE as int) * ((SCALE as int) - inner_spec(v, v)) <= 2 * (v.t.raw as int) + (SCALE as int) - 1,
{
    let s = SCALE as int;
    let x = v.x.raw as int;
    let y = v.y.raw as int;
    let z = v.z.raw as int;
    let t = v.t.raw as int;
    lemma_square_fmul(x);
    lemma_square_fmul(y);
    lemma_square_fmul(z);
    let qx = fmul(x, x);
    let qy = fmul(y, y);
    let qz = fmul(z, z);
    let d = dot3_spec(v.spatial(), v.spatial());
    assert(d == qx + qy + qz);
    let n = fadd(s, d);
    assert(n == s + d);
    assert(is_sqrt(n * s, t));
    assert(t * t <= n * s);
    assert(n * s < (t + 1) * (t + 1));
    assert(t * t >= 0) by (nonlinear_arith)
        requires t >= 0;
    assert(tdivs(t * t, s) == (t * t) / s);
    lemma_div_is_ordered(t * t, n * s, s);
    assert((s * n) / s == n) by {
        lemma_div_multiples_vanish(n, s);
    }
    assert(n * s == s * n) by (nonlinear_arith);
    let ftt = fmul(t, t);
    assert(0 <= (t * t) / s) by {
        lemma_div_is_ordered(0, t * t, s);
        assert(0int / s == 0);
    }
    assert(ftt == (t * t) / s);
    let inner = inner_spec(v, v);
    assert(inner == ftt - qx - qy - qz);
    lemma_fundamental_div_mod(t * t, s);
    lemma_mod_bound(t * t, s);
    let rem = (t * t) % s;
    assert(s * ftt == t * t - rem);
    assert(s * inner == s * ftt - s * qx - s * qy - s * qz) by (nonlinear_arith)
        requires inner == ftt - qx - qy - qz;
    assert(s * inner <= s * s - rem) by (nonlinear_arith)
        requires
            s * ftt == t * t - rem,
            s * inner == s * ftt - s * qx - s * qy - s * qz,
            t * t <= n * s,
            n == s + qx + qy + qz;
    assert(inner <= s) by (nonlinear_arith)
        requires
            s * inner <= s * s - rem,
            0 <= rem,
            s == SCALE as int;
    assert(n * s <= t * t + 2 * t) by (nonlinear_arith)
        requires n * s < (t + 1) * (t + 1);
    assert(s * inner >= s * s - 2 * t - rem) by (nonlinear_arith)
        requires
            s * ftt == t * t - rem,
            s * inner == s * ftt - s * qx - s * qy - s * qz,
            n * s <= t * t + 2 * t,
            n == s + qx + qy + qz;
    assert(s * (s - inner) <= 2 * t + s - 1) by (nonlinear_arith)
        requires
            s * inner >= s * s - 2 * t - rem,
            rem < s,
            s == SCALE as int;
}

/// Light-like invariant: a photon momentum on the zero-mass shell has
/// invariant norm zero, up to the scalar model's granularity. The magnitude
/// of `k.k` is at most `(2 k_t + 1) / 2^32` raw units — the same
/// granularity tolerance, in place of a fixed relative one, as in
/// [`lemma_unitize_timelike`].
pub proof fn lemma_lightlike_null(v: FourVector)
    requires
        on_shell(v, 0),
        abs_int(v.x.raw as int) <= 0x400000000000,
        abs_int(v.y.raw as int) <= 0x400000000000,
        abs_int(v.z.raw as int) <= 0x400000000000,
    ensures
        inner_spec(v, v) <= 0,
        (SCALE as int) * (-inner_spec(v, v)) <= 2 * (v.t.raw as int) + (SCALE as int) - 1,
{
    let s = SCALE as int;
    let x = v.x.raw as int;
    let y = v.y.raw as int;
    let z = v.z.raw as int;
    let t = v.t.raw as int;
    lemma_square_fmul(x);
    lemma_square_fmul(y);
    lemma_square_fmul(z);
    let qx = fmul(x, x);
    let qy = fmul(y, y);
    let qz = fmul(z, z);
    let d = dot3_spec(v.spatial(), v.spatial());
    assert(d == qx + qy + qz);
    let n = fadd(0, d);
    assert(n == d);
    let inner = inner_spec(v, v);
    if d == 0 {
        assert(t == 0);
        lemma_div_of0(SCALE as int);
        lemma_square_fmul(t);
        assert(t * t == 0) by (nonlinear_arith)
            requires t == 0;
        assert(fmul(t, t) == 0);
        assert(inner == 0);
    } else {
        assert(is_sqrt(n * s, t));
        assert(t * t <= n * s);
        assert(n * s < (t + 1) * (t + 1));
        assert(t * t >= 0) by (nonlinear_arith)
            requires t >= 0;
        assert(tdivs(t * t, s) == (t * t) / s);
        lemma_div_is_ordered(t * t, n * s, s);
        assert((s * n) / s == n) by {
            lemma_div_multiples_vanish(n, s);
        }
        assert(n * s == s * n) by (nonlinear_arith);
        let ftt = fmul(t, t);
        assert(0 <= (t * t) / s) by {
            lemma_div_is_ordered(0, t * t, s);
            assert(0int / s == 0);
        }
        assert(ftt == (t * t) / s);
        assert(inner == ftt - qx - qy - qz);
        lemma_fundamental_div_mod(t * t, s);
        lemma_mod_bound(t * t, s);
        let rem = (t * t) % s;
        assert(s * ftt == t * t - rem);
        assert(s * inner == s * ftt - s * qx - s * qy - s * qz) by (nonlinear_arith)
            requires inner == ftt - qx - qy - qz;
        assert(s * inner <= 0 - rem) by (nonlinear_arith)
            requires
                s * ftt == t * t - rem,
                s * inner == s * ftt - s * qx - s * qy - s * qz,
                t * t <= n * s,
                n == qx + qy + qz;
        assert(inner <= 0) by (nonlinear_arith)
            requires
                s * inner <= 0 - rem,
                0 <= rem,
                s == SCALE as int;
        assert(n * s <= t * t + 2 * t) by (nonlinear_arith)
            requires n * s < (t + 1) * (t + 1);
        assert(s * inner >= 0 - 2 * t - rem) by (nonlinear_arith)
            requires
                s * ftt == t * t - rem,
                s * inner == s * ftt - s * qx - s * qy - s * qz,
                n * s <= t * t + 2 * t,
                n == qx + qy + qz;
        assert(s * (0 - inner) <= 2 * t + s - 1) by (nonlinear_arith)
            requires
                s * inner >= 0 - 2 * t - rem,
                rem < s,
                s == SCALE as int;
    }
}

/// Photon polarization as normalized Stokes parameters.
#[derive(Clone, Copy, PartialEq, Eq, Structural, Debug)]
pub struct StokesVector {
    pub s0: Fix,
    pub s1: Fix,
    pub s2: Fix,
    pub s3: Fix,
}

impl StokesVector {
    /// A Stokes vector from its four parameters.
    pub fn new(s0: Fix, s1: Fix, s2: Fix, s3: Fix) -> (r: StokesVector)
        ensures
            r == (StokesVector { s0, s1, s2, s3 }),
    {
        StokesVector { s0, s1, s2, s3 }
    }

    /// The distinguished unpolarized state as a specification value.
    pub open spec fn unpolarized_spec() -> StokesVector {
        StokesVector {
            s0: Fix { raw: SCALE },
            s1: Fix { raw: 0 },
            s2: Fix { raw: 0 },
            s3: Fix { raw: 0 },
        }
    }

    /// The distinguished unpolarized state `(1, 0, 0, 0)`.
    pub fn unpolarized() -> (r: StokesVector)
        ensures
            r == Self::unpolarized_spec(),
    {
        StokesVector {
            s0: Fix { raw: SCALE },
            s1: Fix { raw: 0 },
            s2: Fix { raw: 0 },
            s3: Fix { raw: 0 },
        }
    }
}

} // verus!
