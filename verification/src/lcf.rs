//! The locally-constant-field dynamics engine.
//!
//! Pure functions over the local field values returned by a field model:
//! the relativistic momentum-position pusher (a Vay-style half-kick /
//! exact-rotation / half-kick update, with optional radiation-reaction
//! drag), the stochastic photon-emission sampler, and the stochastic
//! pair-creation sampler. Each function's result is pinned to an exact
//! fixed-point specification; the stochastic ones are pinned to a
//! deterministic function of two unit-interval draws.

use vstd::prelude::*;
use vstd::arithmetic::div_mod::lemma_div_multiples_vanish;
use crate::fixed::{Fix, SCALE, fadd, fsub, fmul, fdiv, fsqrt_spec, abs_int, lemma_fmul_zero, lemma_fmul_one, lemma_fmul_bounded, lemma_fsqrt_val};
use crate::trig::clamp01_spec;
use crate::geometry::{ThreeVector, FourVector, StokesVector, v3, v4, add3_spec, sub3_spec, scale3_spec, cross3_spec, dot3_spec, unitize_spec, lightlike_spec, on_shell};
use crate::field::{EquationOfMotion, RadiationMode, RadiationEvent, PairCreationEvent};
use crate::random::Sampler;

verus! {

/// Raw value of one half.
pub const HALF_RAW: i64 = 2147483648;

/// Raw value of four.
pub const FOUR_RAW: i64 = 17179869184;

/// Raw value of one quarter.
pub const QUARTER_RAW: i64 = 1073741824;

/// Rate constant of the photon-emission probability model, in the
/// library's units.
pub const EMISSION_RATE_RAW: i64 = 4294967296;

/// Rate constant of the pair-creation probability model, in the library's
/// units.
pub const PAIR_RATE_RAW: i64 = 4294967296;

/// The zero spatial vector.
pub open spec fn zero3() -> ThreeVector {
    v3(0, 0, 0)
}

/// The quantum parameter chi of a particle with momentum `u` in local
/// fields `(e, b)`: `sqrt(max(0, |u_t e + u x b|^2 - (u . e)^2))`, in
/// saturating fixed point.
pub open spec fn chi_spec(u: FourVector, e: ThreeVector, b: ThreeVector) -> int {
    let f = add3_spec(scale3_spec(u.t.raw as int, e), cross3_spec(u.spatial(), b));
    let g = dot3_spec(u.spatial(), e);
    let c2 = fsub(dot3_spec(f, f), fmul(g, g));
    fsqrt_spec(c2)
}

/// The quantum parameter (see [`chi_spec`]).
pub fn chi_of(u: FourVector, e: ThreeVector, b: ThreeVector) -> (r: Fix)
    ensures
        r.raw == chi_spec(u, e, b),
        r.raw >= 0,
{
    let f = e.scale(u.t).add(u.spatial_part().cross(b));
    let g = u.spatial_part().dot(e);
    let c2 = f.dot(f).sub(g.mul(g));
    c2.sqrt()
}

/// The radiation-reaction drag factor applied to the updated momentum:
/// zero under `Lorentz`; `chi^2 dt` (clamped into `[0, 1]`) under
/// `LandauLifshitz`; the same with the quantum suppression `1/(1 + chi)`
/// under `ModifiedLandauLifshitz`.
pub open spec fn drag_spec(u: FourVector, e: ThreeVector, b: ThreeVector, dt: int, eqn: EquationOfMotion) -> int {
    if eqn == EquationOfMotion::Lorentz {
        0
    } else {
        let chi = chi_spec(u, e, b);
        let p = fmul(fmul(chi, chi), dt);
        let p2 = if eqn == EquationOfMotion::ModifiedLandauLifshitz {
            fmul(p, fdiv(SCALE as int, fadd(SCALE as int, chi)))
        } else {
            p
        };
        clamp01_spec(p2)
    }
}

/// The momentum update of the pusher: half electric kick, exact
/// magnetic-rotation solve, half electric kick, optional radiation-reaction
/// drag, and a final return to the mass shell.
pub open spec fn vay_momentum_spec(u: FourVector, e: ThreeVector, b: ThreeVector, rqm: int, dt: int, eqn: EquationOfMotion) -> FourVector {
    let s = SCALE as int;
    let eps = fmul(fmul(rqm, dt), HALF_RAW as int);
    let ig = fdiv(s, u.t.raw as int);
    let vv = scale3_spec(ig, u.spatial());
    let um = add3_spec(u.spatial(), scale3_spec(eps, add3_spec(e, cross3_spec(vv, b))));
    let us = add3_spec(um, scale3_spec(eps, e));
    let tau = scale3_spec(eps, b);
    let ut = dot3_spec(us, tau);
    let gp2 = fadd(s, dot3_spec(us, us));
    let tau2 = dot3_spec(tau, tau);
    let sigma = fsub(gp2, tau2);
    let disc = fadd(fmul(sigma, sigma), fmul(FOUR_RAW as int, fadd(tau2, fmul(ut, ut))));
    let gn2 = fmul(HALF_RAW as int, fadd(sigma, fsqrt_spec(disc)));
    let gn = fsqrt_spec(gn2);
    let itg = fdiv(s, gn);
    let tv = scale3_spec(itg, tau);
    let sfac = fdiv(s, fadd(s, dot3_spec(tv, tv)));
    let unew = scale3_spec(sfac,
        add3_spec(add3_spec(us, scale3_spec(dot3_spec(us, tv), tv)), cross3_spec(us, tv)));
    let ud = scale3_spec(fsub(s, drag_spec(u, e, b, dt, eqn)), unew);
    unitize_spec(FourVector { t: Fix { raw: 0 }, x: ud.x, y: ud.y, z: ud.z })
}

/// Half a free-streaming position step: time advances by `dt/2`, space by
/// `u dt / (2 u_t)` (the speed of light is 1 in the library's units).
pub open spec fn half_adv_spec(r: FourVector, u: FourVector, dt: int) -> FourVector {
    let hdt = fmul(dt, HALF_RAW as int);
    let ig = fdiv(hdt, u.t.raw as int);
    v4(fadd(r.t.raw as int, hdt), fadd(r.x.raw as int, fmul(u.x.raw as int, ig)),
        fadd(r.y.raw as int, fmul(u.y.raw as int, ig)),
        fadd(r.z.raw as int, fmul(u.z.raw as int, ig)))
}

/// A full free-streaming position step: time advances by `dt`, space by
/// `u dt / u_t` (the speed of light is 1 in the library's units).
pub open spec fn full_adv_spec(r: FourVector, u: FourVector, dt: int) -> FourVector {
    let ig = fdiv(dt, u.t.raw as int);
    v4(fadd(r.t.raw as int, dt), fadd(r.x.raw as int, fmul(u.x.raw as int, ig)),
        fadd(r.y.raw as int, fmul(u.y.raw as int, ig)),
        fadd(r.z.raw as int, fmul(u.z.raw as int, ig)))
}

/// A full free-streaming position step (see [`full_adv_spec`]).
pub fn full_advance(r: FourVector, u: FourVector, dt: Fix) -> (res: FourVector)
    ensures
        res == full_adv_spec(r, u, dt.raw as int),
{
    let ig = dt.div(u.t);
    FourVector {
        t: r.t.add(dt),
        x: r.x.add(u.x.mul(ig)),
        y: r.y.add(u.y.mul(ig)),
        z: r.z.add(u.z.mul(ig)),
    }
}

/// Half a free-streaming position step (see [`half_adv_spec`]).
pub fn half_advance(r: FourVector, u: FourVector, dt: Fix) -> (res: FourVector)
    ensures
        res == half_adv_spec(r, u, dt.raw as int),
{
    let hdt = dt.mul(Fix { raw: HALF_RAW });
    let ig = hdt.div(u.t);
    FourVector {
        t: r.t.add(hdt),
        x: r.x.add(u.x.mul(ig)),
        y: r.y.add(u.y.mul(ig)),
        z: r.z.add(u.z.mul(ig)),
    }
}

/// Advances a particle at `r` with momentum `u`, charge-to-mass ratio
/// `rqm` and equation of motion `eqn` through the local fields `(e, b)` by
/// `dt` (the fields are to be sampled at the free-streaming midpoint; see
/// [`half_adv_spec`]): the momentum follows [`vay_momentum_spec`], the
/// position takes one full step `u' dt / u'_t` with the updated momentum
/// from the step's starting position, the elapsed lab time is `dt`, and
/// the absorbed energy is the change of the time component. With zero
/// fields and an on-shell momentum, [`lemma_push_zero_field`] gives the
/// free-motion law: momentum unchanged and position advanced by exactly
/// `u dt / u_t`.
/// The momentum half of the pusher (see [`vay_momentum_spec`]).
#[verifier::spinoff_prover]
fn vay_momentum(u: FourVector, e: ThreeVector, b: ThreeVector, rqm: Fix, dt: Fix, eqn: EquationOfMotion) -> (uf: FourVector)
    ensures
        uf == vay_momentum_spec(u, e, b, rqm.raw as int, dt.raw as int, eqn),
        on_shell(uf, SCALE as int),
{
    let eps = rqm.mul(dt).mul(Fix { raw: HALF_RAW });
    let ig = Fix { raw: SCALE }.div(u.t);
    let vv = u.spatial_part().scale(ig);
    let um = u.spatial_part().add(e.add(vv.cross(b)).scale(eps));
    let us = um.add(e.scale(eps));
    let tau = b.scale(eps);
    let ut = us.dot(tau);
    let gp2 = Fix { raw: SCALE }.add(us.dot(us));
    let tau2 = tau.dot(tau);
    let sigma = gp2.sub(tau2);
    let disc = sigma.mul(sigma).add(Fix { raw: FOUR_RAW }.mul(tau2.add(ut.mul(ut))));
    let gn2 = Fix { raw: HALF_RAW }.mul(sigma.add(disc.sqrt()));
    let gn = gn2.sqrt();
    let itg = Fix { raw: SCALE }.div(gn);
    let tv = tau.scale(itg);
    let sfac = Fix { raw: SCALE }.div(Fix { raw: SCALE }.add(tv.dot(tv)));
    let unew = us.add(tv.scale(us.dot(tv))).add(us.cross(tv)).scale(sfac);
    let drag = drag_of(u, e, b, dt, eqn);
    let ud = unew.scale(Fix { raw: SCALE }.sub(drag));
    FourVector { t: Fix { raw: 0 }, x: ud.x, y: ud.y, z: ud.z }.unitize()
}

#[verifier::spinoff_prover]
pub fn vay_push(r: FourVector, u: FourVector, e: ThreeVector, b: ThreeVector, rqm: Fix, dt: Fix, eqn: EquationOfMotion)
    -> (res: (FourVector, FourVector, Fix, Fix))
    ensures
        res.1 == vay_momentum_spec(u, e, b, rqm.raw as int, dt.raw as int, eqn),
        res.0 == full_adv_spec(r, res.1, dt.raw as int),
        res.2 == dt,
        res.3.raw == fsub(res.1.t.raw as int, u.t.raw as int),
        on_shell(res.1, SCALE as int),
{
    let ufinal = vay_momentum(u, e, b, rqm, dt, eqn);
    let rnew = full_advance(r, ufinal, dt);
    let absorption = ufinal.t.sub(u.t);
    (rnew, ufinal, dt, absorption)
}

/// Vector operations against the zero vector are exact.
proof fn lemma_vec_ops_zero(a: ThreeVector)
    ensures
        add3_spec(a, zero3()) == a,
        add3_spec(zero3(), a) == a,
        cross3_spec(a, zero3()) == zero3(),
        cross3_spec(zero3(), a) == zero3(),
        dot3_spec(a, zero3()) == 0,
        dot3_spec(zero3(), a) == 0,
        scale3_spec(0, a) == zero3(),
{
    lemma_fmul_zero(a.x.raw as int);
    lemma_fmul_zero(a.y.raw as int);
    lemma_fmul_zero(a.z.raw as int);
}

/// Scaling the zero vector gives the zero vector.
proof fn lemma_scale3_zero_vec(s: int)
    ensures
        scale3_spec(s, zero3()) == zero3(),
{
    lemma_fmul_zero(s);
}

/// Scaling by one is exact.
proof fn lemma_scale3_one(a: ThreeVector)
    ensures
        scale3_spec(SCALE as int, a) == a,
{
    lemma_fmul_one(a.x.raw as int);
    lemma_fmul_one(a.y.raw as int);
    lemma_fmul_one(a.z.raw as int);
}

/// In zero local fields the quantum parameter vanishes.
pub proof fn lemma_chi_zero_field(u: FourVector)
    ensures
        chi_spec(u, zero3(), zero3()) == 0,
{
    lemma_scale3_zero_vec(u.t.raw as int);
    lemma_vec_ops_zero(u.spatial());
    lemma_vec_ops_zero(zero3());
    lemma_fmul_zero(0);
}

/// Free motion: under a field model that returns zero field everywhere (a
/// stub model), the pusher leaves the momentum of an on-shell particle
/// exactly unchanged, for every timestep, charge-to-mass ratio and
/// equation of motion; the position then advances by exactly the two free
/// half-steps `u dt / (2 u_t)`.
pub proof fn lemma_push_zero_field(u: FourVector, rqm: int, dt: int, eqn: EquationOfMotion)
    requires
        on_shell(u, SCALE as int),
    ensures
        vay_momentum_spec(u, zero3(), zero3(), rqm, dt, eqn) == u,
{
    let s = SCALE as int;
    let eps = fmul(fmul(rqm, dt), HALF_RAW as int);
    let ig = fdiv(s, u.t.raw as int);
    let vv = scale3_spec(ig, u.spatial());
    lemma_vec_ops_zero(vv);
    lemma_vec_ops_zero(u.spatial());
    lemma_vec_ops_zero(zero3());
    lemma_scale3_zero_vec(eps);
    let um = add3_spec(u.spatial(), scale3_spec(eps, add3_spec(zero3(), cross3_spec(vv, zero3()))));
    assert(um == u.spatial());
    let us = um;
    let tau = scale3_spec(eps, zero3());
    assert(tau == zero3());
    lemma_vec_ops_zero(us);
    let ut = dot3_spec(us, tau);
    assert(ut == 0);
    let gp2 = fadd(s, dot3_spec(us, us));
    let sigma = fsub(gp2, 0);
    let gn2 = fmul(HALF_RAW as int, fadd(sigma, fsqrt_spec(fadd(fmul(sigma, sigma), fmul(FOUR_RAW as int, fadd(0, fmul(0, 0)))))));
    let gn = fsqrt_spec(gn2);
    let itg = fdiv(s, gn);
    lemma_scale3_zero_vec(itg);
    let tv = scale3_spec(itg, tau);
    assert(tv == zero3());
    lemma_vec_ops_zero(tv);
    let sfac = fdiv(s, fadd(s, dot3_spec(tv, tv)));
    assert(dot3_spec(tv, tv) == 0);
    assert(fadd(s, 0) == s);
    assert(s * s >= 0) by (nonlinear_arith);
    assert((s * s) / s == s) by {
        lemma_div_multiples_vanish(s, s);
    }
    assert(sfac == s);
    assert(scale3_spec(dot3_spec(us, tv), tv) == zero3()) by {
        lemma_scale3_zero_vec(dot3_spec(us, tv));
    }
    let upre = add3_spec(add3_spec(us, scale3_spec(dot3_spec(us, tv), tv)), cross3_spec(us, tv));
    assert(upre == us);
    lemma_scale3_one(us);
    let unew = scale3_spec(sfac, upre);
    assert(unew == us);
    lemma_chi_zero_field(u);
    assert(drag_spec(u, zero3(), zero3(), dt, eqn) == 0) by {
        lemma_fmul_zero(0);
        lemma_fmul_zero(dt);
        if eqn != EquationOfMotion::Lorentz {
            assert(fmul(fmul(0, 0), dt) == 0);
            if eqn == EquationOfMotion::ModifiedLandauLifshitz {
                lemma_fmul_zero(fdiv(s, fadd(s, 0)));
            }
        }
    }
    let ud = scale3_spec(fsub(s, 0), unew);
    assert(fsub(s, 0) == s);
    lemma_scale3_one(unew);
    assert(ud == u.spatial());
    let shell = FourVector { t: Fix { raw: 0 }, x: ud.x, y: ud.y, z: ud.z };
    assert(shell.spatial() == u.spatial());
    let n = fadd(s, dot3_spec(u.spatial(), u.spatial()));
    if n > 0 {
        lemma_fsqrt_val(n, u.t.raw as int);
    }
    assert(fsqrt_spec(n) == u.t.raw as int);
    assert(unitize_spec(shell) == u);
}

/// The photon-emission probability over `dt`: `rate * chi * dt / u_t`,
/// clamped into `[0, 1]` (the clamp, not an error, signals a timestep too
/// large for the locally-constant-field approximation).
pub open spec fn emission_prob_spec(u: FourVector, e: ThreeVector, b: ThreeVector, dt: int) -> int {
    clamp01_spec(fdiv(fmul(fmul(EMISSION_RATE_RAW as int, chi_spec(u, e, b)), dt), u.t.raw as int))
}

/// What `radiate` returns, as a function of the two unit-interval draws:
/// no event in classical mode, at zero amplitude or at zero quantum
/// parameter; otherwise an event exactly when the first draw falls below
/// the emission probability. The photon carries the fraction `d2^2` of
/// the parent's spatial momentum (the inverse transform of the model's
/// soft spectrum) and is put on the light-like shell; the recoil carries
/// the exact spatial remainder and is put back on the unit mass shell.
/// The event's polarization is unpolarized and its absorbed energy is
/// zero: the model treats the sub-step as field-free for the bookkeeping
/// of the split itself.
pub open spec fn radiate_res_spec(u: FourVector, e: ThreeVector, b: ThreeVector, a: int, dt: int, mode: RadiationMode, d1: int, d2: int) -> Option<RadiationEvent> {
    if mode == RadiationMode::Classical || a <= 0 || chi_spec(u, e, b) <= 0 {
        None
    } else if d1 < emission_prob_spec(u, e, b, dt) {
        let frac = fmul(d2, d2);
        let ks = scale3_spec(frac, u.spatial());
        let rs = sub3_spec(u.spatial(), ks);
        Some(RadiationEvent {
            k: lightlike_spec(ks.x, ks.y, ks.z),
            u_prime: unitize_spec(FourVector { t: Fix { raw: 0 }, x: rs.x, y: rs.y, z: rs.z }),
            pol: StokesVector::unpolarized_spec(),
            a_eff: Fix { raw: a as i64 },
            chi: Fix { raw: chi_spec(u, e, b) as i64 },
            absorption: Fix { raw: 0 },
        })
    } else {
        None
    }
}

/// Checks whether a particle with momentum `u` in local fields `(e, b)`
/// of normalized amplitude `a` emits a photon during `dt`. Every outcome
/// is the value of [`radiate_res_spec`] at two unit draws of the sampler;
/// in classical mode, and whenever the amplitude or the quantum parameter
/// is zero, there is no event; the emitted photon is light-like and the
/// recoil momentum is back on the unit mass shell.
pub fn radiate(u: FourVector, e: ThreeVector, b: ThreeVector, a: Fix, dt: Fix, smp: &mut Sampler, mode: RadiationMode) -> (res: Option<RadiationEvent>)
    ensures
        mode == RadiationMode::Classical ==> res is None,
        a.raw <= 0 ==> res is None,
        chi_spec(u, e, b) <= 0 ==> res is None,
        res matches Some(ev) ==> on_shell(ev.k, 0) && on_shell(ev.u_prime, SCALE as int),
        exists|d1: int, d2: int|
            0 <= d1 < SCALE as int && 0 <= d2 < SCALE as int
            && res == radiate_res_spec(u, e, b, a.raw as int, dt.raw as int, mode, d1, d2),
{
    if matches!(mode, RadiationMode::Classical) {
        proof {
            assert(radiate_res_spec(u, e, b, a.raw as int, dt.raw as int, mode, 0, 0) is None);
        }
        return None;
    }
    let chi = chi_of(u, e, b);
    if a.raw <= 0 || chi.raw <= 0 {
        proof {
            assert(radiate_res_spec(u, e, b, a.raw as int, dt.raw as int, mode, 0, 0) is None);
        }
        return None;
    }
    let prob = Fix { raw: EMISSION_RATE_RAW }.mul(chi).mul(dt).div(u.t).clamp01();
    let d1 = smp.uniform_unit();
    let d2 = smp.uniform_unit();
    if d1.raw < prob.raw {
        let frac = d2.mul(d2);
        let ks = u.spatial_part().scale(frac);
        let k = FourVector::lightlike(ks.x, ks.y, ks.z);
        let rs = u.spatial_part().sub(ks);
        let u_prime = FourVector { t: Fix { raw: 0 }, x: rs.x, y: rs.y, z: rs.z }.unitize();
        let ev = RadiationEvent {
            k,
            u_prime,
            pol: StokesVector::unpolarized(),
            a_eff: a,
            chi,
            absorption: Fix { raw: 0 },
        };
        proof {
            assert(radiate_res_spec(u, e, b, a.raw as int, dt.raw as int, mode, d1.raw as int, d2.raw as int) == Some(ev));
        }
        Some(ev)
    } else {
        proof {
            assert(radiate_res_spec(u, e, b, a.raw as int, dt.raw as int, mode, d1.raw as int, d2.raw as int) is None);
        }
        None
    }
}

/// The pair-creation probability over `dt`: `rate * chi * dt / ell_t`,
/// clamped into `[0, 1]`; zero at zero amplitude or zero quantum
/// parameter. It does not depend on any rate increase.
pub open spec fn pair_prob_spec(ell: FourVector, e: ThreeVector, b: ThreeVector, a: int, dt: int) -> int {
    if a <= 0 || chi_spec(ell, e, b) <= 0 {
        0
    } else {
        clamp01_spec(fdiv(fmul(fmul(PAIR_RATE_RAW as int, chi_spec(ell, e, b)), dt), ell.t.raw as int))
    }
}

/// The optional pair-creation event, as a function of the two unit draws:
/// sampling uses the probability inflated by `ri` (the rate increase,
/// clamped into `[0, 1]` after inflation); the produced electron carries
/// the fraction `1/4 + d2/2` of the photon's spatial momentum and the
/// positron the exact spatial remainder, and both are put on the unit
/// mass shell (they are massive). The event's absorbed energy is zero:
/// the model treats the sub-step as field-free for the bookkeeping of
/// the split itself.
pub open spec fn pair_event_spec(ell: FourVector, e: ThreeVector, b: ThreeVector, a: int, dt: int, ri: int, d1: int, d2: int) -> Option<PairCreationEvent> {
    if a <= 0 || chi_spec(ell, e, b) <= 0 {
        None
    } else if d1 < clamp01_spec(fmul(pair_prob_spec(ell, e, b, a, dt), ri)) {
        let frac = fadd(QUARTER_RAW as int, fmul(HALF_RAW as int, d2));
        let es = scale3_spec(frac, ell.spatial());
        let ps = sub3_spec(ell.spatial(), es);
        Some(PairCreationEvent {
            u_e: unitize_spec(FourVector { t: Fix { raw: 0 }, x: es.x, y: es.y, z: es.z }),
            u_p: unitize_spec(FourVector { t: Fix { raw: 0 }, x: ps.x, y: ps.y, z: ps.z }),
            frac: Fix { raw: frac as i64 },
            a_eff: Fix { raw: a as i64 },
            chi: Fix { raw: chi_spec(ell, e, b) as i64 },
            absorption: Fix { raw: 0 },
        })
    } else {
        None
    }
}

/// Checks whether a photon with momentum `ell` and polarization `pol`
/// converts to an electron-positron pair during `dt`. Returns the true
/// probability of the process (independent of `rate_increase`; see
/// [`lemma_pair_probability_independent`]), the photon polarization
/// (passed through unchanged in this model), and
/// the optional event, which is the value of [`pair_event_spec`] at two
/// unit draws of the sampler. Callers that force events with a rate
/// increase must divide outcome weights by it to keep statistics unbiased.
pub fn pair_create(ell: FourVector, pol: StokesVector, e: ThreeVector, b: ThreeVector, a: Fix, dt: Fix, smp: &mut Sampler, rate_increase: Fix) -> (res: (Fix, StokesVector, Option<PairCreationEvent>))
    ensures
        res.0.raw == pair_prob_spec(ell, e, b, a.raw as int, dt.raw as int),
        res.1 == pol,
        a.raw <= 0 ==> res.2 is None,
        chi_spec(ell, e, b) <= 0 ==> res.2 is None,
        res.2 matches Some(ev) ==> on_shell(ev.u_e, SCALE as int) && on_shell(ev.u_p, SCALE as int),
        exists|d1: int, d2: int|
            0 <= d1 < SCALE as int && 0 <= d2 < SCALE as int
            && res.2 == pair_event_spec(ell, e, b, a.raw as int, dt.raw as int, rate_increase.raw as int, d1, d2),
{
    let chi = chi_of(ell, e, b);
    if a.raw <= 0 || chi.raw <= 0 {
        proof {
            assert(pair_event_spec(ell, e, b, a.raw as int, dt.raw as int, rate_increase.raw as int, 0, 0) is None);
        }
        return (Fix { raw: 0 }, pol, None);
    }
    let prob = Fix { raw: PAIR_RATE_RAW }.mul(chi).mul(dt).div(ell.t).clamp01();
    let sampling_prob = prob.mul(rate_increase).clamp01();
    let d1 = smp.uniform_unit();
    let d2 = smp.uniform_unit();
    if d1.raw < sampling_prob.raw {
        let frac = Fix { raw: QUARTER_RAW }.add(Fix { raw: HALF_RAW }.mul(d2));
        let es = ell.spatial_part().scale(frac);
        let u_e = FourVector { t: Fix { raw: 0 }, x: es.x, y: es.y, z: es.z }.unitize();
        let ps = ell.spatial_part().sub(es);
        let u_p = FourVector { t: Fix { raw: 0 }, x: ps.x, y: ps.y, z: ps.z }.unitize();
        let ev = PairCreationEvent {
            u_e,
            u_p,
            frac,
            a_eff: a,
            chi,
            absorption: Fix { raw: 0 },
        };
        proof {
            assert(pair_event_spec(ell, e, b, a.raw as int, dt.raw as int, rate_increase.raw as int, d1.raw as int, d2.raw as int) == Some(ev));
        }
        (prob, pol, Some(ev))
    } else {
        proof {
            assert(pair_event_spec(ell, e, b, a.raw as int, dt.raw as int, rate_increase.raw as int, d1.raw as int, d2.raw as int) is None);
        }
        (prob, pol, None)
    }
}

/// The probability reported by `pair_create` is the same whatever rate
/// increase is in force: only the sampling of the discrete event, never
/// the returned probability, is inflated.
pub proof fn lemma_pair_probability_independent(ell: FourVector, e: ThreeVector, b: ThreeVector, a: int, dt: int, ri1: int, ri2: int)
    ensures
        forall|d1: int, d2: int|
            (#[trigger] pair_event_spec(ell, e, b, a, dt, ri1, d1, d2) is Some)
            == (d1 < clamp01_spec(fmul(pair_prob_spec(ell, e, b, a, dt), ri1)) && a > 0 && chi_spec(ell, e, b) > 0),
        forall|d1: int, d2: int|
            (#[trigger] pair_event_spec(ell, e, b, a, dt, ri2, d1, d2) is Some)
            ==> pair_event_spec(ell, e, b, a, dt, ri2, d1, d2)
                == pair_event_spec(ell, e, b, a, dt, ri1, d1, d2)
                || !(pair_event_spec(ell, e, b, a, dt, ri1, d1, d2) is Some),
{
}

/// One component of a momentum split, restored exactly by addition.
proof fn lemma_split_component(c: int, frac: int)
    requires
        0 <= frac <= SCALE as int,
        -0x4000000000000000 < c < 0x4000000000000000,
    ensures
        fadd(fmul(frac, c), fsub(c, fmul(frac, c))) == c,
{
    assert(frac * c == c * frac) by (nonlinear_arith);
    assert(fmul(frac, c) == fmul(c, frac));
    lemma_fmul_bounded(c, frac);
    assert(abs_int(fmul(frac, c)) <= abs_int(c));
}

/// Energy-momentum bookkeeping of a stochastic split: the spatial momenta
/// of an event's two products (the emitted photon and the recoil of
/// `radiate`, or the electron and positron of `pair_create`, whose
/// fractions lie in `[0, 1]`) sum back to the parent's spatial momentum
/// exactly, whenever the parent's components are clear of the saturation
/// bound. The time components are rebuilt by the mass-shell constructors.
pub proof fn lemma_split_momentum_conserved(s: ThreeVector, frac: int)
    requires
        0 <= frac <= SCALE as int,
        -0x4000000000000000 < s.x.raw < 0x4000000000000000,
        -0x4000000000000000 < s.y.raw < 0x4000000000000000,
        -0x4000000000000000 < s.z.raw < 0x4000000000000000,
    ensures
        add3_spec(scale3_spec(frac, s), sub3_spec(s, scale3_spec(frac, s))) == s,
{
    lemma_split_component(s.x.raw as int, frac);
    lemma_split_component(s.y.raw as int, frac);
    lemma_split_component(s.z.raw as int, frac);
}

/// Every probability the engine reports or samples against lies in
/// `[0, 1]`: a computed probability that would exceed 1 signals a timestep
/// too large for the locally-constant-field approximation and is clamped,
/// not treated as an error.
pub proof fn lemma_probabilities_clamped(u: FourVector, e: ThreeVector, b: ThreeVector, a: int, dt: int, ri: int)
    ensures
        0 <= emission_prob_spec(u, e, b, dt) <= SCALE as int,
        0 <= pair_prob_spec(u, e, b, a, dt) <= SCALE as int,
        0 <= clamp01_spec(fmul(pair_prob_spec(u, e, b, a, dt), ri)) <= SCALE as int,
{
}

/// The radiation-reaction drag factor (see [`drag_spec`]).
fn drag_of(u: FourVector, e: ThreeVector, b: ThreeVector, dt: Fix, eqn: EquationOfMotion) -> (r: Fix)
    ensures
        r.raw == drag_spec(u, e, b, dt.raw as int, eqn),
{
    if !eqn.includes_rr() {
        return Fix { raw: 0 };
    }
    let chi = chi_of(u, e, b);
    let p = chi.mul(chi).mul(dt);
    let p2 = if matches!(eqn, EquationOfMotion::ModifiedLandauLifshitz) {
        p.mul(Fix { raw: SCALE }.div(Fix { raw: SCALE }.add(chi)))
    } else {
        p
    };
    p2.clamp01()
}

} // verus!
