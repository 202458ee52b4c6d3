//! The laser field models: plane wave, focused beam, and their
//! cycle-averaged fast approximations, plus the [`Laser`] tagged union that
//! dispatches the shared capability surface and delegates the particle
//! dynamics to the locally-constant-field engine.
//!
//! Closed forms, in the library's units (speed of light 1): the carrier
//! phase at a four-position is `psi = 2 pi (t - z) / wavelength + phase`;
//! a temporal envelope on `psi` shapes the pulse over `n_cycles` cycles;
//! the focused variants add a transverse profile `exp(-(x^2+y^2)/w0^2)`;
//! the fast variants replace the carrier by its cycle-averaged magnitude,
//! trading sub-cycle structure for a cheap ponderomotive-style estimate.

use vstd::prelude::*;
use crate::fixed::{Fix, SCALE, fadd, fsub, fmul, fdiv, fneg, abs_int, sat_i64};
use crate::trig::{cos_spec, sin_spec, exp_neg_spec, TAU_RAW, PI_RAW};
use crate::geometry::{ThreeVector, FourVector, StokesVector, v3};
use crate::field::{Polarization, Envelope, EquationOfMotion, RadiationMode, RadiationEvent, PairCreationEvent, Field};
use crate::lcf;
use crate::lcf::{vay_momentum_spec, half_adv_spec, chi_spec, pair_prob_spec};
use crate::random::Sampler;

verus! {

/// Raw value of `1/sqrt(2)`: the cycle-average factor of a linearly
/// polarized carrier.
pub const INV_SQRT2_RAW: i64 = 3037000500;

/// Raw value of 100: the number of steps resolving one wavelength in the
/// advisory maximum timestep.
pub const STEPS_PER_CYCLE_RAW: i64 = 429496729600;

/// The shared construction parameters of every laser variant.
#[derive(Clone, Copy, PartialEq, Eq, Structural, Debug)]
pub struct LaserParams {
    /// Peak normalized amplitude.
    pub a0: Fix,
    /// Carrier wavelength.
    pub wavelength: Fix,
    /// Waist (focal spot size); unused by the plane-wave variants.
    pub waist: Fix,
    /// Pulse duration in cycles.
    pub n_cycles: Fix,
    /// Carrier polarization.
    pub pol: Polarization,
    /// Carrier-envelope phase offset.
    pub phase: Fix,
    /// Temporal envelope.
    pub envelope: Envelope,
}

/// The carrier phase at a four-position.
pub open spec fn phase_spec(p: LaserParams, r: FourVector) -> int {
    fadd(fmul(fdiv(TAU_RAW as int, p.wavelength.raw as int), fsub(r.t.raw as int, r.z.raw as int)),
        p.phase.raw as int)
}

/// The temporal envelope value at carrier phase `psi`, in `[0, 1]`:
/// `cos^2(psi / (2 n))` inside the pulse for `CosSquared`, a sharp window
/// for `Flattop`, `exp(-(psi / (n pi))^2)` for `Gaussian`.
pub open spec fn envelope_spec(p: LaserParams, psi: int) -> int {
    let half_extent = fmul(p.n_cycles.raw as int, PI_RAW as int);
    match p.envelope {
        Envelope::CosSquared => {
            if sat_i64(abs_int(psi)) >= half_extent {
                0
            } else {
                let c = cos_spec(fdiv(psi, fmul(2 * (SCALE as int), p.n_cycles.raw as int)));
                fmul(c, c)
            }
        },
        Envelope::Flattop => {
            if sat_i64(abs_int(psi)) <= half_extent {
                SCALE as int
            } else {
                0
            }
        },
        Envelope::Gaussian => {
            exp_neg_spec(fdiv(fmul(psi, psi), fmul(half_extent, half_extent)))
        },
    }
}

/// The transverse profile at a four-position: 1 for a plane wave,
/// `exp(-(x^2 + y^2) / w0^2)` for a focused beam.
pub open spec fn profile_spec(p: LaserParams, focused: bool, r: FourVector) -> int {
    if focused {
        let rho2 = fadd(fmul(r.x.raw as int, r.x.raw as int), fmul(r.y.raw as int, r.y.raw as int));
        exp_neg_spec(fdiv(rho2, fmul(p.waist.raw as int, p.waist.raw as int)))
    } else {
        SCALE as int
    }
}

/// The local fields of a laser variant: electric field, magnetic field and
/// normalized amplitude. The full variants resolve the carrier; the fast
/// variants return its cycle-averaged magnitude.
pub open spec fn fields_spec(p: LaserParams, fast: bool, focused: bool, r: FourVector) -> (ThreeVector, ThreeVector, int) {
    let psi = phase_spec(p, r);
    let a = fmul(p.a0.raw as int, fmul(envelope_spec(p, psi), profile_spec(p, focused, r)));
    if fast {
        let am = if p.pol == Polarization::Circular {
            a
        } else {
            fmul(a, INV_SQRT2_RAW as int)
        };
        (v3(am, 0, 0), v3(0, am, 0), a)
    } else {
        let c = fmul(a, cos_spec(psi));
        let s = if p.pol == Polarization::Circular {
            fmul(a, sin_spec(psi))
        } else {
            0
        };
        (v3(c, s, 0), v3(fneg(s), c, 0), a)
    }
}

/// Whether the pulse still lies ahead of (or over) a four-position: the
/// carrier phase is at most one cycle past the envelope's support. A
/// particle flying against the pulse satisfies this from launch until it
/// has crossed the whole pulse, which is what a driver's stepping loop
/// needs; where the field is actually non-negligible is read off
/// [`fields_spec`].
pub open spec fn contains_spec(p: LaserParams, r: FourVector) -> bool {
    phase_spec(p, r) <= fadd(fmul(p.n_cycles.raw as int, PI_RAW as int), TAU_RAW as int)
}

/// The advisory maximum timestep: a hundredth of the wavelength.
pub open spec fn max_timestep_spec(p: LaserParams) -> int {
    fdiv(p.wavelength.raw as int, STEPS_PER_CYCLE_RAW as int)
}

/// The launch distance at which the pulse has not yet arrived:
/// `n_cycles` wavelengths from focus.
pub open spec fn ideal_initial_z_spec(p: LaserParams) -> int {
    fmul(p.n_cycles.raw as int, p.wavelength.raw as int)
}

/// The total field energy in the library's units: `a0^2 n lambda / 2` per
/// unit area for a plane wave, further confined by `w0^2` for a focused
/// beam.
pub open spec fn energy_spec(p: LaserParams, focused: bool) -> int {
    let area_density = fmul(2147483648, fmul(fmul(p.a0.raw as int, p.a0.raw as int),
        fmul(p.n_cycles.raw as int, p.wavelength.raw as int)));
    if focused {
        fmul(area_density, fmul(p.waist.raw as int, p.waist.raw as int))
    } else {
        area_density
    }
}

/// [`fields_spec`] with the amplitude packed as a scalar, the shape the
/// [`Field`] trait's specification uses.
pub open spec fn fields_spec_packed(p: LaserParams, fast: bool, focused: bool, r: FourVector) -> (ThreeVector, ThreeVector, Fix) {
    let f = fields_spec(p, fast, focused, r);
    (f.0, f.1, Fix { raw: f.2 as i64 })
}

/// The local fields (see [`fields_spec`]).
fn fields_at(p: &LaserParams, fast: bool, focused: bool, r: FourVector) -> (res: (ThreeVector, ThreeVector, Fix))
    ensures
        (res.0, res.1, res.2.raw as int) == fields_spec(*p, fast, focused, r),
{
    let k = Fix { raw: TAU_RAW }.div(p.wavelength);
    let psi = k.mul(r.t.sub(r.z)).add(p.phase);
    let half_extent = p.n_cycles.mul(Fix { raw: PI_RAW });
    let env: Fix = match p.envelope {
        Envelope::CosSquared => {
            if psi.abs().raw >= half_extent.raw {
                Fix { raw: 0 }
            } else {
                let c = psi.div(Fix { raw: 2 * SCALE }.mul(p.n_cycles)).cos();
                c.mul(c)
            }
        },
        Envelope::Flattop => {
            if psi.abs().raw <= half_extent.raw {
                Fix { raw: SCALE }
            } else {
                Fix { raw: 0 }
            }
        },
        Envelope::Gaussian => {
            psi.mul(psi).div(half_extent.mul(half_extent)).exp_neg()
        },
    };
    let prof: Fix = if focused {
        let rho2 = r.x.mul(r.x).add(r.y.mul(r.y));
        rho2.div(p.waist.mul(p.waist)).exp_neg()
    } else {
        Fix { raw: SCALE }
    };
    let a = p.a0.mul(env.mul(prof));
    if fast {
        let am = if matches!(p.pol, Polarization::Circular) {
            a
        } else {
            a.mul(Fix { raw: INV_SQRT2_RAW })
        };
        (ThreeVector { x: am, y: Fix { raw: 0 }, z: Fix { raw: 0 } },
            ThreeVector { x: Fix { raw: 0 }, y: am, z: Fix { raw: 0 } }, a)
    } else {
        let c = a.mul(psi.cos());
        let s = if matches!(p.pol, Polarization::Circular) {
            a.mul(psi.sin())
        } else {
            Fix { raw: 0 }
        };
        (ThreeVector { x: c, y: s, z: Fix { raw: 0 } },
            ThreeVector { x: s.neg(), y: c, z: Fix { raw: 0 } }, a)
    }
}

/// Whether `r` is inside the pulse window (see [`contains_spec`]).
fn contains_at(p: &LaserParams, r: FourVector) -> (res: bool)
    ensures
        res == contains_spec(*p, r),
{
    let k = Fix { raw: TAU_RAW }.div(p.wavelength);
    let psi = k.mul(r.t.sub(r.z)).add(p.phase);
    let bound = p.n_cycles.mul(Fix { raw: PI_RAW }).add(Fix { raw: TAU_RAW });
    psi.raw <= bound.raw
}

/// A plane wave resolving the full carrier.
#[derive(Clone, Copy, PartialEq, Eq, Structural, Debug)]
pub struct PlaneWave {
    pub params: LaserParams,
}

impl PlaneWave {
    /// A plane wave from peak amplitude, wavelength, duration in cycles,
    /// polarization and carrier-phase offset, with a cosine-squared
    /// envelope by default.
    pub fn new(a0: Fix, wavelength: Fix, n_cycles: Fix, pol: Polarization, phase: Fix) -> (r: PlaneWave)
        ensures
            r.params == (LaserParams { a0, wavelength, waist: Fix { raw: 0 }, n_cycles, pol, phase, envelope: Envelope::CosSquared }),
    {
        PlaneWave { params: LaserParams { a0, wavelength, waist: Fix { raw: 0 }, n_cycles, pol, phase, envelope: Envelope::CosSquared } }
    }

    /// The same model with the given temporal envelope.
    pub fn with_envelope(self, envelope: Envelope) -> (r: PlaneWave)
        ensures
            r.params == (LaserParams { envelope, ..self.params }),
    {
        PlaneWave { params: LaserParams { envelope, ..self.params } }
    }
}

/// A plane wave reduced to its cycle-averaged magnitude.
#[derive(Clone, Copy, PartialEq, Eq, Structural, Debug)]
pub struct FastPlaneWave {
    pub params: LaserParams,
}

impl FastPlaneWave {
    /// A cycle-averaged plane wave (see [`PlaneWave::new`]).
    pub fn new(a0: Fix, wavelength: Fix, n_cycles: Fix, pol: Polarization, phase: Fix) -> (r: FastPlaneWave)
        ensures
            r.params == (LaserParams { a0, wavelength, waist: Fix { raw: 0 }, n_cycles, pol, phase, envelope: Envelope::CosSquared }),
    {
        FastPlaneWave { params: LaserParams { a0, wavelength, waist: Fix { raw: 0 }, n_cycles, pol, phase, envelope: Envelope::CosSquared } }
    }

    /// The same model with the given temporal envelope.
    pub fn with_envelope(self, envelope: Envelope) -> (r: FastPlaneWave)
        ensures
            r.params == (LaserParams { envelope, ..self.params }),
    {
        FastPlaneWave { params: LaserParams { envelope, ..self.params } }
    }
}

/// A focused beam: the plane-wave carrier confined by a transverse
/// Gaussian profile at the waist (diffraction spreading is not resolved).
#[derive(Clone, Copy, PartialEq, Eq, Structural, Debug)]
pub struct FocusedLaser {
    pub params: LaserParams,
}

impl FocusedLaser {
    /// A focused beam from peak amplitude, wavelength, waist, duration in
    /// cycles, polarization and carrier-phase offset, with a
    /// cosine-squared envelope by default.
    pub fn new(a0: Fix, wavelength: Fix, waist: Fix, n_cycles: Fix, pol: Polarization, phase: Fix) -> (r: FocusedLaser)
        ensures
            r.params == (LaserParams { a0, wavelength, waist, n_cycles, pol, phase, envelope: Envelope::CosSquared }),
    {
        FocusedLaser { params: LaserParams { a0, wavelength, waist, n_cycles, pol, phase, envelope: Envelope::CosSquared } }
    }

    /// The same model with the given temporal envelope.
    pub fn with_envelope(self, envelope: Envelope) -> (r: FocusedLaser)
        ensures
            r.params == (LaserParams { envelope, ..self.params }),
    {
        FocusedLaser { params: LaserParams { envelope, ..self.params } }
    }
}

/// A focused beam reduced to its cycle-averaged magnitude.
#[derive(Clone, Copy, PartialEq, Eq, Structural, Debug)]
pub struct FastFocusedLaser {
    pub params: LaserParams,
}

impl FastFocusedLaser {
    /// A cycle-averaged focused beam (see [`FocusedLaser::new`]).
    pub fn new(a0: Fix, wavelength: Fix, waist: Fix, n_cycles: Fix, pol: Polarization, phase: Fix) -> (r: FastFocusedLaser)
        ensures
            r.params == (LaserParams { a0, wavelength, waist, n_cycles, pol, phase, envelope: Envelope::CosSquared }),
    {
        FastFocusedLaser { params: LaserParams { a0, wavelength, waist, n_cycles, pol, phase, envelope: Envelope::CosSquared } }
    }

    /// The same model with the given temporal envelope.
    pub fn with_envelope(self, envelope: Envelope) -> (r: FastFocusedLaser)
        ensures
            r.params == (LaserParams { envelope, ..self.params }),
    {
        FastFocusedLaser { params: LaserParams { envelope, ..self.params } }
    }
}

/// The closed set of field models.
#[derive(Clone, Copy, PartialEq, Eq, Structural, Debug)]
pub enum Laser {
    PlaneWave(PlaneWave),
    FastPlaneWave(FastPlaneWave),
    FocusedLaser(FocusedLaser),
    FastFocusedLaser(FastFocusedLaser),
}

/// The construction parameters of a model.
pub open spec fn laser_params_spec(l: Laser) -> LaserParams {
    match l {
        Laser::PlaneWave(m) => m.params,
        Laser::FastPlaneWave(m) => m.params,
        Laser::FocusedLaser(m) => m.params,
        Laser::FastFocusedLaser(m) => m.params,
    }
}

/// Whether a model is a cycle-averaged fast approximation.
pub open spec fn laser_fast_spec(l: Laser) -> bool {
    match l {
        Laser::PlaneWave(_) => false,
        Laser::FastPlaneWave(_) => true,
        Laser::FocusedLaser(_) => false,
        Laser::FastFocusedLaser(_) => true,
    }
}

/// Whether a model is transversely confined.
pub open spec fn laser_focused_spec(l: Laser) -> bool {
    match l {
        Laser::PlaneWave(_) => false,
        Laser::FastPlaneWave(_) => false,
        Laser::FocusedLaser(_) => true,
        Laser::FastFocusedLaser(_) => true,
    }
}

/// The local fields of a model at a four-position.
pub open spec fn laser_fields_spec(l: Laser, r: FourVector) -> (ThreeVector, ThreeVector, int) {
    fields_spec(laser_params_spec(l), laser_fast_spec(l), laser_focused_spec(l), r)
}

impl Laser {
    /// The model's construction parameters.
    fn params(&self) -> (p: LaserParams)
        ensures
            p == laser_params_spec(*self),
    {
        match self {
            Laser::PlaneWave(m) => m.params,
            Laser::FastPlaneWave(m) => m.params,
            Laser::FocusedLaser(m) => m.params,
            Laser::FastFocusedLaser(m) => m.params,
        }
    }

    /// The local electric field, magnetic field and normalized amplitude.
    pub fn fields(&self, r: FourVector) -> (res: (ThreeVector, ThreeVector, Fix))
        ensures
            (res.0, res.1, res.2.raw as int) == laser_fields_spec(*self, r),
    {
        let p = self.params();
        match self {
            Laser::PlaneWave(_) => fields_at(&p, false, false, r),
            Laser::FastPlaneWave(_) => fields_at(&p, true, false, r),
            Laser::FocusedLaser(_) => fields_at(&p, false, true, r),
            Laser::FastFocusedLaser(_) => fields_at(&p, true, true, r),
        }
    }

    /// Whether the pulse has not yet fully passed the four-position.
    pub fn contains(&self, r: FourVector) -> (res: bool)
        ensures
            res == contains_spec(laser_params_spec(*self), r),
    {
        let p = self.params();
        contains_at(&p, r)
    }

    /// The advisory maximum timestep: a hundredth of the wavelength.
    pub fn max_timestep(&self) -> (res: Option<Fix>)
        ensures
            res == Some(Fix { raw: max_timestep_spec(laser_params_spec(*self)) as i64 }),
    {
        let p = self.params();
        Some(p.wavelength.div(Fix { raw: STEPS_PER_CYCLE_RAW }))
    }

    /// The launch distance at which the pulse has not yet arrived.
    pub fn ideal_initial_z(&self) -> (res: Fix)
        ensures
            res.raw == ideal_initial_z_spec(laser_params_spec(*self)),
    {
        let p = self.params();
        p.n_cycles.mul(p.wavelength)
    }

    /// The total field energy and its unit: per unit area for the
    /// transversely infinite plane waves, absolute for the focused beams.
    pub fn energy(&self) -> (res: (Fix, &'static str))
        ensures
            res.0.raw == energy_spec(laser_params_spec(*self), laser_focused_spec(*self)),
            laser_focused_spec(*self) ==> res.1@ == "J"@,
            !laser_focused_spec(*self) ==> res.1@ == "J/m^2"@,
    {
        let p = self.params();
        let area_density = Fix { raw: 2147483648 }.mul(p.a0.mul(p.a0).mul(p.n_cycles.mul(p.wavelength)));
        match self {
            Laser::PlaneWave(_) | Laser::FastPlaneWave(_) => (area_density, "J/m^2"),
            Laser::FocusedLaser(_) | Laser::FastFocusedLaser(_) => (area_density.mul(p.waist.mul(p.waist)), "J"),
        }
    }

    /// Advances a particle by `dt`: the field is looked up at the
    /// free-streaming midpoint, the momentum takes the
    /// locally-constant-field update, and the position takes one full
    /// step `u' dt / u'_t` with the updated momentum. Under a model whose
    /// field is zero at the midpoint, the momentum of an on-shell
    /// particle is unchanged and the position advances by exactly
    /// `u dt / u_t` (see [`lcf::lemma_push_zero_field`]). Returns the new
    /// position, new momentum, elapsed lab time and absorbed energy.
    pub fn push(&self, r: FourVector, u: FourVector, rqm: Fix, dt: Fix, eqn: EquationOfMotion)
        -> (res: (FourVector, FourVector, Fix, Fix))
        ensures
            ({
                let rm = half_adv_spec(r, u, dt.raw as int);
                let fields = laser_fields_spec(*self, rm);
                res.1 == vay_momentum_spec(u, fields.0, fields.1, rqm.raw as int, dt.raw as int, eqn)
                && res.0 == lcf::full_adv_spec(r, res.1, dt.raw as int)
                && res.2 == dt
                && res.3.raw == fsub(res.1.t.raw as int, u.t.raw as int)
                && crate::geometry::on_shell(res.1, SCALE as int)
            }),
    {
        let rm = lcf::half_advance(r, u, dt);
        let (e, b, _a) = self.fields(rm);
        lcf::vay_push(r, u, e, b, rqm, dt, eqn)
    }

    /// Checks whether an electron or positron at `r` with momentum `u`
    /// emits a photon during `dt` (see [`lcf::radiate`]): no event in
    /// classical mode or when the local amplitude or quantum parameter is
    /// zero.
    pub fn radiate(&self, r: FourVector, u: FourVector, dt: Fix, smp: &mut Sampler, mode: RadiationMode)
        -> (res: Option<RadiationEvent>)
        ensures
            mode == RadiationMode::Classical ==> res is None,
            laser_fields_spec(*self, r).2 <= 0 ==> res is None,
            chi_spec(u, laser_fields_spec(*self, r).0, laser_fields_spec(*self, r).1) <= 0 ==> res is None,
            res matches Some(ev) ==> crate::geometry::on_shell(ev.k, 0)
                && crate::geometry::on_shell(ev.u_prime, SCALE as int),
            exists|d1: int, d2: int|
                0 <= d1 < SCALE as int && 0 <= d2 < SCALE as int
                && res == lcf::radiate_res_spec(u, laser_fields_spec(*self, r).0,
                    laser_fields_spec(*self, r).1, laser_fields_spec(*self, r).2,
                    dt.raw as int, mode, d1, d2),
    {
        let (e, b, a) = self.fields(r);
        let res = lcf::radiate(u, e, b, a, dt, smp, mode);
        proof {
            let (d1, d2) = choose|d1: int, d2: int|
                0 <= d1 < SCALE as int && 0 <= d2 < SCALE as int
                && res == lcf::radiate_res_spec(u, e, b, a.raw as int, dt.raw as int, mode, d1, d2);
            assert(res == lcf::radiate_res_spec(u, laser_fields_spec(*self, r).0,
                laser_fields_spec(*self, r).1, laser_fields_spec(*self, r).2,
                dt.raw as int, mode, d1, d2));
        }
        res
    }

    /// Checks whether a photon at `r` with momentum `ell` and polarization
    /// `pol` converts to a pair during `dt` (see [`lcf::pair_create`]):
    /// the returned probability is independent of `rate_increase`, and
    /// there is no event when the local amplitude or quantum parameter is
    /// zero.
    pub fn pair_create(&self, r: FourVector, ell: FourVector, pol: StokesVector, dt: Fix, smp: &mut Sampler, rate_increase: Fix)
        -> (res: (Fix, StokesVector, Option<PairCreationEvent>))
        ensures
            ({
                let fields = laser_fields_spec(*self, r);
                res.0.raw == pair_prob_spec(ell, fields.0, fields.1, fields.2, dt.raw as int)
                && res.1 == pol
                && (fields.2 <= 0 ==> res.2 is None)
                && (chi_spec(ell, fields.0, fields.1) <= 0 ==> res.2 is None)
                && (res.2 matches Some(ev) ==> crate::geometry::on_shell(ev.u_e, SCALE as int)
                    && crate::geometry::on_shell(ev.u_p, SCALE as int))
                && (exists|d1: int, d2: int|
                    0 <= d1 < SCALE as int && 0 <= d2 < SCALE as int
                    && res.2 == lcf::pair_event_spec(ell, fields.0, fields.1, fields.2,
                        dt.raw as int, rate_increase.raw as int, d1, d2))
            }),
    {
        let (e, b, a) = self.fields(r);
        let res = lcf::pair_create(ell, pol, e, b, a, dt, smp, rate_increase);
        proof {
            let fields = laser_fields_spec(*self, r);
            let (d1, d2) = choose|d1: int, d2: int|
                0 <= d1 < SCALE as int && 0 <= d2 < SCALE as int
                && res.2 == lcf::pair_event_spec(ell, e, b, a.raw as int, dt.raw as int, rate_increase.raw as int, d1, d2);
            assert(res.2 == lcf::pair_event_spec(ell, fields.0, fields.1, fields.2,
                dt.raw as int, rate_increase.raw as int, d1, d2));
        }
        res
    }
}

impl Field for PlaneWave {
    open spec fn fields_spec(&self, r: FourVector) -> (ThreeVector, ThreeVector, Fix) {
        fields_spec_packed(self.params, false, false, r)
    }

    fn max_timestep(&self) -> Option<Fix> {
        Some(self.params.wavelength.div(Fix { raw: STEPS_PER_CYCLE_RAW }))
    }

    fn contains(&self, r: FourVector) -> bool {
        contains_at(&self.params, r)
    }

    fn ideal_initial_z(&self) -> Fix {
        self.params.n_cycles.mul(self.params.wavelength)
    }

    fn fields(&self, r: FourVector) -> (ThreeVector, ThreeVector, Fix) {
        fields_at(&self.params, false, false, r)
    }

    fn energy(&self) -> (Fix, &'static str) {
        Laser::PlaneWave(*self).energy()
    }
}

impl Field for FastPlaneWave {
    open spec fn fields_spec(&self, r: FourVector) -> (ThreeVector, ThreeVector, Fix) {
        fields_spec_packed(self.params, true, false, r)
    }

    fn max_timestep(&self) -> Option<Fix> {
        Some(self.params.wavelength.div(Fix { raw: STEPS_PER_CYCLE_RAW }))
    }

    fn contains(&self, r: FourVector) -> bool {
        contains_at(&self.params, r)
    }

    fn ideal_initial_z(&self) -> Fix {
        self.params.n_cycles.mul(self.params.wavelength)
    }

    fn fields(&self, r: FourVector) -> (ThreeVector, ThreeVector, Fix) {
        fields_at(&self.params, true, false, r)
    }

    fn energy(&self) -> (Fix, &'static str) {
        Laser::FastPlaneWave(*self).energy()
    }
}

impl Field for FocusedLaser {
    open spec fn fields_spec(&self, r: FourVector) -> (ThreeVector, ThreeVector, Fix) {
        fields_spec_packed(self.params, false, true, r)
    }

    fn max_timestep(&self) -> Option<Fix> {
        Some(self.params.wavelength.div(Fix { raw: STEPS_PER_CYCLE_RAW }))
    }

    fn contains(&self, r: FourVector) -> bool {
        contains_at(&self.params, r)
    }

    fn ideal_initial_z(&self) -> Fix {
        self.params.n_cycles.mul(self.params.wavelength)
    }

    fn fields(&self, r: FourVector) -> (ThreeVector, ThreeVector, Fix) {
        fields_at(&self.params, false, true, r)
    }

    fn energy(&self) -> (Fix, &'static str) {
        Laser::FocusedLaser(*self).energy()
    }
}

impl Field for FastFocusedLaser {
    open spec fn fields_spec(&self, r: FourVector) -> (ThreeVector, ThreeVector, Fix) {
        fields_spec_packed(self.params, true, true, r)
    }

    fn max_timestep(&self) -> Option<Fix> {
        Some(self.params.wavelength.div(Fix { raw: STEPS_PER_CYCLE_RAW }))
    }

    fn contains(&self, r: FourVector) -> bool {
        contains_at(&self.params, r)
    }

    fn ideal_initial_z(&self) -> Fix {
        self.params.n_cycles.mul(self.params.wavelength)
    }

    fn fields(&self, r: FourVector) -> (ThreeVector, ThreeVector, Fix) {
        fields_at(&self.params, true, true, r)
    }

    fn energy(&self) -> (Fix, &'static str) {
        Laser::FastFocusedLaser(*self).energy()
    }
}

impl Field for Laser {
    open spec fn fields_spec(&self, r: FourVector) -> (ThreeVector, ThreeVector, Fix) {
        let f = laser_fields_spec(*self, r);
        (f.0, f.1, Fix { raw: f.2 as i64 })
    }

    fn max_timestep(&self) -> Option<Fix> {
        Laser::max_timestep(self)
    }

    fn contains(&self, r: FourVector) -> bool {
        Laser::contains(self, r)
    }

    fn ideal_initial_z(&self) -> Fix {
        Laser::ideal_initial_z(self)
    }

    fn fields(&self, r: FourVector) -> (ThreeVector, ThreeVector, Fix) {
        Laser::fields(self, r)
    }

    fn energy(&self) -> (Fix, &'static str) {
        Laser::energy(self)
    }
}

} // verus!
