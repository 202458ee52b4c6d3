//! The beam builder: samples an ensemble of independent initial particle
//! states from configurable statistical distributions.
//!
//! Exactly one primary energy spectrum (normal or bremsstrahlung) must be
//! selected before `build`; building without one is a configuration error.
//! Rejection sampling retries a bounded number of times and then falls back
//! to the nearest admissible value, so every sampler is total and its
//! guarantees (an energy fraction inside the spectrum's support, a Lorentz
//! factor above one, a transverse offset inside its truncation window) are
//! proved to hold of every outcome.

use vstd::prelude::*;
use crate::fixed::{Fix, SCALE, fadd, fsub, fmul, fdiv, fneg, fsqrt_spec, abs_int, sat_i64, lemma_fmul_zero, lemma_fmul_one, lemma_fmul_bounded, lemma_fmul_nonneg, lemma_sqrt_le_one};
use crate::trig::{TAU_RAW, cos_spec, sin_spec, clamp01_spec, lemma_trig_at_zero};
use crate::geometry::{ThreeVector, FourVector, StokesVector, v3, on_shell, roty_spec, rotz_spec, lightlike_spec, unitize_spec, lemma_unitized_gamma};
use crate::particle::{Species, Particle};
use crate::random::Sampler;

verus! {

/// How many rejected draws a rejection sampler tolerates before falling
/// back to an admissible value.
pub const RETRY_LIMIT: u64 = 65536;

/// Raw value of `4/3`, the constant of the bremsstrahlung target density.
pub const FOUR_THIRDS_RAW: i64 = 5726623061;

/// The configured transverse (radial) distribution of the beam.
#[derive(Clone, Copy, PartialEq, Eq, Structural, Debug)]
pub enum RadialDistribution {
    /// Uniform over a disk of radius `r_max`.
    Uniform { r_max: Fix },
    /// Independent normals with the given standard deviations.
    Normal { sigma_x: Fix, sigma_y: Fix },
    /// Independent normals truncated at `x_max` and `y_max`.
    TruncNormal { sigma_x: Fix, sigma_y: Fix, x_max: Fix, y_max: Fix },
}

/// A pair of offsets that came from two standard-normal draws scaled by
/// the given deviations.
pub open spec fn normal_pair_ok(sigma_x: Fix, sigma_y: Fix, rx: Fix, ry: Fix) -> bool {
    exists|n0: int, n1: int|
        #![trigger fmul(sigma_x.raw as int, n0), fmul(sigma_y.raw as int, n1)]
        -6 * (SCALE as int) <= n0 <= 6 * (SCALE as int)
        && -6 * (SCALE as int) <= n1 <= 6 * (SCALE as int)
        && rx.raw == fmul(sigma_x.raw as int, n0) && ry.raw == fmul(sigma_y.raw as int, n1)
}

/// What a transverse draw from the distribution `d` looks like: each
/// variant's offsets are the stated function of unit or standard-normal
/// draws; the truncated variant may also fall back to the origin after
/// the retry bound.
pub open spec fn radial_sample_ok(d: RadialDistribution, rx: Fix, ry: Fix) -> bool {
    match d {
        RadialDistribution::Uniform { r_max } => exists|u1: int, u2: int|
            #![trigger fsqrt_spec(u1), fmul(TAU_RAW as int, u2)]
            0 <= u1 < SCALE as int && 0 <= u2 < SCALE as int
            && ({
                let rad = fmul(r_max.raw as int, fsqrt_spec(u1));
                let th = fmul(TAU_RAW as int, u2);
                rx.raw == fmul(rad, cos_spec(th)) && ry.raw == fmul(rad, sin_spec(th))
            }),
        RadialDistribution::Normal { sigma_x, sigma_y } => normal_pair_ok(sigma_x, sigma_y, rx, ry),
        RadialDistribution::TruncNormal { sigma_x, sigma_y, .. } =>
            (rx.raw == 0 && ry.raw == 0) || normal_pair_ok(sigma_x, sigma_y, rx, ry),
    }
}

impl RadialDistribution {
    /// Samples a transverse offset: the result is pinned by
    /// [`radial_sample_ok`] to the underlying draws. A uniform-disk draw
    /// never leaves the disk's bounding square; a truncated-normal draw
    /// never leaves its truncation window (falling back to the origin
    /// after the retry bound).
    pub fn sample(&self, smp: &mut Sampler) -> (res: (Fix, Fix))
        ensures
            radial_sample_ok(*self, res.0, res.1),
            (match *self {
                RadialDistribution::Uniform { r_max } =>
                    r_max.raw >= 0 ==> abs_int(res.0.raw as int) <= r_max.raw
                        && abs_int(res.1.raw as int) <= r_max.raw,
                RadialDistribution::Normal { .. } => true,
                RadialDistribution::TruncNormal { x_max, y_max, .. } =>
                    (x_max.raw >= 0 && y_max.raw >= 0) ==> sat_i64(abs_int(res.0.raw as int)) <= x_max.raw
                        && sat_i64(abs_int(res.1.raw as int)) <= y_max.raw,
            }),
    {
        match *self {
            RadialDistribution::Uniform { r_max } => {
                let u1 = smp.uniform_unit();
                let u2 = smp.uniform_unit();
                let s = u1.sqrt();
                let rad = r_max.mul(s);
                let theta = Fix { raw: TAU_RAW }.mul(u2);
                let c = theta.cos();
                let sn = theta.sin();
                let x = rad.mul(c);
                let y = rad.mul(sn);
                proof {
                    lemma_sqrt_le_one(u1.raw as int, s.raw as int);
                    lemma_fmul_bounded(r_max.raw as int, s.raw as int);
                    lemma_fmul_bounded(rad.raw as int, c.raw as int);
                    lemma_fmul_bounded(rad.raw as int, sn.raw as int);
                }
                (x, y)
            },
            RadialDistribution::Normal { sigma_x, sigma_y } => {
                let n0 = smp.standard_normal();
                let n1 = smp.standard_normal();
                let x = sigma_x.mul(n0);
                let y = sigma_y.mul(n1);
                (x, y)
            },
            RadialDistribution::TruncNormal { sigma_x, sigma_y, x_max, y_max } => {
                let mut i: u64 = 0;
                while i < RETRY_LIMIT
                    invariant
                        *self == (RadialDistribution::TruncNormal { sigma_x, sigma_y, x_max, y_max }),
                    decreases RETRY_LIMIT - i,
                {
                    let n0 = smp.standard_normal();
                    let n1 = smp.standard_normal();
                    let x = sigma_x.mul(n0);
                    let y = sigma_y.mul(n1);
                    if x.abs().raw <= x_max.raw && y.abs().raw <= y_max.raw {
                        proof {
                            assert(x.raw == fmul(sigma_x.raw as int, n0.raw as int)
                                && y.raw == fmul(sigma_y.raw as int, n1.raw as int));
                            assert(normal_pair_ok(sigma_x, sigma_y, x, y));
                            assert(radial_sample_ok(*self, x, y));
                        }
                        return (x, y);
                    }
                    i = i + 1;
                }
                (Fix { raw: 0 }, Fix { raw: 0 })
            },
        }
    }
}

/// The bremsstrahlung target density `4/(3x) - 4/3 + x`.
pub open spec fn brem_density_spec(x: int) -> int {
    fadd(fsub(fdiv(FOUR_THIRDS_RAW as int, x), FOUR_THIRDS_RAW as int), x)
}

/// The bremsstrahlung target density (see [`brem_density_spec`]).
fn brem_density(x: Fix) -> (r: Fix)
    ensures
        r.raw == brem_density_spec(x.raw as int),
{
    Fix { raw: FOUR_THIRDS_RAW }.div(x).sub(Fix { raw: FOUR_THIRDS_RAW }).add(x)
}

/// The correlated draw law of the normal energy spectrum: either the
/// result came from two standard-normal draws `n0, n1` as
/// `dz = sigma_z n0` and
/// `g = gamma + sigma (rho n0 + sqrt(1 - rho^2) n1)` with `rho` the
/// energy chirp, and the factor is physical (`g > 1`); or it is the
/// documented fallback just above 1 at zero offset, taken after the
/// retry bound.
pub open spec fn normal_gamma_ok(gamma: int, sigma: int, sigma_z: int, chirp: int, g: int, dz: int) -> bool {
    (g == (SCALE as int) + 1 && dz == 0)
    || (g > SCALE as int && exists|n0: int, n1: int|
        #![trigger fmul(sigma_z, n0), fmul(fsqrt_spec(fsub(SCALE as int, fmul(chirp, chirp))), n1)]
        -6 * (SCALE as int) <= n0 <= 6 * (SCALE as int)
        && -6 * (SCALE as int) <= n1 <= 6 * (SCALE as int)
        && dz == fmul(sigma_z, n0)
        && g == fadd(gamma, fmul(sigma, fadd(fmul(chirp, n0),
            fmul(fsqrt_spec(fsub(SCALE as int, fmul(chirp, chirp))), n1)))))
}

/// Draws a correlated Lorentz factor and longitudinal offset from the
/// normal energy spectrum, redrawn while the factor is unphysical: the
/// result obeys [`normal_gamma_ok`], and every returned Lorentz factor
/// exceeds one.
pub fn sample_normal_gamma(smp: &mut Sampler, gamma: Fix, sigma: Fix, sigma_z: Fix, energy_chirp: Fix) -> (res: (Fix, Fix))
    ensures
        res.0.raw > SCALE as int,
        normal_gamma_ok(gamma.raw as int, sigma.raw as int, sigma_z.raw as int,
            energy_chirp.raw as int, res.0.raw as int, res.1.raw as int),
{
    let rho = energy_chirp;
    let spread = Fix { raw: SCALE }.sub(rho.mul(rho)).sqrt();
    let mut i: u64 = 0;
    while i < RETRY_LIMIT
        invariant
            rho == energy_chirp,
            spread.raw == fsqrt_spec(fsub(SCALE as int, fmul(energy_chirp.raw as int, energy_chirp.raw as int))),
        decreases RETRY_LIMIT - i,
    {
        let n0 = smp.standard_normal();
        let n1 = smp.standard_normal();
        let n2 = rho.mul(n0).add(spread.mul(n1));
        let dz = sigma_z.mul(n0);
        let g = gamma.add(sigma.mul(n2));
        if g.raw > SCALE {
            return (g, dz);
        }
        i = i + 1;
    }
    (Fix { raw: SCALE + 1 }, Fix { raw: 0 })
}

/// The rejection law of the bremsstrahlung spectrum: either the fraction
/// came from a unit draw `u1` as `x = x_min + (1 - x_min) u1` and a
/// second unit draw accepted it against the density envelope
/// `f(x) / f(x_min)` (so the envelope ratio is nonnegative at `x`); or it
/// is the documented fallback `x_min`, taken after the retry bound.
pub open spec fn brem_fraction_ok(x_min: int, x: int) -> bool {
    x == x_min
    || (exists|u1: int|
        #![trigger fmul(fsub(SCALE as int, x_min), u1)]
        0 <= u1 < SCALE as int
        && x == fadd(x_min, fmul(fsub(SCALE as int, x_min), u1))
        && 0 <= fdiv(brem_density_spec(x), brem_density_spec(x_min)))
}

/// Draws an energy fraction from the bremsstrahlung spectrum on
/// `[x_min, 1]` by rejection against the uniform envelope scaled by the
/// density's maximum (attained at `x_min`): the result obeys
/// [`brem_fraction_ok`], and every returned fraction lies in
/// `[x_min, 1]`.
pub fn sample_brem_fraction(smp: &mut Sampler, x_min: Fix) -> (x: Fix)
    requires
        0 <= x_min.raw <= SCALE as int,
    ensures
        x_min.raw <= x.raw <= SCALE as int,
        brem_fraction_ok(x_min.raw as int, x.raw as int),
{
    let span = Fix { raw: SCALE }.sub(x_min);
    let y_max = brem_density(x_min);
    let mut i: u64 = 0;
    while i < RETRY_LIMIT
        invariant
            0 <= x_min.raw <= SCALE as int,
            span.raw == (SCALE as int) - x_min.raw,
            y_max.raw == brem_density_spec(x_min.raw as int),
        decreases RETRY_LIMIT - i,
    {
        let u1 = smp.uniform_unit();
        let step = span.mul(u1);
        proof {
            lemma_fmul_bounded(span.raw as int, u1.raw as int);
            lemma_fmul_nonneg(span.raw as int, u1.raw as int);
        }
        let x = x_min.add(step);
        let u2 = smp.uniform_unit();
        let y = brem_density(x);
        if u2.raw <= y.div(y_max).raw {
            proof {
                assert(x.raw == fadd(x_min.raw as int,
                    fmul(fsub(SCALE as int, x_min.raw as int), u1.raw as int)));
                assert(brem_fraction_ok(x_min.raw as int, x.raw as int));
            }
            return x;
        }
        i = i + 1;
    }
    x_min
}

/// With no beam tilt, no divergence and no collision-plane rotation, the
/// sampled momentum points along the negative propagation (z) axis: its
/// spatial part is exactly `(0, 0, -|u|)`, with `|u| = sqrt(g^2 - 1)` for
/// massive species and `g` for photons.
pub proof fn lemma_axis_aligned_momentum(cfg: BeamBuilder, g: int, n2: int, n3: int)
    requires
        cfg.angle.raw == 0,
        cfg.rms_div.raw == 0,
        cfg.collision_plane_angle.raw == 0,
    ensures
        ({
            let um = if cfg.species == Species::Photon {
                fneg(g)
            } else {
                fneg(fsqrt_spec(fsub(fmul(g, g), SCALE as int)))
            };
            momentum_spec(cfg, g, n2, n3).spatial() == v3(0, 0, um)
        }),
{
    lemma_trig_at_zero();
    let um = if cfg.species == Species::Photon {
        fneg(g)
    } else {
        fneg(fsqrt_spec(fsub(fmul(g, g), SCALE as int)))
    };
    lemma_fmul_zero(n2);
    lemma_fmul_zero(n3);
    lemma_fmul_zero(um);
    lemma_fmul_zero(SCALE as int);
    assert(i64::MIN <= um <= i64::MAX);
    lemma_fmul_one(um);
    let tx = fadd(cfg.angle.raw as int, fmul(cfg.rms_div.raw as int, n2));
    assert(tx == 0);
    let ty = fmul(cfg.rms_div.raw as int, n3);
    assert(ty == 0);
    let u3 = v3(fmul(fmul(um, sin_spec(tx)), cos_spec(ty)), fmul(um, sin_spec(ty)),
        fmul(fmul(um, cos_spec(tx)), cos_spec(ty)));
    assert(u3 == v3(0, 0, um));
    assert(rotz_spec(u3, 0) == v3(0, 0, um));
}

/// The configuration error of the builder.
#[derive(Clone, Copy, PartialEq, Eq, Structural, Debug)]
pub enum BeamError {
    /// `build` was called before a primary energy spectrum was selected.
    UnspecifiedEnergySpectrum,
}

/// A fluent description of how to generate `num` independent initial
/// particle states of one species.
#[derive(Clone, Copy, PartialEq, Eq, Structural, Debug)]
pub struct BeamBuilder {
    pub species: Species,
    pub num: usize,
    pub weight: Fix,
    pub normal_espec: Option<bool>,
    pub gamma: Fix,
    pub sigma: Fix,
    pub gamma_min: Fix,
    pub gamma_max: Fix,
    pub radial_dstr: RadialDistribution,
    pub sigma_z: Fix,
    pub energy_chirp: Fix,
    pub angle: Fix,
    pub collision_plane_angle: Fix,
    pub rms_div: Fix,
    pub initial_z: Fix,
    pub offset: ThreeVector,
    pub pol: StokesVector,
}

/// The effective minimum energy fraction of the bremsstrahlung spectrum,
/// `gamma_min / gamma_max` clamped into `[0, 1]`.
pub open spec fn xmin_spec(cfg: BeamBuilder) -> int {
    clamp01_spec(fdiv(cfg.gamma_min.raw as int, cfg.gamma_max.raw as int))
}

/// Admissibility of a particle's Lorentz-factor and longitudinal draws
/// under the configured spectrum: the normal spectrum obeys the
/// correlated draw law with a strictly physical factor (`g > 1`); the
/// bremsstrahlung spectrum's factor is `x gamma_max` for an energy
/// fraction `x` in `[gamma_min/gamma_max, 1]`, with an independent normal
/// longitudinal draw.
pub open spec fn gamma_dz_ok(cfg: BeamBuilder, g: int, dz: int) -> bool {
    if cfg.normal_espec == Some(true) {
        normal_gamma_ok(cfg.gamma.raw as int, cfg.sigma.raw as int, cfg.sigma_z.raw as int,
            cfg.energy_chirp.raw as int, g, dz)
    } else {
        (exists|xf: int|
            #![trigger fmul(xf, cfg.gamma_max.raw as int)]
            xmin_spec(cfg) <= xf <= SCALE as int && g == fmul(xf, cfg.gamma_max.raw as int))
        && (exists|n0: int|
            #![trigger fmul(cfg.sigma_z.raw as int, n0)]
            -6 * (SCALE as int) <= n0 <= 6 * (SCALE as int)
            && dz == fmul(cfg.sigma_z.raw as int, n0))
    }
}

/// The four-momentum built from a Lorentz-factor draw `g` and two angular
/// draws `n2, n3`: the signed magnitude is `-sqrt(g^2 - 1)` for massive
/// species and `-g` for photons, decomposed over the divergence angles,
/// rotated about the collision plane, and lifted onto the species' mass
/// shell.
pub open spec fn momentum_spec(cfg: BeamBuilder, g: int, n2: int, n3: int) -> FourVector {
    let um = if cfg.species == Species::Photon {
        fneg(g)
    } else {
        fneg(fsqrt_spec(fsub(fmul(g, g), SCALE as int)))
    };
    let tx = fadd(cfg.angle.raw as int, fmul(cfg.rms_div.raw as int, n2));
    let ty = fmul(cfg.rms_div.raw as int, n3);
    let u3 = v3(fmul(fmul(um, sin_spec(tx)), cos_spec(ty)), fmul(um, sin_spec(ty)),
        fmul(fmul(um, cos_spec(tx)), cos_spec(ty)));
    let u3r = rotz_spec(u3, cfg.collision_plane_angle.raw as int);
    if cfg.species == Species::Photon {
        lightlike_spec(u3r.x, u3r.y, u3r.z)
    } else {
        unitize_spec(FourVector { t: Fix { raw: 0 }, x: u3r.x, y: u3r.y, z: u3r.z })
    }
}

/// The four-position built from the longitudinal draw `dz` and the
/// transverse draws `rx, ry`: the launch time and longitudinal start are
/// keyed off the sign of the longitudinal offset (a beam starting beyond
/// focus launches at `-initial_z`, one closer to focus launches earlier
/// by the offset size), and the spatial position is tilted and rotated
/// like the momentum.
pub open spec fn position_spec(cfg: BeamBuilder, dz: int, rx: int, ry: int) -> FourVector {
    let iz = cfg.initial_z.raw as int;
    let oz = cfg.offset.z.raw as int;
    let t = if oz >= 0 {
        fneg(iz)
    } else {
        fsub(fneg(iz), sat_i64(abs_int(oz)))
    };
    let z = if oz >= 0 {
        fadd(fadd(iz, oz), dz)
    } else {
        fadd(iz, dz)
    };
    let x = fadd(rx, cfg.offset.x.raw as int);
    let y = fadd(ry, cfg.offset.y.raw as int);
    let r3 = rotz_spec(roty_spec(v3(x, y, z), cfg.angle.raw as int),
        cfg.collision_plane_angle.raw as int);
    FourVector { t: Fix { raw: t as i64 }, x: r3.x, y: r3.y, z: r3.z }
}

/// What `build` guarantees of each produced particle: identity and parent
/// identity both equal to its index, the configured species, weight and
/// polarization, a momentum on the right mass shell (with a Lorentz
/// factor of at least one for massive species), the causally consistent
/// launch time, and a momentum and position that are exactly
/// [`momentum_spec`] and [`position_spec`] at admissible draws
/// ([`gamma_dz_ok`] and [`radial_sample_ok`]).
pub open spec fn particle_ok(p: Particle, cfg: BeamBuilder, i: int) -> bool {
    p.id == i && p.parent_id == i
    && p.species == cfg.species
    && p.weight == cfg.weight
    && p.pol == cfg.pol
    && (cfg.species == Species::Photon ==> on_shell(p.u, 0))
    && (cfg.species != Species::Photon ==> on_shell(p.u, SCALE as int) && p.u.t.raw >= SCALE as int)
    && (cfg.offset.z.raw >= 0 ==> p.r.t.raw == fneg(cfg.initial_z.raw as int))
    && (cfg.offset.z.raw < 0 ==> p.r.t.raw == fsub(fneg(cfg.initial_z.raw as int), sat_i64(abs_int(cfg.offset.z.raw as int))))
    && (exists|g: int, dz: int, n2: int, n3: int, rx: Fix, ry: Fix|
        #![trigger gamma_dz_ok(cfg, g, dz), momentum_spec(cfg, g, n2, n3), radial_sample_ok(cfg.radial_dstr, rx, ry)]
        gamma_dz_ok(cfg, g, dz)
        && -6 * (SCALE as int) <= n2 <= 6 * (SCALE as int)
        && -6 * (SCALE as int) <= n3 <= 6 * (SCALE as int)
        && radial_sample_ok(cfg.radial_dstr, rx, ry)
        && p.u == momentum_spec(cfg, g, n2, n3)
        && p.r == position_spec(cfg, dz, rx.raw as int, ry.raw as int))
}

impl BeamBuilder {
    /// A builder for `num` particles of the given species, with unit
    /// weight, no energy spectrum, a point transverse distribution, no
    /// divergence, tilt, offset or chirp, and unpolarized particles.
    pub fn new(species: Species, num: usize) -> (r: BeamBuilder)
        ensures
            r == (BeamBuilder {
                species,
                num,
                weight: Fix { raw: SCALE },
                normal_espec: None::<bool>,
                gamma: Fix { raw: 0 },
                sigma: Fix { raw: 0 },
                gamma_min: Fix { raw: 0 },
                gamma_max: Fix { raw: 0 },
                radial_dstr: RadialDistribution::Uniform { r_max: Fix { raw: 0 } },
                sigma_z: Fix { raw: 0 },
                energy_chirp: Fix { raw: 0 },
                angle: Fix { raw: 0 },
                collision_plane_angle: Fix { raw: 0 },
                rms_div: Fix { raw: 0 },
                initial_z: Fix { raw: 0 },
                offset: ThreeVector { x: Fix { raw: 0 }, y: Fix { raw: 0 }, z: Fix { raw: 0 } },
                pol: StokesVector::unpolarized_spec(),
            }),
    {
        BeamBuilder {
            species,
            num,
            weight: Fix { raw: SCALE },
            normal_espec: None,
            gamma: Fix { raw: 0 },
            sigma: Fix { raw: 0 },
            gamma_min: Fix { raw: 0 },
            gamma_max: Fix { raw: 0 },
            radial_dstr: RadialDistribution::Uniform { r_max: Fix { raw: 0 } },
            sigma_z: Fix { raw: 0 },
            energy_chirp: Fix { raw: 0 },
            angle: Fix { raw: 0 },
            collision_plane_angle: Fix { raw: 0 },
            rms_div: Fix { raw: 0 },
            initial_z: Fix { raw: 0 },
            offset: ThreeVector { x: Fix { raw: 0 }, y: Fix { raw: 0 }, z: Fix { raw: 0 } },
            pol: StokesVector::unpolarized(),
        }
    }

    /// The same configuration with the given launch distance.
    pub fn with_initial_z(&self, initial_z: Fix) -> (r: BeamBuilder)
        ensures
            r == (BeamBuilder { initial_z, ..*self }),
    {
        BeamBuilder { initial_z, ..*self }
    }

    /// The same configuration with the given per-particle weight.
    pub fn with_weight(&self, weight: Fix) -> (r: BeamBuilder)
        ensures
            r == (BeamBuilder { weight, ..*self }),
    {
        BeamBuilder { weight, ..*self }
    }

    /// The same configuration with a normal energy spectrum of the given
    /// mean Lorentz factor and spread.
    pub fn with_normal_energy_spectrum(&self, gamma: Fix, sigma: Fix) -> (r: BeamBuilder)
        ensures
            r == (BeamBuilder { normal_espec: Some(true), gamma, sigma, ..*self }),
    {
        BeamBuilder { normal_espec: Some(true), gamma, sigma, ..*self }
    }

    /// The same configuration with a bremsstrahlung energy spectrum
    /// between the given Lorentz-factor bounds.
    pub fn with_bremsstrahlung_spectrum(&self, gamma_min: Fix, gamma_max: Fix) -> (r: BeamBuilder)
        ensures
            r == (BeamBuilder { normal_espec: Some(false), gamma_min, gamma_max, ..*self }),
    {
        BeamBuilder { normal_espec: Some(false), gamma_min, gamma_max, ..*self }
    }

    /// The same configuration with the given rms angular divergence.
    pub fn with_divergence(&self, rms_div: Fix) -> (r: BeamBuilder)
        ensures
            r == (BeamBuilder { rms_div, ..*self }),
    {
        BeamBuilder { rms_div, ..*self }
    }

    /// The same configuration with the given polar tilt of the beam axis.
    pub fn with_collision_angle(&self, angle: Fix) -> (r: BeamBuilder)
        ensures
            r == (BeamBuilder { angle, ..*self }),
    {
        BeamBuilder { angle, ..*self }
    }

    /// The same configuration with the whole beam rotated azimuthally.
    pub fn with_collision_plane_at(&self, angle: Fix) -> (r: BeamBuilder)
        ensures
            r == (BeamBuilder { collision_plane_angle: angle, ..*self }),
    {
        BeamBuilder { collision_plane_angle: angle, ..*self }
    }

    /// The same configuration with normally distributed transverse
    /// offsets.
    pub fn with_normally_distributed_xy(&self, sigma_x: Fix, sigma_y: Fix) -> (r: BeamBuilder)
        ensures
            r == (BeamBuilder { radial_dstr: RadialDistribution::Normal { sigma_x, sigma_y }, ..*self }),
    {
        BeamBuilder { radial_dstr: RadialDistribution::Normal { sigma_x, sigma_y }, ..*self }
    }

    /// The same configuration with truncated-normal transverse offsets.
    pub fn with_trunc_normally_distributed_xy(&self, sigma_x: Fix, sigma_y: Fix, x_max: Fix, y_max: Fix) -> (r: BeamBuilder)
        ensures
            r == (BeamBuilder { radial_dstr: RadialDistribution::TruncNormal { sigma_x, sigma_y, x_max, y_max }, ..*self }),
    {
        BeamBuilder { radial_dstr: RadialDistribution::TruncNormal { sigma_x, sigma_y, x_max, y_max }, ..*self }
    }

    /// The same configuration with uniformly distributed transverse
    /// offsets over a disk.
    pub fn with_uniformly_distributed_xy(&self, r_max: Fix) -> (r: BeamBuilder)
        ensures
            r == (BeamBuilder { radial_dstr: RadialDistribution::Uniform { r_max }, ..*self }),
    {
        BeamBuilder { radial_dstr: RadialDistribution::Uniform { r_max }, ..*self }
    }

    /// The same configuration with the given bunch length.
    pub fn with_length(&self, sigma_z: Fix) -> (r: BeamBuilder)
        ensures
            r == (BeamBuilder { sigma_z, ..*self }),
    {
        BeamBuilder { sigma_z, ..*self }
    }

    /// The same configuration with the given spatial offset.
    pub fn with_offset(&self, offset: ThreeVector) -> (r: BeamBuilder)
        ensures
            r == (BeamBuilder { offset, ..*self }),
    {
        BeamBuilder { offset, ..*self }
    }

    /// The same configuration with the given energy chirp (the
    /// correlation between longitudinal offset and energy).
    pub fn with_energy_chirp(&self, rho: Fix) -> (r: BeamBuilder)
        ensures
            r == (BeamBuilder { energy_chirp: rho, ..*self }),
    {
        BeamBuilder { energy_chirp: rho, ..*self }
    }

    /// The same configuration with the given polarization applied to
    /// every sampled particle.
    pub fn with_polarization(&self, sv: StokesVector) -> (r: BeamBuilder)
        ensures
            r == (BeamBuilder { pol: sv, ..*self }),
    {
        BeamBuilder { pol: sv, ..*self }
    }

    /// Whether the transverse distribution is normal (truncated or not).
    pub fn transverse_dstr_is_normal(&self) -> (r: bool)
        ensures
            r == !(self.radial_dstr is Uniform),
    {
        !matches!(self.radial_dstr, RadialDistribution::Uniform { .. })
    }

    /// Whether a bremsstrahlung spectrum is configured.
    pub fn has_brem_spec(&self) -> (r: bool)
        ensures
            r == (self.normal_espec == Some(false)),
    {
        match self.normal_espec {
            Some(b) => !b,
            None => false,
        }
    }

    /// The characteristic transverse size and its hard bound; an
    /// untruncated normal distribution has no bound, reported as the
    /// largest representable value.
    pub fn radius(&self) -> (r: (Fix, Fix))
        ensures
            r == (match self.radial_dstr {
                RadialDistribution::Normal { sigma_x, sigma_y } => (sigma_x, Fix { raw: i64::MAX }),
                RadialDistribution::TruncNormal { sigma_x, sigma_y, x_max, y_max } => (sigma_x, x_max),
                RadialDistribution::Uniform { r_max } => (r_max, r_max),
            }),
    {
        match self.radial_dstr {
            RadialDistribution::Normal { sigma_x, sigma_y: _ } => (sigma_x, Fix { raw: i64::MAX }),
            RadialDistribution::TruncNormal { sigma_x, sigma_y: _, x_max, y_max: _ } => (sigma_x, x_max),
            RadialDistribution::Uniform { r_max } => (r_max, r_max),
        }
    }

    /// Builds the beam: exactly `num` particles, each with its index as
    /// id and parent id, the configured species, weight and polarization,
    /// and a momentum on its species' mass shell; a configuration error if
    /// no energy spectrum was selected.
    pub fn build(&self, smp: &mut Sampler) -> (res: Result<Vec<Particle>, BeamError>)
        ensures
            (self.normal_espec is None) == (res is Err),
            res is Err ==> res == Err::<Vec<Particle>, BeamError>(BeamError::UnspecifiedEnergySpectrum),
            res matches Ok(v) ==> v.len() == self.num
                && (forall|i: int| 0 <= i < self.num ==> particle_ok(#[trigger] v@[i], *self, i)),
    {
        let normal_espec = match self.normal_espec {
            None => {
                return Err(BeamError::UnspecifiedEnergySpectrum);
            },
            Some(b) => b,
        };
        let x_min = self.gamma_min.div(self.gamma_max).clamp01();
        let mut out: Vec<Particle> = Vec::new();
        let mut i: usize = 0;
        while i < self.num
            invariant
                i <= self.num,
                out.len() == i,
                forall|j: int| 0 <= j < i ==> particle_ok(#[trigger] out@[j], *self, j),
                x_min.raw == xmin_spec(*self),
                0 <= x_min.raw <= SCALE as int,
                normal_espec == (self.normal_espec == Some(true)),
                self.normal_espec is Some,
            decreases self.num - i,
        {
            let (g, dz) = if normal_espec {
                sample_normal_gamma(smp, self.gamma, self.sigma, self.sigma_z, self.energy_chirp)
            } else {
                let frac = sample_brem_fraction(smp, x_min);
                let g = frac.mul(self.gamma_max);
                let n0 = smp.standard_normal();
                let dz = self.sigma_z.mul(n0);
                proof {
                    assert(g.raw == fmul(frac.raw as int, self.gamma_max.raw as int));
                    assert(dz.raw == fmul(self.sigma_z.raw as int, n0.raw as int));
                    assert(gamma_dz_ok(*self, g.raw as int, dz.raw as int));
                }
                (g, dz)
            };
            proof {
                assert(gamma_dz_ok(*self, g.raw as int, dz.raw as int));
            }
            let um = if matches!(self.species, Species::Photon) {
                g.neg()
            } else {
                g.mul(g).sub(Fix { raw: SCALE }).sqrt().neg()
            };
            let n2 = smp.standard_normal();
            let n3 = smp.standard_normal();
            let tx = self.angle.add(self.rms_div.mul(n2));
            let ty = self.rms_div.mul(n3);
            let u3 = ThreeVector::new(
                um.mul(tx.sin()).mul(ty.cos()),
                um.mul(ty.sin()),
                um.mul(tx.cos()).mul(ty.cos()),
            );
            let u3 = u3.rotate_around_z(self.collision_plane_angle);
            let u4 = if matches!(self.species, Species::Photon) {
                FourVector::lightlike(u3.x, u3.y, u3.z)
            } else {
                FourVector::new(Fix { raw: 0 }, u3.x, u3.y, u3.z).unitize()
            };
            proof {
                assert(u4 == momentum_spec(*self, g.raw as int, n2.raw as int, n3.raw as int));
            }
            let (t, z) = if self.offset.z.raw >= 0 {
                (self.initial_z.neg(), self.initial_z.add(self.offset.z).add(dz))
            } else {
                (self.initial_z.neg().sub(self.offset.z.abs()), self.initial_z.add(dz))
            };
            let (rx, ry) = self.radial_dstr.sample(smp);
            let x = rx.add(self.offset.x);
            let y = ry.add(self.offset.y);
            let r3 = ThreeVector::new(x, y, z)
                .rotate_around_y(self.angle)
                .rotate_around_z(self.collision_plane_angle);
            let r4 = FourVector::new(t, r3.x, r3.y, r3.z);
            proof {
                assert(r4 == position_spec(*self, dz.raw as int, rx.raw as int, ry.raw as int));
            }
            let p = Particle::create(self.species, r4)
                .with_normalized_momentum(u4)
                .with_polarization(self.pol)
                .with_weight(self.weight)
                .with_id(i as u64)
                .with_parent_id(i as u64);
            proof {
                if self.species != Species::Photon {
                    lemma_unitized_gamma(u4);
                }
                assert(particle_ok(p, *self, i as int));
            }
            out.push(p);
            i = i + 1;
        }
        Ok(out)
    }
}

} // verus!
