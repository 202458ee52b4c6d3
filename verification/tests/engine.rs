//! Tests of the locally-constant-field engine and the laser field models.

use lcf_qed::fixed::{Fix, SCALE};
use lcf_qed::geometry::{FourVector, StokesVector, ThreeVector};
use lcf_qed::field::{Envelope, EquationOfMotion, Field, Polarization, RadiationMode};
use lcf_qed::lasers::{FastFocusedLaser, FastPlaneWave, FocusedLaser, Laser, PlaneWave};
use lcf_qed::lcf;
use lcf_qed::random::Sampler;

fn fix_int(n: i64) -> Fix {
    Fix::from_int(n)
}

fn zero3() -> ThreeVector {
    ThreeVector::new(Fix::zero(), Fix::zero(), Fix::zero())
}

fn electron_like(uz: i64) -> FourVector {
    FourVector::new(Fix::zero(), Fix::zero(), Fix::zero(), fix_int(uz)).unitize()
}

#[test]
fn includes_rr_by_equation() {
    assert!(!EquationOfMotion::Lorentz.includes_rr());
    assert!(EquationOfMotion::LandauLifshitz.includes_rr());
    assert!(EquationOfMotion::ModifiedLandauLifshitz.includes_rr());
}

#[test]
fn push_in_zero_field_is_free_streaming() {
    let u = electron_like(-1000);
    let r = FourVector::new(Fix::zero(), fix_int(2), Fix::zero(), fix_int(50));
    let dt = Fix::one().div(fix_int(100));
    for eqn in [
        EquationOfMotion::Lorentz,
        EquationOfMotion::LandauLifshitz,
        EquationOfMotion::ModifiedLandauLifshitz,
    ] {
        let (r2, u2, tl, absorbed) = lcf::vay_push(r, u, zero3(), zero3(), fix_int(-1), dt, eqn);
        // momentum exactly unchanged, for any dt and equation of motion
        assert_eq!(u2, u);
        assert_eq!(tl, dt);
        assert_eq!(absorbed, Fix::zero());
        // position advances by exactly the single free step u dt / u_t
        assert_eq!(r2, lcf::full_advance(r, u, dt));
        let ig = dt.div(u.t);
        let expected = FourVector::new(r.t.add(dt), r.x.add(u.x.mul(ig)), r.y.add(u.y.mul(ig)), r.z.add(u.z.mul(ig)));
        assert_eq!(r2, expected);
    }
}

#[test]
fn stub_model_with_zero_amplitude_is_inert() {
    // a model whose amplitude is zero everywhere returns zero fields, so
    // the push is free streaming and no stochastic event ever fires
    let stub = Laser::PlaneWave(PlaneWave::new(
        Fix::zero(),
        Fix::one(),
        fix_int(10),
        Polarization::Linear,
        Fix::zero(),
    ));
    let u = electron_like(-500);
    let r = FourVector::new(Fix::zero(), Fix::zero(), Fix::zero(), fix_int(3));
    let dt = Fix::one().div(fix_int(10));
    let (e, b, a) = stub.fields(r);
    assert_eq!(e, zero3());
    assert_eq!(b, zero3());
    assert_eq!(a, Fix::zero());
    let (_r2, u2, _tl, _abs) = stub.push(r, u, fix_int(-1), dt, EquationOfMotion::Lorentz);
    assert_eq!(u2, u);
    let mut smp = Sampler::from_seed(1);
    assert!(stub.radiate(r, u, dt, &mut smp, RadiationMode::Quantum).is_none());
    let k = FourVector::lightlike(Fix::zero(), Fix::zero(), fix_int(-800));
    let (p, pol, ev) = stub.pair_create(r, k, StokesVector::unpolarized(), dt, &mut smp, Fix::one());
    assert_eq!(p, Fix::zero());
    assert_eq!(pol, StokesVector::unpolarized());
    assert!(ev.is_none());
}

#[test]
fn radiate_returns_no_event_at_zero_amplitude() {
    let mut smp = Sampler::from_seed(2);
    let u = electron_like(-1000);
    let e = ThreeVector::new(fix_int(5), Fix::zero(), Fix::zero());
    let b = zero3();
    // nonzero fields but amplitude reported as zero: still no event
    let ev = lcf::radiate(u, e, b, Fix::zero(), Fix::one(), &mut smp, RadiationMode::Quantum);
    assert!(ev.is_none());
    // classical mode never yields a discrete event
    let ev = lcf::radiate(u, e, b, fix_int(2), Fix::one(), &mut smp, RadiationMode::Classical);
    assert!(ev.is_none());
}

#[test]
fn radiation_event_conserves_momentum_exactly() {
    let mut smp = Sampler::from_seed(3);
    let u = electron_like(-1000);
    let e = ThreeVector::new(fix_int(2), Fix::zero(), Fix::zero());
    let b = zero3();
    // chi = gamma * |E|, probability = chi dt / gamma = |E| dt, clamped
    // to 1 for dt = 1: an event is certain
    let ev = lcf::radiate(u, e, b, fix_int(2), Fix::one(), &mut smp, RadiationMode::Quantum)
        .expect("emission probability is clamped to one");
    // the spatial momenta of photon and recoil sum back to the parent's
    assert_eq!(ev.k.spatial_part().add(ev.u_prime.spatial_part()), u.spatial_part());
    // the photon is light-like and the recoil is back on the mass shell
    let kk = ev.k.inner(ev.k).raw;
    assert!(kk <= 0 && -kk <= 2 * (ev.k.t.raw / SCALE) + 2);
    let uu = ev.u_prime.inner(ev.u_prime).raw;
    assert!(uu <= SCALE && SCALE - uu <= 2 * (ev.u_prime.t.raw / SCALE) + 2);
    assert_eq!(ev.a_eff, fix_int(2));
    assert_eq!(ev.absorption, Fix::zero());
    assert_eq!(ev.pol, StokesVector::unpolarized());
}

#[test]
fn pair_creation_event_conserves_momentum_exactly() {
    let mut smp = Sampler::from_seed(4);
    let k = FourVector::lightlike(Fix::zero(), Fix::zero(), fix_int(-2000));
    let e = ThreeVector::new(fix_int(2), Fix::zero(), Fix::zero());
    let b = zero3();
    let (prob, _pol, ev) = lcf::pair_create(
        k,
        StokesVector::unpolarized(),
        e,
        b,
        fix_int(2),
        Fix::one(),
        &mut smp,
        Fix::one(),
    );
    assert_eq!(prob, Fix::one());
    let ev = ev.expect("pair-creation probability is clamped to one");
    // the spatial momenta of the pair sum back to the photon's
    assert_eq!(ev.u_e.spatial_part().add(ev.u_p.spatial_part()), k.spatial_part());
    // electron and positron are both unitized (massive shell)
    for m in [ev.u_e, ev.u_p] {
        let mm = m.inner(m).raw;
        assert!(mm <= SCALE && SCALE - mm <= 2 * (m.t.raw / SCALE) + 2);
        assert!(m.t.raw >= SCALE);
    }
    // the decay fraction lies in the sampled band [1/4, 3/4)
    assert!(SCALE / 4 <= ev.frac.raw && ev.frac.raw < 3 * (SCALE / 4));
}

#[test]
fn pair_probability_is_independent_of_rate_increase() {
    let k = FourVector::lightlike(Fix::zero(), Fix::zero(), fix_int(-2000));
    let e = ThreeVector::new(Fix::one().div(fix_int(100000)), Fix::zero(), Fix::zero());
    let b = zero3();
    let dt = Fix::one().div(fix_int(100));
    let run = |ri: i64| {
        let mut smp = Sampler::from_seed(5);
        lcf::pair_create(k, StokesVector::unpolarized(), e, b, Fix::one(), dt, &mut smp, fix_int(ri)).0
    };
    let p1 = run(1);
    let p10 = run(10);
    assert_eq!(p1, p10);
    assert!(p1.raw > 0);
}

#[test]
fn pair_event_rate_scales_with_rate_increase() {
    // chi = 2000, true probability = chi dt / gamma = 0.01: about 20
    // natural events in 2000 trials against about 400 forced ones
    let k = FourVector::lightlike(Fix::zero(), Fix::zero(), fix_int(-2000));
    let e = ThreeVector::new(Fix::one(), Fix::zero(), Fix::zero());
    let b = zero3();
    let dt = Fix::one().div(fix_int(100));
    let count = |ri: i64| {
        let mut smp = Sampler::from_seed(6);
        let mut n = 0u32;
        for _ in 0..2000 {
            let (_p, _pol, ev) = lcf::pair_create(
                k,
                StokesVector::unpolarized(),
                e,
                b,
                Fix::one(),
                dt,
                &mut smp,
                fix_int(ri),
            );
            if ev.is_some() {
                n += 1;
            }
        }
        n
    };
    let lo = count(1);
    let hi = count(20);
    assert!(hi > lo, "forced events {hi} should outnumber natural events {lo}");
}

#[test]
fn stochastic_processes_are_reproducible_for_a_fixed_seed() {
    let u = electron_like(-1000);
    let e = ThreeVector::new(Fix::one(), Fix::zero(), Fix::zero());
    let b = ThreeVector::new(Fix::zero(), Fix::one(), Fix::zero());
    let run = || {
        let mut smp = Sampler::from_seed(77);
        let mut log = Vec::new();
        for _ in 0..50 {
            log.push(lcf::radiate(u, e, b, Fix::one(), Fix::one().div(fix_int(3)), &mut smp, RadiationMode::Quantum));
        }
        log
    };
    assert_eq!(run(), run());
}

#[test]
fn laser_queries_are_consistent() {
    let lam = Fix::one();
    let pw = Laser::PlaneWave(PlaneWave::new(fix_int(2), lam, fix_int(10), Polarization::Linear, Fix::zero()));
    // a hundredth of the wavelength
    assert_eq!(pw.max_timestep(), Some(Fix { raw: SCALE / 100 }));
    // n_cycles wavelengths upstream
    assert_eq!(pw.ideal_initial_z(), fix_int(10));
    let (en, unit) = pw.energy();
    assert_eq!(unit, "J/m^2");
    // a0^2 n lambda / 2 = 4 * 10 / 2 = 20
    assert_eq!(en, fix_int(20));
    let fl = Laser::FocusedLaser(
        FocusedLaser::new(fix_int(2), lam, fix_int(3), fix_int(10), Polarization::Linear, Fix::zero())
            .with_envelope(Envelope::Gaussian),
    );
    let (en, unit) = fl.energy();
    assert_eq!(unit, "J");
    // further confined by w0^2 = 9
    assert_eq!(en, fix_int(180));
    // the pulse window: still ahead of a point near focus at t = 0 and of
    // a particle far upstream, but fully past a point far downstream
    let origin = FourVector::new(Fix::zero(), Fix::zero(), Fix::zero(), Fix::zero());
    assert!(pw.contains(origin));
    let upstream = FourVector::new(Fix::zero(), Fix::zero(), Fix::zero(), fix_int(1000));
    assert!(pw.contains(upstream));
    let behind = FourVector::new(Fix::zero(), Fix::zero(), Fix::zero(), fix_int(-1000));
    assert!(!pw.contains(behind));
}

#[test]
fn plane_wave_fields_at_focus() {
    // at the origin with zero carrier phase: cos(0) = 1, the envelope is
    // 1 (flattop), so E = (a0, 0, 0) and B = (0, a0, 0) exactly
    let pw = Laser::PlaneWave(
        PlaneWave::new(fix_int(3), Fix::one(), fix_int(10), Polarization::Linear, Fix::zero())
            .with_envelope(Envelope::Flattop),
    );
    let origin = FourVector::new(Fix::zero(), Fix::zero(), Fix::zero(), Fix::zero());
    let (e, b, a) = pw.fields(origin);
    assert_eq!(e, ThreeVector::new(fix_int(3), Fix::zero(), Fix::zero()));
    assert_eq!(b, ThreeVector::new(Fix::zero(), fix_int(3), Fix::zero()));
    assert_eq!(a, fix_int(3));
    // the fast variant averages out the carrier: amplitude 1/sqrt(2) of
    // the envelope amplitude for linear polarization
    let fast = Laser::FastPlaneWave(
        FastPlaneWave::new(fix_int(3), Fix::one(), fix_int(10), Polarization::Linear, Fix::zero())
            .with_envelope(Envelope::Flattop),
    );
    let (ef, _bf, af) = fast.fields(origin);
    assert_eq!(af, fix_int(3));
    assert!(ef.x.raw < e.x.raw && ef.x.raw > 2 * SCALE);
    // the focused variant is damped away from the axis
    let fl = Laser::FastFocusedLaser(
        FastFocusedLaser::new(fix_int(3), Fix::one(), fix_int(2), fix_int(10), Polarization::Circular, Fix::zero())
            .with_envelope(Envelope::Flattop),
    );
    let off_axis = FourVector::new(Fix::zero(), fix_int(2), Fix::zero(), Fix::zero());
    let (_e1, _b1, a_axis) = fl.fields(origin);
    let (_e2, _b2, a_off) = fl.fields(off_axis);
    assert_eq!(a_axis, fix_int(3));
    assert!(a_off.raw < a_axis.raw && a_off.raw > 0);
}

#[test]
fn field_trait_dispatch_matches_the_union() {
    let m = FocusedLaser::new(fix_int(2), Fix::one(), fix_int(3), fix_int(10), Polarization::Circular, Fix::zero());
    let l = Laser::FocusedLaser(m);
    let r = FourVector::new(Fix::zero(), Fix::one(), Fix::zero(), Fix::zero());
    assert_eq!(Field::fields(&m, r), l.fields(r));
    assert_eq!(Field::contains(&m, r), l.contains(r));
    assert_eq!(Field::max_timestep(&m), l.max_timestep());
    assert_eq!(Field::ideal_initial_z(&m), l.ideal_initial_z());
    assert_eq!(Field::energy(&m), l.energy());
}

#[test]
fn pusher_gains_transverse_momentum_in_a_field() {
    // an electron running against a circularly polarized pulse picks up
    // transverse momentum while inside it
    let laser = Laser::PlaneWave(
        PlaneWave::new(Fix::one(), Fix::one(), fix_int(5), Polarization::Circular, Fix::zero())
            .with_envelope(Envelope::Flattop),
    );
    let dt = laser.max_timestep().unwrap();
    let mut u = electron_like(-100);
    let mut r = FourVector::new(Fix::zero(), Fix::zero(), Fix::zero(), Fix::zero());
    for _ in 0..200 {
        let (r2, u2, _tl, _abs) = laser.push(r, u, fix_int(-1), dt, EquationOfMotion::Lorentz);
        r = r2;
        u = u2;
    }
    assert!(u.x.raw != 0 || u.y.raw != 0);
    // the momentum stays on the mass shell throughout
    let inner = u.inner(u).raw;
    assert!(inner <= SCALE && SCALE - inner <= 2 * (u.t.raw / SCALE) + 2);
}

#[test]
fn electron_crossing_a_focused_circular_pulse_is_deflected() {
    // end-to-end: an electron launched upstream at the model's ideal
    // launch distance crosses a circularly polarized focused flattop
    // pulse slightly off axis and comes out deflected, still on the mass
    // shell
    let laser = Laser::FocusedLaser(
        FocusedLaser::new(fix_int(2), Fix::one(), fix_int(4), fix_int(5), Polarization::Circular, Fix::zero())
            .with_envelope(Envelope::Flattop),
    );
    let z0 = laser.ideal_initial_z();
    let u0 = electron_like(-200);
    let mut r = FourVector::new(z0.neg(), fix_int(2), Fix::zero(), z0);
    let mut u = u0;
    let dt = laser.max_timestep().unwrap();
    let mut steps = 0u32;
    while laser.contains(r) && steps < 20000 {
        let (r2, u2, _tl, _abs) = laser.push(r, u, fix_int(-1), dt, EquationOfMotion::Lorentz);
        r = r2;
        u = u2;
        steps += 1;
    }
    assert!(steps > 0 && steps < 20000, "particle should cross the pulse, took {steps}");
    assert!(u != u0, "crossing the pulse should change the momentum");
    let inner = u.inner(u).raw;
    assert!(inner <= SCALE && SCALE - inner <= 2 * (u.t.raw / SCALE) + 2);
}

struct StubModel;

impl Field for StubModel {
    fn fields(&self, _r: FourVector) -> (ThreeVector, ThreeVector, Fix) {
        (
            ThreeVector::new(Fix::zero(), Fix::zero(), Fix::zero()),
            ThreeVector::new(Fix::zero(), Fix::zero(), Fix::zero()),
            Fix::zero(),
        )
    }

    fn max_timestep(&self) -> Option<Fix> {
        None
    }

    fn contains(&self, _r: FourVector) -> bool {
        true
    }

    fn ideal_initial_z(&self) -> Fix {
        Fix::zero()
    }

    fn energy(&self) -> (Fix, &'static str) {
        (Fix::zero(), "J")
    }
}

#[test]
fn fields_of_a_stub_model_are_zero() {
    let r = FourVector::new(fix_int(1), fix_int(2), fix_int(3), fix_int(4));
    let (e, b, a) = Field::fields(&StubModel, r);
    assert_eq!(e, zero3());
    assert_eq!(b, zero3());
    assert_eq!(a, Fix::zero());
}
