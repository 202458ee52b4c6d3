//! Tests of the fixed-point scalar, the geometry invariants and the beam
//! builder.

use lcf_qed::fixed::{Fix, SCALE};
use lcf_qed::trig::PI_RAW;
use lcf_qed::geometry::{FourVector, StokesVector, ThreeVector};
use lcf_qed::particle::Species;
use lcf_qed::builder::{BeamBuilder, BeamError, RadialDistribution, sample_brem_fraction, sample_normal_gamma};
use lcf_qed::random::Sampler;

fn fix_int(n: i64) -> Fix {
    Fix::from_int(n)
}

#[test]
fn fixed_arithmetic_exact() {
    assert_eq!(fix_int(3).mul(fix_int(4)), fix_int(12));
    assert_eq!(fix_int(-3).mul(fix_int(4)), fix_int(-12));
    assert_eq!(Fix::one().div(fix_int(4)).raw, SCALE / 4);
    assert_eq!(fix_int(7).sub(fix_int(9)), fix_int(-2));
    assert_eq!(fix_int(9).sqrt(), fix_int(3));
    // floor(sqrt(2) * 2^32)
    assert_eq!(fix_int(2).sqrt().raw, 6074000999);
    // division by zero is total and yields zero
    assert_eq!(fix_int(5).div(Fix::zero()).raw, 0);
    // saturation instead of wraparound
    let big = Fix { raw: i64::MAX };
    assert_eq!(big.add(big).raw, i64::MAX);
    assert_eq!(big.neg().raw, i64::MIN + 1);
}

#[test]
fn trig_exact_anchors() {
    assert_eq!(Fix::zero().cos().raw, SCALE);
    assert_eq!(Fix::zero().sin().raw, 0);
    assert_eq!(Fix { raw: PI_RAW }.cos().raw, -SCALE);
    assert_eq!(Fix::zero().exp_neg().raw, SCALE);
    // exp(-1) to within the approximant's tolerance of a few ulp scaled
    let e1 = Fix::one().exp_neg().raw;
    let expected = 1580030169i64; // 2^32 / e
    assert!((e1 - expected).abs() < 1000, "exp(-1) raw = {e1}");
}

#[test]
fn uniform_and_normal_draws_in_range() {
    let mut smp = Sampler::from_seed(7);
    for _ in 0..1000 {
        let u = smp.uniform_unit();
        assert!(0 <= u.raw && u.raw < SCALE);
        let n = smp.standard_normal();
        assert!(-6 * SCALE <= n.raw && n.raw <= 6 * SCALE);
    }
}

#[test]
fn build_without_spectrum_is_a_configuration_error() {
    let mut smp = Sampler::from_seed(1);
    let res = BeamBuilder::new(Species::Electron, 10).build(&mut smp);
    assert_eq!(res, Err(BeamError::UnspecifiedEnergySpectrum));
}

#[test]
fn build_returns_num_particles_with_sequential_ids() {
    let mut smp = Sampler::from_seed(2);
    let beam = BeamBuilder::new(Species::Electron, 100)
        .with_normal_energy_spectrum(fix_int(1000), fix_int(10))
        .with_length(fix_int(1))
        .build(&mut smp)
        .unwrap();
    assert_eq!(beam.len(), 100);
    for (i, p) in beam.iter().enumerate() {
        assert_eq!(p.id, i as u64);
        assert_eq!(p.parent_id, i as u64);
        assert_eq!(p.species, Species::Electron);
        assert_eq!(p.weight, Fix::one());
        assert_eq!(p.pol, StokesVector::unpolarized());
    }
}

#[test]
fn massive_momenta_are_unit_normalized() {
    let mut smp = Sampler::from_seed(3);
    let beam = BeamBuilder::new(Species::Electron, 200)
        .with_normal_energy_spectrum(fix_int(800), fix_int(50))
        .with_divergence(Fix::one().div(fix_int(100)))
        .build(&mut smp)
        .unwrap();
    for p in &beam {
        let inner = p.u.inner(p.u).raw;
        // u.u = 1 up to the scalar model's granularity: the deficit is at
        // most (2 gamma + 1) units in the last place
        assert!(inner <= SCALE);
        assert!(SCALE - inner <= 2 * (p.u.t.raw / SCALE) + 2);
        // gamma >= 1 for every massive particle
        assert!(p.u.t.raw >= SCALE);
    }
}

#[test]
fn photon_momenta_are_lightlike() {
    let mut smp = Sampler::from_seed(4);
    let beam = BeamBuilder::new(Species::Photon, 200)
        .with_bremsstrahlung_spectrum(fix_int(100), fix_int(1000))
        .build(&mut smp)
        .unwrap();
    for p in &beam {
        let inner = p.u.inner(p.u).raw;
        // k.k = 0 up to the scalar model's granularity
        assert!(inner <= 0);
        assert!(-inner <= 2 * (p.u.t.raw / SCALE) + 2);
    }
}

#[test]
fn brem_fractions_stay_in_support() {
    let mut smp = Sampler::from_seed(5);
    let x_min = Fix::one().div(fix_int(10));
    for _ in 0..500 {
        let x = sample_brem_fraction(&mut smp, x_min);
        assert!(x_min.raw <= x.raw && x.raw <= SCALE);
    }
}

#[test]
fn normal_spectrum_gammas_exceed_one() {
    let mut smp = Sampler::from_seed(6);
    for _ in 0..500 {
        let (g, _dz) = sample_normal_gamma(&mut smp, fix_int(2), Fix::one(), Fix::zero(), Fix::zero());
        assert!(g.raw > SCALE);
    }
}

#[test]
fn uniform_disk_draws_stay_inside_bounding_square() {
    let mut smp = Sampler::from_seed(8);
    let d = RadialDistribution::Uniform { r_max: fix_int(3) };
    for _ in 0..300 {
        let (x, y) = d.sample(&mut smp);
        assert!(x.raw.abs() <= 3 * SCALE);
        assert!(y.raw.abs() <= 3 * SCALE);
    }
}

#[test]
fn truncated_normal_draws_stay_inside_window() {
    let mut smp = Sampler::from_seed(9);
    let d = RadialDistribution::TruncNormal {
        sigma_x: fix_int(2),
        sigma_y: fix_int(2),
        x_max: Fix::one(),
        y_max: Fix::one(),
    };
    for _ in 0..300 {
        let (x, y) = d.sample(&mut smp);
        assert!(x.raw.abs() <= SCALE);
        assert!(y.raw.abs() <= SCALE);
    }
}

#[test]
fn build_is_reproducible_for_a_fixed_seed() {
    let make = || {
        let mut smp = Sampler::from_seed(42);
        BeamBuilder::new(Species::Electron, 50)
            .with_normal_energy_spectrum(fix_int(500), fix_int(25))
            .with_length(fix_int(2))
            .with_divergence(Fix::one().div(fix_int(50)))
            .with_uniformly_distributed_xy(fix_int(2))
            .with_energy_chirp(Fix::one().div(fix_int(5)))
            .build(&mut smp)
            .unwrap()
    };
    let a = make();
    let b = make();
    assert_eq!(a, b);
}

#[test]
fn builder_getters_reflect_configuration() {
    let b = BeamBuilder::new(Species::Positron, 5);
    assert!(!b.transverse_dstr_is_normal());
    assert!(!b.has_brem_spec());
    let b2 = b.with_normally_distributed_xy(fix_int(1), fix_int(2));
    assert!(b2.transverse_dstr_is_normal());
    assert_eq!(b2.radius(), (fix_int(1), Fix { raw: i64::MAX }));
    let b3 = b.with_bremsstrahlung_spectrum(fix_int(10), fix_int(100));
    assert!(b3.has_brem_spec());
    assert_eq!(b.radius(), (Fix::zero(), Fix::zero()));
    let b4 = b.with_trunc_normally_distributed_xy(fix_int(1), fix_int(1), fix_int(3), fix_int(4));
    assert_eq!(b4.radius(), (fix_int(1), fix_int(3)));
}

#[test]
fn offset_shifts_launch_time() {
    let mut smp = Sampler::from_seed(11);
    let beam = BeamBuilder::new(Species::Electron, 3)
        .with_normal_energy_spectrum(fix_int(100), Fix::zero())
        .with_initial_z(fix_int(10))
        .with_offset(ThreeVector::new(Fix::zero(), Fix::zero(), fix_int(-4)))
        .build(&mut smp)
        .unwrap();
    // beam closer to the focal plane: launched earlier by the offset size
    for p in &beam {
        assert_eq!(p.r.t, fix_int(-14));
    }
    let mut smp = Sampler::from_seed(11);
    let beam = BeamBuilder::new(Species::Electron, 3)
        .with_normal_energy_spectrum(fix_int(100), Fix::zero())
        .with_initial_z(fix_int(10))
        .with_offset(ThreeVector::new(Fix::zero(), Fix::zero(), fix_int(4)))
        .build(&mut smp)
        .unwrap();
    for p in &beam {
        assert_eq!(p.r.t, fix_int(-10));
    }
}

#[test]
fn geometry_products_are_exact_on_integers() {
    let a = ThreeVector::new(fix_int(1), fix_int(2), fix_int(3));
    let b = ThreeVector::new(fix_int(4), fix_int(5), fix_int(6));
    assert_eq!(a.dot(b), fix_int(32));
    let c = a.cross(b);
    assert_eq!(c, ThreeVector::new(fix_int(-3), fix_int(6), fix_int(-3)));
    let u = FourVector::new(fix_int(2), fix_int(1), fix_int(0), fix_int(1));
    assert_eq!(u.inner(u), fix_int(2));
}

#[test]
fn unitize_of_integer_momentum_is_exact() {
    // |u| = (3, 0, 4): 1 + 9 + 16 = 26 is not a perfect square, but
    // (0, 0, 0) gives exactly gamma = 1
    let rest = FourVector::new(Fix::zero(), Fix::zero(), Fix::zero(), Fix::zero()).unitize();
    assert_eq!(rest.t, Fix::one());
    let k = FourVector::lightlike(fix_int(3), Fix::zero(), fix_int(4));
    assert_eq!(k.t, fix_int(5));
    assert_eq!(k.inner(k), Fix::zero());
}

#[test]
fn beam_with_no_tilt_travels_along_negative_z() {
    let mut smp = Sampler::from_seed(12);
    let beam = BeamBuilder::new(Species::Electron, 40)
        .with_normal_energy_spectrum(fix_int(300), fix_int(10))
        .build(&mut smp)
        .unwrap();
    for p in &beam {
        // with zero collision angle, divergence and plane rotation the
        // spatial momentum is exactly (0, 0, -sqrt(gamma^2 - 1))
        assert_eq!(p.u.x, Fix::zero());
        assert_eq!(p.u.y, Fix::zero());
        assert!(p.u.z.raw < 0);
    }
    let mut smp = Sampler::from_seed(12);
    let photons = BeamBuilder::new(Species::Photon, 40)
        .with_bremsstrahlung_spectrum(fix_int(50), fix_int(500))
        .build(&mut smp)
        .unwrap();
    for p in &photons {
        assert_eq!(p.u.x, Fix::zero());
        assert_eq!(p.u.y, Fix::zero());
        // the photon magnitude is the sampled gamma itself, in [50, 500]
        assert!(-500 * SCALE <= p.u.z.raw && p.u.z.raw <= -50 * SCALE + 50);
    }
}
