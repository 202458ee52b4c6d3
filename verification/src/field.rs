//! Field-model configuration tags, stochastic-event records, and the
//! capability trait shared by the laser variants.

use vstd::prelude::*;
use crate::fixed::Fix;
use crate::geometry::{FourVector, StokesVector, ThreeVector};

verus! {

/// The polarization of an electromagnetic wave.
#[derive(Clone, Copy, PartialEq, Eq, Structural, Debug)]
pub enum Polarization {
    Linear,
    Circular,
}

/// Temporal profile of the laser pulse.
#[derive(Clone, Copy, PartialEq, Eq, Structural, Debug)]
pub enum Envelope {
    CosSquared,
    Flattop,
    Gaussian,
}

/// Which equation of motion the pusher integrates: `Lorentz` excludes
/// radiation reaction, the other two include it, `ModifiedLandauLifshitz`
/// with a quantum suppression factor on the drag.
#[derive(Clone, Copy, PartialEq, Eq, Structural, Debug)]
pub enum EquationOfMotion {
    Lorentz,
    LandauLifshitz,
    ModifiedLandauLifshitz,
}

impl EquationOfMotion {
    /// Whether this equation of motion includes radiation reaction.
    pub fn includes_rr(&self) -> (r: bool)
        ensures
            r == (*self != EquationOfMotion::Lorentz),
    {
        match self {
            EquationOfMotion::LandauLifshitz | EquationOfMotion::ModifiedLandauLifshitz => true,
            EquationOfMotion::Lorentz => false,
        }
    }
}

/// Whether photon emission is sampled as a discrete quantum event or
/// treated as continuous classical energy loss.
#[derive(Clone, Copy, PartialEq, Eq, Structural, Debug)]
pub enum RadiationMode {
    Quantum,
    Classical,
}

/// The outcome of a discrete photon-emission event.
#[derive(Clone, Copy, PartialEq, Eq, Structural, Debug)]
pub struct RadiationEvent {
    /// The normalized momentum of the emitted photon.
    pub k: FourVector,
    /// The normalized momentum of the recoiling electron/positron.
    pub u_prime: FourVector,
    /// The polarization of the emitted photon.
    pub pol: StokesVector,
    /// The effective normalized amplitude of the interaction.
    pub a_eff: Fix,
    /// The quantum parameter of the parent particle.
    pub chi: Fix,
    /// The energy absorbed from the field during the interaction, in units
    /// of the electron rest energy.
    pub absorption: Fix,
}

/// The outcome of a pair-creation event.
#[derive(Clone, Copy, PartialEq, Eq, Structural, Debug)]
pub struct PairCreationEvent {
    /// The normalized momentum of the electron.
    pub u_e: FourVector,
    /// The normalized momentum of the positron.
    pub u_p: FourVector,
    /// The fraction of the photon that has decayed.
    pub frac: Fix,
    /// The effective normalized amplitude of the interaction.
    pub a_eff: Fix,
    /// The quantum parameter of the parent photon.
    pub chi: Fix,
    /// The energy absorbed from the field during the interaction, in units
    /// of the electron rest energy.
    pub absorption: Fix,
}

/// The capability surface of a field model: domain queries and the local
/// field lookup that the dynamics engine consumes.
pub trait Field {
    /// What this model's `fields` returns. A model that overrides
    /// `fields` overrides this too; the default is the zero field.
    open spec fn fields_spec(&self, r: FourVector) -> (ThreeVector, ThreeVector, Fix) {
        (
            ThreeVector { x: Fix { raw: 0 }, y: Fix { raw: 0 }, z: Fix { raw: 0 } },
            ThreeVector { x: Fix { raw: 0 }, y: Fix { raw: 0 }, z: Fix { raw: 0 } },
            Fix { raw: 0 },
        )
    }

    /// The largest usable timestep for the particle push, or `None` if the
    /// model imposes no restriction.
    fn max_timestep(&self) -> Option<Fix>;

    /// Whether the four-position `r` lies within the field's domain.
    fn contains(&self, r: FourVector) -> bool;

    /// A launch distance `z0` such that an ultrarelativistic particle
    /// initialized at `z = z0` at time `-z0/c` is not yet affected by the
    /// field.
    fn ideal_initial_z(&self) -> Fix;

    /// The electric field, magnetic field and local normalized amplitude at
    /// the four-position `r`, exactly as `fields_spec` says. A model that
    /// leaves `fields_spec` at its default thereby promises the zero field
    /// and zero amplitude everywhere, so a stub model is provably inert to
    /// every verified caller.
    fn fields(&self, r: FourVector) -> (res: (ThreeVector, ThreeVector, Fix))
        ensures
            res == self.fields_spec(r),
    ;

    /// The total field energy and its unit, which depends on how many
    /// dimensions the field is confined in.
    fn energy(&self) -> (Fix, &'static str);
}

} // verus!
