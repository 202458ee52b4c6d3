//! Particle records: species tag and per-particle kinematic state.

use vstd::prelude::*;
use crate::fixed::{Fix, SCALE};
use crate::geometry::{FourVector, StokesVector};

verus! {

/// The kind of particle: controls mass (massive or massless) and the sign
/// of the charge.
#[derive(Clone, Copy, PartialEq, Eq, Structural, Debug)]
pub enum Species {
    Electron,
    Positron,
    Photon,
}

impl Species {
    /// Whether the species has nonzero rest mass.
    pub fn is_massive(&self) -> (r: bool)
        ensures
            r == (*self != Species::Photon),
    {
        match self {
            Species::Electron | Species::Positron => true,
            Species::Photon => false,
        }
    }
}

/// One particle of the simulation: species, four-position, normalized
/// four-momentum, polarization, statistical weight, and provenance ids.
#[derive(Clone, Copy, PartialEq, Eq, Structural, Debug)]
pub struct Particle {
    pub species: Species,
    pub r: FourVector,
    pub u: FourVector,
    pub pol: StokesVector,
    pub weight: Fix,
    pub id: u64,
    pub parent_id: u64,
}

impl Particle {
    /// A fresh particle of the given species at the given four-position,
    /// with zero momentum, unpolarized, unit weight and zero ids.
    pub fn create(species: Species, r: FourVector) -> (p: Particle)
        ensures
            p.species == species,
            p.r == r,
            p.u.t.raw == 0 && p.u.x.raw == 0 && p.u.y.raw == 0 && p.u.z.raw == 0,
            p.pol == StokesVector::unpolarized_spec(),
            p.weight.raw == SCALE as int,
            p.id == 0 && p.parent_id == 0,
    {
        Particle {
            species,
            r,
            u: FourVector {
                t: Fix { raw: 0 },
                x: Fix { raw: 0 },
                y: Fix { raw: 0 },
                z: Fix { raw: 0 },
            },
            pol: StokesVector::unpolarized(),
            weight: Fix { raw: SCALE },
            id: 0,
            parent_id: 0,
        }
    }

    /// The same particle with the given normalized momentum.
    pub fn with_normalized_momentum(self, u: FourVector) -> (p: Particle)
        ensures
            p == (Particle { u, ..self }),
    {
        Particle { u, ..self }
    }

    /// The same particle with the given polarization.
    pub fn with_polarization(self, pol: StokesVector) -> (p: Particle)
        ensures
            p == (Particle { pol, ..self }),
    {
        Particle { pol, ..self }
    }

    /// The same particle with the given statistical weight.
    pub fn with_weight(self, weight: Fix) -> (p: Particle)
        ensures
            p == (Particle { weight, ..self }),
    {
        Particle { weight, ..self }
    }

    /// The same particle with the given id.
    pub fn with_id(self, id: u64) -> (p: Particle)
        ensures
            p == (Particle { id, ..self }),
    {
        Particle { id, ..self }
    }

    /// The same particle with the given parent id.
    pub fn with_parent_id(self, parent_id: u64) -> (p: Particle)
        ensures
            p == (Particle { parent_id, ..self }),
    {
        Particle { parent_id, ..self }
    }
}

} // verus!
