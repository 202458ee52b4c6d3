//! Strong-field QED particle dynamics on a fixed-point scalar model.
//!
//! The crate models the motion and quantum-electrodynamic behaviour of
//! charged particles and photons in a strong laser pulse: a closed set of
//! laser field models behind one capability trait, a locally-constant-field
//! dynamics engine (relativistic pusher plus stochastic photon emission and
//! pair creation), and a beam builder that samples initial particle states.
//!
//! All real quantities are carried by [`fixed::Fix`], a binary fixed-point
//! scalar with exactly specified, saturating arithmetic, so every numeric
//! step of the library has a precise contract. Tolerances are therefore
//! stated in the model's own granularity: the mass-shell invariants hold
//! to `(2 gamma + 1) 2^-32` relative, the scale being chosen so that
//! `gamma^2` stays representable for the beam energies the library
//! targets.

pub mod builder;
pub mod field;
pub mod fixed;
pub mod geometry;
pub mod lasers;
pub mod lcf;
pub mod particle;
pub mod random;
pub mod trig;
