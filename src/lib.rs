//! Parameterization of small molecules with an OpenFF force field and energy
//! evaluation in an OpenMM context, driven through an embedded Python runtime.
pub mod error;
pub mod forcefield;
pub mod geometry;
pub mod molecule;
pub mod openmm;
pub mod runtime;
pub mod text;
pub mod units;
