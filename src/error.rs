use vstd::prelude::*;

verus! {

/// A capability that this library deliberately does not provide.
#[derive(Debug, Clone, Copy, PartialEq, Eq, Structural)]
pub enum Capability {
    VirtualSites,
    TopologyExport,
    PdbInput,
    SimulationContext,
}

/// Why a precondition of the simulation context was violated.
#[derive(Debug, Clone, Copy, PartialEq, Eq, Structural)]
pub enum Precondition {
    /// The flat coordinate sequence does not hold whole (x, y, z) triples.
    NotTriples,
    /// A query or a minimization came before any positions were set.
    NoPositions,
}

/// The failures of the pipeline.
#[derive(Debug, Clone)]
pub enum Error {
    /// A missing or unsupported parameter category, an unknown platform, or a
    /// force-field file that could not be loaded.
    Configuration(String),
    /// A molecule could not be parameterized by the force field.
    Parameterization(String),
    /// Malformed input, or an operation out of order.
    Precondition(Precondition),
    /// The Python runtime raised an exception.
    Runtime(String),
    /// The operation is outside what this library supports.
    Unsupported(Capability),
}

} // verus!
