//! The simulation side: compute platforms, exported systems, and the state
//! machine that governs a simulation context.
use crate::error::{Capability, Error, Precondition};
use crate::geometry::{chunk_spec, chunk_triples};
use crate::runtime::{calls, getattr, import_module, invoke, is_text, lift, Call};
use crate::text::same_text;
use pyo3::prelude::{Py, PyAny};
use vstd::prelude::*;

verus! {

/// Builds modified topologies; it holds nothing of its own.
pub struct Modeller;

impl Modeller {
    pub fn new(_topology: (), _positions: ()) -> (r: Self) {
        Modeller
    }

    pub fn get_topology(&self) -> (r: Topology) {
        Topology
    }
}

/// An engine-side topology; it holds nothing of its own.
pub struct Topology;

impl Topology {
    pub fn atoms(&self) {
    }
}

/// A structure file in the PDB format, known by its path.
pub struct PDBFile {
    pub path: String,
}

impl PDBFile {
    pub fn new(filename: &str) -> (r: Self)
        ensures
            r.path@ == filename@,
    {
        PDBFile { path: filename.to_owned() }
    }

    /// Reading topologies from PDB files is not supported.
    pub fn topology(&self) -> (r: Result<Topology, Error>)
        ensures
            r == Err::<Topology, Error>(Error::Unsupported(Capability::PdbInput)),
    {
        Err(Error::Unsupported(Capability::PdbInput))
    }

    /// Reading positions from PDB files is not supported.
    pub fn positions(&self) -> (r: Result<(), Error>)
        ensures
            r == Err::<(), Error>(Error::Unsupported(Capability::PdbInput)),
    {
        Err(Error::Unsupported(Capability::PdbInput))
    }
}

/// A simulation run; contexts are created directly instead.
pub struct Simulation;

/// The energy function exported from an interchange, ready for an engine.
pub struct System {
    pub(crate) inner: Py<PyAny>,
}

impl System {
    /// The runtime object behind this system.
    pub fn handle(&self) -> (r: &Py<PyAny>) {
        &self.inner
    }
}

/// The compute back end of a simulation context.
#[derive(Debug, Clone, Copy, PartialEq, Eq, Structural)]
pub enum Platform {
    Reference,
}

impl Platform {
    /// The name under which the engine knows this platform.
    pub open spec fn name_spec(self) -> Seq<char> {
        match self {
            Platform::Reference => "Reference"@,
        }
    }

    /// The platform with the given engine name; any other name is a
    /// configuration error.
    pub fn by_name(name: &str) -> (r: Result<Self, Error>)
        ensures
            r is Ok <==> name@ == Platform::Reference.name_spec(),
            r is Ok ==> r->Ok_0.name_spec() == name@,
            r is Err ==> r->Err_0 is Configuration,
    {
        if same_text(name, "Reference") {
            Ok(Platform::Reference)
        } else {
            Err(Error::Configuration(name.to_owned()))
        }
    }

    /// The name under which the engine knows this platform.
    pub fn name(&self) -> (r: &'static str)
        ensures
            r@ == self.name_spec(),
    {
        match self {
            Platform::Reference => "Reference",
        }
    }

    /// The engine call that looks this platform up by its name.
    pub fn lookup_call(&self) -> (c: Call)
        ensures
            calls(c, "getPlatformByName"@, None),
            c.args@.len() == 1 && is_text(c.args@[0], self.name_spec()),
    {
        Call::with_text("getPlatformByName", self.name(), None)
    }

    /// The engine's object for this platform: `lookup_call()` made on the
    /// engine's `Platform` class.
    pub fn to_runtime_value(&self) -> (r: Result<Py<PyAny>, Error>)
        ensures
            r is Err ==> r->Err_0 is Runtime,
    {
        let engine = lift(import_module("openmm"))?;
        let class = lift(getattr(&engine, "Platform"))?;
        invoke(&class, self.lookup_call())
    }
}

/// Where a simulation context stands in its lifecycle.
#[derive(Debug, Clone, Copy, PartialEq, Eq, Structural)]
pub enum ContextState {
    /// Bound to a system; no positions set yet.
    Created,
    /// Positions for `atoms` atoms were set and not minimized since.
    PositionsSet { atoms: usize },
    /// Positions for `atoms` atoms were set and then minimized.
    Minimized { atoms: usize },
}

impl ContextState {
    /// The number of atoms whose positions the context holds, if any.
    pub open spec fn atoms_spec(self) -> Option<usize> {
        match self {
            ContextState::Created => None,
            ContextState::PositionsSet { atoms } => Some(atoms),
            ContextState::Minimized { atoms } => Some(atoms),
        }
    }

    pub fn new() -> (r: Self)
        ensures
            r == ContextState::Created,
    {
        ContextState::Created
    }

    /// Takes a flat coordinate sequence for the context. On whole triples it
    /// returns them, one per atom, and moves to `PositionsSet`; on any other
    /// length it fails and the state stays as it was.
    pub fn set_positions<T: Copy>(&mut self, flat: &Vec<T>) -> (r: Result<Vec<(T, T, T)>, Error>)
        ensures
            r is Ok <==> flat@.len() % 3 == 0,
            r is Ok ==> r->Ok_0@ == chunk_spec(flat@) && *final(self) == (ContextState::PositionsSet {
                atoms: (flat@.len() / 3) as usize,
            }),
            r is Err ==> r->Err_0 == Error::Precondition(Precondition::NotTriples) && *final(self)
                == *old(self),
    {
        if flat.len() % 3 != 0 {
            return Err(Error::Precondition(Precondition::NotTriples));
        }
        let triples = chunk_triples(flat);
        *self = ContextState::PositionsSet { atoms: flat.len() / 3 };
        Ok(triples)
    }

    /// Admits a minimization, which needs positions. On success the context
    /// is `Minimized` with the same atoms; otherwise it stays as it was.
    pub fn minimize(&mut self) -> (r: Result<usize, Error>)
        ensures
            r is Ok <==> old(self).atoms_spec() is Some,
            r is Ok ==> Some(r->Ok_0) == old(self).atoms_spec() && *final(self) == (
            ContextState::Minimized { atoms: r->Ok_0 }),
            r is Err ==> r->Err_0 == Error::Precondition(Precondition::NoPositions) && *final(self)
                == *old(self),
    {
        match *self {
            ContextState::Created => Err(Error::Precondition(Precondition::NoPositions)),
            ContextState::PositionsSet { atoms } | ContextState::Minimized { atoms } => {
                *self = ContextState::Minimized { atoms };
                Ok(atoms)
            },
        }
    }

    /// Admits a query of energy or coordinates, which needs positions; the
    /// state is left as it is.
    pub fn query(&self) -> (r: Result<usize, Error>)
        ensures
            r is Ok <==> self.atoms_spec() is Some,
            r is Ok ==> Some(r->Ok_0) == self.atoms_spec(),
            r is Err ==> r->Err_0 == Error::Precondition(Precondition::NoPositions),
    {
        match *self {
            ContextState::Created => Err(Error::Precondition(Precondition::NoPositions)),
            ContextState::PositionsSet { atoms } | ContextState::Minimized { atoms } => Ok(atoms),
        }
    }
}

} // verus!
