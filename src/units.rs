//! The physical units at the library's boundaries. Every quantity that
//! crosses into or out of the engine states the unit it is given in and the
//! unit it is converted to; nothing is coerced implicitly.
use vstd::prelude::*;

verus! {

/// A unit of measure, named as in the engine's unit module.
#[derive(Debug, Clone, Copy, PartialEq, Eq, Structural)]
pub enum UnitSymbol {
    Angstrom,
    Bohr,
    Nanometer,
    Femtosecond,
    KilocaloriePerMole,
}

impl UnitSymbol {
    /// The name of the unit in the engine's unit module.
    pub open spec fn name_spec(self) -> Seq<char> {
        match self {
            UnitSymbol::Angstrom => "angstrom"@,
            UnitSymbol::Bohr => "bohr"@,
            UnitSymbol::Nanometer => "nanometer"@,
            UnitSymbol::Femtosecond => "femtosecond"@,
            UnitSymbol::KilocaloriePerMole => "kilocalorie_per_mole"@,
        }
    }

    /// The name of the unit in the engine's unit module.
    pub fn name(&self) -> (r: &'static str)
        ensures
            r@ == self.name_spec(),
    {
        match self {
            UnitSymbol::Angstrom => "angstrom",
            UnitSymbol::Bohr => "bohr",
            UnitSymbol::Nanometer => "nanometer",
            UnitSymbol::Femtosecond => "femtosecond",
            UnitSymbol::KilocaloriePerMole => "kilocalorie_per_mole",
        }
    }
}

/// A quantity that crosses the boundary between callers and the engine.
#[derive(Debug, Clone, Copy, PartialEq, Eq, Structural)]
pub enum Boundary {
    /// Positions handed to a context.
    PositionsIn,
    /// Coordinates read back from a context.
    CoordinatesOut,
    /// Potential energy read back from a context.
    EnergyOut,
    /// The time step of an integrator.
    TimeStep,
    /// Coordinates of a stored conformer.
    Conformer,
}

impl Boundary {
    /// The unit on the caller's side.
    pub open spec fn caller_unit_spec(self) -> UnitSymbol {
        match self {
            Boundary::PositionsIn => UnitSymbol::Bohr,
            Boundary::CoordinatesOut => UnitSymbol::Angstrom,
            Boundary::EnergyOut => UnitSymbol::KilocaloriePerMole,
            Boundary::TimeStep => UnitSymbol::Femtosecond,
            Boundary::Conformer => UnitSymbol::Angstrom,
        }
    }

    /// The unit the library converts the quantity to as it crosses; `None`
    /// where it is handed over tagged with the caller's unit.
    pub open spec fn target_unit_spec(self) -> Option<UnitSymbol> {
        match self {
            Boundary::PositionsIn => Some(UnitSymbol::Nanometer),
            Boundary::CoordinatesOut => Some(UnitSymbol::Angstrom),
            Boundary::EnergyOut => Some(UnitSymbol::KilocaloriePerMole),
            Boundary::TimeStep => None,
            Boundary::Conformer => None,
        }
    }

    /// The unit on the caller's side.
    pub fn caller_unit(&self) -> (r: UnitSymbol)
        ensures
            r == self.caller_unit_spec(),
    {
        match self {
            Boundary::PositionsIn => UnitSymbol::Bohr,
            Boundary::CoordinatesOut => UnitSymbol::Angstrom,
            Boundary::EnergyOut => UnitSymbol::KilocaloriePerMole,
            Boundary::TimeStep => UnitSymbol::Femtosecond,
            Boundary::Conformer => UnitSymbol::Angstrom,
        }
    }

    /// The unit the library converts the quantity to, if it converts.
    pub fn target_unit(&self) -> (r: Option<UnitSymbol>)
        ensures
            r == self.target_unit_spec(),
    {
        match self {
            Boundary::PositionsIn => Some(UnitSymbol::Nanometer),
            Boundary::CoordinatesOut => Some(UnitSymbol::Angstrom),
            Boundary::EnergyOut => Some(UnitSymbol::KilocaloriePerMole),
            Boundary::TimeStep => None,
            Boundary::Conformer => None,
        }
    }
}

} // verus!
