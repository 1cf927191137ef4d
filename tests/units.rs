use openff::error::Error;
use openff::runtime::lift;
use openff::units::{Boundary, UnitSymbol};
use pyo3::exceptions::PyValueError;
use pyo3::PyErr;

#[test]
fn unit_names() {
    assert_eq!(UnitSymbol::Angstrom.name(), "angstrom");
    assert_eq!(UnitSymbol::Bohr.name(), "bohr");
    assert_eq!(UnitSymbol::Nanometer.name(), "nanometer");
    assert_eq!(UnitSymbol::Femtosecond.name(), "femtosecond");
    assert_eq!(UnitSymbol::KilocaloriePerMole.name(), "kilocalorie_per_mole");
}

#[test]
fn positions_go_in_as_bohr_and_become_nanometer() {
    assert_eq!(Boundary::PositionsIn.caller_unit(), UnitSymbol::Bohr);
    assert_eq!(Boundary::PositionsIn.target_unit(), Some(UnitSymbol::Nanometer));
}

#[test]
fn outputs_are_angstrom_and_kcal_per_mol() {
    assert_eq!(Boundary::CoordinatesOut.caller_unit(), UnitSymbol::Angstrom);
    assert_eq!(Boundary::CoordinatesOut.target_unit(), Some(UnitSymbol::Angstrom));
    assert_eq!(Boundary::EnergyOut.caller_unit(), UnitSymbol::KilocaloriePerMole);
    assert_eq!(Boundary::EnergyOut.target_unit(), Some(UnitSymbol::KilocaloriePerMole));
}

#[test]
fn time_step_and_conformers_are_tagged() {
    assert_eq!(Boundary::TimeStep.caller_unit(), UnitSymbol::Femtosecond);
    assert_eq!(Boundary::TimeStep.target_unit(), None);
    assert_eq!(Boundary::Conformer.caller_unit(), UnitSymbol::Angstrom);
    assert_eq!(Boundary::Conformer.target_unit(), None);
}

#[test]
fn lifted_success_keeps_value() {
    let r: Result<u32, PyErr> = Ok(7);
    assert_eq!(lift(r).unwrap(), 7);
}

#[test]
fn lifted_exception_is_runtime_error_with_its_text() {
    let r: Result<u32, PyErr> = Err(PyErr::new::<PyValueError, _>("bad value"));
    match lift(r) {
        Err(Error::Runtime(msg)) => assert_eq!(msg, "ValueError: bad value"),
        other => panic!("{other:?}"),
    }
}
