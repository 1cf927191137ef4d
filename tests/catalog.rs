use openff::error::{Capability, Error};
use openff::forcefield::ParameterType;
use openff::openmm::{Modeller, PDBFile, Platform};

#[test]
fn category_names() {
    assert_eq!(ParameterType::Bonds.as_str(), "Bonds");
    assert_eq!(ParameterType::Angles.as_str(), "Angles");
    assert_eq!(ParameterType::Torsions.as_str(), "ProperTorsions");
}

#[test]
fn categories_by_name() {
    assert_eq!(ParameterType::from_category("Bonds"), Some(ParameterType::Bonds));
    assert_eq!(ParameterType::from_category("Angles"), Some(ParameterType::Angles));
    assert_eq!(ParameterType::from_category("ProperTorsions"), Some(ParameterType::Torsions));
    assert_eq!(ParameterType::from_category("Torsions"), None);
    assert_eq!(ParameterType::from_category("bonds"), None);
    assert_eq!(ParameterType::from_category(""), None);
}

#[test]
fn category_name_round_trip() {
    for t in [ParameterType::Bonds, ParameterType::Angles, ParameterType::Torsions] {
        assert_eq!(ParameterType::from_category(t.as_str()), Some(t));
    }
}

#[test]
fn reference_platform_by_name() {
    assert_eq!(Platform::by_name("Reference").unwrap(), Platform::Reference);
    assert_eq!(Platform::Reference.name(), "Reference");
}

#[test]
fn unknown_platform_is_configuration_error() {
    match Platform::by_name("CUDA") {
        Err(Error::Configuration(name)) => assert_eq!(name, "CUDA"),
        _ => panic!("expected a configuration error"),
    }
    assert!(matches!(Platform::by_name("reference"), Err(Error::Configuration(_))));
}

#[test]
fn pdb_file_keeps_path_and_reports_unsupported() {
    let pdb = PDBFile::new("input.pdb");
    assert_eq!(pdb.path, "input.pdb");
    assert!(matches!(pdb.topology(), Err(Error::Unsupported(Capability::PdbInput))));
    assert!(matches!(pdb.positions(), Err(Error::Unsupported(Capability::PdbInput))));
}

#[test]
fn modeller_topology() {
    let m = Modeller::new((), ());
    let t = m.get_topology();
    t.atoms();
}
