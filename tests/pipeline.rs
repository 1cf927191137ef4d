use openff::error::Error;
use openff::forcefield::ForceField;
use openff::molecule::Molecule;

// Without the toolkit installed every stage must come back as a runtime
// error naming the missing module, never as an abort.
fn toolkit_missing(e: &Error) -> bool {
    matches!(e, Error::Runtime(msg) if msg.contains("openff"))
}

#[test]
fn force_field_load_failure_is_recoverable() {
    match ForceField::new("openff-2.1.0.offxml") {
        Ok(ff) => {
            assert!(ff.to_xml().unwrap().contains("SMIRNOFF"));
            assert!(matches!(ForceField::new("no-such-file.offxml"), Err(Error::Configuration(_))));
        }
        Err(e) => assert!(toolkit_missing(&e), "{e:?}"),
    }
}

#[test]
fn mapped_smiles_scenario() {
    let mol = match Molecule::from_mapped_smiles("[Cl:2][C@:1]([F:3])([I:4])[H:5]") {
        Ok(mol) => mol,
        Err(e) => {
            assert!(toolkit_missing(&e), "{e:?}");
            return;
        }
    };
    // atom-map index n is atom n - 1: carbon is 0, fluorine is 2
    assert_eq!(mol.chemical_environment_matches("[#6:1]-[#9:2]").unwrap(), vec![(0, 2)]);
    let ff = ForceField::new("openff-2.1.0.offxml").unwrap();
    let labels = ff.label_molecules(mol.to_topology().unwrap()).unwrap();
    assert!(labels.get("Bonds").is_ok());
    assert!(matches!(labels.get("Impropers"), Err(Error::Configuration(_))));
    assert!(ff.create_interchange(mol.to_topology().unwrap()).is_ok());
}
