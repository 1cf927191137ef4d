//! Force fields: loading by name, parameter categories, labeling and the
//! construction of interchanges.
use crate::error::{Capability, Error};
use crate::molecule::{Labels, Topology};
use crate::openmm::{self, System};
use crate::runtime::{
    call_method,
    error_module,
    error_text,
    calls,
    extract_text,
    import_module,
    invoke,
    is_text,
    lift,
    lift_configuration,
    Arg,
    Call,
};
use crate::text::{begins_with, has_prefix, same_text};
use pyo3::prelude::{Py, PyAny, PyErr};
use vstd::prelude::*;
use vstd::string::StringSliceAdditionalSpecFns;

verus! {

/// A category of bonded parameters, each served by one parameter handler.
#[derive(Debug, Clone, Copy, PartialEq, Eq, Structural)]
pub enum ParameterType {
    Bonds,
    Angles,
    Torsions,
}

impl ParameterType {
    /// The name of the category's handler in a force field.
    pub open spec fn name_spec(self) -> Seq<char> {
        match self {
            ParameterType::Bonds => "Bonds"@,
            ParameterType::Angles => "Angles"@,
            ParameterType::Torsions => "ProperTorsions"@,
        }
    }

    /// The name of the category's handler in a force field.
    pub fn as_str(&self) -> (r: &'static str)
        ensures
            r@ == self.name_spec(),
    {
        match self {
            ParameterType::Bonds => "Bonds",
            ParameterType::Angles => "Angles",
            ParameterType::Torsions => "ProperTorsions",
        }
    }

    /// The category whose handler has the given name, if there is one.
    pub fn from_category(name: &str) -> (r: Option<Self>)
        ensures
            r == category_named(name@),
    {
        if same_text(name, "Bonds") {
            Some(ParameterType::Bonds)
        } else if same_text(name, "Angles") {
            Some(ParameterType::Angles)
        } else if same_text(name, "ProperTorsions") {
            Some(ParameterType::Torsions)
        } else {
            None
        }
    }
}

/// The category whose handler is named `name`, if there is one.
pub open spec fn category_named(name: Seq<char>) -> Option<ParameterType> {
    if name == ParameterType::Bonds.name_spec() {
        Some(ParameterType::Bonds)
    } else if name == ParameterType::Angles.name_spec() {
        Some(ParameterType::Angles)
    } else if name == ParameterType::Torsions.name_spec() {
        Some(ParameterType::Torsions)
    } else {
        None
    }
}

/// Looking a category up by its handler name gives back that category, and
/// a name that finds a category is that category's name.
pub proof fn lemma_category_round_trip(t: ParameterType, name: Seq<char>)
    ensures
        category_named(t.name_spec()) == Some(t),
        category_named(name) is Some ==> category_named(name)->0.name_spec() == name,
        category_named(name) is None <==> forall|u: ParameterType| u.name_spec() != name,
{
    reveal_strlit("Bonds");
    reveal_strlit("Angles");
    reveal_strlit("ProperTorsions");
    assert(ParameterType::Bonds.name_spec()[0] != ParameterType::Angles.name_spec()[0]);
    assert(ParameterType::Bonds.name_spec()[0] != ParameterType::Torsions.name_spec()[0]);
    assert(ParameterType::Angles.name_spec()[0] != ParameterType::Torsions.name_spec()[0]);
    if category_named(name) is None {
        assert forall|u: ParameterType| u.name_spec() != name by {
            match u {
                ParameterType::Bonds => {},
                ParameterType::Angles => {},
                ParameterType::Torsions => {},
            }
        }
    }
}

/// The parameter handler of one category in a loaded force field.
pub struct ParameterHandler {
    pub(crate) inner: Py<PyAny>,
}

impl ParameterHandler {
    /// The runtime object behind this handler.
    pub fn handle(&self) -> (r: &Py<PyAny>) {
        &self.inner
    }
}

/// A molecule's topology bound to the parameters a force field assigns it.
pub struct Interchange {
    pub(crate) inner: Py<PyAny>,
}

impl Interchange {
    /// Exports the energy function of this interchange by calling its
    /// `to_openmm()`.
    pub fn to_openmm(&self) -> (r: Result<System, Error>)
        ensures
            r is Err ==> r->Err_0 is Runtime,
    {
        let inner = invoke(&self.inner, Call::bare("to_openmm"))?;
        Ok(System { inner })
    }

    /// Virtual sites are not supported.
    pub fn virtual_sites(&self) -> (r: Result<Vec<()>, Error>)
        ensures
            r == Err::<Vec<()>, Error>(Error::Unsupported(Capability::VirtualSites)),
    {
        Err(Error::Unsupported(Capability::VirtualSites))
    }

    /// Exporting the engine topology is not supported.
    pub fn to_openmm_topology(&self) -> (r: Result<openmm::Topology, Error>)
        ensures
            r == Err::<openmm::Topology, Error>(Error::Unsupported(Capability::TopologyExport)),
    {
        Err(Error::Unsupported(Capability::TopologyExport))
    }
}

/// A force field loaded by file name, with cosmetic attributes allowed.
#[derive(Debug, Clone)]
pub struct ForceField {
    pub(crate) inner: Py<PyAny>,
}

impl ForceField {
    /// The runtime object behind this value.
    pub closed spec fn object(self) -> Py<PyAny> {
        self.inner
    }

    /// The toolkit call that loads the force field `name`, with cosmetic
    /// attributes allowed for the force field's whole life.
    pub fn load_call(name: &str) -> (c: Call)
        ensures
            calls(c, "ForceField"@, Some("allow_cosmetic_attributes"@)),
            c.args@.len() == 1 && is_text(c.args@[0], name@),
    {
        Call::with_text("ForceField", name, Some("allow_cosmetic_attributes"))
    }

    /// The force field from the outcome of its load call: a failed load (a
    /// file not found on the search path, or malformed) is a configuration
    /// error.
    pub fn from_load(r: Result<Py<PyAny>, PyErr>) -> (out: Result<Self, Error>)
        ensures
            out is Ok <==> r is Ok,
            out is Ok ==> out->Ok_0.object() == r->Ok_0,
            out is Err ==> out->Err_0 is Configuration,
    {
        let inner = lift_configuration(r)?;
        Ok(ForceField { inner })
    }

    /// Loads the force field `name` (such as `openff-2.1.0.offxml`) by making
    /// `load_call(name)` on the toolkit module. A toolkit that cannot be
    /// imported is a runtime error; a failed load is a configuration error,
    /// as `from_load` says.
    pub fn new(name: &str) -> (r: Result<Self, Error>)
        ensures
            r is Err ==> r->Err_0 is Configuration || r->Err_0 is Runtime,
    {
        let toolkit = lift(import_module("openff.toolkit"))?;
        Self::from_load(call_method(&toolkit, Self::load_call(name)))
    }

    /// The force-field call that looks up the handler of `typ`.
    pub fn handler_call(typ: ParameterType) -> (c: Call)
        ensures
            calls(c, "get_parameter_handler"@, None),
            c.args@.len() == 1 && is_text(c.args@[0], typ.name_spec()),
    {
        Call::with_text("get_parameter_handler", typ.as_str(), None)
    }

    /// The handler of one category, by making `handler_call(typ)`; a force
    /// field without it is a configuration error.
    pub fn get_parameter_handler(&self, typ: ParameterType) -> (r: Result<ParameterHandler, Error>)
        ensures
            r is Err ==> r->Err_0 is Configuration,
    {
        let inner = lift_configuration(call_method(&self.inner, Self::handler_call(typ)))?;
        Ok(ParameterHandler { inner })
    }

    /// The force-field call that binds `topology` to the parameters.
    pub fn interchange_call(topology: Topology) -> (c: Call)
        ensures
            calls(c, "create_interchange"@, None),
            c.args@ == seq![Arg::Handle(topology.object())],
    {
        Call::with_arg("create_interchange", Arg::Handle(topology.into_object()))
    }

    /// The error of a failed interchange build, from the module that defines
    /// the raised exception's type and the exception's text: an exception of
    /// the toolkits themselves (a module under `openff.`), such as a term left
    /// unmatched, is a parameterization error; any other is a runtime fault.
    pub fn build_error(module: &str, text: String) -> (e: Error)
        ensures
            begins_with(module.spec_bytes(), "openff.".spec_bytes()) ==> e == Error::Parameterization(
                text,
            ),
            !begins_with(module.spec_bytes(), "openff.".spec_bytes()) ==> e == Error::Runtime(text),
    {
        if has_prefix(module, "openff.") {
            Error::Parameterization(text)
        } else {
            Error::Runtime(text)
        }
    }

    /// Binds the topology to this force field's parameters by making
    /// `interchange_call(topology)`, all or nothing; a failure is classified
    /// by `build_error`.
    pub fn create_interchange(&self, topology: Topology) -> (r: Result<Interchange, Error>)
        ensures
            r is Err ==> r->Err_0 is Parameterization || r->Err_0 is Runtime,
    {
        match call_method(&self.inner, Self::interchange_call(topology)) {
            Ok(inner) => Ok(Interchange { inner }),
            Err(e) => Err(Self::build_error(&error_module(&e), error_text(&e))),
        }
    }

    /// The force-field call that labels the terms of `top`.
    pub fn label_call(top: Topology) -> (c: Call)
        ensures
            calls(c, "label_molecules"@, None),
            c.args@ == seq![Arg::Handle(top.object())],
    {
        Call::with_arg("label_molecules", Arg::Handle(top.into_object()))
    }

    /// The parameters this force field assigns to each term of the topology,
    /// by making `label_call(top)`.
    pub fn label_molecules(&self, top: Topology) -> (r: Result<Labels, Error>)
        ensures
            r is Err ==> r->Err_0 is Runtime,
    {
        let inner = invoke(&self.inner, Self::label_call(top))?;
        Ok(Labels::new(inner))
    }

    /// The force field in its XML file format, from its `to_string("XML")`.
    pub fn to_xml(&self) -> (r: Result<String, Error>)
        ensures
            r is Err ==> r->Err_0 is Runtime,
    {
        let text = invoke(&self.inner, Call::with_text("to_string", "XML", None))?;
        lift(extract_text(&text))
    }

    /// The runtime object behind this force field.
    pub fn handle(&self) -> (r: &Py<PyAny>)
        ensures
            *r == self.object(),
    {
        &self.inner
    }
}

} // verus!
