//! Molecules, their topologies, and the labels a force field assigns them.
use crate::error::Error;
use crate::forcefield::{category_named, ParameterType};
use crate::runtime::{
    call_method,
    calls,
    extract_flag,
    extract_index_pairs,
    extract_text,
    getattr,
    import_module,
    invoke,
    is_text,
    lift,
    lift_configuration,
    load_code,
    Arg,
    Call,
};
use pyo3::prelude::{Py, PyAny};
use vstd::prelude::*;

verus! {

/// Renders a molecule as an SVG depiction with RDKit.
const DRAW_SVG: &'static str = "def draw_rdkit(mol):
    from rdkit.Chem.Draw import rdDepictor, rdMolDraw2D
    rdmol = mol.to_rdkit()
    rdDepictor.SetPreferCoordGen(True)
    rdDepictor.Compute2DCoords(rdmol)
    rdmol = rdMolDraw2D.PrepareMolForDrawing(rdmol)
    drawer = rdMolDraw2D.MolDraw2DSVG(300, 300)
    drawer.DrawMolecule(rdmol)
    drawer.FinishDrawing()
    return drawer.GetDrawingText()
";

/// The view of one or more molecules that parameters are matched against.
#[derive(Debug, Clone)]
pub struct Topology {
    pub(crate) inner: Py<PyAny>,
}

impl Topology {
    /// The runtime object behind this value.
    pub closed spec fn object(self) -> Py<PyAny> {
        self.inner
    }

    pub(crate) fn new(inner: Py<PyAny>) -> (r: Self) {
        Self { inner }
    }

    /// The runtime object behind this topology, taken out of it.
    pub fn into_object(self) -> (r: Py<PyAny>)
        ensures
            r == self.object(),
    {
        self.inner
    }
}

/// The labels of a topology of a single molecule: for each parameter
/// category, the parameters matched to its terms.
#[derive(Debug, Clone)]
pub struct Labels {
    pub(crate) inner: Py<PyAny>,
}

impl Labels {
    pub(crate) fn new(inner: Py<PyAny>) -> (r: Self) {
        Self { inner }
    }

    /// The call that picks the labels of the first molecule.
    pub fn first_call() -> (c: Call)
        ensures
            calls(c, "__getitem__"@, None),
            c.args@ == seq![Arg::Index(0)],
    {
        Call::with_arg("__getitem__", Arg::Index(0))
    }

    /// The call that picks one category of a molecule's labels.
    pub fn category_call(index: &str) -> (c: Call)
        ensures
            calls(c, "__getitem__"@, None),
            c.args@.len() == 1 && is_text(c.args@[0], index@),
    {
        Call::with_text("__getitem__", index, None)
    }

    /// The labels of the first molecule in one category, by its handler name
    /// (`"Bonds"`, `"Angles"` or `"ProperTorsions"`), through `first_call()`
    /// and then `category_call(index)`. Any other name, labels without a
    /// first molecule, and a category that the force field has no handler
    /// for are configuration errors.
    pub fn get(&self, index: &str) -> (r: Result<Py<PyAny>, Error>)
        ensures
            category_named(index@) is None ==> r is Err,
            r is Err ==> r->Err_0 is Configuration,
    {
        match ParameterType::from_category(index) {
            None => Err(Error::Configuration(index.to_owned())),
            Some(_) => {
                let first = lift_configuration(call_method(&self.inner, Self::first_call()))?;
                lift_configuration(call_method(&first, Self::category_call(index)))
            },
        }
    }
}

/// A molecule held by the chemistry toolkit.
#[derive(Debug, Clone)]
pub struct Molecule {
    pub(crate) inner: Py<PyAny>,
}

impl Molecule {
    /// The runtime object behind this value.
    pub closed spec fn object(self) -> Py<PyAny> {
        self.inner
    }

    /// The call of the toolkit's molecule constructor `method` on `pattern`,
    /// allowing undefined stereochemistry.
    pub fn constructor_call(method: &str, pattern: &str) -> (c: Call)
        ensures
            calls(c, method@, Some("allow_undefined_stereo"@)),
            c.args@.len() == 1 && is_text(c.args@[0], pattern@),
    {
        Call::with_text(method, pattern, Some("allow_undefined_stereo"))
    }

    /// Parses a SMILES string with atom-map indices, by the constructor
    /// `from_mapped_smiles`.
    pub fn from_mapped_smiles(smiles: &str) -> (r: Result<Self, Error>)
        ensures
            r is Err ==> r->Err_0 is Runtime,
    {
        Self::from_pattern("from_mapped_smiles", smiles)
    }

    /// Parses an InChI string, by the constructor `from_inchi`.
    pub fn from_inchi(inchi: &str) -> (r: Result<Self, Error>)
        ensures
            r is Err ==> r->Err_0 is Runtime,
    {
        Self::from_pattern("from_inchi", inchi)
    }

    /// The call that compares two molecules for isomorphism.
    pub fn isomorphism_call(&self, other: &Self) -> (c: Call)
        ensures
            calls(c, "are_isomorphic"@, None),
            c.args@ == seq![Arg::Handle(self.object()), Arg::Handle(other.object())],
    {
        let mut args: Vec<Arg> = Vec::new();
        args.push(Arg::Handle(self.inner.clone()));
        args.push(Arg::Handle(other.inner.clone()));
        Call::new("are_isomorphic", args, None)
    }

    /// Whether the two molecules are isomorphic: the first element of what
    /// `isomorphism_call` returns.
    pub fn is_isomorphic(&self, other: &Self) -> (r: Result<bool, Error>)
        ensures
            r is Err ==> r->Err_0 is Runtime,
    {
        let class = Self::toolkit_class()?;
        let found = invoke(&class, self.isomorphism_call(other))?;
        let verdict = invoke(&found, Call::with_arg("__getitem__", Arg::Index(0)))?;
        lift(extract_flag(&verdict))
    }

    /// The SMILES string of the molecule with atom-map indices, from its
    /// `to_smiles(mapped=True)`.
    pub fn to_mapped_smiles(&self) -> (r: Result<String, Error>)
        ensures
            r is Err ==> r->Err_0 is Runtime,
    {
        let s = invoke(&self.inner, Call::flagged("to_smiles", "mapped"))?;
        lift(extract_text(&s))
    }

    /// The call of the depiction routine on this molecule.
    pub fn depiction_call(&self) -> (c: Call)
        ensures
            calls(c, "draw_rdkit"@, None),
            c.args@ == seq![Arg::Handle(self.object())],
    {
        Call::with_arg("draw_rdkit", Arg::Handle(self.inner.clone()))
    }

    /// An SVG depiction of the molecule.
    pub fn to_svg(&self) -> (r: Result<String, Error>)
        ensures
            r is Err ==> r->Err_0 is Runtime,
    {
        let module = lift(load_code(DRAW_SVG))?;
        let svg = invoke(&module, self.depiction_call())?;
        lift(extract_text(&svg))
    }

    /// The InChI string of the molecule, from its
    /// `to_inchi(fixed_hydrogens=True)`.
    pub fn to_inchi(&self) -> (r: Result<String, Error>)
        ensures
            r is Err ==> r->Err_0 is Runtime,
    {
        let s = invoke(&self.inner, Call::flagged("to_inchi", "fixed_hydrogens"))?;
        lift(extract_text(&s))
    }

    /// The InChIKey of the molecule, from its `to_inchikey()`.
    pub fn to_inchikey(&self) -> (r: Result<String, Error>)
        ensures
            r is Err ==> r->Err_0 is Runtime,
    {
        let s = invoke(&self.inner, Call::bare("to_inchikey"))?;
        lift(extract_text(&s))
    }

    /// The call that matches a SMARTS query against the molecule.
    pub fn matches_call(query: &str) -> (c: Call)
        ensures
            calls(c, "chemical_environment_matches"@, None),
            c.args@.len() == 1 && is_text(c.args@[0], query@),
    {
        Call::with_text("chemical_environment_matches", query, None)
    }

    /// The atom-index pairs at which a SMARTS query matches the molecule,
    /// through `matches_call(query)`.
    pub fn chemical_environment_matches(&self, query: &str) -> (r: Result<Vec<(usize, usize)>, Error>)
        ensures
            r is Err ==> r->Err_0 is Runtime,
    {
        let found = invoke(&self.inner, Self::matches_call(query))?;
        lift(extract_index_pairs(&found))
    }

    /// The topology of this molecule alone, from its `to_topology()`.
    pub fn to_topology(&self) -> (r: Result<Topology, Error>)
        ensures
            r is Err ==> r->Err_0 is Runtime,
    {
        let inner = invoke(&self.inner, Call::bare("to_topology"))?;
        Ok(Topology::new(inner))
    }

    /// The runtime object behind this molecule.
    pub fn handle(&self) -> (r: &Py<PyAny>)
        ensures
            *r == self.object(),
    {
        &self.inner
    }

    /// The toolkit's molecule class.
    fn toolkit_class() -> (r: Result<Py<PyAny>, Error>)
        ensures
            r is Err ==> r->Err_0 is Runtime,
    {
        let toolkit = lift(import_module("openff.toolkit"))?;
        lift(getattr(&toolkit, "Molecule"))
    }

    /// Makes `constructor_call(method, pattern)` on the toolkit's molecule
    /// class.
    fn from_pattern(method: &str, pattern: &str) -> (r: Result<Molecule, Error>)
        ensures
            r is Err ==> r->Err_0 is Runtime,
    {
        let class = Self::toolkit_class()?;
        let inner = invoke(&class, Self::constructor_call(method, pattern))?;
        Ok(Molecule { inner })
    }
}

} // verus!
