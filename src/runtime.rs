//! The embedded Python runtime: its handle types and the calls made into it.
//! Every call holds the interpreter lock for its whole duration and releases
//! it before returning, so concurrent callers serialize on it.
use crate::error::Error;
use pyo3::prelude::{IntoPy, Py, PyAny, PyErr, PyModule, Python};
use std::fmt::Write;
use pyo3::types::{IntoPyDict, PyTuple};
use vstd::prelude::*;

verus! {

#[verifier::external_type_specification]
#[verifier::external_body]
#[verifier::reject_recursive_types(T)]
pub struct ExPy<T>(Py<T>);

#[verifier::external_type_specification]
#[verifier::external_body]
pub struct ExPyAny(PyAny);

#[verifier::external_type_specification]
#[verifier::external_body]
pub struct ExPyErr(PyErr);

/// Relies on `PyModule::import`: imports the Python module `name`.
#[verifier::external_body]
pub(crate) fn import_module(name: &str) -> (r: Result<Py<PyAny>, PyErr>) {
    Python::with_gil(|py| PyModule::import(py, name).map(|m| m.into()))
}

/// Relies on `PyModule::from_code`: runs `code` as the body of a fresh module
/// and returns that module.
#[verifier::external_body]
pub(crate) fn load_code(code: &str) -> (r: Result<Py<PyAny>, PyErr>) {
    Python::with_gil(|py| PyModule::from_code(py, code, "", "").map(|m| m.into()))
}

/// Relies on `Py::getattr`: reads the attribute `attr` of `obj`.
#[verifier::external_body]
pub(crate) fn getattr(obj: &Py<PyAny>, attr: &str) -> (r: Result<Py<PyAny>, PyErr>) {
    Python::with_gil(|py| obj.getattr(py, attr))
}

/// Relies on `Py::call_method` and on `IntoPy` for `String` and `usize`:
/// calls `obj.method(*args)`, each argument as a Python `str`, `int` or the
/// object itself, with the keyword argument `flag=True` when a flag is given.
#[verifier::external_body]
pub(crate) fn call_method(obj: &Py<PyAny>, call: Call) -> (r: Result<Py<PyAny>, PyErr>) {
    Python::with_gil(|py| {
        let args: Vec<Py<PyAny>> = call.args.into_iter().map(|a| match a {
            Arg::Text(s) => s.into_py(py),
            Arg::Index(i) => i.into_py(py),
            Arg::Handle(h) => h,
        }).collect();
        let kwargs = call.flag.map(|k| [(k, true)].into_py_dict(py));
        obj.call_method(py, call.method.as_str(), PyTuple::new(py, args), kwargs)
    })
}

/// Relies on `Clone` for `Py`: another reference to the same Python object,
/// the same pointer; it only counts the reference and never fails.
pub assume_specification<T>[ <Py<T> as Clone>::clone ](obj: &Py<T>) -> (r: Py<T>)
    ensures
        r == *obj,
;

/// Relies on `Py::extract` into `String`: the text of a Python `str`.
#[verifier::external_body]
pub(crate) fn extract_text(obj: &Py<PyAny>) -> (r: Result<String, PyErr>) {
    Python::with_gil(|py| obj.extract::<String>(py))
}

/// Relies on `Py::extract` into `bool`: the value of a Python `bool`.
#[verifier::external_body]
pub(crate) fn extract_flag(obj: &Py<PyAny>) -> (r: Result<bool, PyErr>) {
    Python::with_gil(|py| obj.extract::<bool>(py))
}

/// Relies on `Py::extract` into `Vec<(usize, usize)>`: a Python sequence of
/// pairs of non-negative integers.
#[verifier::external_body]
pub(crate) fn extract_index_pairs(obj: &Py<PyAny>) -> (r: Result<Vec<(usize, usize)>, PyErr>) {
    Python::with_gil(|py| obj.extract::<Vec<(usize, usize)>>(py))
}

/// Relies on `Display` for `PyErr`: the exception's type and message. Where
/// the type's name cannot be read, the text written so far is kept.
#[verifier::external_body]
pub(crate) fn error_text(e: &PyErr) -> (r: String) {
    let mut text = String::new();
    let _ = write!(text, "{}", e);
    text
}

/// Relies on `PyErr::get_type`, `PyAny::getattr` and `PyAny::extract`: the
/// name of the module that defines the exception's type, or empty text where
/// it cannot be read.
#[verifier::external_body]
pub(crate) fn error_module(e: &PyErr) -> (r: String) {
    Python::with_gil(|py| {
        e.get_type(py).getattr("__module__").and_then(|m| m.extract::<String>()).unwrap_or_default()
    })
}

/// A runtime outcome as a result of this library: a raised exception becomes
/// a runtime error carrying its text.
pub fn lift<T>(r: Result<T, PyErr>) -> (out: Result<T, Error>)
    ensures
        out is Ok <==> r is Ok,
        out is Ok ==> out->Ok_0 == r->Ok_0,
        out is Err ==> out->Err_0 is Runtime,
{
    match r {
        Ok(v) => Ok(v),
        Err(e) => Err(Error::Runtime(error_text(&e))),
    }
}

/// A failure of the call as a configuration error carrying its text.
pub fn lift_configuration<T>(r: Result<T, PyErr>) -> (out: Result<T, Error>)
    ensures
        out is Ok <==> r is Ok,
        out is Ok ==> out->Ok_0 == r->Ok_0,
        out is Err ==> out->Err_0 is Configuration,
{
    match r {
        Ok(v) => Ok(v),
        Err(e) => Err(Error::Configuration(error_text(&e))),
    }
}

/// One argument of a call into the runtime.
pub enum Arg {
    /// Passed as a Python `str`.
    Text(String),
    /// Passed as a Python `int`.
    Index(usize),
    /// Passed as the object itself.
    Handle(Py<PyAny>),
}

/// Whether `a` is the text argument `s`.
pub open spec fn is_text(a: Arg, s: Seq<char>) -> bool {
    a is Text && a->Text_0@ == s
}

/// A method call into the runtime, described as plain values: the method's
/// name, its positional arguments, and a keyword argument set to `True`.
pub struct Call {
    pub method: String,
    pub args: Vec<Arg>,
    pub flag: Option<String>,
}

/// Whether `c` calls the method `method` with the flag `flag`.
pub open spec fn calls(c: Call, method: Seq<char>, flag: Option<Seq<char>>) -> bool {
    &&& c.method@ == method
    &&& (c.flag is None <==> flag is None)
    &&& (c.flag is Some ==> c.flag->0@ == flag->0)
}

impl Call {
    pub fn new(method: &str, args: Vec<Arg>, flag: Option<&str>) -> (c: Self)
        ensures
            calls(c, method@, if flag is Some { Some(flag->0@) } else { None }),
            c.args == args,
    {
        let flag = match flag {
            Some(k) => Some(k.to_owned()),
            None => None,
        };
        Call { method: method.to_owned(), args, flag }
    }

    /// A call without arguments or flag.
    pub fn bare(method: &str) -> (c: Self)
        ensures
            calls(c, method@, None),
            c.args@.len() == 0,
    {
        Call::new(method, Vec::new(), None)
    }

    /// A call with the single argument `arg` and no flag.
    pub fn with_arg(method: &str, arg: Arg) -> (c: Self)
        ensures
            calls(c, method@, None),
            c.args@ == seq![arg],
    {
        let mut args: Vec<Arg> = Vec::new();
        args.push(arg);
        Call::new(method, args, None)
    }

    /// A call without arguments, with the flag `flag`.
    pub fn flagged(method: &str, flag: &str) -> (c: Self)
        ensures
            calls(c, method@, Some(flag@)),
            c.args@.len() == 0,
    {
        Call::new(method, Vec::new(), Some(flag))
    }

    /// A call with one text argument and the flag `flag`.
    pub fn with_text(method: &str, text: &str, flag: Option<&str>) -> (c: Self)
        ensures
            calls(c, method@, if flag is Some { Some(flag->0@) } else { None }),
            c.args@.len() == 1 && is_text(c.args@[0], text@),
    {
        let mut args: Vec<Arg> = Vec::new();
        args.push(Arg::Text(text.to_owned()));
        Call::new(method, args, flag)
    }
}

/// Makes the call on `obj`; a raised exception becomes a runtime error.
pub(crate) fn invoke(obj: &Py<PyAny>, call: Call) -> (r: Result<Py<PyAny>, Error>)
    ensures
        r is Err ==> r->Err_0 is Runtime,
{
    lift(call_method(obj, call))
}

} // verus!
