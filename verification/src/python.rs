//! The boundary to the Python interpreter.
//!
//! Everything in this module is trusted: the declarations make `pyo3`'s handle
//! types known to the verifier, and the wrappers make the few interpreter calls
//! that the validators need. What the interpreter answers depends on the state of
//! live Python objects, so the wrappers promise nothing about their results;
//! the validators are proved for every answer.
use pyo3::types::{PyAnyMethods, PyString, PyType, PyTypeMethods};
use pyo3::{Py, PyAny, PyErr, Python};
use vstd::prelude::*;

verus! {

/// `pyo3::PyErr`: a raised Python exception. Opaque to the verifier.
#[verifier::external_type_specification]
#[verifier::external_body]
pub struct ExPyErr(PyErr);

/// `pyo3::PyAny`: the marker for "any Python object". Opaque to the verifier.
#[verifier::external_type_specification]
#[verifier::external_body]
pub struct ExPyAny(PyAny);

/// `pyo3::Py<T>`: an owned reference to a Python object that is not tied to
/// the interpreter lock. Opaque to the verifier; two handles are equal in
/// contracts when they refer to the same object.
#[verifier::external_type_specification]
#[verifier::external_body]
#[verifier::reject_recursive_types(T)]
pub struct ExPy<T>(Py<T>);

/// `pyo3::Python<'py>`: the token that proves the interpreter lock is held.
#[verifier::external_type_specification]
#[verifier::external_body]
pub struct ExPython<'py>(Python<'py>);

/// `Py::clone_ref` takes a new strong reference to the object behind `ob`.
/// The contract claims that the new handle refers to the same object as the
/// old one; nothing is copied.
pub assume_specification<T>[ Py::<T>::clone_ref ](ob: &Py<T>, py: Python<'_>) -> (res: Py<T>)
    ensures
        res == *ob,
;

/// `PyAnyMethods::is_instance`, the Python expression `isinstance(ob, target)`.
/// The answer, and whether the test raises, is up to `target`'s type and the
/// interpreter's state: nothing is claimed about it.
#[verifier::external_body]
pub(crate) fn is_instance(py: Python<'_>, ob: &Py<PyAny>, target: &Py<PyAny>) -> (res: Result<
    bool,
    PyErr,
>) {
    ob.bind(py).is_instance(target.bind(py))
}

/// `PyAnyMethods::is_instance_of::<PyType>`: whether `ob` is itself a type
/// object. Nothing is claimed about the answer.
#[verifier::external_body]
pub(crate) fn is_type_object(py: Python<'_>, ob: &Py<PyAny>) -> (res: bool) {
    ob.bind(py).is_instance_of::<PyType>()
}

/// `PyAnyMethods::is_exact_instance_of::<PyString>`: whether the type of `ob`
/// is `str` itself, not a subclass of it. Nothing is claimed about the answer.
#[verifier::external_body]
pub(crate) fn is_exact_text(py: Python<'_>, ob: &Py<PyAny>) -> (res: bool) {
    ob.bind(py).is_exact_instance_of::<PyString>()
}

/// `PyTypeMethods::qualname`, the qualified name of the type object `ob`.
/// Where `ob` is no type object the downcast fails and its error is returned.
/// Nothing is claimed about the text.
#[verifier::external_body]
pub(crate) fn type_qualname(py: Python<'_>, ob: &Py<PyAny>) -> (res: Result<String, PyErr>) {
    ob.bind(py).downcast::<PyType>()?.qualname()
}

/// `PyAnyMethods::repr`, the Python expression `repr(ob)`, as a Rust string.
/// Nothing is claimed about the text, nor that the call succeeds.
#[verifier::external_body]
pub(crate) fn repr_text(py: Python<'_>, ob: &Py<PyAny>) -> (res: Result<String, PyErr>) {
    ob.bind(py).repr()?.extract()
}

/// `Py::extract::<String>`: the text of `ob` where it is a Python `str`, an
/// error where it is not. Nothing is claimed about the text.
#[verifier::external_body]
pub(crate) fn extract_text(py: Python<'_>, ob: &Py<PyAny>) -> (res: Result<String, PyErr>) {
    ob.extract::<String>(py)
}

/// `PyString::new_bound`: a new Python `str` object. Nothing is claimed
/// about the handle; the validators use it only as a value to test
/// membership with.
#[verifier::external_body]
pub(crate) fn new_text(py: Python<'_>, text: &str) -> (res: Py<PyAny>) {
    PyString::new_bound(py, text).into_any().unbind()
}

} // verus!
