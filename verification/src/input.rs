//! The value under validation, in one of its two representations.
use pyo3::{Py, PyAny};
use vstd::prelude::*;

verus! {

/// A parsed tree of primitives, sequences and mappings. Such a value was
/// never a Python object: it has no type to ask membership of.
#[derive(Debug)]
pub enum JsonValue {
    Null,
    Bool(bool),
    Int(i64),
    Str(String),
    Array(Vec<JsonValue>),
    Object(Vec<(String, JsonValue)>),
}

/// The value under validation. It is either a live Python object or a parsed
/// value tree, and stays what it is.
#[derive(Debug)]
pub enum Input {
    Python(Py<PyAny>),
    Json(JsonValue),
}

impl Input {
    /// Whether the value is a live Python object.
    pub fn is_python(&self) -> (live: bool)
        ensures
            live == (self is Python),
    {
        match self {
            Input::Python(_) => true,
            Input::Json(_) => false,
        }
    }

    /// The Python object behind the value, where it is one.
    pub fn as_python(&self) -> (ob: Option<&Py<PyAny>>)
        ensures
            match *self {
                Input::Python(object) => ob == Some(&object),
                Input::Json(_) => ob is None,
            },
    {
        match self {
            Input::Python(object) => Some(object),
            Input::Json(_) => None,
        }
    }
}

} // verus!
