//! Validators: compiled once from a schema, applied to many values.
use crate::errors::ValResult;
use crate::input::Input;
use crate::validators::is_instance::IsInstanceValidator;
use pyo3::{Py, PyAny, Python};
use vstd::prelude::*;

pub mod is_instance;

verus! {

/// The context of one top-level validation, handed down through the
/// validators that take part in it.
#[derive(Debug)]
pub struct ValidationState {
    /// How deep the validation has descended into nested values.
    pub recursion_depth: usize,
    /// Whether values must match exactly, where the schema says either way.
    pub strict: Option<bool>,
}

impl ValidationState {
    /// The context at the start of a validation.
    pub fn new(strict: Option<bool>) -> (state: Self)
        ensures
            state.recursion_depth == 0,
            state.strict == strict,
    {
        ValidationState { recursion_depth: 0, strict }
    }
}

/// The named definitions met while a schema is compiled. A name may be
/// referred to before its validator is finished; until then its slot is empty.
#[derive(Debug)]
pub struct DefinitionsBuilder<T> {
    pub definitions: Vec<(String, Option<T>)>,
}

impl<T> DefinitionsBuilder<T> {
    /// The builder before any definition was met.
    pub fn new() -> (builder: Self)
        ensures
            builder.definitions@ == Seq::<(String, Option<T>)>::empty(),
    {
        DefinitionsBuilder { definitions: Vec::new() }
    }
}

/// Every kind of validator that a schema can compile to. The set is closed:
/// a call is dispatched by matching on the kind.
#[derive(Debug)]
pub enum CombinedValidator {
    IsInstance(IsInstanceValidator),
}

impl CombinedValidator {
    /// Checks `input` with the validator of this kind.
    pub fn validate(&self, py: Python<'_>, input: &Input, state: &mut ValidationState) -> (res:
        ValResult<Py<PyAny>>)
        ensures
            *final(state) == *old(state),
            match *self {
                CombinedValidator::IsInstance(validator) => validator.may_return(*input, res),
            },
    {
        match self {
            CombinedValidator::IsInstance(validator) => validator.validate(py, input, state),
        }
    }

    /// The Python objects that the validator of this kind keeps alive.
    pub fn gc_references(&self) -> (held: Vec<&Py<PyAny>>)
        ensures
            match *self {
                CombinedValidator::IsInstance(validator) => held@.len() == 1 && *held@[0]
                    == validator@.class,
            },
    {
        match self {
            CombinedValidator::IsInstance(validator) => validator.gc_references(),
        }
    }

    /// The diagnostic name of the validator of this kind.
    pub fn get_name(&self) -> (name: &str)
        ensures
            match *self {
                CombinedValidator::IsInstance(validator) => name@ == validator@.name(),
            },
    {
        match self {
            CombinedValidator::IsInstance(validator) => validator.get_name(),
        }
    }
}

} // verus!
