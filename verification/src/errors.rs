//! The three kinds of failure: a schema that cannot be compiled, a value that
//! does not satisfy a check, and a validator that was used in a way it does
//! not support.
use pyo3::{Py, PyAny, PyErr};
use vstd::prelude::*;

verus! {

/// Why a schema could not be compiled into a validator.
#[derive(Debug)]
pub enum SchemaError {
    /// A key that the validator requires is absent from the configuration.
    MissingKey(String),
    /// The configured target cannot stand on the right of a membership test.
    NotMembershipTarget,
    /// The interpreter raised while the configuration was read.
    Raised(PyErr),
}

impl SchemaError {
    /// The text of the error.
    pub open spec fn message_spec(self) -> Seq<char> {
        match self {
            SchemaError::MissingKey(key) => "missing required key: "@ + key@,
            SchemaError::NotMembershipTarget => "target must support membership testing"@,
            SchemaError::Raised(_) => "the interpreter raised while the schema was built"@,
        }
    }

    /// The text of the error, for the embedder to render. For `Raised` the
    /// exception itself says more than this text.
    pub fn message(&self) -> (text: String)
        ensures
            text@ == self.message_spec(),
    {
        match self {
            SchemaError::MissingKey(key) => String::from_str("missing required key: ").concat(
                key.as_str(),
            ),
            SchemaError::NotMembershipTarget => String::from_str(
                "target must support membership testing",
            ),
            SchemaError::Raised(_) => String::from_str(
                "the interpreter raised while the schema was built",
            ),
        }
    }
}

/// What a value failed to be. The set of kinds is closed.
#[derive(Debug)]
pub enum ErrorType {
    /// The value is not an instance of the configured type.
    IsInstanceOf {
        /// The display name of the configured type.
        class: String,
        /// Further structured context, if any.
        context: Option<Py<PyAny>>,
    },
}

impl ErrorType {
    /// The text of the error.
    pub open spec fn message_spec(self) -> Seq<char> {
        match self {
            ErrorType::IsInstanceOf { class, .. } => "not an instance of "@ + class@,
        }
    }

    /// The text of the error.
    pub fn message(&self) -> (text: String)
        ensures
            text@ == self.message_spec(),
    {
        match self {
            ErrorType::IsInstanceOf { class, .. } => String::from_str(
                "not an instance of ",
            ).concat(class.as_str()),
        }
    }
}

/// One rejected value. A composite validator collects these from its parts.
#[derive(Debug)]
pub struct ValLineError {
    pub error_type: ErrorType,
}

/// A validator was used in a way it does not support. Such a fault ends the
/// whole validation; it is never collected with the line errors.
#[derive(Debug)]
pub enum InternalFault {
    /// The input was a parsed value tree, which has no Python type to test.
    UnsupportedInput,
    /// The interpreter raised during the check.
    Raised(PyErr),
}

impl InternalFault {
    /// The text of the fault.
    pub open spec fn message_spec(self) -> Seq<char> {
        match self {
            InternalFault::UnsupportedInput =>
                "cannot check isinstance when validating from a value tree, use a dual-mode wrapper validator instead"@,
            InternalFault::Raised(_) => "the interpreter raised during validation"@,
        }
    }

    /// The text of the fault. For `Raised` the exception itself says more
    /// than this text.
    pub fn message(&self) -> (text: String)
        ensures
            text@ == self.message_spec(),
    {
        match self {
            InternalFault::UnsupportedInput => String::from_str(
                "cannot check isinstance when validating from a value tree, use a dual-mode wrapper validator instead",
            ),
            InternalFault::Raised(_) => String::from_str(
                "the interpreter raised during validation",
            ),
        }
    }
}

/// Why a validation did not return a value.
#[derive(Debug)]
pub enum ValError {
    /// The value does not satisfy the check.
    LineError(ValLineError),
    /// The validator could not run the check at all.
    InternalErr(InternalFault),
}

impl ValError {
    /// The error for one rejected value of the given kind.
    pub fn new(error_type: ErrorType) -> (err: Self)
        ensures
            err == ValError::LineError(ValLineError { error_type }),
    {
        ValError::LineError(ValLineError { error_type })
    }
}

pub type ValResult<T> = Result<T, ValError>;

} // verus!
