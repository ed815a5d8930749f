//! Validators for Python values: a schema is compiled once into a validator,
//! which is then applied to any number of values.
//!
//! The validator here, `IsInstanceValidator`, accepts a value when it is an
//! instance of a configured Python type. What the interpreter answers is not
//! known to the proofs: they hold for every answer it can give.
pub mod errors;
pub mod input;
pub mod python;
pub mod schema;
pub mod validators;
