//! The validator that accepts a value when it is an instance of a configured
//! Python type.
use crate::errors::{ErrorType, InternalFault, SchemaError, ValError, ValResult};
use crate::input::{Input, JsonValue};
use crate::python::{extract_text, is_instance, is_type_object, new_text, repr_text, type_qualname};
use crate::schema::{ConfigValue, SchemaConfig};
use crate::validators::{CombinedValidator, DefinitionsBuilder, ValidationState};
use pyo3::{Py, PyAny, PyErr, Python};
use vstd::prelude::*;

verus! {

/// The diagnostic name of the validator whose target is displayed as `display`.
pub open spec fn diagnostic_name(display: Seq<char>) -> Seq<char> {
    IsInstanceValidator::EXPECTED_TYPE@ + "["@ + display + "]"@
}

/// Where the display name of a target is taken from.
#[derive(Debug, Clone, Copy, PartialEq, Eq)]
pub enum DisplaySource {
    /// The schema's own `cls_repr` entry.
    Override,
    /// The qualified name of the target, which is a type object.
    QualifiedName,
    /// The target's `repr`.
    Repr,
}

impl DisplaySource {
    /// The source to use: the schema's override where it has one, else the
    /// qualified name where the target is a type object, else the `repr`.
    pub open spec fn selected(has_override: bool, target_is_type: bool) -> DisplaySource {
        if has_override {
            DisplaySource::Override
        } else if target_is_type {
            DisplaySource::QualifiedName
        } else {
            DisplaySource::Repr
        }
    }

    /// Selects the source of the display name, given whether the schema has
    /// a `cls_repr` entry and whether the target is a type object.
    pub fn select(has_override: bool, target_is_type: bool) -> (source: DisplaySource)
        ensures
            source == Self::selected(has_override, target_is_type),
    {
        if has_override {
            DisplaySource::Override
        } else if target_is_type {
            DisplaySource::QualifiedName
        } else {
            DisplaySource::Repr
        }
    }
}

/// Accepts a Python object when `isinstance(object, class)` holds.
#[derive(Debug)]
pub struct IsInstanceValidator {
    class: Py<PyAny>,
    class_repr: String,
    name: String,
}

/// What an `IsInstanceValidator` is made of.
pub struct IsInstanceModel {
    /// The target type: the right-hand side of the membership test.
    pub class: Py<PyAny>,
    /// The display name of the target.
    pub class_repr: Seq<char>,
}

impl IsInstanceModel {
    /// The diagnostic name: the kind, and the display name in brackets.
    pub open spec fn name(self) -> Seq<char> {
        diagnostic_name(self.class_repr)
    }
}

impl View for IsInstanceValidator {
    type V = IsInstanceModel;

    closed spec fn view(&self) -> IsInstanceModel {
        IsInstanceModel { class: self.class, class_repr: self.class_repr@ }
    }
}

impl IsInstanceValidator {
    /// The kind of this validator, as schemas and diagnostics spell it.
    pub const EXPECTED_TYPE: &'static str = "is-instance";

    /// The stored name is the diagnostic name of the stored display name.
    #[verifier::type_invariant]
    spec fn named_after_display(self) -> bool {
        self.name@ == diagnostic_name(self.class_repr@)
    }

    /// Whether `err` is the line error for a value that is no instance of the
    /// target: it names the target by its display name and carries no
    /// further context.
    pub open spec fn is_rejection(self, err: ValError) -> bool {
        &&& err matches ValError::LineError(line)
        &&& line.error_type matches ErrorType::IsInstanceOf { class, context }
        &&& class@ == self@.class_repr
        &&& context is None
    }

    /// Whether `res` is what `validate` returns for the Python object `ob`
    /// when the membership test of `ob` against the target ended as
    /// `membership`: `ob` itself for an instance, the rejection for another
    /// value, and the exception as an internal fault where the test raised.
    pub open spec fn is_outcome(
        self,
        ob: Py<PyAny>,
        membership: Result<bool, PyErr>,
        res: ValResult<Py<PyAny>>,
    ) -> bool {
        match membership {
            Ok(true) => res == Ok::<Py<PyAny>, ValError>(ob),
            Ok(false) => res matches Err(err) && self.is_rejection(err),
            Err(raised) => res == Err::<Py<PyAny>, ValError>(
                ValError::InternalErr(InternalFault::Raised(raised)),
            ),
        }
    }

    /// Whether `validate` can return `res` for `input`. A value tree is
    /// always refused as unsupported input. A Python object gets the outcome
    /// of one of the ways in which its membership test can end.
    pub open spec fn may_return(self, input: Input, res: ValResult<Py<PyAny>>) -> bool {
        match input {
            Input::Json(_) => res == Err::<Py<PyAny>, ValError>(
                ValError::InternalErr(InternalFault::UnsupportedInput),
            ),
            Input::Python(ob) => exists|membership: Result<bool, PyErr>| #[trigger]
                self.is_outcome(ob, membership, res),
        }
    }

    /// Whether the schema names the target itself, with a text under
    /// `cls_repr`.
    pub open spec fn has_text_override(schema: Map<Seq<char>, ConfigValue>) -> bool {
        schema.contains_key("cls_repr"@) && schema["cls_repr"@] is Text
    }

    /// Whether a target may be built on, given how a membership test against
    /// it ended: a target whose test raises is refused, whatever it raised.
    pub fn check_target(probe: Result<bool, PyErr>) -> (res: Result<(), SchemaError>)
        ensures
            probe is Ok ==> res == Ok::<(), SchemaError>(()),
            probe is Err ==> res == Err::<(), SchemaError>(SchemaError::NotMembershipTarget),
    {
        match probe {
            Ok(_) => Ok(()),
            Err(_) => Err(SchemaError::NotMembershipTarget),
        }
    }

    /// The validator for the target `class`, given how deriving its display
    /// name ended: the validator that shows `class` under that name, or the
    /// exception that the derivation raised.
    pub fn with_display(class: Py<PyAny>, display: Result<String, PyErr>) -> (res: Result<
        Self,
        SchemaError,
    >)
        ensures
            match display {
                Ok(text) => res matches Ok(validator) && validator@ == (IsInstanceModel {
                    class,
                    class_repr: text@,
                }),
                Err(raised) => res == Err::<Self, SchemaError>(SchemaError::Raised(raised)),
            },
    {
        match display {
            Ok(class_repr) => {
                let name = String::from_str(Self::EXPECTED_TYPE).concat("[").concat(
                    class_repr.as_str(),
                ).concat("]");
                Ok(IsInstanceValidator { class, class_repr, name })
            },
            Err(raised) => Err(SchemaError::Raised(raised)),
        }
    }

    /// Compiles the schema of an `is-instance` validator.
    ///
    /// `cls` is required. It is tested once, against a value that does not
    /// matter, so that a target that cannot take part in a membership test
    /// is refused here and not at the first validation. The display name is
    /// `cls_repr` where the schema has it, else the qualified name of `cls`
    /// where that is a type object, else its `repr`.
    ///
    /// Whether the target can be tested, and what it is called where the
    /// schema does not say, is for the interpreter to answer:
    /// `check_target`, `DisplaySource::select` and `with_display` say what
    /// follows from each answer.
    pub fn build(
        py: Python<'_>,
        schema: &SchemaConfig,
        _config: Option<&SchemaConfig>,
        definitions: &mut DefinitionsBuilder<CombinedValidator>,
    ) -> (res: Result<CombinedValidator, SchemaError>)
        ensures
            *final(definitions) == *old(definitions),
            !schema@.contains_key("cls"@) <==> res matches Err(SchemaError::MissingKey(_)),
            res matches Err(SchemaError::MissingKey(key)) ==> key@ == "cls"@,
            res matches Ok(built) ==> {
                &&& built matches CombinedValidator::IsInstance(validator)
                &&& schema@["cls"@] matches ConfigValue::Object(class) ==> validator@.class
                    == class
                &&& Self::has_text_override(schema@) ==> validator@.class_repr
                    == schema@["cls_repr"@]->Text_0@
            },
            Self::has_text_override(schema@) ==> !(res matches Err(SchemaError::Raised(_))),
    {
        let class = match schema.get("cls") {
            Some(ConfigValue::Object(object)) => object.clone_ref(py),
            Some(ConfigValue::Text(text)) => new_text(py, text.as_str()),
            None => {
                return Err(SchemaError::MissingKey(String::from_str("cls")));
            },
        };
        let probe = new_text(py, "cls");
        match Self::check_target(is_instance(py, &probe, &class)) {
            Ok(()) => {},
            Err(refused) => {
                return Err(refused);
            },
        }
        let explicit = schema.get("cls_repr");
        let target_is_type = explicit.is_none() && is_type_object(py, &class);
        let display = match DisplaySource::select(explicit.is_some(), target_is_type) {
            DisplaySource::Override => match explicit.unwrap() {
                ConfigValue::Text(text) => Ok(text.clone()),
                ConfigValue::Object(object) => extract_text(py, object),
            },
            DisplaySource::QualifiedName => type_qualname(py, &class),
            DisplaySource::Repr => repr_text(py, &class),
        };
        match Self::with_display(class, display) {
            Ok(validator) => Ok(CombinedValidator::IsInstance(validator)),
            Err(raised) => Err(raised),
        }
    }

    /// What `validate` returns for the Python object `ob`, given how its
    /// membership test against the target ended: `ob` itself where it is an
    /// instance, a line error that names the target where it is not, and the
    /// exception as an internal fault where the test raised.
    pub fn conclude(&self, ob: Py<PyAny>, membership: Result<bool, PyErr>) -> (res: ValResult<
        Py<PyAny>,
    >)
        ensures
            self.is_outcome(ob, membership, res),
    {
        match membership {
            Ok(true) => Ok(ob),
            Ok(false) => Err(
                ValError::new(
                    ErrorType::IsInstanceOf { class: self.class_repr.clone(), context: None },
                ),
            ),
            Err(raised) => Err(ValError::InternalErr(InternalFault::Raised(raised))),
        }
    }

    /// Checks that `input` is an instance of the target and hands it back
    /// unchanged. A value tree cannot be checked: that is a fault of the
    /// schema, not of the value.
    pub fn validate(&self, py: Python<'_>, input: &Input, state: &mut ValidationState) -> (res:
        ValResult<Py<PyAny>>)
        ensures
            *final(state) == *old(state),
            self.may_return(*input, res),
    {
        let object = match input.as_python() {
            Some(object) => object,
            None => {
                return Err(ValError::InternalErr(InternalFault::UnsupportedInput));
            },
        };
        let ob = object.clone_ref(py);
        let membership = is_instance(py, &ob, &self.class);
        let ghost ended = membership;
        let res = self.conclude(ob, membership);
        assert(self.is_outcome(*object, ended, res));
        res
    }

    /// The diagnostic name, `is-instance[` display name `]`.
    pub fn get_name(&self) -> (name: &str)
        ensures
            name@ == self@.name(),
    {
        proof {
            use_type_invariant(self);
        }
        self.name.as_str()
    }

    /// The Python objects that this validator keeps alive, for a garbage
    /// collector that traces reference cycles through it: the target, and
    /// nothing else.
    pub fn gc_references(&self) -> (held: Vec<&Py<PyAny>>)
        ensures
            held@.len() == 1,
            *held@[0] == self@.class,
    {
        let mut held: Vec<&Py<PyAny>> = Vec::new();
        held.push(&self.class);
        held
    }
}

/// A value that is an instance of the target comes back as it went in: the
/// same object, not a copy.
pub proof fn lemma_instance_passes_through(
    validator: IsInstanceValidator,
    ob: Py<PyAny>,
    res: ValResult<Py<PyAny>>,
)
    requires
        validator.is_outcome(ob, Ok(true), res),
    ensures
        res == Ok::<Py<PyAny>, ValError>(ob),
{
}

/// A value that is no instance of the target is rejected with one line error,
/// whose message ends in the display name of the target.
pub proof fn lemma_rejection_embeds_display_name(
    validator: IsInstanceValidator,
    ob: Py<PyAny>,
    res: ValResult<Py<PyAny>>,
)
    requires
        validator.is_outcome(ob, Ok(false), res),
    ensures
        res matches Err(ValError::LineError(line)) && line.error_type.message_spec()
            == "not an instance of "@ + validator@.class_repr,
{
}

/// Two validations of one object by one validator whose membership tests
/// ended alike return alike: the same object, rejections that read the same,
/// or the same exception. Nothing that happened before or beside them has a
/// say in it.
pub proof fn lemma_outcome_is_determined(
    validator: IsInstanceValidator,
    ob: Py<PyAny>,
    membership: Result<bool, PyErr>,
    first: ValResult<Py<PyAny>>,
    second: ValResult<Py<PyAny>>,
)
    requires
        validator.is_outcome(ob, membership, first),
        validator.is_outcome(ob, membership, second),
    ensures
        match (first, second) {
            (Ok(one), Ok(other)) => one == other,
            (Err(ValError::LineError(one)), Err(ValError::LineError(other))) =>
                one.error_type.message_spec() == other.error_type.message_spec(),
            (Err(ValError::InternalErr(one)), Err(ValError::InternalErr(other))) => one == other,
            _ => false,
        },
{
}

/// A value tree is refused as unsupported input, whatever it holds.
pub proof fn lemma_value_tree_is_refused(
    validator: IsInstanceValidator,
    tree: JsonValue,
    res: ValResult<Py<PyAny>>,
)
    requires
        validator.may_return(Input::Json(tree), res),
    ensures
        res == Err::<Py<PyAny>, ValError>(ValError::InternalErr(InternalFault::UnsupportedInput)),
{
}

} // verus!
