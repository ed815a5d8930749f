use isinstance_validator::errors::{ErrorType, InternalFault, SchemaError, ValError};
use isinstance_validator::input::{Input, JsonValue};
use isinstance_validator::schema::{ConfigValue, SchemaConfig};
use pyo3::exceptions::PyValueError;
use pyo3::types::PyAnyMethods;
use pyo3::{Py, PyAny, Python};

fn value(py: Python<'_>, code: &str) -> Py<PyAny> {
    py.eval_bound(code, None, None).unwrap().unbind()
}

#[test]
fn empty_config_has_no_keys() {
    let schema = SchemaConfig::new();
    assert!(schema.get("cls").is_none());
    assert!(schema.get("cls_repr").is_none());
    assert!(schema.get("").is_none());
}

fn held_object(found: Option<&ConfigValue>) -> &Py<PyAny> {
    match found {
        Some(ConfigValue::Object(ob)) => ob,
        other => panic!("expected an object, got {:?}", other),
    }
}

fn held_text(found: Option<&ConfigValue>) -> &str {
    match found {
        Some(ConfigValue::Text(text)) => text,
        other => panic!("expected a text, got {:?}", other),
    }
}

#[test]
fn config_hands_back_what_was_written() {
    Python::with_gil(|py| {
        let mut schema = SchemaConfig::new();
        let one = value(py, "'one'");
        schema.insert("cls".to_string(), ConfigValue::Object(one.clone_ref(py)));
        schema.insert("cls_repr".to_string(), ConfigValue::Text("two".to_string()));
        assert!(held_object(schema.get("cls")).is(&one));
        assert_eq!(held_text(schema.get("cls_repr")), "two");
        assert!(schema.get("cls_rep").is_none());
        assert!(schema.get("Cls").is_none());
        assert!(schema.get("").is_none());
    });
}

#[test]
fn config_insert_replaces_value_under_same_key() {
    Python::with_gil(|py| {
        let mut schema = SchemaConfig::new();
        let one = value(py, "'one'");
        schema.insert("cls".to_string(), ConfigValue::Text("first".to_string()));
        schema.insert("other".to_string(), ConfigValue::Text("second".to_string()));
        schema.insert("cls".to_string(), ConfigValue::Object(one.clone_ref(py)));
        assert!(held_object(schema.get("cls")).is(&one));
        assert_eq!(held_text(schema.get("other")), "second");
        schema.insert("other".to_string(), ConfigValue::Text("third".to_string()));
        assert!(held_object(schema.get("cls")).is(&one));
        assert_eq!(held_text(schema.get("other")), "third");
        schema.insert("".to_string(), ConfigValue::Text("nameless".to_string()));
        assert_eq!(held_text(schema.get("")), "nameless");
        assert_eq!(held_text(schema.get("other")), "third");
    });
}

#[test]
fn python_text_becomes_text_and_other_objects_stay() {
    Python::with_gil(|py| {
        let word = value(py, "'whole number'");
        assert_eq!(held_text(Some(&ConfigValue::from_object(py, word))), "whole number");
        let empty = value(py, "''");
        assert_eq!(held_text(Some(&ConfigValue::from_object(py, empty))), "");
        let int_type = value(py, "int");
        let kept = ConfigValue::from_object(py, int_type.clone_ref(py));
        assert!(held_object(Some(&kept)).is(&int_type));
        let label = value(py, "type('Label', (str,), {})('label')");
        let kept = ConfigValue::from_object(py, label.clone_ref(py));
        assert!(held_object(Some(&kept)).is(&label));
        let torn = value(py, "'\\ud800'");
        let kept = ConfigValue::from_object(py, torn.clone_ref(py));
        assert!(held_object(Some(&kept)).is(&torn));
    });
}

#[test]
fn reading_decides_between_text_and_object() {
    Python::with_gil(|py| {
        let ob = value(py, "'spelled'");
        let read = ConfigValue::from_reading(ob.clone_ref(py), Some(Ok("whole number".to_string())));
        assert_eq!(held_text(Some(&read)), "whole number");
        let read = ConfigValue::from_reading(ob.clone_ref(py), Some(Ok(String::new())));
        assert_eq!(held_text(Some(&read)), "");
        let unread = ConfigValue::from_reading(ob.clone_ref(py), Some(Err(PyValueError::new_err("torn"))));
        assert!(held_object(Some(&unread)).is(&ob));
        let other = ConfigValue::from_reading(ob.clone_ref(py), None);
        assert!(held_object(Some(&other)).is(&ob));
    });
}

#[test]
fn input_knows_its_mode() {
    Python::with_gil(|py| {
        let ob = value(py, "5");
        let live = Input::Python(ob.clone_ref(py));
        assert!(live.is_python());
        assert!(live.as_python().unwrap().is(&ob));
        let tree = Input::Json(JsonValue::Int(5));
        assert!(!tree.is_python());
        assert!(tree.as_python().is_none());
    });
}

#[test]
fn schema_error_messages() {
    Python::with_gil(|_py| {
        assert_eq!(SchemaError::MissingKey("cls".to_string()).message(), "missing required key: cls");
        assert_eq!(SchemaError::MissingKey(String::new()).message(), "missing required key: ");
        assert_eq!(SchemaError::NotMembershipTarget.message(), "target must support membership testing");
        assert_eq!(
            SchemaError::Raised(PyValueError::new_err("boom")).message(),
            "the interpreter raised while the schema was built"
        );
    });
}

#[test]
fn validation_error_messages() {
    Python::with_gil(|_py| {
        let kind = ErrorType::IsInstanceOf { class: "text".to_string(), context: None };
        assert_eq!(kind.message(), "not an instance of text");
        let kind = ErrorType::IsInstanceOf { class: String::new(), context: None };
        assert_eq!(kind.message(), "not an instance of ");
        assert_eq!(
            InternalFault::Raised(PyValueError::new_err("boom")).message(),
            "the interpreter raised during validation"
        );
        assert_eq!(
            InternalFault::UnsupportedInput.message(),
            "cannot check isinstance when validating from a value tree, use a dual-mode wrapper validator instead"
        );
    });
}

#[test]
fn new_validation_error_is_one_line_error() {
    let err = ValError::new(ErrorType::IsInstanceOf { class: "int".to_string(), context: None });
    match err {
        ValError::LineError(line) => {
            let ErrorType::IsInstanceOf { class, context } = line.error_type;
            assert_eq!(class, "int");
            assert!(context.is_none());
        }
        other => panic!("expected a line error, got {:?}", other),
    }
}
