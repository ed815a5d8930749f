//! The declarative description that a validator is built from.
use crate::python::{extract_text, is_exact_text};
use pyo3::{Py, PyAny, PyErr, Python};
use vstd::prelude::*;

verus! {

/// The value of one configuration entry.
#[derive(Debug)]
pub enum ConfigValue {
    /// A text, such as a name to display.
    Text(String),
    /// Any other Python object, such as a type.
    Object(Py<PyAny>),
}

impl ConfigValue {
    /// The configuration value that the Python object `ob` stands for: the
    /// text of a `str`, and any other object as it is. An instance of a
    /// subclass of `str` is kept as an object, since it may be more than its
    /// text.
    pub fn from_object(py: Python<'_>, ob: Py<PyAny>) -> (value: ConfigValue)
        ensures
            value matches ConfigValue::Object(kept) ==> kept == ob,
    {
        let exact = is_exact_text(py, &ob);
        let reading = if exact {
            Some(extract_text(py, &ob))
        } else {
            None
        };
        let value = Self::from_reading(ob, reading);
        value
    }
}

/// A string-keyed mapping of configuration entries. What an entry means is
/// for the validator that reads it to decide.
#[derive(Debug)]
pub struct SchemaConfig {
    entries: Vec<(String, ConfigValue)>,
}

impl View for SchemaConfig {
    type V = Map<Seq<char>, ConfigValue>;

    /// The mapping from each key to its value.
    closed spec fn view(&self) -> Map<Seq<char>, ConfigValue> {
        Map::new(|key: Seq<char>| self.holds(key), |key: Seq<char>| self.entries[self.slot(key)].1)
    }
}

/// The first index at which `key` stands in `entries`, or their length.
fn position(entries: &Vec<(String, ConfigValue)>, key: &String) -> (at: usize)
    ensures
        at <= entries.len(),
        forall|j: int| 0 <= j < at ==> entries[j].0@ != key@,
        at < entries.len() ==> entries[at as int].0@ == key@,
{
    let mut i: usize = 0;
    while i < entries.len() && !(entries[i].0 == *key)
        invariant
            i <= entries.len(),
            forall|j: int| 0 <= j < i ==> entries[j].0@ != key@,
        decreases entries.len() - i,
    {
        i += 1;
    }
    i
}

impl SchemaConfig {
    /// No key stands twice.
    #[verifier::type_invariant]
    spec fn distinct_keys(self) -> bool {
        forall|i: int, j: int|
            0 <= i < j < self.entries.len() ==> self.entries[i].0@ != self.entries[j].0@
    }

    spec fn holds(self, key: Seq<char>) -> bool {
        exists|i: int| 0 <= i < self.entries.len() && self.entries[i].0@ == key
    }

    spec fn slot(self, key: Seq<char>) -> int {
        choose|i: int| 0 <= i < self.entries.len() && self.entries[i].0@ == key
    }

    /// Where a key stands, there and nowhere else is its slot.
    proof fn lemma_slot(self, key: Seq<char>, i: int)
        requires
            self.distinct_keys(),
            0 <= i < self.entries.len(),
            self.entries[i].0@ == key,
        ensures
            self.holds(key),
            self.slot(key) == i,
            self@.contains_key(key),
            self@[key] == self.entries[i].1,
    {
        let s = self.slot(key);
        assert(0 <= s < self.entries.len() && self.entries[s].0@ == key);
        if s < i {
            assert(self.entries[s].0@ != self.entries[i].0@);
        } else if i < s {
            assert(self.entries[i].0@ != self.entries[s].0@);
        }
    }

    /// The configuration without entries.
    pub fn new() -> (config: Self)
        ensures
            config@ == Map::<Seq<char>, ConfigValue>::empty(),
    {
        let config = SchemaConfig { entries: Vec::new() };
        assert(config@ =~= Map::<Seq<char>, ConfigValue>::empty());
        config
    }

    /// The value under `key`, if the configuration has that key.
    pub fn get(&self, key: &str) -> (found: Option<&ConfigValue>)
        ensures
            match found {
                Some(value) => self@.contains_key(key@) && self@[key@] == *value,
                None => !self@.contains_key(key@),
            },
    {
        proof {
            use_type_invariant(self);
        }
        let wanted = String::from_str(key);
        let at = position(&self.entries, &wanted);
        if at < self.entries.len() {
            proof {
                self.lemma_slot(key@, at as int);
            }
            Some(&self.entries[at].1)
        } else {
            None
        }
    }

    /// Writes `value` under `key`. A value that stood under that key is
    /// replaced; every other entry stays.
    pub fn insert(&mut self, key: String, value: ConfigValue)
        ensures
            final(self)@ == old(self)@.insert(key@, value),
    {
        let mut taken = SchemaConfig::new();
        core::mem::swap(self, &mut taken);
        proof {
            use_type_invariant(&taken);
        }
        let ghost before = taken;
        let ghost name = key@;
        let mut entries = taken.entries;
        let at = position(&entries, &key);
        if at < entries.len() {
            entries.set(at, (key, value));
        } else {
            entries.push((key, value));
        }
        let ghost after = SchemaConfig { entries };
        assert(after.distinct_keys()) by {
            assert forall|i: int| 0 <= i < before.entries.len() implies #[trigger] after.entries[i].0@
                == before.entries[i].0@ by {}
        }
        assert(after@ =~= before@.insert(name, value)) by {
            after.lemma_slot(name, at as int);
            assert forall|k: Seq<char>| k != name && before.holds(k) implies after@.contains_key(k)
                && after@[k] == before@[k] by {
                let s = before.slot(k);
                before.lemma_slot(k, s);
                after.lemma_slot(k, s);
            }
            assert forall|k: Seq<char>| k != name && after.holds(k) implies before.holds(k) by {
                let s = after.slot(k);
                assert(before.entries[s].0@ == k);
            }
        }
        *self = SchemaConfig { entries };
    }
}

impl ConfigValue {
    /// The configuration value that `ob` stands for, given what the
    /// interpreter said of it. `reading` is `None` where `ob` is no `str`,
    /// and else how reading its text ended. A text that was read is the
    /// value; in every other case `ob` itself is.
    pub fn from_reading(ob: Py<PyAny>, reading: Option<Result<String, PyErr>>) -> (value:
        ConfigValue)
        ensures
            value == Self::read_as(ob, reading),
    {
        match reading {
            Some(Ok(text)) => ConfigValue::Text(text),
            _ => ConfigValue::Object(ob),
        }
    }

    /// What `from_reading` returns.
    pub open spec fn read_as(ob: Py<PyAny>, reading: Option<Result<String, PyErr>>) -> ConfigValue {
        match reading {
            Some(Ok(text)) => ConfigValue::Text(text),
            _ => ConfigValue::Object(ob),
        }
    }
}

} // verus!
