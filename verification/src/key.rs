//! The key under which a provider is registered: the identity of a Python type.
use crate::trusted::{address_of, object_address, qualified_name};
use pyo3::types::PyType;
use pyo3::{Py, PyErr, Python};
use std::hash::{Hash, Hasher};
use vstd::prelude::*;
use vstd::std_specs::cmp::PartialEqSpecImpl;
use vstd::string::*;

verus! {

/// The identity of a Python type object.
///
/// A key holds a handle to the type object and so keeps it alive.  Two keys
/// are equal exactly when they hold the same type object, whatever the types
/// are called.  The view of a key is the address of its type object: the
/// number that registries go by.
#[derive(Debug)]
pub struct TypeKey {
    py_type: Py<PyType>,
}

impl View for TypeKey {
    type V = usize;

    closed spec fn view(&self) -> usize {
        address_of(self.py_type)
    }
}

impl TypeKey {
    /// The type object that the key holds.
    pub closed spec fn type_object(&self) -> Py<PyType> {
        self.py_type
    }

    /// The key of `py_type`: it holds that type object, and its identity is
    /// the address of that object.
    pub fn new(py_type: Py<PyType>) -> (key: TypeKey)
        ensures
            key.type_object() == py_type,
            key@ == address_of(py_type),
    {
        TypeKey { py_type }
    }

    /// The identity that the key stands for: the address of its type object.
    /// No key of another type object has this identity.
    pub fn identity(&self) -> (identity: usize)
        ensures
            identity == self@,
            forall|other: TypeKey|
                #[trigger] other@ == identity ==> other.type_object() == self.type_object(),
    {
        object_address(&self.py_type)
    }

    /// The name that the type goes by in messages: its qualified name, or
    /// `<unknown>` where the interpreter cannot tell it.
    pub fn name(&self, py: Python<'_>) -> (name: String) {
        TypeKey::name_or_unknown(qualified_name(&self.py_type, py))
    }

    /// The name to show for a type, given the outcome of asking the
    /// interpreter for it.
    pub fn name_or_unknown(lookup: Result<String, PyErr>) -> (name: String)
        ensures
            match lookup {
                Ok(found) => name@ == found@,
                Err(_) => name@ == "<unknown>"@,
            },
    {
        match lookup {
            Ok(found) => found,
            Err(_) => String::from_str("<unknown>"),
        }
    }
}

/// The identity of a key is the address of the type object it holds, so keys
/// of one type object have one identity.
pub proof fn lemma_identity_is_address(key: TypeKey, other: TypeKey)
    ensures
        key@ == address_of(key.type_object()),
        key.type_object() == other.type_object() ==> key@ == other@ && key == other,
{
}

impl Clone for TypeKey {
    /// Another key of the same type object.
    fn clone(&self) -> (key: TypeKey)
        ensures
            key == *self,
    {
        TypeKey { py_type: self.py_type.clone() }
    }
}

impl PartialEq for TypeKey {
    fn eq(&self, other: &TypeKey) -> (same: bool) {
        self.identity() == other.identity()
    }
}

impl PartialEqSpecImpl for TypeKey {
    open spec fn obeys_eq_spec() -> bool {
        true
    }

    /// Keys are equal exactly when they hold the same type object.
    open spec fn eq_spec(&self, other: &TypeKey) -> bool {
        self.type_object() == other.type_object()
    }
}

impl Eq for TypeKey {

}

impl Hash for TypeKey {
    fn hash<H: Hasher>(&self, state: &mut H) {
        let identity = self.identity();
        identity.hash(state)
    }
}

} // verus!
