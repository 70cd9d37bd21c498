//! The ways in which a container can come by a value.
use crate::error::ContainerError;
use crate::key::TypeKey;
use pyo3::types::PyType;
use pyo3::{Py, PyAny, PyErr, Python};
use vstd::prelude::*;

verus! {

/// A strategy for producing the value of a registered type.
pub enum Provider {
    /// A value made beforehand; every resolution hands out this one object.
    Instance(Py<PyAny>),
    /// A class; every resolution calls it without arguments for a new object.
    Class(Py<PyType>),
    /// A callable; every resolution calls it without arguments for a new object.
    Factory(Py<PyAny>),
}

impl Clone for Provider {
    /// Another handle to the same instance, class or factory.
    fn clone(&self) -> (provider: Provider)
        ensures
            provider == *self,
    {
        match self {
            Provider::Instance(instance) => Provider::Instance(instance.clone()),
            Provider::Class(class) => Provider::Class(class.clone()),
            Provider::Factory(factory) => Provider::Factory(factory.clone()),
        }
    }
}

impl Provider {
    /// Whether `result` is something the provider can produce for the type of
    /// the given identity.  An instance produces itself and nothing else.  Of
    /// a class or a factory only this is known beforehand: if it fails, it
    /// fails with `ConstructionFailed` for that identity.
    pub open spec fn yields(
        self,
        identity: usize,
        result: Result<Py<PyAny>, ContainerError>,
    ) -> bool {
        match self {
            Provider::Instance(instance) => result == Ok::<Py<PyAny>, ContainerError>(instance),
            _ => (result matches Err(error) ==> error is ConstructionFailed
                && error.spec_identity() == identity),
        }
    }

    /// What a resolution returns once the class or factory has been called
    /// with the given outcome: the new object as it came, or the exception it
    /// raised, wrapped with the identity and the name of the type asked for.
    pub open spec fn construction_result(
        outcome: Result<Py<PyAny>, PyErr>,
        identity: usize,
        result: Result<Py<PyAny>, ContainerError>,
    ) -> bool {
        match outcome {
            Ok(value) => result == Ok::<Py<PyAny>, ContainerError>(value),
            Err(raised) => result matches Err(
                ContainerError::ConstructionFailed { identity: concerned, cause, .. },
            ) && concerned == identity && cause == raised,
        }
    }

    /// Produces the value for `type_key`.
    ///
    /// An instance is handed out as it is: the result is the stored object
    /// itself, not a copy.  A class or a factory is called once, without
    /// arguments; the call runs Python code, so of its outcome the contract
    /// says only that an exception arrives as `ConstructionFailed`, and
    /// [`Provider::constructed`] says what becomes of each outcome.
    pub fn provide(&self, py: Python<'_>, type_key: &TypeKey) -> (result: Result<
        Py<PyAny>,
        ContainerError,
    >)
        ensures
            self.yields(type_key@, result),
    {
        match self {
            Provider::Instance(instance) => Ok(instance.clone_ref(py)),
            Provider::Class(class) => Provider::constructed(class.call0(py), py, type_key),
            Provider::Factory(factory) => Provider::constructed(factory.call0(py), py, type_key),
        }
    }

    /// Turns the outcome of calling a class or factory into the result of the
    /// resolution of `type_key`.
    pub fn constructed(
        outcome: Result<Py<PyAny>, PyErr>,
        py: Python<'_>,
        type_key: &TypeKey,
    ) -> (result: Result<Py<PyAny>, ContainerError>)
        ensures
            Provider::construction_result(outcome, type_key@, result),
    {
        match outcome {
            Ok(value) => Ok(value),
            Err(raised) => Err(
                ContainerError::ConstructionFailed {
                    identity: type_key.identity(),
                    name: type_key.name(py),
                    cause: raised,
                },
            ),
        }
    }
}

} // verus!
