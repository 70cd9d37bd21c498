//! The container: a registry of providers and the resolver that runs them.
use crate::error::ContainerError;
use crate::key::TypeKey;
use crate::provider::Provider;
use crate::state::{ContainerState, Registration};
use pyo3::types::PyType;
use pyo3::{Py, PyAny, Python};
use std::collections::HashMap;
use vstd::prelude::*;
use vstd::std_specs::hash::*;

verus! {

/// A registry of providers, keyed by type identity, with the cache of values
/// kept for later resolutions.
///
/// An identity is registered at most once and its provider is never replaced
/// or removed.  The registry keeps the key of every registration, and with it
/// the type object, so that an identity stands for one type as long as the
/// container lives.  Nothing stores into the cache: a class or a factory
/// builds a new value at every resolution.
pub struct RustContainer {
    registrations: HashMap<usize, Registration>,
    singletons: HashMap<usize, Py<PyAny>>,
}

impl View for RustContainer {
    type V = ContainerState;

    closed spec fn view(&self) -> ContainerState {
        ContainerState { registrations: self.registrations@, singletons: self.singletons@ }
    }
}

/// What an offer for `identity` returns on a container that was in the state
/// `before`: it succeeds exactly when the identity had no provider, and fails
/// with `DuplicateRegistration` for that identity when it had one.
pub open spec fn registration_outcome(
    before: ContainerState,
    identity: usize,
    result: Result<(), ContainerError>,
) -> bool {
    match result {
        Ok(_) => !before.registered(identity),
        Err(error) => before.registered(identity) && error is DuplicateRegistration
            && error.spec_identity() == identity,
    }
}

/// What a resolution of `identity` returns, given what it goes by.  With
/// nothing to go by it fails with `DependencyNotRegistered` for that identity;
/// with a provider it returns what the provider yields.
pub open spec fn resolution_outcome(
    resolution: Option<Provider>,
    identity: usize,
    result: Result<Py<PyAny>, ContainerError>,
) -> bool {
    match resolution {
        None => result matches Err(error) && error is DependencyNotRegistered
            && error.spec_identity() == identity,
        Some(provider) => provider.yields(identity, result),
    }
}

impl RustContainer {
    #[verifier::type_invariant]
    spec fn well_formed(&self) -> bool {
        self@.wf()
    }

    /// A container with no provider and no cached value.
    pub fn new() -> (container: RustContainer)
        ensures
            container@ == ContainerState::empty(),
            container@.wf(),
    {
        broadcast use group_hash_axioms;

        RustContainer { registrations: HashMap::new(), singletons: HashMap::new() }
    }

    /// Offers `provider` for `type_key`.
    ///
    /// If the type has no provider yet, the key and the provider are stored:
    /// the registry then holds the type object that the key holds.  Otherwise
    /// the offer is turned away with `DuplicateRegistration` and the container
    /// stays as it was: a registration never replaces another.
    pub fn register(
        &mut self,
        py: Python<'_>,
        type_key: TypeKey,
        provider: Provider,
    ) -> (result: Result<(), ContainerError>)
        ensures
            old(self)@.wf(),
            final(self)@ == old(self)@.register(type_key, provider),
            final(self)@.wf(),
            registration_outcome(old(self)@, type_key@, result),
    {
        broadcast use group_hash_axioms;

        proof {
            use_type_invariant(&*self);
        }
        let identity = type_key.identity();
        if self.registrations.contains_key(&identity) {
            return Err(
                ContainerError::DuplicateRegistration { identity, name: type_key.name(py) },
            );
        }
        // The registry is taken out of `self` while it is changed, so that
        // `self` is well formed at every step.
        let mut held = RustContainer::new();
        std::mem::swap(self, &mut held);
        let RustContainer { mut registrations, singletons } = held;
        registrations.insert(identity, Registration { key: type_key, provider });
        *self = RustContainer { registrations, singletons };
        Ok(())
    }

    /// Registers `instance` as the value of `type_key`: every resolution of
    /// the type will hand out this one object.  Fails as [`RustContainer::register`]
    /// does.
    pub fn register_instance(
        &mut self,
        py: Python<'_>,
        type_key: TypeKey,
        instance: Py<PyAny>,
    ) -> (result: Result<(), ContainerError>)
        ensures
            old(self)@.wf(),
            final(self)@ == old(self)@.register(type_key, Provider::Instance(instance)),
            final(self)@.wf(),
            registration_outcome(old(self)@, type_key@, result),
    {
        self.register(py, type_key, Provider::Instance(instance))
    }

    /// Registers `class` as the class to instantiate for `type_key`: every
    /// resolution of the type will call it for a new object.  Fails as
    /// [`RustContainer::register`] does.
    pub fn register_class(
        &mut self,
        py: Python<'_>,
        type_key: TypeKey,
        class: Py<PyType>,
    ) -> (result: Result<(), ContainerError>)
        ensures
            old(self)@.wf(),
            final(self)@ == old(self)@.register(type_key, Provider::Class(class)),
            final(self)@.wf(),
            registration_outcome(old(self)@, type_key@, result),
    {
        self.register(py, type_key, Provider::Class(class))
    }

    /// Registers `factory` as the callable that makes the value of
    /// `type_key`: every resolution of the type will call it for a new object.
    /// Fails as [`RustContainer::register`] does.
    pub fn register_factory(
        &mut self,
        py: Python<'_>,
        type_key: TypeKey,
        factory: Py<PyAny>,
    ) -> (result: Result<(), ContainerError>)
        ensures
            old(self)@.wf(),
            final(self)@ == old(self)@.register(type_key, Provider::Factory(factory)),
            final(self)@.wf(),
            registration_outcome(old(self)@, type_key@, result),
    {
        self.register(py, type_key, Provider::Factory(factory))
    }

    /// Finds what a resolution of `type_key` goes by, without running it: a
    /// cached value, as an instance; else the registered provider; else the
    /// error `DependencyNotRegistered`.  A provider is found only under a key
    /// of the same type object.
    pub fn lookup(&self, py: Python<'_>, type_key: &TypeKey) -> (found: Result<
        Provider,
        ContainerError,
    >)
        ensures
            self@.wf(),
            match self@.resolution(type_key@) {
                Some(provider) => found == Ok::<Provider, ContainerError>(provider),
                None => found matches Err(error) && error is DependencyNotRegistered
                    && error.spec_identity() == type_key@,
            },
            self@.registered(type_key@) ==> self@.registrations[type_key@].key.type_object()
                == type_key.type_object(),
    {
        broadcast use group_hash_axioms;

        proof {
            use_type_invariant(self);
        }
        let identity = type_key.identity();
        match self.singletons.get(&identity) {
            Some(cached) => {
                return Ok(Provider::Instance(cached.clone_ref(py)));
            },
            None => {},
        }
        match self.registrations.get(&identity) {
            Some(registration) => Ok(registration.provider.clone()),
            None => Err(
                ContainerError::DependencyNotRegistered { identity, name: type_key.name(py) },
            ),
        }
    }

    /// Produces the value of `type_key`.
    ///
    /// A cached value is returned as it is.  Otherwise the provider of the
    /// type decides: an instance is returned as it is, the same object at
    /// every call; a class or a factory is called once, and what it builds is
    /// returned without being kept.  A type without a provider fails with
    /// `DependencyNotRegistered`, an exception raised by the class or factory
    /// with `ConstructionFailed`.  The container itself is left as it was.
    pub fn resolve(&self, py: Python<'_>, type_key: &TypeKey) -> (result: Result<
        Py<PyAny>,
        ContainerError,
    >)
        ensures
            self@.wf(),
            resolution_outcome(self@.resolution(type_key@), type_key@, result),
            !self@.registered(type_key@) ==> (result matches Err(error)
                && error is DependencyNotRegistered),
    {
        proof {
            use_type_invariant(self);
        }
        match self.lookup(py, type_key) {
            Ok(provider) => provider.provide(py, type_key),
            Err(error) => Err(error),
        }
    }

    /// Whether no identity is registered.
    pub fn is_empty(&self) -> (empty: bool)
        ensures
            self@.wf(),
            empty == (self@.count() == 0),
    {
        broadcast use group_hash_axioms;

        proof {
            use_type_invariant(self);
        }
        self.registrations.is_empty()
    }

    /// The number of registered identities.
    pub fn len(&self) -> (count: usize)
        ensures
            self@.wf(),
            count == self@.count(),
    {
        broadcast use group_hash_axioms;

        proof {
            use_type_invariant(self);
        }
        self.registrations.len()
    }
}

impl Default for RustContainer {
    /// The empty container, as [`RustContainer::new`] makes it.
    fn default() -> (container: RustContainer)
        ensures
            container@ == ContainerState::empty(),
            container@.wf(),
    {
        RustContainer::new()
    }
}

} // verus!
