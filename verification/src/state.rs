//! The mathematical model of a container: what it holds, and what
//! registration and resolution mean on that.
use crate::key::TypeKey;
use crate::provider::Provider;
use pyo3::{Py, PyAny};
use vstd::prelude::*;

verus! {

/// What the registry holds for one identity: the key it was registered
/// under, which keeps the type object alive, and the provider.
pub struct Registration {
    pub key: TypeKey,
    pub provider: Provider,
}

/// What a container holds, as two maps keyed by type identity.
#[verifier::ext_equal]
pub struct ContainerState {
    /// The registry: the registration of every registered identity.
    pub registrations: Map<usize, Registration>,
    /// The singleton cache: the values kept for later resolutions.
    pub singletons: Map<usize, Py<PyAny>>,
}

impl ContainerState {
    /// The container that holds nothing.
    pub open spec fn empty() -> ContainerState {
        ContainerState { registrations: Map::empty(), singletons: Map::empty() }
    }

    /// Both maps are finite, every registration stands under the identity of
    /// its own key, and a value is cached only for an identity that has a
    /// provider.
    pub open spec fn wf(self) -> bool {
        &&& self.registrations.dom().finite()
        &&& self.singletons.dom().finite()
        &&& self.singletons.dom().subset_of(self.registrations.dom())
        &&& forall|identity: usize| #[trigger]
            self.registrations.contains_key(identity) ==> self.registrations[identity].key@
                == identity
    }

    /// Whether `identity` has a provider.
    pub open spec fn registered(self, identity: usize) -> bool {
        self.registrations.contains_key(identity)
    }

    /// The number of registered identities.
    pub open spec fn count(self) -> nat {
        self.registrations.dom().len()
    }

    /// The container after `provider` was offered for `key`: the key and the
    /// provider are stored if the identity of the key had no provider, and
    /// the offer changes nothing otherwise.
    pub open spec fn register(self, key: TypeKey, provider: Provider) -> ContainerState {
        if self.registered(key@) {
            self
        } else {
            ContainerState {
                registrations: self.registrations.insert(key@, Registration { key, provider }),
                singletons: self.singletons,
            }
        }
    }

    /// The container after the offers were made one after the other, each as
    /// in [`ContainerState::register`].
    pub open spec fn register_all(self, offers: Seq<(TypeKey, Provider)>) -> ContainerState
        decreases offers.len(),
    {
        if offers.len() == 0 {
            self
        } else {
            self.register_all(offers.drop_last()).register(offers.last().0, offers.last().1)
        }
    }

    /// What a resolution of `identity` goes by: a cached value, which is handed
    /// out like an instance; else the registered provider; else nothing.
    pub open spec fn resolution(self, identity: usize) -> Option<Provider> {
        if self.singletons.contains_key(identity) {
            Some(Provider::Instance(self.singletons[identity]))
        } else if self.registrations.contains_key(identity) {
            Some(self.registrations[identity].provider)
        } else {
            None
        }
    }
}

/// The identities that a sequence of offers names, in the order of the offers.
pub open spec fn identities(offers: Seq<(TypeKey, Provider)>) -> Seq<usize> {
    offers.map_values(|offer: (TypeKey, Provider)| offer.0@)
}

} // verus!
