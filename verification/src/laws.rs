//! What holds of every container, proved over its model.
//!
//! The contracts of [`crate::RustContainer`] say what each call does to the
//! model and what it may return; the lemmas here say what follows for calls
//! taken together.
use crate::container::{registration_outcome, resolution_outcome};
use crate::error::ContainerError;
use crate::key::TypeKey;
use crate::provider::Provider;
use crate::state::{identities, ContainerState, Registration};
use pyo3::{Py, PyAny};
use vstd::prelude::*;

verus! {

/// The empty container is well formed.
pub proof fn lemma_empty_is_well_formed()
    ensures
        ContainerState::empty().wf(),
{
}

/// Registration keeps a container well formed, whether the offer is stored or
/// turned away.
pub proof fn lemma_registration_keeps_well_formed(
    state: ContainerState,
    key: TypeKey,
    provider: Provider,
)
    requires
        state.wf(),
    ensures
        state.register(key, provider).wf(),
{
}

/// An accepted registration stores the key it was made with, and so the type
/// object that the key holds; no later offer replaces or removes what is
/// stored for a registered identity.
pub proof fn lemma_registration_is_kept(
    state: ContainerState,
    key: TypeKey,
    provider: Provider,
    later_key: TypeKey,
    later: Provider,
)
    ensures
        !state.registered(key@) ==> state.register(key, provider).registrations[key@]
            == (Registration { key, provider }),
        state.registered(key@) ==> state.register(later_key, later).registered(key@)
            && state.register(later_key, later).registrations[key@] == state.registrations[key@],
{
}

/// Registering one identity twice fails the second time with
/// `DuplicateRegistration`, whatever the kinds of the two providers, and the
/// second offer changes nothing: every identity resolves afterwards as it did
/// after the first.
pub proof fn lemma_second_registration_is_rejected(
    state: ContainerState,
    first_key: TypeKey,
    first: Provider,
    second_key: TypeKey,
    second: Provider,
    result: Result<(), ContainerError>,
)
    requires
        second_key@ == first_key@,
        registration_outcome(state.register(first_key, first), second_key@, result),
    ensures
        result matches Err(error) && error is DuplicateRegistration && error.spec_identity()
            == first_key@,
        state.register(first_key, first).register(second_key, second) == state.register(
            first_key,
            first,
        ),
        forall|other: usize|
            state.register(first_key, first).register(second_key, second).resolution(other)
                == state.register(first_key, first).resolution(other),
{
}

/// Resolving an identity that has no provider fails with
/// `DependencyNotRegistered`, in a container that holds providers for other
/// identities as in one that holds none.
pub proof fn lemma_unregistered_is_not_resolved(
    state: ContainerState,
    identity: usize,
    result: Result<Py<PyAny>, ContainerError>,
)
    requires
        state.wf(),
        !state.registered(identity),
        resolution_outcome(state.resolution(identity), identity, result),
    ensures
        result matches Err(error) && error is DependencyNotRegistered && error.spec_identity()
            == identity,
{
}

/// In the empty container no identity is registered, so none is resolved.
pub proof fn lemma_empty_resolves_nothing(
    identity: usize,
    result: Result<Py<PyAny>, ContainerError>,
)
    requires
        resolution_outcome(ContainerState::empty().resolution(identity), identity, result),
    ensures
        !ContainerState::empty().registered(identity),
        ContainerState::empty().count() == 0,
        result matches Err(error) && error is DependencyNotRegistered,
{
}

/// An identity registered for the first time resolves by the provider it was
/// registered with; no cached value stands in for it.
pub proof fn lemma_first_registration_decides_resolution(
    state: ContainerState,
    key: TypeKey,
    provider: Provider,
)
    requires
        state.wf(),
        !state.registered(key@),
    ensures
        state.register(key, provider).resolution(key@) == Some(provider),
{
}

/// An identity registered with an instance resolves to that very instance,
/// however often it is resolved: any two resolutions return the same object.
pub proof fn lemma_instance_is_shared(
    state: ContainerState,
    key: TypeKey,
    instance: Py<PyAny>,
    once: Result<Py<PyAny>, ContainerError>,
    again: Result<Py<PyAny>, ContainerError>,
)
    requires
        state.wf(),
        !state.registered(key@),
        resolution_outcome(
            state.register(key, Provider::Instance(instance)).resolution(key@),
            key@,
            once,
        ),
        resolution_outcome(
            state.register(key, Provider::Instance(instance)).resolution(key@),
            key@,
            again,
        ),
    ensures
        once == Ok::<Py<PyAny>, ContainerError>(instance),
        again == once,
{
}

/// A registration leaves the resolution of every other identity as it was,
/// and that of its own identity too if the identity was registered already.
pub proof fn lemma_registration_keeps_resolutions(
    state: ContainerState,
    key: TypeKey,
    provider: Provider,
    other: usize,
)
    requires
        state.wf(),
        other != key@ || state.registered(key@),
    ensures
        state.register(key, provider).resolution(other) == state.resolution(other),
{
}

/// After any sequence of offers the registered identities are those that were
/// registered before together with those that the offers name, and the cache
/// is as it was.
pub proof fn lemma_registered_identities(state: ContainerState, offers: Seq<(TypeKey, Provider)>)
    requires
        state.wf(),
    ensures
        state.register_all(offers).wf(),
        state.register_all(offers).registrations.dom() == state.registrations.dom().union(
            identities(offers).to_set(),
        ),
        state.register_all(offers).singletons == state.singletons,
    decreases offers.len(),
{
    if offers.len() > 0 {
        let earlier = offers.drop_last();
        lemma_registered_identities(state, earlier);
        assert(identities(offers) =~= identities(earlier).push(offers.last().0@));
        identities(earlier).lemma_push_to_set_commute(offers.last().0@);
    }
}

/// A container built from the empty one by offers alone holds as many
/// providers as the offers name distinct identities; it is empty exactly when
/// no offer was made; and it caches nothing, so that every registered
/// identity resolves by its provider.
pub proof fn lemma_count_is_number_of_distinct_identities(offers: Seq<(TypeKey, Provider)>)
    ensures
        ContainerState::empty().register_all(offers).count() == identities(offers).to_set().len(),
        ContainerState::empty().register_all(offers).count() <= offers.len(),
        ContainerState::empty().register_all(offers).count() == 0 <==> offers.len() == 0,
        forall|identity: usize|
            ContainerState::empty().register_all(offers).resolution(identity) == (if identities(
                offers,
            ).contains(identity) {
                Some(ContainerState::empty().register_all(offers).registrations[identity].provider)
            } else {
                None
            }),
{
    let built = ContainerState::empty().register_all(offers);
    lemma_registered_identities(ContainerState::empty(), offers);
    assert(built.registrations.dom() =~= identities(offers).to_set());
    identities(offers).lemma_cardinality_of_set();
    identities(offers).lemma_cardinality_of_empty_set_is_0();
}

/// Offers that name pairwise different identities are all accepted, in
/// whatever order they are made, and the container then holds one provider
/// for each.
pub proof fn lemma_distinct_registrations_all_succeed(
    offers: Seq<(TypeKey, Provider)>,
    made: int,
    result: Result<(), ContainerError>,
)
    requires
        identities(offers).no_duplicates(),
        0 <= made < offers.len(),
        registration_outcome(
            ContainerState::empty().register_all(offers.take(made)),
            offers[made].0@,
            result,
        ),
    ensures
        result is Ok,
        ContainerState::empty().register_all(offers).count() == offers.len(),
{
    lemma_count_is_number_of_distinct_identities(offers);
    identities(offers).unique_seq_to_set();
    let before = offers.take(made);
    lemma_registered_identities(ContainerState::empty(), before);
    if identities(before).to_set().contains(offers[made].0@) {
        let at = choose|at: int|
            0 <= at < identities(before).len() && identities(before)[at] == offers[made].0@;
        assert(identities(offers)[at] == identities(offers)[made]);
    }
}

} // verus!
