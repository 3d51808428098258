//! The adapter from a resolution backend to a pipeline stage.

use crate::resolve::Resolve;
use futures::{Async, Poll};
use vstd::prelude::*;

verus! {

/// `futures::Async`, the answer to a poll, made known to the verifier as the
/// `futures` crate defines it: an enum of `Ready` with a value and `NotReady`.
/// Nothing is assumed of it beyond that definition.
#[verifier::external_type_specification]
#[verifier::reject_recursive_types(T)]
pub struct ExAsync<T>(futures::Async<T>);

/// A pipeline stage that resolves addresses through the backend it owns.
///
/// The adapter is nothing but its backend: it keeps no cache, no table of
/// lookups under way and no counter.
pub struct Resolver<R>(R);

impl<R> View for Resolver<R> {
    type V = R;

    /// The backend this adapter owns.
    closed spec fn view(&self) -> R {
        self.0
    }
}

impl<R> Resolver<R> {
    /// Wraps `resolver` as it is, and owns it from then on. Nothing is asked
    /// of the backend and nothing of it is checked.
    pub fn new(resolver: R) -> (adapter: Self)
        ensures
            adapter@ == resolver,
    {
        Resolver(resolver)
    }

    /// Hands `target` to the backend's `lookup`, once and unchanged, and
    /// returns the pending lookup as the backend made it. The adapter neither
    /// waits for it nor looks at how it ends, so an address or an error reaches
    /// the caller as the backend gave it. Calls may follow each other at any
    /// pace; a lookup that is dropped takes nothing of the adapter with it.
    pub fn call<A>(&mut self, target: A) -> (pending: R::Future) where R: Resolve<A>
        ensures
            R::lookup_ensures(&old(self)@, target, &final(self)@, pending),
    {
        self.0.lookup(target)
    }

    /// Says whether a call can be taken now: always, without asking the
    /// backend. Admission control, where it is wanted, belongs to a stage
    /// around this one.
    pub fn poll_ready<A>(&mut self) -> (readiness: Poll<(), R::Error>) where R: Resolve<A>
        ensures
            readiness == Ok::<Async<()>, R::Error>(Async::Ready(())),
            *final(self) == *old(self),
    {
        Ok(Async::Ready(()))
    }
}

/// The adapter has no state of its own: two adapters that own the same backend
/// are the same adapter.
pub proof fn lemma_adapter_is_its_backend<R>(one: Resolver<R>, other: Resolver<R>)
    requires
        one@ == other@,
    ensures
        one == other,
{
}

/// Pass-through. Let `call(target)` have taken the adapter from `before` to
/// `after` and returned `pending`. If the backend, as the adapter held it,
/// ends every lookup for `target` with `outcome`, an address or an error (in
/// whatever sense `ends_with` gives to "this lookup ends with that outcome"),
/// then `pending` ends with `outcome`: the adapter changes how the backend is
/// called, never what comes of it.
pub proof fn lemma_call_ends_as_lookup_does<A, R: Resolve<A>, T>(
    before: Resolver<R>,
    target: A,
    after: Resolver<R>,
    pending: R::Future,
    outcome: Result<T, R::Error>,
    ends_with: spec_fn(R::Future, Result<T, R::Error>) -> bool,
)
    requires
        R::lookup_ensures(&before@, target, &after@, pending),
        forall|next: R, handed: R::Future| #[trigger]
            R::lookup_ensures(&before@, target, &next, handed) ==> ends_with(handed, outcome),
    ensures
        ends_with(pending, outcome),
{
}

/// Error fidelity. Let `call(target)` have taken the adapter from `before` to
/// `after` and returned `pending`. If the backend, as the adapter held it,
/// fails every lookup for `target` with `error` (in whatever sense
/// `fails_with` gives to "this lookup fails with that error"), then `pending`
/// fails with `error`: the same value, not a wrapping of it.
pub proof fn lemma_error_fidelity<A, R: Resolve<A>>(
    before: Resolver<R>,
    target: A,
    after: Resolver<R>,
    pending: R::Future,
    error: R::Error,
    fails_with: spec_fn(R::Future, R::Error) -> bool,
)
    requires
        R::lookup_ensures(&before@, target, &after@, pending),
        forall|next: R, handed: R::Future| #[trigger]
            R::lookup_ensures(&before@, target, &next, handed) ==> fails_with(handed, error),
    ensures
        fails_with(pending, error),
{
}

/// Independence of overlapping calls. Let two calls follow each other on one
/// adapter, the second made while the first lookup is still under way:
/// `call(first_target)` took the adapter from `start` to `between` and
/// returned `first_pending`, `call(second_target)` took it from `between` to
/// `end` and returned `second_pending`. If every lookup of the backend
/// answers for its own target (in whatever sense `answers` gives to that),
/// then each of the two pending lookups answers for the target of its own
/// call, whichever of them ends first.
pub proof fn lemma_overlapping_calls_are_independent<A, R: Resolve<A>>(
    start: Resolver<R>,
    first_target: A,
    between: Resolver<R>,
    first_pending: R::Future,
    second_target: A,
    end: Resolver<R>,
    second_pending: R::Future,
    answers: spec_fn(A, R::Future) -> bool,
)
    requires
        R::lookup_ensures(&start@, first_target, &between@, first_pending),
        R::lookup_ensures(&between@, second_target, &end@, second_pending),
        forall|before: R, target: A, after: R, pending: R::Future| #[trigger]
            R::lookup_ensures(&before, target, &after, pending) ==> answers(target, pending),
    ensures
        answers(first_target, first_pending),
        answers(second_target, second_pending),
{
}

} // verus!
