//! The contract between the adapter and a resolution backend.

use vstd::prelude::*;

verus! {

/// A backend that resolves a `Target` to one network address.
///
/// What a target means is the backend's business: a host name to look up, or
/// an address that needs no lookup at all. So are caching, retries and what
/// goes over the network.
pub trait Resolve<Target> {
    /// Why a lookup failed, in the backend's own terms.
    type Error: 'static;

    /// A lookup under way: the computation that ends with exactly one address
    /// or with an `Error`. This crate hands it on and never runs it, so it
    /// asks of it only what handing on needs: the value can move to another
    /// thread and borrows nothing.
    type Future: Send + 'static;

    /// What this backend promises of one lookup: started for `target` on the
    /// backend as it was `before`, it may leave the backend as it is `after`
    /// and hand out `pending`.
    ///
    /// A backend that promises nothing keeps this default. A verified backend
    /// states here what its lookups do, and everything stated carries over to
    /// calls made through [`crate::Resolver`].
    open spec fn lookup_ensures(
        before: &Self,
        target: Target,
        after: &Self,
        pending: Self::Future,
    ) -> bool {
        true
    }

    /// Starts resolving `target` and returns the pending lookup. Never waits
    /// for the answer.
    fn lookup(&mut self, target: Target) -> (pending: Self::Future)
        ensures
            Self::lookup_ensures(old(self), target, final(self), pending),
    ;
}

} // verus!
