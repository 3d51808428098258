//! From the addresses a name resolves to, to the one address of a lookup.

use vstd::prelude::*;

verus! {

/// The one address that a lookup resolves to, given the addresses `found`
/// for the target in the order the answer lists them: the first. A lookup
/// that found none fails with `none_found`; it never succeeds without an
/// address.
///
/// That the first stands for all is the choice made here, not a preference
/// among addresses; a backend that prefers another picks it itself.
pub fn single_address<T: Copy, E>(found: &[T], none_found: E) -> (outcome: Result<T, E>)
    ensures
        found@.len() > 0 ==> outcome == Ok::<T, E>(found@[0]),
        found@.len() == 0 ==> outcome == Err::<T, E>(none_found),
{
    if found.len() > 0 {
        Ok(found[0])
    } else {
        Err(none_found)
    }
}

} // verus!
