//! Randomness used when sampling batches and actions.

use vstd::prelude::*;

verus! {

/// Relies on fastrand::usize: returns a uniformly random value below the
/// bound; panics only on an empty range, which the precondition excludes.
#[verifier::external_body]
pub(crate) fn random_index_below(n: usize) -> (r: usize)
    requires
        n >= 1,
    ensures
        r < n,
{
    fastrand::usize(..n)
}

} // verus!
