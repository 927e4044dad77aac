//! One column of a composite batch.

use vstd::prelude::*;

verus! {

/// One column (observations, actions, ...) of a composite batch held in a
/// replay buffer.
pub trait SubBatch: Sized {
    /// Builds an empty column with room for `capacity` samples.
    fn new(capacity: usize) -> Self;

    /// Writes the samples of `data` at position `i`.
    fn push(&mut self, i: usize, data: &Self);

    /// Takes the samples at the given indices.
    fn sample(&self, ixs: &Vec<usize>) -> Self;
}

} // verus!
