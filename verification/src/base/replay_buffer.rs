//! Interface of buffers of experiences from environments.
//!
//! The replay buffer is owned and mutated by the learner thread alone; actors
//! never touch it. All experience reaches it through the channel, which is
//! the sole concurrency-safety mechanism between the producers and the single
//! consumer.

use crate::errors::CoreError;
use vstd::prelude::*;

verus! {

/// A buffer that experience items are pushed into.
///
/// A buffer has a fixed capacity and never reports more items than that.
/// While it is below capacity, a successful push grows it by at least one
/// item; this is what guarantees that the learner's warmup phase, which fills
/// the buffer up to a threshold no larger than the capacity, terminates.
pub trait ExperienceBufferBase {
    /// Items pushed into the buffer.
    type Item;

    /// How many items the buffer holds.
    spec fn spec_len(&self) -> nat;

    /// The fixed capacity of the buffer.
    spec fn spec_capacity(&self) -> nat;

    /// Pushes a transition into the buffer. A failed push is fatal to the
    /// learner and leaves the buffer as it was.
    fn push(&mut self, tr: Self::Item) -> (r: Result<(), CoreError>)
        ensures
            r is Err ==> final(self).spec_len() == old(self).spec_len(),
            r is Err ==> final(self).spec_capacity() == old(self).spec_capacity(),
            r is Ok ==> {
                &&& final(self).spec_capacity() == old(self).spec_capacity()
                &&& final(self).spec_len() <= final(self).spec_capacity()
                &&& old(self).spec_len() <= old(self).spec_capacity()
                    ==> final(self).spec_len() >= old(self).spec_len()
                &&& old(self).spec_len() < old(self).spec_capacity()
                    ==> final(self).spec_len() > old(self).spec_len()
            },
    ;

    /// The number of items in the buffer.
    fn len(&self) -> (n: usize)
        ensures
            n == self.spec_len(),
    ;

    /// The capacity of the buffer.
    fn capacity(&self) -> (n: usize)
        ensures
            n == self.spec_capacity(),
    ;
}

/// Interface of replay buffers: ones implementing this trait generate
/// batches, which are used to train agents.
pub trait ReplayBufferBase: Sized {
    /// Configuration of the replay buffer.
    type Config: Clone;

    /// Batch generated from the buffer.
    type Batch;

    /// Builds a replay buffer from its configuration.
    fn build(config: &Self::Config) -> Self;

    /// Constructs a batch of the given size.
    fn batch(&mut self, size: usize) -> Result<Self::Batch, CoreError>;
}

/// Configuration of [`NullReplayBuffer`]; it holds nothing.
#[derive(Clone, Copy, Debug)]
pub struct NullReplayBufferConfig {}

/// A dummy replay buffer, for wrapping a bare policy in an agent interface.
pub struct NullReplayBuffer;

impl ReplayBufferBase for NullReplayBuffer {
    type Config = NullReplayBufferConfig;

    type Batch = ();

    fn build(_config: &Self::Config) -> Self {
        NullReplayBuffer
    }

    fn batch(&mut self, _size: usize) -> Result<Self::Batch, CoreError> {
        Err(CoreError::Buffer)
    }
}

} // verus!
