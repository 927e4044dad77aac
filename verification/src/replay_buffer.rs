//! A generic implementation of a replay buffer.
//!
//! The buffer is a bounded ring: it keeps at most `capacity` items, and once
//! full each push evicts the oldest resident item. It is owned and mutated by
//! the learner thread alone.

pub mod config;
pub mod step_proc;
pub mod subbatch;

pub use config::SimpleReplayBufferConfig;
pub use step_proc::{SimpleStepProcessor, SimpleStepProcessorConfig};
pub use subbatch::SubBatch;

use crate::base::replay_buffer::{ExperienceBufferBase, ReplayBufferBase};
use crate::errors::CoreError;
use crate::random::random_index_below;
use vstd::prelude::*;

verus! {

/// What one push leaves resident: with room to spare the item is appended;
/// once the buffer is full the oldest item is dropped to make room. A buffer
/// of capacity zero can hold nothing.
pub open spec fn ring_push<T>(resident: Seq<T>, item: T, capacity: nat) -> Seq<T> {
    if capacity == 0 {
        Seq::empty()
    } else if resident.len() < capacity {
        resident.push(item)
    } else {
        resident.skip(resident.len() - (capacity - 1)).push(item)
    }
}

/// What a sequence of pushes into an initially empty ring leaves resident.
pub open spec fn ring_fold<T>(pushed: Seq<T>, capacity: nat) -> Seq<T>
    decreases pushed.len(),
{
    if pushed.len() == 0 {
        Seq::empty()
    } else {
        ring_push(ring_fold(pushed.drop_last(), capacity), pushed.last(), capacity)
    }
}

/// A bounded-capacity experience container with ring eviction.
pub struct SimpleReplayBuffer<T> {
    items: Vec<T>,
    capacity: usize,
}

impl<T> SimpleReplayBuffer<T> {
    /// The resident items, oldest first.
    pub closed spec fn view(&self) -> Seq<T> {
        self.items@
    }

    /// The fixed bound on how many items stay resident.
    pub closed spec fn cap(&self) -> nat {
        self.capacity as nat
    }

    /// Creates an empty buffer with the given capacity. A capacity below one
    /// is raised to one, since a buffer that can hold nothing cannot feed a
    /// learner.
    pub fn with_capacity(capacity: usize) -> (r: SimpleReplayBuffer<T>)
        ensures
            r@ =~= Seq::<T>::empty(),
            r.cap() == if capacity == 0 { 1nat } else { capacity as nat },
    {
        let cap: usize = if capacity == 0 { 1 } else { capacity };
        SimpleReplayBuffer { items: Vec::new(), capacity: cap }
    }

    /// The resident item at the given position, oldest first.
    pub fn get(&self, i: usize) -> (r: &T)
        requires
            i < self@.len(),
        ensures
            *r == self@[i as int],
    {
        &self.items[i]
    }
}

impl<T> ExperienceBufferBase for SimpleReplayBuffer<T> {
    type Item = T;

    closed spec fn spec_len(&self) -> nat {
        self.items@.len()
    }

    closed spec fn spec_capacity(&self) -> nat {
        self.capacity as nat
    }

    /// Pushes one item, evicting the oldest resident item if the buffer is
    /// already full. Never fails.
    fn push(&mut self, tr: T) -> (r: Result<(), CoreError>)
        ensures
            r is Ok,
            final(self)@ == ring_push(old(self)@, tr, old(self).cap()),
            final(self).cap() == old(self).cap(),
    {
        while self.items.len() >= self.capacity && self.items.len() >= 1
            invariant
                self.capacity == old(self).capacity,
                self.items@.len() <= old(self).items@.len(),
                self.items@ =~= old(self).items@.skip(
                    old(self).items@.len() - self.items@.len(),
                ),
                old(self).items@.len() < self.capacity ==> self.items@.len() == old(
                    self,
                ).items@.len(),
                old(self).items@.len() >= self.capacity ==> self.items@.len() + 1
                    >= self.capacity,
            decreases self.items.len(),
        {
            self.items.remove(0);
            proof {
                assert(self.items@ =~= old(self).items@.skip(
                    old(self).items@.len() - self.items@.len(),
                ));
            }
        }
        if self.items.len() < self.capacity {
            proof {
                if old(self).items@.len() < old(self).cap() {
                    assert(self.items@ =~= old(self).items@);
                }
                assert(self.items@.push(tr) =~= ring_push(old(self)@, tr, old(self).cap()));
            }
            self.items.push(tr);
        } else {
            proof {
                assert(self.items@ =~= ring_push(old(self)@, tr, old(self).cap()));
            }
        }
        Ok(())
    }

    fn len(&self) -> (n: usize)
        ensures
            n == self.spec_len(),
    {
        self.items.len()
    }

    fn capacity(&self) -> (n: usize)
        ensures
            n == self.spec_capacity(),
    {
        self.capacity
    }
}

impl<T: Clone> ReplayBufferBase for SimpleReplayBuffer<T> {
    type Config = SimpleReplayBufferConfig;

    type Batch = Vec<T>;

    /// Builds an empty buffer with the configured capacity (a configured
    /// capacity of zero is raised to one).
    fn build(config: &Self::Config) -> (r: Self)
        ensures
            r@ =~= Seq::<T>::empty(),
            r.cap() == if config.capacity_of() == 0 {
                1nat
            } else {
                config.capacity_of()
            },
    {
        SimpleReplayBuffer::with_capacity(config.get_capacity())
    }

    /// Samples a batch of the given size uniformly with replacement, leaving
    /// the buffer as it was. Fails exactly when the buffer is empty.
    fn batch(&mut self, size: usize) -> (r: Result<Self::Batch, CoreError>)
        ensures
            final(self)@ == old(self)@,
            final(self).cap() == old(self).cap(),
            r is Ok <==> old(self)@.len() >= 1,
            r matches Ok(b) ==> b@.len() == size,
            r matches Err(e) ==> e == CoreError::Buffer,
    {
        if self.items.len() == 0 {
            return Err(CoreError::Buffer);
        }
        let mut out: Vec<T> = Vec::new();
        let mut i: usize = 0;
        while i < size
            invariant
                i <= size,
                out@.len() == i,
                self.items@.len() >= 1,
                self@ == old(self)@,
                self.cap() == old(self).cap(),
            decreases size - i,
        {
            let ix = random_index_below(self.items.len());
            out.push(self.items[ix].clone());
            i = i + 1;
        }
        Ok(out)
    }
}

/// Capacity bound and eviction order of the ring. Pushing any run of items
/// into an initially empty buffer leaves exactly the last `capacity` of them
/// resident, oldest first: once `capacity + k` items have been pushed
/// (`k > 0`), exactly `capacity` remain and the first `k` have been evicted.
pub proof fn lemma_ring_retention<T>(pushed: Seq<T>, capacity: nat)
    requires
        capacity >= 1,
    ensures
        ring_fold(pushed, capacity).len() == if pushed.len() <= capacity {
            pushed.len()
        } else {
            capacity
        },
        pushed.len() <= capacity ==> ring_fold(pushed, capacity) =~= pushed,
        pushed.len() > capacity ==> ring_fold(pushed, capacity) =~= pushed.skip(
            pushed.len() - capacity,
        ),
    decreases pushed.len(),
{
    if pushed.len() == 0 {
    } else {
        lemma_ring_retention(pushed.drop_last(), capacity);
        let prior = ring_fold(pushed.drop_last(), capacity);
        if pushed.len() <= capacity {
            assert(prior.push(pushed.last()) =~= pushed);
        } else {
            assert(prior.skip(prior.len() - (capacity - 1)).push(pushed.last()) =~= pushed.skip(
                pushed.len() - capacity,
            ));
        }
    }
}

} // verus!
