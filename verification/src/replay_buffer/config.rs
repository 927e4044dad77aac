//! Configuration of [`SimpleReplayBuffer`](super::SimpleReplayBuffer).

use vstd::prelude::*;

verus! {

/// Configuration of [`SimpleReplayBuffer`](super::SimpleReplayBuffer).
#[derive(Clone, Copy, Debug, PartialEq, Eq, Structural)]
pub struct SimpleReplayBufferConfig {
    capacity: usize,
    seed: u64,
}

impl SimpleReplayBufferConfig {
    /// The configured capacity.
    pub closed spec fn capacity_of(&self) -> nat {
        self.capacity as nat
    }

    /// The configured sampling seed.
    pub closed spec fn seed_of(&self) -> nat {
        self.seed as nat
    }

    /// Sets the capacity of the replay buffer.
    pub fn capacity(self, capacity: usize) -> (r: Self)
        ensures
            r.capacity_of() == capacity as nat,
            r.seed_of() == self.seed_of(),
    {
        let mut config = self;
        config.capacity = capacity;
        config
    }

    /// Reads the configured capacity back.
    pub fn get_capacity(&self) -> (r: usize)
        ensures
            r as nat == self.capacity_of(),
    {
        self.capacity
    }
}

impl Default for SimpleReplayBufferConfig {
    /// Ten thousand resident items and a fixed sampling seed.
    fn default() -> (r: Self)
        ensures
            r.capacity_of() == 10000nat,
            r.seed_of() == 42nat,
    {
        SimpleReplayBufferConfig { capacity: 10000, seed: 42 }
    }
}

} // verus!
