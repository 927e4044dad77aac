//! Messages exchanged between actors and the learner.

use crate::ActorId;
use vstd::prelude::*;

verus! {

/// Envelope carrying one flushed batch of transition items from the actor
/// that produced it to the learner. Once sent, the actor relinquishes the
/// payload; the learner drains it into the replay buffer exactly once.
pub struct PushedItemMessage<T> {
    /// The actor that produced the payload.
    pub id: ActorId,
    /// The experience carried by this message.
    pub payload: T,
}

/// An immutable, versioned copy of trainable parameters published by the
/// learner for actors to adopt. The learner retains its live parameters; the
/// snapshot is an independent copy.
pub struct ModelSnapshot<M> {
    /// The optimization-step counter at the time of extraction.
    pub version: usize,
    /// The copied parameters, opaque to the core.
    pub data: M,
}

} // verus!
