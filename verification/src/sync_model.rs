//! The model-synchronization contract between the learner and the actors.
//!
//! The learner's parameters flow into each actor's local policy replica
//! through two narrow operations — snapshot extraction on the learner side
//! and snapshot application on the actor side — so that neither side needs to
//! know the other's concrete model representation.

use crate::base::{Agent, Env};
use vstd::prelude::*;

verus! {

/// A model whose parameters can be extracted as a versioned snapshot and
/// replaced from one.
pub trait SyncModel {
    /// The serialized form of the parameters carried by a snapshot.
    type ModelInfo;

    /// The version stamp the next extracted snapshot will carry.
    spec fn model_version(&self) -> nat;

    /// Extracts a snapshot: the current version stamp and an independent
    /// copy of the parameters. Read-only with respect to training state.
    fn model_info(&self) -> (r: (usize, Self::ModelInfo))
        ensures
            r.0 as nat == self.model_version(),
    ;

    /// Replaces (or blends into) this replica's parameters in place. Safe to
    /// call between environment steps.
    fn sync_model(&mut self, info: &Self::ModelInfo);
}

/// A trainable agent whose snapshot version stamp is its optimization-step
/// counter, which is what makes successively extracted snapshot versions
/// strictly increase while training proceeds. Implementations prove the law;
/// the learner relies on it when it publishes.
pub trait SyncLearner<E: Env, R>: Agent<E, R> + SyncModel {
    /// The version of every extracted snapshot equals the number of
    /// optimization steps performed so far.
    proof fn version_tracks_opts(&self)
        ensures
            self.model_version() == self.n_opts(),
    ;
}

} // verus!
