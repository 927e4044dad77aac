//! The actor pool manager.
//!
//! Owns the configuration of a pool of actors, the shared termination flag,
//! and the channel endpoints feeding and draining the pool. The manager
//! builds the actors — one per identity, seeded with that identity — and
//! signals termination; spawning one thread per actor and joining them is
//! left to the embedding program, which loops each actor's [`Actor::step`]
//! until it yields [`ActorStatus::Stopped`].
//!
//! [`ActorStatus::Stopped`]: crate::actor::ActorStatus::Stopped

use crate::actor::Actor;
use crate::base::{Configurable, Env, Policy, StepProcessor};
use crate::errors::CoreError;
use crate::flag::StopFlag;
use crate::messages::{ModelSnapshot, PushedItemMessage};
use crate::sync_model::SyncModel;
use vstd::prelude::*;

verus! {

/// Configuration of an actor pool.
#[derive(Clone, Copy, Debug, PartialEq, Eq, Structural)]
pub struct ActorManagerConfig {
    /// The number of actors in the pool.
    pub n_actors: usize,
    /// Samples buffered in each actor before being flushed to the learner.
    pub samples_per_push: usize,
}

impl Default for ActorManagerConfig {
    /// A small pool: two actors, flushing every five samples.
    fn default() -> (r: Self)
        ensures
            r.n_actors == 2,
            r.samples_per_push == 5,
    {
        ActorManagerConfig { n_actors: 2, samples_per_push: 5 }
    }
}

/// Manages the lifecycle of a pool of actors.
pub struct ActorManager<A, E, P> where
    A: Configurable + Policy<E> + SyncModel,
    E: Env,
    P: StepProcessor<E>,
 {
    n_actors: usize,
    agent_configs: Vec<A::Config>,
    env_config: E::Config,
    step_proc_config: P::Config,
    samples_per_push: usize,
    sender: crossbeam_channel::Sender<PushedItemMessage<Vec<P::Output>>>,
    model_receiver: crossbeam_channel::Receiver<ModelSnapshot<A::ModelInfo>>,
    stop: StopFlag,
}

impl<A, E, P> ActorManager<A, E, P> where
    A: Configurable + Policy<E> + SyncModel,
    E: Env,
    P: StepProcessor<E>,
 {
    /// The size of the pool.
    pub closed spec fn pool_size(&self) -> nat {
        self.n_actors as nat
    }

    /// The flush threshold every actor of the pool is given.
    pub closed spec fn flush_threshold(&self) -> nat {
        self.samples_per_push as nat
    }

    /// What construction establishes: a pool of at least one actor, a flush
    /// threshold of at least one, and one agent configuration per actor or a
    /// single broadcast one.
    pub closed spec fn wf(&self) -> bool {
        &&& self.n_actors >= 1
        &&& self.samples_per_push >= 1
        &&& (self.agent_configs@.len() == 1 || self.agent_configs@.len() == self.n_actors)
    }

    /// Builds a manager.
    ///
    /// `agent_configs` supplies either one distinct configuration per actor
    /// (for per-actor exploration diversity) or a single configuration that
    /// is broadcast to the whole pool. Construction fails — before any thread
    /// starts — on an empty pool, a flush threshold of zero, or a
    /// configuration count that is neither one nor the pool size.
    pub fn build(
        config: &ActorManagerConfig,
        agent_configs: &Vec<A::Config>,
        env_config: &E::Config,
        step_proc_config: &P::Config,
        sender: crossbeam_channel::Sender<PushedItemMessage<Vec<P::Output>>>,
        model_receiver: crossbeam_channel::Receiver<ModelSnapshot<A::ModelInfo>>,
        stop: StopFlag,
    ) -> (r: Result<ActorManager<A, E, P>, CoreError>)
        ensures
            r is Ok <==> (config.n_actors >= 1 && config.samples_per_push >= 1 && (
            agent_configs@.len() == 1 || agent_configs@.len() == config.n_actors)),
            r matches Ok(m) ==> m.wf() && m.pool_size() == config.n_actors && m.flush_threshold()
                == config.samples_per_push,
    {
        if config.n_actors < 1 || config.samples_per_push < 1 {
            return Err(CoreError::Construction);
        }
        if agent_configs.len() != 1 && agent_configs.len() != config.n_actors {
            return Err(CoreError::Construction);
        }
        Ok(
            ActorManager {
                n_actors: config.n_actors,
                agent_configs: agent_configs.clone(),
                env_config: env_config.clone(),
                step_proc_config: step_proc_config.clone(),
                samples_per_push: config.samples_per_push,
                sender,
                model_receiver,
                stop,
            },
        )
    }

    /// Builds the pool: one actor per identity `0..n_actors`, each seeded
    /// with its identity, sharing the termination flag, and configured with
    /// its own agent configuration (or the broadcast one). The embedding
    /// program spawns one thread per returned actor; once it has done so,
    /// exactly `n_actors` workers are live and all observe the same flag.
    pub fn make_actors(&self) -> (r: Vec<Actor<A, E, P>>)
        requires
            self.wf(),
        ensures
            r@.len() == self.pool_size(),
            forall|i: int|
                0 <= i < r@.len() ==> {
                    &&& (#[trigger] r@[i]).wf()
                    &&& r@[i].actor_id() == i
                    &&& r@[i].threshold() == self.flush_threshold()
                    &&& r@[i].steps_taken() == 0
                    &&& r@[i].flush_count() == 0
                    &&& r@[i].acc_len() == 0
                },
    {
        let mut actors: Vec<Actor<A, E, P>> = Vec::new();
        let mut id: usize = 0;
        while id < self.n_actors
            invariant
                self.wf(),
                actors@.len() == id,
                id <= self.n_actors,
                forall|i: int|
                    0 <= i < actors@.len() ==> {
                        &&& (#[trigger] actors@[i]).wf()
                        &&& actors@[i].actor_id() == i
                        &&& actors@[i].threshold() == self.flush_threshold()
                        &&& actors@[i].steps_taken() == 0
                        &&& actors@[i].flush_count() == 0
                        &&& actors@[i].acc_len() == 0
                    },
            decreases self.n_actors - id,
        {
            let agent_config = if self.agent_configs.len() == self.n_actors {
                self.agent_configs[id].clone()
            } else {
                self.agent_configs[0].clone()
            };
            let actor = Actor::<A, E, P>::build(
                id,
                agent_config,
                self.env_config.clone(),
                &self.step_proc_config,
                self.samples_per_push,
                self.stop.share(),
                id as i64,
            );
            actors.push(actor);
            id = id + 1;
        }
        actors
    }

    /// The outbound experience endpoint the pool's actors feed; the embedding
    /// program clones it once per actor thread.
    pub fn sender(&self) -> &crossbeam_channel::Sender<PushedItemMessage<Vec<P::Output>>> {
        &self.sender
    }

    /// The shared model-update endpoint the pool's actors poll; the embedding
    /// program clones it once per actor thread. It is a shared queue: each
    /// published snapshot is delivered to at most one actor.
    pub fn model_receiver(&self) -> &crossbeam_channel::Receiver<ModelSnapshot<A::ModelInfo>> {
        &self.model_receiver
    }

    /// Signals termination: raises the shared flag that every actor and the
    /// learner observe at their loop boundaries. It is never reset.
    pub fn stop(&self) {
        self.stop.raise();
    }
}

/// Forwards one pending experience message from a pool-local channel into the
/// learner's inbound channel, then reports whether the relay loop should
/// continue; this is the body of the relay thread that merges per-pool
/// traffic into a single stream for the learner. Fails — fatally for the
/// relay — when either side is disconnected.
pub fn handle_message<T>(
    receiver: &crossbeam_channel::Receiver<PushedItemMessage<T>>,
    sender: &crossbeam_channel::Sender<PushedItemMessage<T>>,
    stop: &StopFlag,
) -> (r: Result<bool, CoreError>)
    ensures
        r matches Err(e) ==> e == CoreError::ChannelClosed,
{
    let msg = match receiver.recv() {
        Ok(m) => m,
        Err(_) => {
            return Err(CoreError::ChannelClosed);
        },
    };
    match sender.send(msg) {
        Ok(_) => {},
        Err(_) => {
            return Err(CoreError::ChannelClosed);
        },
    }
    if stop.load() {
        Ok(false)
    } else {
        Ok(true)
    }
}

} // verus!
