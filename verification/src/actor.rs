//! The actor: one worker that generates experience.
//!
//! An actor owns one environment replica and one read-only policy replica.
//! It repeatedly samples an action, steps its environment, accumulates the
//! processed transition items, flushes full batches to the shared outbound
//! channel, and opportunistically refreshes its policy replica from the
//! model-update channel. It runs until it observes the shared termination
//! flag; the embedding program drives the loop by calling [`Actor::step`]
//! until it yields [`ActorStatus::Stopped`] or an error.

use crate::base::{Configurable, Env, Policy, StepProcessor};
use crate::errors::CoreError;
use crate::flag::StopFlag;
use crate::messages::{ModelSnapshot, PushedItemMessage};
use crate::sync_model::SyncModel;
use crate::ActorId;
use vstd::prelude::*;

verus! {

/// What one loop iteration decided: keep running, or unwind because the
/// shared termination flag was observed raised.
#[derive(Clone, Copy, Debug, PartialEq, Eq, Structural)]
pub enum ActorStatus {
    /// The flag was not raised; the loop should continue.
    Running,
    /// The flag was observed raised; the loop should end.
    Stopped,
}

/// One experience-generating worker.
pub struct Actor<A, E, P> where A: Configurable + Policy<E> + SyncModel, E: Env, P: StepProcessor<
    E,
> {
    id: ActorId,
    agent: A,
    env_config: E::Config,
    step_proc: P,
    env: Option<(E, E::Obs)>,
    accumulator: Vec<P::Output>,
    samples_per_push: usize,
    stop: StopFlag,
    seed: i64,
    steps: usize,
    flushes: usize,
}

impl<A, E, P> Actor<A, E, P> where
    A: Configurable + Policy<E> + SyncModel,
    E: Env,
    P: StepProcessor<E>,
 {
    /// This actor's identity.
    pub closed spec fn actor_id(&self) -> ActorId {
        self.id
    }

    /// How many environment steps this actor has run.
    pub closed spec fn steps_taken(&self) -> nat {
        self.steps as nat
    }

    /// How many items are accumulated and not yet flushed.
    pub closed spec fn acc_len(&self) -> nat {
        self.accumulator@.len()
    }

    /// The flush threshold: a batch is sent once this many items are
    /// accumulated.
    pub closed spec fn threshold(&self) -> nat {
        self.samples_per_push as nat
    }

    /// How many full batches this actor has flushed.
    pub closed spec fn flush_count(&self) -> nat {
        self.flushes as nat
    }

    /// Whether the environment replica has been constructed yet.
    pub closed spec fn env_ready(&self) -> bool {
        self.env is Some
    }

    /// The flush accounting every exposed operation preserves: the threshold
    /// is at least one, the accumulator is always below it, and every step
    /// run so far is either inside one of the flushed batches or still
    /// accumulated.
    pub closed spec fn wf(&self) -> bool {
        &&& self.samples_per_push >= 1
        &&& self.accumulator@.len() < self.samples_per_push
        &&& self.steps == self.flushes * self.samples_per_push + self.accumulator@.len()
    }

    /// The accounting invariant, stated over the public vocabulary, holds of
    /// every well-formed actor.
    pub proof fn lemma_wf_accounting(&self)
        requires
            self.wf(),
        ensures
            self.threshold() >= 1,
            self.acc_len() < self.threshold(),
            self.steps_taken() == self.flush_count() * self.threshold() + self.acc_len(),
    {
    }

    /// Items flushed so far, as a count: every completed flush carried
    /// exactly `threshold` items, so a well-formed actor that has run `steps`
    /// steps has flushed `steps / threshold` full batches and still holds
    /// `steps % threshold` items.
    pub proof fn lemma_flush_accounting(&self)
        requires
            self.wf(),
        ensures
            self.flush_count() == self.steps_taken() / self.threshold(),
            self.acc_len() == self.steps_taken() % self.threshold(),
    {
        vstd::arithmetic::div_mod::lemma_fundamental_div_mod_converse(
            self.steps as int,
            self.samples_per_push as int,
            self.flushes as int,
            self.accumulator@.len() as int,
        );
    }

    /// How many environment steps this actor has run, for the embedding
    /// program to guard [`Actor::step`]'s counter bound before each call.
    pub fn n_steps(&self) -> (n: usize)
        ensures
            n == self.steps_taken(),
    {
        self.steps
    }

    /// Constructs an actor. The policy replica is built from its
    /// configuration now; the environment replica is constructed lazily,
    /// inside the first [`Actor::step`] call, under the initialization guard.
    pub fn build(
        id: ActorId,
        agent_config: A::Config,
        env_config: E::Config,
        step_proc_config: &P::Config,
        samples_per_push: usize,
        stop: StopFlag,
        seed: i64,
    ) -> (r: Actor<A, E, P>)
        requires
            samples_per_push >= 1,
        ensures
            r.wf(),
            r.actor_id() == id,
            r.threshold() == samples_per_push,
            r.steps_taken() == 0,
            r.flush_count() == 0,
            r.acc_len() == 0,
            !r.env_ready(),
    {
        Actor {
            id,
            agent: A::build(agent_config),
            env_config,
            step_proc: P::build(step_proc_config),
            env: None,
            accumulator: Vec::new(),
            samples_per_push,
            stop,
            seed,
            steps: 0,
            flushes: 0,
        }
    }

    /// One iteration of the sample-step-accumulate loop.
    ///
    /// In order: construct the environment under the guard if this is the
    /// first iteration; sample an action from the local policy replica; step
    /// the environment; push the processed item into the accumulator; flush
    /// the accumulated batch when it reaches the threshold; poll the
    /// model-update channel and apply a snapshot if one is pending (each
    /// published snapshot reaches at most one actor, since the receiver is a
    /// shared queue); finally observe the termination flag.
    ///
    /// A send on a disconnected channel and a failed guard acquisition are
    /// fatal: the error is returned and the caller is expected to stop this
    /// actor. A failed flush is still counted as flushed; its items are lost.
    pub fn step(
        &mut self,
        sender: &crossbeam_channel::Sender<PushedItemMessage<Vec<P::Output>>>,
        model_receiver: &crossbeam_channel::Receiver<ModelSnapshot<A::ModelInfo>>,
        guard: &crate::guard::InitGuard,
    ) -> (r: Result<ActorStatus, CoreError>)
        requires
            old(self).wf(),
            old(self).steps_taken() < usize::MAX,
        ensures
            final(self).wf(),
            final(self).actor_id() == old(self).actor_id(),
            final(self).threshold() == old(self).threshold(),
            final(self).steps_taken() <= old(self).steps_taken() + 1,
            r is Ok ==> final(self).steps_taken() == old(self).steps_taken() + 1,
            r is Ok && old(self).acc_len() + 1 == old(self).threshold() ==> final(self).acc_len()
                == 0 && final(self).flush_count() == old(self).flush_count() + 1,
            r is Ok && old(self).acc_len() + 1 < old(self).threshold() ==> final(self).acc_len()
                == old(self).acc_len() + 1 && final(self).flush_count() == old(self).flush_count(),
            old(self).env_ready() && old(self).acc_len() + 2 <= old(self).threshold() ==> r is Ok,
    {
        // One-time environment construction, serialized across actors.
        if self.env.is_none() {
            match guard.acquire() {
                Ok(_) => {},
                Err(e) => {
                    return Err(e);
                },
            }
            let built = E::build(&self.env_config, self.seed);
            match guard.release() {
                Ok(_) => {},
                Err(e) => {
                    return Err(e);
                },
            }
            match built {
                Ok(mut env) => {
                    match env.reset() {
                        Ok(obs) => {
                            self.env = Some((env, obs));
                        },
                        Err(e) => {
                            return Err(e);
                        },
                    }
                },
                Err(e) => {
                    return Err(e);
                },
            }
        }
        // Sample an action from the local replica and step the environment.
        let (mut env, obs) = match self.env.take() {
            Some(pair) => pair,
            None => {
                return Err(CoreError::Construction);
            },
        };
        let act = self.agent.sample(&obs);
        let (raw, next_obs) = env.step(&act);
        self.env = Some((env, next_obs));
        // Accumulate the processed transition item.
        let item = self.step_proc.process(raw);
        self.accumulator.push(item);
        self.steps = self.steps + 1;
        // Flush a full batch.
        if self.accumulator.len() == self.samples_per_push {
            proof {
                assert(self.flushes * self.samples_per_push + self.samples_per_push == (
                self.flushes + 1) * self.samples_per_push) by (nonlinear_arith);
                assert(self.flushes <= self.flushes * self.samples_per_push) by (nonlinear_arith)
                    requires
                        self.samples_per_push >= 1,
                        self.flushes >= 0,
                ;
            }
            let mut payload: Vec<P::Output> = Vec::new();
            std::mem::swap(&mut payload, &mut self.accumulator);
            self.flushes = self.flushes + 1;
            let msg = PushedItemMessage { id: self.id, payload };
            match sender.send(msg) {
                Ok(_) => {},
                Err(_) => {
                    return Err(CoreError::ChannelClosed);
                },
            }
        }
        // Opportunistic model refresh: apply a pending snapshot if there is
        // one; an empty or disconnected channel leaves the replica as it is.
        match model_receiver.try_recv() {
            Ok(snapshot) => {
                self.agent.sync_model(&snapshot.data);
            },
            Err(_) => {},
        }
        // Observe the shared termination flag.
        if self.stop.load() {
            Ok(ActorStatus::Stopped)
        } else {
            Ok(ActorStatus::Running)
        }
    }
}

} // verus!
