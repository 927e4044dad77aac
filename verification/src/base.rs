//! Interfaces between the concurrency core and its collaborators.
//!
//! The core never inspects observations, actions or transition items; it
//! moves them between an environment, a policy, a step processor and the
//! replay buffer. These traits are the boundary at which concrete
//! environments and agents plug in.

pub mod replay_buffer;

use crate::errors::CoreError;
use crate::record::Record;
use vstd::prelude::*;

verus! {

/// A set of observations of an environment.
pub trait Obs: Clone {
    /// Returns the number of observations in the object.
    fn len(&self) -> usize;
}

/// A set of actions of an environment.
pub trait Act: Clone {
    /// Returns the number of actions in the object.
    fn len(&self) -> usize;
}

/// Additional information an environment may attach to an observation and an
/// action.
pub trait Info {

}

/// An environment, typically a Markov decision process, stepped by one actor
/// or by an evaluator. Construction may run code that is not safe to run in
/// two threads at once, which is why actors serialize it behind the
/// initialization guard.
pub trait Env: Sized {
    /// Plain data from which the environment is constructed.
    type Config: Clone;

    /// Observation handed to the policy.
    type Obs;

    /// Action applied by `step`.
    type Act;

    /// Raw outcome of one step, consumed by a step processor.
    type Step;

    /// Constructs the environment deterministically from a seed. Fails only
    /// if construction fails; the failure is propagated, not retried.
    fn build(config: &Self::Config, seed: i64) -> Result<Self, CoreError>;

    /// Starts an episode and returns its first observation.
    fn reset(&mut self) -> Result<Self::Obs, CoreError>;

    /// Performs one interaction step: applies the action and returns the raw
    /// transition together with the observation to act on next (already reset
    /// if the episode ended).
    fn step(&mut self, act: &Self::Act) -> (Self::Step, Self::Obs);
}

/// A policy: a mapping from an observation to an action, deterministic or
/// stochastic.
pub trait Policy<E: Env> {
    /// Sample an action given an observation.
    fn sample(&mut self, obs: &E::Obs) -> E::Act;
}

/// A type constructible from plain configuration data.
pub trait Configurable: Sized {
    /// Configuration of the object.
    type Config: Clone;

    /// Builds the object from its configuration.
    fn build(config: Self::Config) -> Self;
}

/// Turns the raw outcome of an environment step into one transition item
/// ready for the replay buffer.
pub trait StepProcessor<E: Env>: Sized {
    /// Plain data from which the processor is constructed.
    type Config: Clone;

    /// The transition item produced from one raw step.
    type Output;

    /// Builds the processor from its configuration.
    fn build(config: &Self::Config) -> Self;

    /// Converts one raw step into a transition item.
    fn process(&mut self, step: E::Step) -> Self::Output;
}

/// A trainable policy: the learner's side of an agent. One `opt_with_record`
/// call performs exactly one optimization step, which is what the learner's
/// step counter counts.
pub trait Agent<E: Env, R>: Policy<E> {
    /// How many optimization steps this agent has performed.
    spec fn n_opts(&self) -> nat;

    /// Whether the agent is in training mode.
    spec fn train_mode(&self) -> bool;

    /// Set the policy to training mode.
    fn train(&mut self)
        ensures
            final(self).train_mode(),
            final(self).n_opts() == old(self).n_opts(),
    ;

    /// Set the policy to evaluation mode.
    fn eval(&mut self)
        ensures
            !final(self).train_mode(),
            final(self).n_opts() == old(self).n_opts(),
    ;

    /// Return whether the agent is in training mode.
    fn is_train(&self) -> (r: bool)
        ensures
            r == self.train_mode(),
    ;

    /// Performs one optimization step on a batch sampled from the buffer and
    /// returns the metrics of that step. The caller keeps the step counter
    /// within machine range; the learner does so by budgeting its steps.
    fn opt_with_record(&mut self, buffer: &mut R) -> (r: Record)
        requires
            old(self).n_opts() < usize::MAX,
        ensures
            final(self).n_opts() == old(self).n_opts() + 1,
            final(self).train_mode() == old(self).train_mode(),
    ;

    /// Saves the agent's parameters under the given directory and returns
    /// the paths written. Persistence is the agent's own concern; the core
    /// only schedules it.
    fn save_params(&self, dir: &str) -> Result<Vec<String>, CoreError>;

    /// Loads the agent's parameters from the given directory.
    fn load_params(&mut self, dir: &str) -> Result<(), CoreError>;
}

} // verus!
