//! Concurrency core of an actor-learner reinforcement-learning engine.
//!
//! Many actor workers interact with environment replicas to generate
//! experience, while a single learner drains that experience into a replay
//! buffer, performs optimization steps, and periodically publishes model
//! snapshots back to the actors.

use vstd::prelude::*;

pub mod actor;
pub mod actor_manager;
pub mod arith;
pub mod async_trainer;
pub mod base;
pub mod comm;
pub mod errors;
pub mod explorer;
pub mod flag;
pub mod gym_env;
pub mod nn_config;
pub mod pointmaze;
pub mod trainer_config;
pub mod guard;
pub mod messages;
pub mod random;
pub mod sync_model;
pub mod record;
pub mod replay_buffer;
pub mod system;
pub mod util;

verus! {

/// Identity of an actor, also used to seed its environment deterministically.
pub type ActorId = usize;

} // verus!
