//! Plain configuration and action types of the gym-style environment layer.
//!
//! The environment runtime itself (its process handling and its Python
//! bridge) lives outside the core; these are the plain-data pieces that
//! configure it and shape its actions.

use core::marker::PhantomData;
use vstd::prelude::*;

verus! {

/// Information given at every step of the interaction with the environment;
/// currently empty, used to match the type signature.
pub struct GymInfo {}

impl crate::base::Info for GymInfo {

}

/// Information attached by the gym-style environment; currently empty.
pub struct PyGymInfo {}

impl crate::base::Info for PyGymInfo {

}

/// Which preprocessing mode an arcade-game wrapper runs in.
#[derive(Clone, Copy, Debug, PartialEq, Eq, Structural)]
pub enum AtariWrapper {
    /// Preprocessing for training.
    Train,
    /// Preprocessing for evaluation.
    Eval,
}

/// Constructs a vectorized gym-style environment.
pub struct PyVecGymEnvBuilder<O, A, OF, AF> {
    /// The maximum number of steps in the environment.
    pub max_steps: Option<usize>,
    /// The arcade-game wrapper mode, when one is used.
    pub atari_wrapper: Option<AtariWrapper>,
    /// The number of processes.
    pub n_procs: usize,
    /// Carries the observation, action and filter types the built
    /// environment will use.
    pub marker: PhantomData<(O, A, OF, AF)>,
}

impl<O, A, OF, AF> Default for PyVecGymEnvBuilder<O, A, OF, AF> {
    /// A single process, no step bound, no arcade-game wrapper.
    fn default() -> (r: Self)
        ensures
            r.max_steps is None,
            r.atari_wrapper is None,
            r.n_procs == 1,
    {
        PyVecGymEnvBuilder {
            max_steps: None,
            atari_wrapper: None,
            n_procs: 1,
            marker: PhantomData,
        }
    }
}

impl<O, A, OF, AF> PyVecGymEnvBuilder<O, A, OF, AF> {
    /// Sets the maximum number of steps in the environment.
    pub fn max_steps(self, max_steps: Option<usize>) -> (r: Self)
        ensures
            r.max_steps == max_steps,
            r.atari_wrapper == self.atari_wrapper,
            r.n_procs == self.n_procs,
    {
        let mut builder = self;
        builder.max_steps = max_steps;
        builder
    }

    /// Sets the arcade-game wrapper mode.
    pub fn atari_wrapper(self, v: Option<AtariWrapper>) -> (r: Self)
        ensures
            r.atari_wrapper == v,
            r.max_steps == self.max_steps,
            r.n_procs == self.n_procs,
    {
        let mut builder = self;
        builder.atari_wrapper = v;
        builder
    }

    /// Sets the number of processes.
    pub fn n_procs(self, v: usize) -> (r: Self)
        ensures
            r.n_procs == v,
            r.max_steps == self.max_steps,
            r.atari_wrapper == self.atari_wrapper,
    {
        let mut builder = self;
        builder.n_procs = v;
        builder
    }
}

/// An action filter that applies no preprocessing to continuous actions.
#[derive(Clone, Debug)]
pub struct PyGymEnvContinuousActRawFilter {
    /// Whether this filter is used in a vectorized environment.
    pub vectorized: bool,
}

impl Default for PyGymEnvContinuousActRawFilter {
    fn default() -> (r: Self)
        ensures
            !r.vectorized,
    {
        PyGymEnvContinuousActRawFilter { vectorized: false }
    }
}

/// A discrete action of a gym-style environment.
#[derive(Clone, Debug)]
pub struct PyGymEnvDiscreteAct {
    /// One action index per process.
    pub act: Vec<i32>,
}

impl PyGymEnvDiscreteAct {
    /// Wraps raw action indices.
    pub fn new(act: Vec<i32>) -> (r: Self)
        ensures
            r.act == act,
    {
        PyGymEnvDiscreteAct { act }
    }
}

/// Filters a discrete action before it is applied to the environment.
pub trait PyGymDiscreteActFilter: Sized {
    /// Converts raw action indices; the default applies no preprocessing.
    fn filt(act: Vec<i32>) -> Vec<i32> {
        act
    }
}

/// A discrete-action filter that applies no preprocessing.
#[derive(Clone, Debug)]
pub struct PyGymEnvDiscreteActRawFilter {}

impl PyGymEnvDiscreteActRawFilter {
    /// Constructs the identity filter.
    pub fn new() -> Self {
        PyGymEnvDiscreteActRawFilter {  }
    }
}

impl PyGymDiscreteActFilter for PyGymEnvDiscreteActRawFilter {

}

} // verus!
