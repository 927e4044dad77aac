//! A step processor that forwards raw environment steps unchanged.

use crate::base::{Env, StepProcessor};
use vstd::prelude::*;

verus! {

/// Configuration of [`SimpleStepProcessor`]; it holds nothing.
#[derive(Clone, Copy, Debug)]
pub struct SimpleStepProcessorConfig {}

impl Default for SimpleStepProcessorConfig {
    fn default() -> (r: Self) {
        SimpleStepProcessorConfig {  }
    }
}

/// The identity step processor: each raw environment step becomes one
/// transition item as it is.
pub struct SimpleStepProcessor<E: Env> {
    _config: SimpleStepProcessorConfig,
    marker: core::marker::PhantomData<E>,
}

impl<E: Env> StepProcessor<E> for SimpleStepProcessor<E> {
    type Config = SimpleStepProcessorConfig;

    type Output = E::Step;

    fn build(config: &Self::Config) -> Self {
        SimpleStepProcessor { _config: *config, marker: core::marker::PhantomData }
    }

    /// Hands the raw step through unchanged.
    fn process(&mut self, step: E::Step) -> (r: Self::Output)
        ensures
            r == step,
    {
        step
    }
}

} // verus!
