//! Configuration of the synchronous training loop.

use vstd::prelude::*;

verus! {

/// Configuration of a synchronous trainer: the optimization budget and the
/// cadences of evaluation, recording and persistence, with a builder-style
/// interface. Loading and saving such a configuration from files belongs to
/// the embedding program.
#[derive(Clone, Debug)]
pub struct TrainerConfig {
    /// The maximum number of optimization steps.
    pub max_opts: usize,
    /// Directory where model parameters will be saved.
    pub model_dir: Option<String>,
    /// The interval in interaction steps between optimization steps.
    pub opt_interval: usize,
    /// The interval of evaluation in optimization steps.
    pub eval_interval: usize,
    /// The interval of recording in optimization steps.
    pub record_interval: usize,
    /// The interval of saving model parameters in optimization steps.
    pub save_interval: usize,
}

impl Default for TrainerConfig {
    /// No optimization budget, optimization every interaction step, and
    /// recording and saving cadences that never fire.
    fn default() -> (r: Self)
        ensures
            r.max_opts == 0,
            r.model_dir is None,
            r.opt_interval == 1,
            r.eval_interval == 0,
            r.record_interval == usize::MAX,
            r.save_interval == usize::MAX,
    {
        TrainerConfig {
            max_opts: 0,
            model_dir: None,
            opt_interval: 1,
            eval_interval: 0,
            record_interval: usize::MAX,
            save_interval: usize::MAX,
        }
    }
}

impl TrainerConfig {
    /// Sets the number of optimization steps.
    pub fn max_opts(self, v: usize) -> (r: Self)
        ensures
            r == (TrainerConfig { max_opts: v, ..self }),
    {
        let mut config = self;
        config.max_opts = v;
        config
    }

    /// Sets the interval of evaluation in optimization steps.
    pub fn eval_interval(self, v: usize) -> (r: Self)
        ensures
            r == (TrainerConfig { eval_interval: v, ..self }),
    {
        let mut config = self;
        config.eval_interval = v;
        config
    }

    /// Sets the directory the trained model is saved in.
    pub fn model_dir(self, model_dir: String) -> (r: Self)
        ensures
            r.max_opts == self.max_opts,
            r.opt_interval == self.opt_interval,
            r.eval_interval == self.eval_interval,
            r.record_interval == self.record_interval,
            r.save_interval == self.save_interval,
            r.model_dir matches Some(d) && d == model_dir,
    {
        let mut config = self;
        config.model_dir = Some(model_dir);
        config
    }

    /// Sets the interval of optimization in environment steps.
    pub fn opt_interval(self, opt_interval: usize) -> (r: Self)
        ensures
            r == (TrainerConfig { opt_interval, ..self }),
    {
        let mut config = self;
        config.opt_interval = opt_interval;
        config
    }

    /// Sets the interval of recording in optimization steps.
    pub fn record_interval(self, record_interval: usize) -> (r: Self)
        ensures
            r == (TrainerConfig { record_interval, ..self }),
    {
        let mut config = self;
        config.record_interval = record_interval;
        config
    }

    /// Sets the interval of saving in optimization steps.
    pub fn save_interval(self, save_interval: usize) -> (r: Self)
        ensures
            r == (TrainerConfig { save_interval, ..self }),
    {
        let mut config = self;
        config.save_interval = save_interval;
        config
    }
}

} // verus!
