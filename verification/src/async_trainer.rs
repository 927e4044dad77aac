//! The learner: drains experience into the replay buffer, runs the
//! optimization schedule, and publishes model snapshots.
//!
//! The learner is a state machine. In the warmup state it only absorbs
//! experience, until the buffer holds the warmup threshold. In the training
//! state each iteration drains at least one pending message (a blocking
//! receive, then a bounded non-blocking drain of messages already queued),
//! performs one optimization step, and at the configured cadences publishes a
//! model snapshot, flushes records, evaluates, and persists parameters. The
//! terminal state is reached when the optimization-step counter hits its
//! budget; it raises the shared termination flag and returns.

use crate::base::{Agent, Env, Configurable, Policy};
use crate::base::replay_buffer::{ExperienceBufferBase, ReplayBufferBase};
use crate::errors::CoreError;
use crate::flag::StopFlag;
use crate::guard::InitGuard;
use crate::messages::{ModelSnapshot, PushedItemMessage};
use crate::record::{AggregateRecorder, Record};
use crate::arith::lemma_div_step;
use crate::sync_model::{SyncLearner, SyncModel};
use vstd::prelude::*;

verus! {

/// How many queued messages one training iteration will drain beyond the
/// blocking receive. The bound keeps each iteration finite while actors keep
/// producing; whatever stays queued is drained by later iterations.
pub const DRAIN_BUDGET: usize = 128;

/// Runs evaluation rollouts on behalf of the learner, with an environment of
/// its own; construction of that environment is serialized through the
/// initialization guard. Evaluation must not train: the agent's
/// optimization-step counter is left as it was.
pub trait Evaluator<E: Env, R, A: Agent<E, R>> {
    /// Runs the given number of evaluation episodes and reports the metrics.
    fn evaluate(
        &mut self,
        agent: &mut A,
        env_config: &E::Config,
        episodes: usize,
        guard: &InitGuard,
    ) -> (r: Result<Record, CoreError>)
        ensures
            final(agent).n_opts() == old(agent).n_opts(),
    ;
}

/// An evaluator that runs nothing and reports an empty record.
pub struct NullEvaluator {}

impl<E: Env, R, A: Agent<E, R>> Evaluator<E, R, A> for NullEvaluator {
    fn evaluate(
        &mut self,
        _agent: &mut A,
        _env_config: &E::Config,
        _episodes: usize,
        _guard: &InitGuard,
    ) -> (r: Result<Record, CoreError>) {
        Ok(Record::empty())
    }
}

/// Configuration of the learner.
#[derive(Clone, Debug)]
pub struct AsyncTrainerConfig {
    /// Directory in which agent parameters are persisted; none disables
    /// persistence.
    pub model_dir: Option<String>,
    /// The interval of record flushes, in optimization steps.
    pub record_interval: usize,
    /// The interval of evaluation runs, in optimization steps.
    pub eval_interval: usize,
    /// The total number of optimization steps to run.
    pub max_train_steps: usize,
    /// The interval of parameter persistence, in optimization steps.
    pub save_interval: usize,
    /// The interval of model-snapshot publication, in optimization steps.
    pub sync_interval: usize,
    /// How many episodes one evaluation run plays.
    pub eval_episodes: usize,
    /// How many items the replay buffer must hold before optimization
    /// begins. A threshold above the buffer's capacity is cut to the
    /// capacity, which is the most the buffer can ever hold.
    pub warmup_period: usize,
}

/// The learner. It owns the trainable agent and the replay buffer; actors
/// never touch the buffer — all experience reaches it through the inbound
/// channel, drained by this single consumer.
pub struct AsyncTrainer<A, E, R> where
    A: SyncLearner<E, R> + Configurable,
    E: Env,
    R: ExperienceBufferBase + ReplayBufferBase,
 {
    agent: A,
    env_config: E::Config,
    buffer: R,
    item_receiver: crossbeam_channel::Receiver<
        PushedItemMessage<Vec<<R as ExperienceBufferBase>::Item>>,
    >,
    model_sender: crossbeam_channel::Sender<ModelSnapshot<<A as SyncModel>::ModelInfo>>,
    stop: StopFlag,
    config: AsyncTrainerConfig,
    opt_steps: usize,
    published: Vec<usize>,
    init_opts: Ghost<nat>,
}

/// How a finished training run ended: by exhausting its optimization-step
/// budget, or by observing the shared termination flag raised by another
/// party.
#[derive(Clone, Copy, Debug, PartialEq, Eq, Structural)]
pub enum TrainExit {
    /// The optimization-step budget was reached; the learner raised the flag.
    Budget,
    /// The flag was observed raised before the budget was reached.
    Signalled,
}

impl<A, E, R> AsyncTrainer<A, E, R> where
    A: SyncLearner<E, R> + Configurable,
    E: Env,
    R: ExperienceBufferBase + ReplayBufferBase,
 {
    /// How many optimization steps have been performed.
    pub closed spec fn opt_steps_done(&self) -> nat {
        self.opt_steps as nat
    }

    /// How many items the replay buffer holds.
    pub closed spec fn buf_len(&self) -> nat {
        self.buffer.spec_len()
    }

    /// The replay buffer's capacity.
    pub closed spec fn buf_cap(&self) -> nat {
        self.buffer.spec_capacity()
    }

    /// The owned agent, as a spec value.
    pub closed spec fn agent_view(&self) -> A {
        self.agent
    }

    /// The agent's own optimization-step counter.
    pub open spec fn agent_opts(&self) -> nat {
        self.agent_view().n_opts()
    }

    /// The warmup threshold the configuration asks for (before the cut to
    /// the buffer's capacity).
    pub closed spec fn warmup(&self) -> nat {
        self.config.warmup_period as nat
    }

    /// No receive would be needed to finish training from this state: the
    /// buffer already meets the warmup threshold (or holds all it can) and
    /// the optimization budget is already spent. On such a state `train`
    /// succeeds outright, since no outside call gets to decide.
    pub open spec fn nothing_left_to_train(&self) -> bool {
        &&& self.opt_steps_done() == self.max_steps()
        &&& (self.buf_len() >= self.warmup() || self.buf_len() >= self.buf_cap())
    }

    /// The agent's counter at construction time.
    pub closed spec fn initial_opts(&self) -> nat {
        self.init_opts@
    }

    /// The optimization-step budget.
    pub closed spec fn max_steps(&self) -> nat {
        self.config.max_train_steps as nat
    }

    /// The snapshot-publication cadence.
    pub closed spec fn sync_interval(&self) -> nat {
        self.config.sync_interval as nat
    }

    /// The versions of the snapshots published so far, in publication order.
    pub closed spec fn published_versions(&self) -> Seq<usize> {
        self.published@
    }

    /// What construction establishes and every iteration preserves: the
    /// cadences are positive, the step counter stays within budget and in
    /// lockstep with the agent's own counter, and one snapshot has been
    /// published per full sync interval, stamped with the agent's counter at
    /// the time of extraction.
    pub closed spec fn wf(&self) -> bool {
        &&& self.init_opts@ + self.config.max_train_steps <= usize::MAX
        &&& self.config.sync_interval >= 1
        &&& self.config.record_interval >= 1
        &&& self.config.save_interval >= 1
        &&& self.config.eval_interval >= 1
        &&& self.opt_steps <= self.config.max_train_steps
        &&& self.agent.n_opts() == self.init_opts@ + self.opt_steps
        &&& self.published@.len() == self.opt_steps as int / self.config.sync_interval as int
        &&& forall|k: int|
            0 <= k < self.published@.len() ==> (#[trigger] self.published@[k]) as int
                == self.init_opts@ + (k + 1) * self.config.sync_interval
    }

    /// Successively published snapshot versions strictly increase: each one
    /// is the optimization-step counter at its extraction, and a full sync
    /// interval of optimization steps lies between one publication and the
    /// next.
    pub proof fn lemma_published_monotone(&self)
        requires
            self.wf(),
        ensures
            forall|k1: int, k2: int|
                0 <= k1 < k2 < self.published_versions().len()
                    ==> #[trigger] self.published_versions()[k1]
                    < #[trigger] self.published_versions()[k2],
    {
        assert forall|k1: int, k2: int|
            0 <= k1 < k2 < self.published_versions().len() implies #[trigger] self
            .published_versions()[k1] < #[trigger] self.published_versions()[k2] by {
            assert((k1 + 1) * self.config.sync_interval < (k2 + 1) * self.config.sync_interval)
                by (nonlinear_arith)
                requires
                    k1 < k2,
                    self.config.sync_interval >= 1,
            ;
        }
    }

    /// The publication cadence, exactly: one snapshot has been published per
    /// full sync interval of optimization steps, stamped with the agent's
    /// optimization-step counter at the time of its extraction.
    pub proof fn lemma_published_cadence(&self)
        requires
            self.wf(),
        ensures
            self.published_versions().len() == self.opt_steps_done() as int / self.sync_interval()
                as int,
            forall|k: int|
                0 <= k < self.published_versions().len()
                    ==> (#[trigger] self.published_versions()[k]) as int == self.initial_opts() + (
                k + 1) * self.sync_interval(),
    {
    }

    /// Builds a learner. The agent is built from its configuration, the
    /// buffer from its own; no optimization step has happened and nothing has
    /// been published. Fails when one of the four cadences is zero, or when
    /// the fresh agent's optimization-step counter is already so large that
    /// the budget would push it past machine range.
    pub fn build(
        config: &AsyncTrainerConfig,
        agent_config: &<A as Configurable>::Config,
        env_config: &E::Config,
        replay_buffer_config: &<R as ReplayBufferBase>::Config,
        item_receiver: crossbeam_channel::Receiver<
            PushedItemMessage<Vec<<R as ExperienceBufferBase>::Item>>,
        >,
        model_sender: crossbeam_channel::Sender<ModelSnapshot<<A as SyncModel>::ModelInfo>>,
        stop: StopFlag,
    ) -> (r: Result<AsyncTrainer<A, E, R>, CoreError>)
        ensures
            r is Ok ==> (config.sync_interval >= 1 && config.record_interval >= 1
                && config.save_interval >= 1 && config.eval_interval >= 1),
            r matches Ok(t) ==> {
                &&& t.wf()
                &&& t.opt_steps_done() == 0
                &&& t.published_versions().len() == 0
                &&& t.max_steps() == config.max_train_steps
                &&& t.sync_interval() == config.sync_interval
                &&& t.warmup() == config.warmup_period
                &&& t.agent_opts() == t.initial_opts()
            },
            r matches Ok(t) ==> exists|cfg: <A as Configurable>::Config|
                #[trigger] <A as Configurable>::build.ensures((cfg,), t.agent_view()),
    {
        if config.sync_interval < 1 || config.record_interval < 1 || config.save_interval < 1
            || config.eval_interval < 1 {
            return Err(CoreError::Construction);
        }
        let agent_config_owned = agent_config.clone();
        let ghost built_from = agent_config_owned;
        let agent = A::build(agent_config_owned);
        proof {
            assert(<A as Configurable>::build.ensures((built_from,), agent));
        }
        let (start_version, _) = agent.model_info();
        proof {
            agent.version_tracks_opts();
        }
        if start_version > usize::MAX - config.max_train_steps {
            return Err(CoreError::Construction);
        }
        let buffer = R::build(replay_buffer_config);
        let ghost start_opts = agent.n_opts();
        let model_dir = match &config.model_dir {
            Some(dir) => Some(dir.clone()),
            None => None,
        };
        let trainer = AsyncTrainer {
            agent,
            env_config: env_config.clone(),
            buffer,
            item_receiver,
            model_sender,
            stop,
            config: AsyncTrainerConfig {
                model_dir,
                record_interval: config.record_interval,
                eval_interval: config.eval_interval,
                max_train_steps: config.max_train_steps,
                save_interval: config.save_interval,
                sync_interval: config.sync_interval,
                eval_episodes: config.eval_episodes,
                warmup_period: config.warmup_period,
            },
            opt_steps: 0,
            published: Vec::new(),
            init_opts: Ghost(start_opts),
        };
        proof {
            assert(<A as Configurable>::build.ensures((built_from,), trainer.agent_view()));
        }
        Ok(trainer)
    }

    /// The trainable agent, for inspection once training is over; its own
    /// counter is the one the learner's accounting speaks of.
    pub fn agent(&self) -> (r: &A)
        ensures
            *r == self.agent_view(),
            r.n_opts() == self.agent_opts(),
    {
        &self.agent
    }

    /// How many optimization steps have been performed.
    pub fn n_opt_steps(&self) -> (n: usize)
        ensures
            n == self.opt_steps_done(),
    {
        self.opt_steps
    }

    /// The versions of the snapshots published so far, in publication order.
    pub fn published(&self) -> (r: &Vec<usize>)
        ensures
            r@ == self.published_versions(),
    {
        &self.published
    }

    /// Drains one flushed batch into the replay buffer, item by item.
    fn push_batch(&mut self, payload: Vec<<R as ExperienceBufferBase>::Item>) -> (r: Result<
        (),
        CoreError,
    >)
        ensures
            final(self).buf_cap() == old(self).buf_cap(),
            final(self).buf_len() >= old(self).buf_len() || old(self).buf_len() > old(
                self,
            ).buf_cap(),
            (r is Ok && payload@.len() >= 1 && old(self).buf_len() < old(self).buf_cap())
                ==> final(self).buf_len() > old(self).buf_len(),
            final(self).buf_len() <= final(self).buf_cap() || final(self).buf_len() == old(
                self,
            ).buf_len(),
            final(self).agent == old(self).agent,
            final(self).config == old(self).config,
            final(self).opt_steps == old(self).opt_steps,
            final(self).published == old(self).published,
            final(self).init_opts == old(self).init_opts,
            final(self).wf() == old(self).wf(),
    {
        let mut payload = payload;
        let mut i: usize = 0;
        let n = payload.len();
        while i < n
            invariant
                i + payload@.len() == n,
                i <= n,
                self.buf_cap() == old(self).buf_cap(),
                self.buf_len() >= old(self).buf_len() || old(self).buf_len() > old(self).buf_cap(),
                (i >= 1 && old(self).buf_len() < old(self).buf_cap()) ==> self.buf_len() > old(
                    self,
                ).buf_len(),
                i >= 1 ==> self.buf_len() <= self.buf_cap(),
                i == 0 ==> self.buf_len() == old(self).buf_len(),
                self.agent == old(self).agent,
                self.config == old(self).config,
                self.opt_steps == old(self).opt_steps,
                self.published == old(self).published,
                self.init_opts == old(self).init_opts,
            decreases n - i,
        {
            let item = payload.remove(0);
            match self.buffer.push(item) {
                Ok(_) => {},
                Err(e) => {
                    return Err(e);
                },
            }
            i = i + 1;
        }
        Ok(())
    }

    /// Runs the learner to completion.
    ///
    /// Warmup absorbs experience until the buffer holds the warmup threshold
    /// (cut to the buffer's capacity). Training then performs exactly one
    /// optimization step per iteration until the budget is reached, draining
    /// at least one message first; at the sync cadence a snapshot stamped
    /// with the agent's counter is published best-effort (a disconnected
    /// model channel is not fatal), at the record cadence the aggregated
    /// records are flushed, at the eval cadence the evaluator runs with the
    /// agent in evaluation mode, and at the save cadence parameters are
    /// persisted best-effort. On completion the shared termination flag is
    /// raised.
    ///
    /// A disconnected experience channel, a failed buffer push, a flush
    /// message carrying no items, and a failed evaluation are fatal. The
    /// shared termination flag is observed once per iteration; observing it
    /// raised unwinds the learner cleanly before the budget is reached.
    pub fn train<S: AggregateRecorder, V: Evaluator<E, R, A>>(
        &mut self,
        recorder: &mut S,
        evaluator: &mut V,
        guard: &InitGuard,
    ) -> (r: Result<TrainExit, CoreError>)
        requires
            old(self).wf(),
        ensures
            final(self).wf(),
            final(self).max_steps() == old(self).max_steps(),
            final(self).sync_interval() == old(self).sync_interval(),
            final(self).initial_opts() == old(self).initial_opts(),
            final(self).opt_steps_done() >= old(self).opt_steps_done(),
            r matches Ok(exit) && exit == TrainExit::Budget ==> final(self).opt_steps_done()
                == final(self).max_steps(),
            final(self).agent_opts() == final(self).initial_opts()
                + final(self).opt_steps_done(),
            old(self).nothing_left_to_train() ==> (r matches Ok(exit) && exit
                == TrainExit::Budget),
    {
        self.agent.train();
        // Warmup: absorb experience only.
        let cap = self.buffer.capacity();
        let warmup: usize = if self.config.warmup_period <= cap {
            self.config.warmup_period
        } else {
            cap
        };
        if self.buffer.len() < warmup {
            while self.buffer.len() < warmup
                invariant
                    self.wf(),
                    warmup <= self.buffer.spec_capacity(),
                    self.config == old(self).config,
                    self.opt_steps == old(self).opt_steps,
                    self.init_opts == old(self).init_opts,
                    self.agent.n_opts() == old(self).agent.n_opts(),
                    old(self).buf_len() < old(self).warmup(),
                    old(self).buf_len() < old(self).buf_cap(),
                decreases warmup as int - (if self.buffer.spec_len() < warmup {
                    self.buffer.spec_len() as int
                } else {
                    warmup as int
                }),
            {
                if self.stop.load() {
                    return Ok(TrainExit::Signalled);
                }
                let msg = match self.item_receiver.recv() {
                    Ok(m) => m,
                    Err(_) => {
                        return Err(CoreError::ChannelClosed);
                    },
                };
                let before = self.buffer.len();
                match self.push_batch(msg.payload) {
                    Ok(_) => {},
                    Err(e) => {
                        return Err(e);
                    },
                }
                if self.buffer.len() <= before {
                    // The batch held no items; a flush always carries at
                    // least one, so report the broken producer instead of
                    // waiting on it forever.
                    return Err(CoreError::Buffer);
                }
            }
        }
        // Training: one optimization step per iteration.
        if self.opt_steps < self.config.max_train_steps {
            while self.opt_steps < self.config.max_train_steps
                invariant
                    self.wf(),
                    self.config == old(self).config,
                    self.opt_steps >= old(self).opt_steps,
                    self.init_opts == old(self).init_opts,
                    old(self).opt_steps_done() < old(self).max_steps(),
                decreases self.config.max_train_steps - self.opt_steps,
            {
                if self.stop.load() {
                    return Ok(TrainExit::Signalled);
                }
                // Drain at least one pending message.
                let msg = match self.item_receiver.recv() {
                    Ok(m) => m,
                    Err(_) => {
                        return Err(CoreError::ChannelClosed);
                    },
                };
                match self.push_batch(msg.payload) {
                    Ok(_) => {},
                    Err(e) => {
                        return Err(e);
                    },
                }
                // Drain messages already queued, without blocking and within the
                // iteration's budget.
                let ghost opts_at_iteration = self.opt_steps;
                let mut extra: usize = 0;
                while extra < DRAIN_BUDGET
                    invariant
                        self.wf(),
                        self.config == old(self).config,
                        self.opt_steps == opts_at_iteration,
                        self.opt_steps >= old(self).opt_steps,
                        self.init_opts == old(self).init_opts,
                        self.opt_steps < self.config.max_train_steps,
                        old(self).opt_steps_done() < old(self).max_steps(),
                    ensures
                        self.wf(),
                        self.config == old(self).config,
                        self.opt_steps == opts_at_iteration,
                        self.init_opts == old(self).init_opts,
                        self.opt_steps < self.config.max_train_steps,
                    decreases DRAIN_BUDGET - extra,
                {
                    match self.item_receiver.try_recv() {
                        Ok(m) => {
                            match self.push_batch(m.payload) {
                                Ok(_) => {},
                                Err(e) => {
                                    return Err(e);
                                },
                            }
                            extra = extra + 1;
                        },
                        Err(_) => {
                            break ;
                        },
                    }
                }
                // One optimization step.
                let record = self.agent.opt_with_record(&mut self.buffer);
                self.opt_steps = self.opt_steps + 1;
                recorder.store(record);
                proof {
                    lemma_div_step(self.opt_steps as int, self.config.sync_interval as int);
                }
                // Publish a snapshot at the sync cadence, best effort.
                if self.opt_steps % self.config.sync_interval == 0 {
                    proof {
                        self.agent.version_tracks_opts();
                        assert(self.published@.len() * self.config.sync_interval
                            + self.config.sync_interval == (self.published@.len() + 1)
                            * self.config.sync_interval) by (nonlinear_arith);
                    }
                    let (version, data) = self.agent.model_info();
                    let _ = self.model_sender.send(ModelSnapshot { version, data });
                    self.published.push(version);
                }
                // Flush aggregated records at the record cadence.
                if self.opt_steps % self.config.record_interval == 0 {
                    recorder.flush(#[verifier::truncate] (self.opt_steps as i64));
                }
                // Evaluate at the eval cadence; the evaluator owns its own
                // environment, constructed under the initialization guard.
                if self.opt_steps % self.config.eval_interval == 0 {
                    self.agent.eval();
                    let eval_record = match evaluator.evaluate(
                        &mut self.agent,
                        &self.env_config,
                        self.config.eval_episodes,
                        guard,
                    ) {
                        Ok(rec) => rec,
                        Err(e) => {
                            self.agent.train();
                            return Err(e);
                        },
                    };
                    recorder.store(eval_record);
                    self.agent.train();
                }
                // Persist parameters at the save cadence, best effort.
                if self.opt_steps % self.config.save_interval == 0 {
                    match &self.config.model_dir {
                        Some(dir) => {
                            let _ = self.agent.save_params(dir.as_str());
                        },
                        None => {},
                    }
                }
            }
        }
        // Terminal: signal every worker to unwind.
        self.stop.raise();
        Ok(TrainExit::Budget)
    }
}

} // verus!
