//! A faithful executable model of the whole engine under an explicit
//! interleaving.
//!
//! The threaded engine interleaves actor iterations and learner iterations
//! nondeterministically. This module replays that system against an explicit
//! schedule — any finite sequence of worker events — so that its global
//! properties are proved for every interleaving: experience is conserved
//! (every produced item is either still accumulated, in flight, or absorbed
//! by the buffer — each exactly once and in per-producer order), published
//! snapshot versions strictly increase, the replay buffer retains exactly the
//! newest items up to its capacity, and once the termination flag is raised
//! every worker stops within its next scheduled iteration.

use crate::arith::{lemma_div_mod_split, lemma_div_step, lemma_mod_step, lemma_zero_div_mod};
use crate::base::replay_buffer::ExperienceBufferBase;
use crate::replay_buffer::{ring_fold, ring_push, SimpleReplayBuffer};
use vstd::prelude::*;

verus! {

/// One transition item, identified by the actor that produced it and by that
/// actor's step count when it was produced.
#[derive(Clone, Copy, Debug, PartialEq, Eq, Structural)]
pub struct Item {
    /// The producing actor.
    pub producer: usize,
    /// The producer's step count when this item was produced, starting at 1.
    pub seq: usize,
}

/// One flushed batch in flight on the experience channel.
pub struct BatchMsg {
    /// The actor that flushed this batch.
    pub producer: usize,
    /// The batch: one item per environment step, in production order.
    pub items: Vec<Item>,
}

/// The state of one actor worker.
pub struct ActorModel {
    /// The actor's identity, also its seed.
    pub id: usize,
    /// Environment steps run so far.
    pub steps: usize,
    /// Items accumulated and not yet flushed.
    pub acc: Vec<Item>,
    /// The version of the last adopted model snapshot.
    pub model_version: usize,
    /// Whether this worker has observed the termination flag and unwound.
    pub stopped: bool,
}

/// One scheduled event: which worker runs one loop iteration, or an external
/// termination signal.
#[derive(Clone, Copy, Debug, PartialEq, Eq, Structural)]
pub enum SystemEvent {
    /// The given actor runs one iteration.
    Actor(usize),
    /// The learner runs one iteration.
    Trainer,
    /// Some party raises the termination flag.
    Stop,
}

/// The items a given actor has produced after a given number of steps, in
/// production order.
pub open spec fn produced(p: usize, steps: nat) -> Seq<Item> {
    Seq::new(steps, |k: int| Item { producer: p, seq: (k + 1) as usize })
}

/// The items of a given producer inside a drained log, in drain order.
pub open spec fn by_producer(s: Seq<Item>, p: usize) -> Seq<Item>
    decreases s.len(),
{
    if s.len() == 0 {
        Seq::empty()
    } else {
        by_producer(s.drop_last(), p) + (if s.last().producer == p {
            seq![s.last()]
        } else {
            Seq::empty()
        })
    }
}

/// The items of a given producer inside the in-flight channel, in channel
/// order.
pub open spec fn in_flight(ch: Seq<BatchMsg>, p: usize) -> Seq<Item>
    decreases ch.len(),
{
    if ch.len() == 0 {
        Seq::empty()
    } else {
        (if ch[0].producer == p {
            ch[0].items@
        } else {
            Seq::empty()
        }) + in_flight(ch.drop_first(), p)
    }
}

/// Appending a message to the channel appends its items to its producer's
/// in-flight sequence and leaves every other producer's untouched.
proof fn lemma_in_flight_push(ch: Seq<BatchMsg>, m: BatchMsg, p: usize)
    ensures
        in_flight(ch.push(m), p) == in_flight(ch, p) + (if m.producer == p {
            m.items@
        } else {
            Seq::<Item>::empty()
        }),
    decreases ch.len(),
{
    let tail = if m.producer == p {
        m.items@
    } else {
        Seq::<Item>::empty()
    };
    if ch.len() == 0 {
        assert(ch.push(m).drop_first() =~= Seq::<BatchMsg>::empty());
        assert(ch.push(m)[0] == m);
        assert(in_flight(ch.push(m).drop_first(), p) =~= Seq::<Item>::empty());
        assert(in_flight(ch, p) =~= Seq::<Item>::empty());
        assert(in_flight(ch.push(m), p) =~= tail + Seq::<Item>::empty());
        assert(tail + Seq::<Item>::empty() =~= in_flight(ch, p) + tail);
    } else {
        assert(ch.push(m).drop_first() =~= ch.drop_first().push(m));
        lemma_in_flight_push(ch.drop_first(), m, p);
        assert(in_flight(ch.push(m), p) =~= in_flight(ch, p) + tail);
    }
}

/// Appending items that all belong to one producer extends that producer's
/// drained sequence by exactly those items and leaves every other
/// producer's untouched.
proof fn lemma_by_producer_append(s: Seq<Item>, add: Seq<Item>, q: usize, p: usize)
    requires
        forall|j: int| 0 <= j < add.len() ==> (#[trigger] add[j]).producer == q,
    ensures
        by_producer(s + add, p) == by_producer(s, p) + (if p == q {
            add
        } else {
            Seq::<Item>::empty()
        }),
    decreases add.len(),
{
    if add.len() == 0 {
        assert(s + add =~= s);
        assert(by_producer(s, p) + (if p == q {
            add
        } else {
            Seq::<Item>::empty()
        }) =~= by_producer(s, p));
    } else {
        assert((s + add).drop_last() =~= s + add.drop_last());
        lemma_by_producer_append(s, add.drop_last(), q, p);
        assert((s + add).last() == add.last());
        if p == q {
            assert(by_producer(s, p) + add.drop_last() + seq![add.last()] =~= by_producer(s, p)
                + add);
            assert(by_producer(s + add, p) =~= by_producer(s, p) + add);
        } else {
            assert(by_producer(s + add, p) =~= by_producer(s, p));
        }
    }
}

/// The whole engine: the actor pool, both channels, the learner with its
/// replay buffer, and the shared termination flag.
pub struct SystemModel {
    /// The flush threshold of every actor.
    pub flush_threshold: usize,
    /// How many items the buffer must hold before optimization begins.
    pub warmup_period: usize,
    /// The snapshot-publication cadence, in optimization steps.
    pub sync_interval: usize,
    /// The optimization-step budget.
    pub max_train_steps: usize,
    /// The actor pool.
    pub actors: Vec<ActorModel>,
    /// The experience channel: flushed batches in flight, oldest first.
    pub channel: Vec<BatchMsg>,
    /// The model-update channel: published snapshot versions in flight.
    /// A shared queue — each snapshot is adopted by at most one actor.
    pub model_channel: Vec<usize>,
    /// The replay buffer, owned by the learner alone.
    pub buffer: SimpleReplayBuffer<Item>,
    /// Every item ever absorbed into the buffer, in absorption order.
    pub absorbed: Vec<Item>,
    /// Optimization steps performed.
    pub opt_steps: usize,
    /// Versions of the snapshots published so far, in publication order.
    pub published: Vec<usize>,
    /// Whether the learner has left its warmup state.
    pub warmed_up: bool,
    /// Whether the learner has terminated (budget reached or flag observed).
    pub trainer_done: bool,
    /// The shared termination flag; it only ever goes from false to true.
    pub flag: bool,
    /// Worker iterations executed so far.
    pub events: usize,
}

impl SystemModel {
    /// The invariant every event preserves. Its heart is the conservation
    /// equation: for every actor, what the buffer has absorbed from it, what
    /// is still in flight from it, and what it still accumulates — in that
    /// order — is exactly the sequence of items it has produced. No item is
    /// lost, duplicated or reordered anywhere in the pipeline.
    pub open spec fn wf(&self) -> bool {
        &&& self.actors@.len() <= usize::MAX
        &&& self.flush_threshold >= 1
        &&& self.sync_interval >= 1
        &&& self.max_train_steps >= 1
        &&& self.opt_steps <= self.max_train_steps
        &&& self.buffer.cap() >= 1
        &&& self.buffer@ == ring_fold(self.absorbed@, self.buffer.cap())
        &&& (self.opt_steps == self.max_train_steps ==> self.flag)
        &&& (self.trainer_done ==> self.flag)
        &&& forall|i: int|
            0 <= i < self.actors@.len() ==> (#[trigger] self.actors@[i]).id == i
        &&& forall|i: int|
            0 <= i < self.actors@.len() ==> (#[trigger] self.actors@[i]).acc@.len()
                == self.actors@[i].steps as int % self.flush_threshold as int
        &&& forall|i: int|
            0 <= i < self.actors@.len() ==> ((#[trigger] self.actors@[i]).stopped ==> self.flag)
        &&& forall|i: int|
            0 <= i < self.actors@.len() ==> (#[trigger] self.actors@[i]).steps <= self.events
        &&& forall|k: int|
            0 <= k < self.channel@.len() ==> {
                &&& (#[trigger] self.channel@[k]).producer < self.actors@.len()
                &&& self.channel@[k].items@.len() == self.flush_threshold
                &&& forall|j: int|
                    0 <= j < self.channel@[k].items@.len()
                        ==> (#[trigger] self.channel@[k].items@[j]).producer
                        == self.channel@[k].producer
            }
        &&& forall|k: int|
            0 <= k < self.absorbed@.len() ==> (#[trigger] self.absorbed@[k]).producer
                < self.actors@.len()
        &&& forall|i: int|
            0 <= i < self.actors@.len() ==> by_producer(self.absorbed@, i as usize)
                + in_flight(self.channel@, i as usize) + (#[trigger] self.actors@[i]).acc@
                == produced(i as usize, self.actors@[i].steps as nat)
        &&& self.published@.len() == self.opt_steps as int / self.sync_interval as int
        &&& forall|k: int|
            0 <= k < self.published@.len() ==> (#[trigger] self.published@[k]) as int == (k + 1)
                * self.sync_interval as int
    }

    /// A fresh system: every actor at step zero, both channels empty, the
    /// buffer empty, no optimization step taken, the flag down.
    pub fn new(
        n_actors: usize,
        flush_threshold: usize,
        warmup_period: usize,
        sync_interval: usize,
        max_train_steps: usize,
        capacity: usize,
    ) -> (r: SystemModel)
        requires
            n_actors >= 1,
            flush_threshold >= 1,
            sync_interval >= 1,
            max_train_steps >= 1,
            capacity >= 1,
        ensures
            r.wf(),
            r.actors@.len() == n_actors,
            r.flush_threshold == flush_threshold,
            r.warmup_period == warmup_period,
            r.sync_interval == sync_interval,
            r.max_train_steps == max_train_steps,
            r.opt_steps == 0,
            r.absorbed@.len() == 0,
            r.published@.len() == 0,
            r.channel@.len() == 0,
            !r.flag,
            !r.trainer_done,
            r.events == 0,
            forall|i: int|
                0 <= i < n_actors ==> (#[trigger] r.actors@[i]).steps == 0 && !r.actors@[i].stopped,
    {
        let mut actors: Vec<ActorModel> = Vec::new();
        let mut id: usize = 0;
        while id < n_actors
            invariant
                actors@.len() == id,
                id <= n_actors,
                forall|i: int|
                    0 <= i < actors@.len() ==> {
                        &&& (#[trigger] actors@[i]).id == i
                        &&& actors@[i].steps == 0
                        &&& actors@[i].acc@.len() == 0
                        &&& !actors@[i].stopped
                    },
            decreases n_actors - id,
        {
            actors.push(ActorModel { id, steps: 0, acc: Vec::new(), model_version: 0, stopped: false });
            id = id + 1;
        }
        let r = SystemModel {
            flush_threshold,
            warmup_period,
            sync_interval,
            max_train_steps,
            actors,
            channel: Vec::new(),
            model_channel: Vec::new(),
            buffer: SimpleReplayBuffer::with_capacity(capacity),
            absorbed: Vec::new(),
            opt_steps: 0,
            published: Vec::new(),
            warmed_up: false,
            trainer_done: false,
            flag: false,
            events: 0,
        };
        proof {
            lemma_zero_div_mod(flush_threshold as int);
            lemma_zero_div_mod(sync_interval as int);
            assert forall|i: int| 0 <= i < r.actors@.len() implies by_producer(
                r.absorbed@,
                i as usize,
            ) + in_flight(r.channel@, i as usize) + (#[trigger] r.actors@[i]).acc@ == produced(
                i as usize,
                r.actors@[i].steps as nat,
            ) by {
                assert(by_producer(r.absorbed@, i as usize) + in_flight(r.channel@, i as usize)
                    + r.actors@[i].acc@ =~= produced(i as usize, 0));
            }
        }
        r
    }

    /// One iteration of one actor: if the shared flag is observed raised, the
    /// worker unwinds; otherwise it runs one environment step, accumulates
    /// the produced item, flushes the batch once it reaches the threshold,
    /// and adopts a pending model snapshot if the shared queue holds one.
    pub fn actor_step(&mut self, i: usize)
        requires
            old(self).wf(),
            i < old(self).actors@.len(),
            old(self).events < usize::MAX,
        ensures
            final(self).wf(),
            final(self).actors@.len() == old(self).actors@.len(),
            final(self).flush_threshold == old(self).flush_threshold,
            final(self).sync_interval == old(self).sync_interval,
            final(self).max_train_steps == old(self).max_train_steps,
            final(self).warmup_period == old(self).warmup_period,
            final(self).events == old(self).events + 1,
            final(self).flag == old(self).flag,
            final(self).opt_steps == old(self).opt_steps,
            final(self).published == old(self).published,
            final(self).absorbed == old(self).absorbed,
            final(self).trainer_done == old(self).trainer_done,
            final(self).buffer@ == old(self).buffer@,
            forall|j: int|
                0 <= j < old(self).actors@.len() && j != i ==> final(self).actors@[j] == old(
                    self,
                ).actors@[j],
            old(self).flag ==> final(self).actors@[i as int].stopped && final(self).actors@[
                i as int
            ].steps == old(self).actors@[i as int].steps,
            !old(self).flag ==> final(self).actors@[i as int].steps == old(self).actors@[
                i as int
            ].steps + 1 && final(self).actors@[i as int].stopped == old(self).actors@[
                i as int
            ].stopped,
            old(self).actors@[i as int].stopped ==> final(self).actors@[i as int].stopped,
    {
        self.events = self.events + 1;
        // Observe the termination flag at the iteration boundary.
        if self.flag {
            self.actors[i].stopped = true;
            return ;
        }
        // One environment step; the produced item carries the new count.
        let steps_now = self.actors[i].steps;
        let item = Item { producer: i, seq: steps_now + 1 };
        self.actors[i].steps = steps_now + 1;
        self.actors[i].acc.push(item);
        proof {
            lemma_mod_step(steps_now + 1, self.flush_threshold as int);
            let prior = old(self).actors@[i as int].acc@;
            assert(produced(i, (steps_now + 1) as nat) =~= produced(i, steps_now as nat).push(
                item,
            ));
            assert(by_producer(self.absorbed@, i) + in_flight(self.channel@, i) + prior.push(item)
                =~= (by_producer(self.absorbed@, i) + in_flight(self.channel@, i) + prior).push(
                item,
            ));
        }
        // Flush once the accumulator reaches the threshold.
        if self.actors[i].acc.len() == self.flush_threshold {
            let mut items: Vec<Item> = Vec::new();
            std::mem::swap(&mut items, &mut self.actors[i].acc);
            let ghost full = items@;
            let ghost ch_before = self.channel@;
            proof {
                let eq = by_producer(self.absorbed@, i) + in_flight(self.channel@, i) + full;
                assert forall|j: int| 0 <= j < full.len() implies (#[trigger] full[j]).producer
                    == i by {
                    let base = by_producer(self.absorbed@, i).len() + in_flight(
                        self.channel@,
                        i,
                    ).len();
                    assert(full[j] == eq[base + j]);
                    assert(eq[base + j] == produced(i, (steps_now + 1) as nat)[base + j]);
                }
            }
            let msg = BatchMsg { producer: i, items };
            self.channel.push(msg);
            proof {
                let absorbed = self.absorbed@;
                assert forall|j: int| 0 <= j < self.actors@.len() implies by_producer(
                    absorbed,
                    j as usize,
                ) + in_flight(self.channel@, j as usize) + (#[trigger] self.actors@[j]).acc@
                    == produced(j as usize, self.actors@[j].steps as nat) by {
                    lemma_in_flight_push(ch_before, self.channel@.last(), j as usize);
                    if j == i {
                        assert(self.actors@[j].acc@ =~= Seq::<Item>::empty());
                        assert(by_producer(absorbed, j as usize) + (in_flight(ch_before, j as usize)
                            + full) + self.actors@[j].acc@ =~= by_producer(absorbed, j as usize)
                            + in_flight(ch_before, j as usize) + full);
                        assert(in_flight(self.channel@, j as usize) =~= in_flight(
                            ch_before,
                            j as usize,
                        ) + full);
                        assert(by_producer(absorbed, j as usize) + in_flight(
                            self.channel@,
                            j as usize,
                        ) + self.actors@[j].acc@ =~= by_producer(absorbed, j as usize) + in_flight(
                            ch_before,
                            j as usize,
                        ) + full);
                    } else {
                        assert(in_flight(self.channel@, j as usize) =~= in_flight(
                            ch_before,
                            j as usize,
                        ));
                        assert(by_producer(absorbed, j as usize) + in_flight(
                            self.channel@,
                            j as usize,
                        ) + self.actors@[j].acc@ =~= by_producer(absorbed, j as usize) + in_flight(
                            ch_before,
                            j as usize,
                        ) + self.actors@[j].acc@);
                    }
                }
            }
        }
        // Opportunistic model refresh from the shared snapshot queue.
        if self.model_channel.len() > 0 {
            let v = self.model_channel.remove(0);
            self.actors[i].model_version = v;
        }
    }

    /// One iteration of the learner: once terminated it does nothing; if the
    /// shared flag is observed raised it terminates; with no pending message
    /// it stays blocked on its receive; otherwise it drains the oldest
    /// flushed batch into the replay buffer and — once warmed up — performs
    /// one optimization step, publishing a snapshot stamped with the
    /// optimization-step counter at the sync cadence and raising the flag
    /// when the budget is reached.
    pub fn trainer_step(&mut self)
        requires
            old(self).wf(),
            old(self).events < usize::MAX,
        ensures
            final(self).wf(),
            final(self).actors == old(self).actors,
            final(self).flush_threshold == old(self).flush_threshold,
            final(self).sync_interval == old(self).sync_interval,
            final(self).max_train_steps == old(self).max_train_steps,
            final(self).warmup_period == old(self).warmup_period,
            final(self).events == old(self).events + 1,
            old(self).flag ==> final(self).flag,
            old(self).flag ==> final(self).trainer_done,
            old(self).trainer_done ==> final(self).trainer_done,
            final(self).opt_steps >= old(self).opt_steps,
    {
        self.events = self.events + 1;
        if self.trainer_done {
            return ;
        }
        // Observe the termination flag at the iteration boundary.
        if self.flag {
            self.trainer_done = true;
            return ;
        }
        // A blocking receive: with nothing pending, the learner just waits.
        if self.channel.len() == 0 {
            return ;
        }
        let msg = self.channel.remove(0);
        let ghost ch_after = self.channel@;
        let ghost absorbed_before = self.absorbed@;
        proof {
            assert(ch_after =~= old(self).channel@.drop_first());
        }
        // Drain the batch into the buffer, item by item.
        let ghost cap = self.buffer.cap();
        let mut k: usize = 0;
        let n = msg.items.len();
        while k < n
            invariant
                k <= n,
                n == msg.items@.len(),
                self.absorbed@ == absorbed_before + msg.items@.subrange(0, k as int),
                self.buffer@ == ring_fold(self.absorbed@, cap),
                self.buffer.cap() == cap,
                self.actors == old(self).actors,
                self.channel@ == ch_after,
                self.model_channel == old(self).model_channel,
                self.opt_steps == old(self).opt_steps,
                self.published == old(self).published,
                self.warmed_up == old(self).warmed_up,
                self.trainer_done == old(self).trainer_done,
                self.flag == old(self).flag,
                self.events == old(self).events + 1,
                self.flush_threshold == old(self).flush_threshold,
                self.sync_interval == old(self).sync_interval,
                self.max_train_steps == old(self).max_train_steps,
                self.warmup_period == old(self).warmup_period,
            decreases n - k,
        {
            let item = msg.items[k];
            let ghost absorbed_prior = self.absorbed@;
            self.absorbed.push(item);
            let _ = self.buffer.push(item);
            proof {
                assert(self.absorbed@.drop_last() =~= absorbed_prior);
                assert(ring_fold(self.absorbed@, cap) == ring_push(
                    ring_fold(absorbed_prior, cap),
                    item,
                    cap,
                ));
                assert(self.absorbed@ =~= absorbed_before + msg.items@.subrange(0, k + 1));
            }
            k = k + 1;
        }
        proof {
            assert(msg.items@.subrange(0, n as int) =~= msg.items@);
            let absorbed_now = self.absorbed@;
            let q = msg.producer;
            assert forall|j: int| 0 <= j < self.actors@.len() implies by_producer(
                absorbed_now,
                j as usize,
            ) + in_flight(ch_after, j as usize) + (#[trigger] self.actors@[j]).acc@ == produced(
                j as usize,
                self.actors@[j].steps as nat,
            ) by {
                assert(by_producer(absorbed_before, j as usize) + in_flight(
                    old(self).channel@,
                    j as usize,
                ) + old(self).actors@[j].acc@ == produced(
                    j as usize,
                    old(self).actors@[j].steps as nat,
                ));
                lemma_by_producer_append(absorbed_before, msg.items@, q, j as usize);
                if j == q {
                    assert(in_flight(old(self).channel@, q) =~= msg.items@ + in_flight(
                        ch_after,
                        q,
                    ));
                    assert((by_producer(absorbed_before, q) + msg.items@) + in_flight(ch_after, q)
                        + self.actors@[j].acc@ =~= by_producer(absorbed_before, q) + (msg.items@
                        + in_flight(ch_after, q)) + self.actors@[j].acc@);
                } else {
                    assert(in_flight(old(self).channel@, j as usize) =~= in_flight(
                        ch_after,
                        j as usize,
                    ));
                }
            }
        }
        // Warmup absorbs only; training performs one optimization step.
        if !self.warmed_up {
            if self.buffer.len() >= self.warmup_period {
                self.warmed_up = true;
            }
        } else {
            self.opt_steps = self.opt_steps + 1;
            proof {
                lemma_div_step(self.opt_steps as int, self.sync_interval as int);
            }
            // Publish at the sync cadence: the version is the counter itself.
            if self.opt_steps % self.sync_interval == 0 {
                let v = self.opt_steps;
                self.model_channel.push(v);
                self.published.push(v);
            }
            // Terminal: budget reached; raise the shared flag.
            if self.opt_steps == self.max_train_steps {
                self.flag = true;
                self.trainer_done = true;
            }
        }
    }

    /// Raises the shared termination flag, as the pool manager's stop
    /// operation does. The flag is monotone: it is never reset.
    pub fn stop(&mut self)
        requires
            old(self).wf(),
        ensures
            final(self).wf(),
            final(self).flag,
            *final(self) == (SystemModel { flag: true, ..*old(self) }),
    {
        self.flag = true;
    }

    /// Replays the whole engine under an explicit interleaving: each entry of
    /// the schedule runs one worker iteration (an actor index beyond the pool
    /// is ignored) or raises the flag. The invariant — and with it every
    /// conservation law — holds whatever the schedule; and once the flag is
    /// up, every worker unwinds at its next scheduled iteration, which is the
    /// bounded-termination guarantee.
    pub fn run(&mut self, schedule: &Vec<SystemEvent>)
        requires
            old(self).wf(),
            old(self).events + schedule@.len() <= usize::MAX,
        ensures
            final(self).wf(),
            final(self).actors@.len() == old(self).actors@.len(),
            final(self).flush_threshold == old(self).flush_threshold,
            final(self).sync_interval == old(self).sync_interval,
            final(self).max_train_steps == old(self).max_train_steps,
            final(self).warmup_period == old(self).warmup_period,
            old(self).flag ==> final(self).flag,
            old(self).flag ==> forall|k: int|
                0 <= k < schedule@.len() ==> match #[trigger] schedule@[k] {
                    SystemEvent::Actor(i) => i < final(self).actors@.len()
                        ==> final(self).actors@[i as int].stopped,
                    SystemEvent::Trainer => final(self).trainer_done,
                    SystemEvent::Stop => true,
                },
            forall|k1: int, k2: int|
                #![trigger schedule@[k1], schedule@[k2]]
                0 <= k1 < k2 < schedule@.len() && schedule@[k1] == SystemEvent::Stop ==> match
                    schedule@[k2] {
                    SystemEvent::Actor(i) => i < final(self).actors@.len()
                        ==> final(self).actors@[i as int].stopped,
                    SystemEvent::Trainer => final(self).trainer_done,
                    SystemEvent::Stop => true,
                },
    {
        let mut idx: usize = 0;
        let n = schedule.len();
        while idx < n
            invariant
                idx <= n,
                n == schedule@.len(),
                old(self).events + n <= usize::MAX,
                self.wf(),
                self.actors@.len() == old(self).actors@.len(),
                self.flush_threshold == old(self).flush_threshold,
                self.sync_interval == old(self).sync_interval,
                self.max_train_steps == old(self).max_train_steps,
                self.warmup_period == old(self).warmup_period,
                self.events <= old(self).events + idx,
                old(self).flag ==> self.flag,
                old(self).flag ==> forall|k: int|
                    0 <= k < idx ==> match #[trigger] schedule@[k] {
                        SystemEvent::Actor(i) => i < self.actors@.len()
                            ==> self.actors@[i as int].stopped,
                        SystemEvent::Trainer => self.trainer_done,
                        SystemEvent::Stop => true,
                    },
                forall|k: int|
                    0 <= k < idx && #[trigger] schedule@[k] == SystemEvent::Stop ==> self.flag,
                forall|k1: int, k2: int|
                    #![trigger schedule@[k1], schedule@[k2]]
                    0 <= k1 < k2 < idx && schedule@[k1] == SystemEvent::Stop
                        ==> match schedule@[k2] {
                        SystemEvent::Actor(i) => i < self.actors@.len()
                            ==> self.actors@[i as int].stopped,
                        SystemEvent::Trainer => self.trainer_done,
                        SystemEvent::Stop => true,
                    },
            decreases n - idx,
        {
            let ghost pre = *self;
            let event = schedule[idx];
            match event {
                SystemEvent::Actor(i) => {
                    if i < self.actors.len() {
                        self.actor_step(i);
                    }
                },
                SystemEvent::Trainer => {
                    self.trainer_step();
                },
                SystemEvent::Stop => {
                    self.stop();
                },
            }
            proof {
                if old(self).flag {
                    assert forall|k: int| 0 <= k < idx + 1 implies match #[trigger] schedule@[k] {
                        SystemEvent::Actor(i) => i < self.actors@.len()
                            ==> self.actors@[i as int].stopped,
                        SystemEvent::Trainer => self.trainer_done,
                        SystemEvent::Stop => true,
                    } by {
                        if k < idx {
                            assert(match schedule@[k] {
                                SystemEvent::Actor(i) => i < pre.actors@.len()
                                    ==> pre.actors@[i as int].stopped,
                                SystemEvent::Trainer => pre.trainer_done,
                                SystemEvent::Stop => true,
                            });
                        }
                    }
                }
                assert forall|k1: int, k2: int|
                    #![trigger schedule@[k1], schedule@[k2]]
                    0 <= k1 < k2 < idx + 1 && schedule@[k1]
                        == SystemEvent::Stop implies match schedule@[k2] {
                    SystemEvent::Actor(i) => i < self.actors@.len()
                        ==> self.actors@[i as int].stopped,
                    SystemEvent::Trainer => self.trainer_done,
                    SystemEvent::Stop => true,
                } by {
                    if k2 < idx {
                        assert(match schedule@[k2] {
                            SystemEvent::Actor(i) => i < pre.actors@.len()
                                ==> pre.actors@[i as int].stopped,
                            SystemEvent::Trainer => pre.trainer_done,
                            SystemEvent::Stop => true,
                        });
                    } else {
                        assert(pre.flag);
                    }
                }
            }
            idx = idx + 1;
        }
    }
}

/// How many items a pool has flushed in full batches: for each actor, its
/// full batches of `flush_threshold` items each.
pub open spec fn flushed_items_total(actors: Seq<ActorModel>, t: int) -> int
    decreases actors.len(),
{
    if actors.len() == 0 {
        0
    } else {
        flushed_items_total(actors.drop_last(), t) + (actors.last().steps as int / t) * t
    }
}

/// The drained log, split by producer and summed over the first `n`
/// producers.
pub open spec fn partition_total(s: Seq<Item>, n: nat) -> int
    decreases n,
{
    if n == 0 {
        0
    } else {
        partition_total(s, (n - 1) as nat) + by_producer(s, (n - 1) as usize).len()
    }
}

/// An empty log has an empty share for every producer.
proof fn lemma_partition_empty(s: Seq<Item>, n: nat)
    requires
        s.len() == 0,
    ensures
        partition_total(s, n) == 0,
    decreases n,
{
    if n > 0 {
        lemma_partition_empty(s, (n - 1) as nat);
    }
}

/// Dropping the last item of the log lowers exactly its producer's share.
proof fn lemma_partition_drop_last(s: Seq<Item>, n: nat)
    requires
        s.len() >= 1,
        n <= usize::MAX,
    ensures
        partition_total(s, n) == partition_total(s.drop_last(), n) + (if s.last().producer < n {
            1int
        } else {
            0int
        }),
    decreases n,
{
    if n > 0 {
        lemma_partition_drop_last(s, (n - 1) as nat);
    }
}

/// Every item belongs to exactly one producer, so the shares of all
/// producers partition the log.
proof fn lemma_partition(s: Seq<Item>, n: nat)
    requires
        n <= usize::MAX,
        forall|k: int| 0 <= k < s.len() ==> (#[trigger] s[k]).producer < n,
    ensures
        partition_total(s, n) == s.len(),
    decreases s.len(),
{
    if s.len() == 0 {
        lemma_partition_empty(s, n);
    } else {
        lemma_partition(s.drop_last(), n);
        lemma_partition_drop_last(s, n);
    }
}

/// With the per-producer shares equal to each actor's flushed items, the
/// partition sum is the pool's flushed total.
proof fn lemma_partition_matches_flushed(s: Seq<Item>, actors: Seq<ActorModel>, t: int)
    requires
        t >= 1,
        forall|i: int|
            0 <= i < actors.len() ==> by_producer(s, i as usize).len()
                == ((#[trigger] actors[i]).steps as int / t) * t,
    ensures
        partition_total(s, actors.len()) == flushed_items_total(actors, t),
    decreases actors.len(),
{
    if actors.len() > 0 {
        lemma_partition_matches_flushed(s, actors.drop_last(), t);
    }
}

impl SystemModel {
    /// No loss, no duplication, no reordering: for any actor, what the buffer
    /// absorbed from it, what is still in flight from it, and what it still
    /// accumulates — in that order — is exactly what it produced, whatever
    /// interleaving led here.
    pub proof fn lemma_no_loss_no_duplication(&self, i: int)
        requires
            self.wf(),
            0 <= i < self.actors@.len(),
        ensures
            by_producer(self.absorbed@, i as usize) + in_flight(self.channel@, i as usize)
                + self.actors@[i].acc@ == produced(i as usize, self.actors@[i].steps as nat),
    {
    }

    /// Conservation: once the experience channel is drained, the number of
    /// items absorbed into the replay buffer is exactly the sum over all
    /// actors of their full flushes — `flush_threshold` items for every
    /// `steps / flush_threshold` batches — with the unflushed remainders
    /// still accumulated at the actors.
    pub proof fn lemma_conservation(&self)
        requires
            self.wf(),
            self.channel@.len() == 0,
        ensures
            self.absorbed@.len() == flushed_items_total(
                self.actors@,
                self.flush_threshold as int,
            ),
    {
        let t = self.flush_threshold as int;
        assert forall|i: int| 0 <= i < self.actors@.len() implies by_producer(
            self.absorbed@,
            i as usize,
        ).len() == ((#[trigger] self.actors@[i]).steps as int / t) * t by {
            assert(by_producer(self.absorbed@, i as usize) + in_flight(self.channel@, i as usize)
                + self.actors@[i].acc@ == produced(i as usize, self.actors@[i].steps as nat));
            assert(in_flight(self.channel@, i as usize) =~= Seq::<Item>::empty());
            lemma_div_mod_split(self.actors@[i].steps as int, t);
        }
        lemma_partition(self.absorbed@, self.actors@.len());
        lemma_partition_matches_flushed(self.absorbed@, self.actors@, t);
    }

    /// Monotone snapshot versions: the published versions strictly increase,
    /// each being the optimization-step counter at its extraction — one full
    /// sync interval after the previous one.
    pub proof fn lemma_published_strictly_increasing(&self)
        requires
            self.wf(),
        ensures
            forall|k1: int, k2: int|
                0 <= k1 < k2 < self.published@.len() ==> #[trigger] self.published@[k1]
                    < #[trigger] self.published@[k2],
    {
        assert forall|k1: int, k2: int|
            0 <= k1 < k2 < self.published@.len() implies #[trigger] self.published@[k1]
            < #[trigger] self.published@[k2] by {
            assert(((k1 + 1) * (self.sync_interval as int)) < ((k2 + 1) * (
            self.sync_interval as int))) by (nonlinear_arith)
                requires
                    k1 < k2,
                    self.sync_interval >= 1,
            ;
        }
    }

    /// Capacity bound on what the core forwards: the buffer resides exactly
    /// the newest `capacity` absorbed items — once more than `capacity` items
    /// have been absorbed, the oldest have been evicted first.
    pub proof fn lemma_buffer_retention(&self)
        requires
            self.wf(),
        ensures
            self.buffer@.len() == if self.absorbed@.len() <= self.buffer.cap() {
                self.absorbed@.len()
            } else {
                self.buffer.cap()
            },
            self.absorbed@.len() > self.buffer.cap() ==> self.buffer@ =~= self.absorbed@.skip(
                self.absorbed@.len() - self.buffer.cap(),
            ),
    {
        crate::replay_buffer::lemma_ring_retention(self.absorbed@, self.buffer.cap());
    }
}

} // verus!
