//! Scenario runs of the interleaved system model: the conservation,
//! termination and snapshot-version guarantees observed on concrete
//! schedules.

use border::system::{SystemEvent, SystemModel};

fn total_in_channel(model: &SystemModel) -> usize {
    let mut total = 0;
    for msg in model.channel.iter() {
        total += msg.items.len();
    }
    total
}

fn total_accumulated(model: &SystemModel) -> usize {
    let mut total = 0;
    for actor in model.actors.iter() {
        total += actor.acc.len();
    }
    total
}

fn total_steps(model: &SystemModel) -> usize {
    let mut total = 0;
    for actor in model.actors.iter() {
        total += actor.steps;
    }
    total
}

/// A round-robin schedule: every actor steps once, then the learner runs the
/// given number of iterations.
fn round_robin(n_actors: usize, trainer_turns: usize, rounds: usize) -> Vec<SystemEvent> {
    let mut schedule = Vec::new();
    for _ in 0..rounds {
        for i in 0..n_actors {
            schedule.push(SystemEvent::Actor(i));
        }
        for _ in 0..trainer_turns {
            schedule.push(SystemEvent::Trainer);
        }
    }
    schedule
}

#[test]
fn end_to_end_scenario_round_robin() {
    // Two actors flushing every five steps, warmup ten, sync every five of
    // fifteen optimization steps.
    let mut model = SystemModel::new(2, 5, 10, 5, 15, 10000);
    let schedule = round_robin(2, 1, 400);
    model.run(&schedule);

    // The budget was reached, the flag raised, and both actors unwound.
    assert_eq!(model.opt_steps, 15);
    assert!(model.flag);
    assert!(model.trainer_done);
    assert!(model.actors[0].stopped);
    assert!(model.actors[1].stopped);

    // Snapshot versions are the counter at extraction, strictly increasing.
    assert_eq!(model.published, vec![5, 10, 15]);
}

#[test]
fn conservation_with_drained_channel() {
    // Two actors run twenty-five steps each (five full flushes each), then
    // only the learner runs until the channel is drained; the budget is
    // large enough that it never terminates the run.
    let mut model = SystemModel::new(2, 5, 10, 5, 1000, 10000);
    let mut schedule = Vec::new();
    for _ in 0..25 {
        schedule.push(SystemEvent::Actor(0));
        schedule.push(SystemEvent::Actor(1));
    }
    for _ in 0..20 {
        schedule.push(SystemEvent::Trainer);
    }
    model.run(&schedule);

    // Every flushed message was drained.
    assert_eq!(model.channel.len(), 0);

    // Absorbed items are exactly the full flushes: 2 actors times
    // (25 / 5) flushes of 5 items.
    assert_eq!(model.absorbed.len(), 2 * (25 / 5) * 5);
    assert_eq!(model.actors[0].acc.len(), 0);
    assert_eq!(model.actors[1].acc.len(), 0);
}

#[test]
fn conservation_under_arbitrary_interleavings() {
    // A lopsided, bursty schedule; the count of items absorbed, in flight
    // and accumulated always equals the count of items produced, and each
    // actor holds exactly its unflushed remainder.
    let mut model = SystemModel::new(3, 4, 8, 2, 50, 64);
    let mut schedule = Vec::new();
    for k in 0..300usize {
        match k % 7 {
            0 | 1 => schedule.push(SystemEvent::Actor(0)),
            2 => schedule.push(SystemEvent::Actor(1)),
            3 | 4 | 5 => schedule.push(SystemEvent::Actor(2)),
            _ => schedule.push(SystemEvent::Trainer),
        }
    }
    model.run(&schedule);

    let produced = total_steps(&model);
    let held = model.absorbed.len() + total_in_channel(&model) + total_accumulated(&model);
    assert_eq!(held, produced);
    for actor in model.actors.iter() {
        assert_eq!(actor.acc.len(), actor.steps % 4);
    }
}

#[test]
fn no_duplication_each_item_exactly_once() {
    // Each produced item is identified by (producer, sequence number); after
    // an arbitrary run, the pipeline holds every produced identity exactly
    // once.
    let mut model = SystemModel::new(2, 3, 3, 2, 40, 1000);
    let schedule = round_robin(2, 2, 30);
    model.run(&schedule);

    let mut seen = std::collections::HashSet::new();
    let mut count = 0usize;
    for item in model.absorbed.iter() {
        assert!(seen.insert((item.producer, item.seq)));
        count += 1;
    }
    for msg in model.channel.iter() {
        for item in msg.items.iter() {
            assert!(seen.insert((item.producer, item.seq)));
            count += 1;
        }
    }
    for actor in model.actors.iter() {
        for item in actor.acc.iter() {
            assert!(seen.insert((item.producer, item.seq)));
            count += 1;
        }
    }
    // Exactly the produced identities, no more and no less.
    assert_eq!(count, total_steps(&model));
    for actor in model.actors.iter() {
        for seq in 1..=actor.steps {
            assert!(seen.contains(&(actor.id, seq)));
        }
    }
}

#[test]
fn termination_after_external_stop() {
    // The flag is raised externally; every worker unwinds within its next
    // scheduled iteration and no further step is run.
    let mut model = SystemModel::new(2, 5, 10, 5, 100, 1000);
    let warmup_schedule = round_robin(2, 1, 10);
    model.run(&warmup_schedule);
    let steps_before = (model.actors[0].steps, model.actors[1].steps);

    let mut rest = vec![SystemEvent::Stop];
    rest.push(SystemEvent::Actor(0));
    rest.push(SystemEvent::Actor(1));
    rest.push(SystemEvent::Trainer);
    model.run(&rest);

    assert!(model.flag);
    assert!(model.actors[0].stopped);
    assert!(model.actors[1].stopped);
    assert!(model.trainer_done);
    assert_eq!(model.actors[0].steps, steps_before.0);
    assert_eq!(model.actors[1].steps, steps_before.1);
}

#[test]
fn warmup_precedes_optimization() {
    // With warmup eight and flush threshold four, the learner absorbs two
    // messages before its first optimization step.
    let mut model = SystemModel::new(1, 4, 8, 1, 10, 100);
    let mut schedule = Vec::new();
    for _ in 0..4 {
        schedule.push(SystemEvent::Actor(0));
    }
    schedule.push(SystemEvent::Trainer);
    model.run(&schedule);
    // One message absorbed: four items, still warming up.
    assert_eq!(model.opt_steps, 0);
    assert!(!model.warmed_up);

    let mut schedule = Vec::new();
    for _ in 0..4 {
        schedule.push(SystemEvent::Actor(0));
    }
    schedule.push(SystemEvent::Trainer);
    schedule.push(SystemEvent::Trainer);
    model.run(&schedule);
    // Second message warmed the learner up; it did not optimize on the
    // warming iteration, and the next iteration had nothing to drain.
    assert_eq!(model.opt_steps, 0);
    assert!(model.warmed_up);

    let mut schedule = Vec::new();
    for _ in 0..4 {
        schedule.push(SystemEvent::Actor(0));
    }
    schedule.push(SystemEvent::Trainer);
    model.run(&schedule);
    assert_eq!(model.opt_steps, 1);
}

#[test]
fn snapshots_reach_one_actor_each() {
    // The model-update channel is a shared queue: each published snapshot is
    // adopted by at most one actor.
    let mut model = SystemModel::new(2, 2, 2, 1, 6, 100);
    let schedule = round_robin(2, 2, 30);
    model.run(&schedule);
    assert_eq!(model.published, vec![1, 2, 3, 4, 5, 6]);
    // Whatever was adopted plus whatever is still queued is exactly what was
    // published.
    let adopted_max = model
        .actors
        .iter()
        .map(|a| a.model_version)
        .max()
        .unwrap();
    assert!(adopted_max <= 6);
    assert!(model.model_channel.len() <= 6);
}
