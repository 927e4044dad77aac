//! End-to-end runs of the threaded engine with the deterministic fixtures.

use border::actor::ActorStatus;
use border::actor_manager::{ActorManager, ActorManagerConfig};
use border::async_trainer::{AsyncTrainer, AsyncTrainerConfig, NullEvaluator, TrainExit};
use border::flag::StopFlag;
use border::guard::InitGuard;
use border::messages::{ModelSnapshot, PushedItemMessage};
use border::record::BufferedRecorder;
use border::replay_buffer::{
    SimpleReplayBuffer, SimpleReplayBufferConfig, SimpleStepProcessor, SimpleStepProcessorConfig,
};
use border::base::Policy;
use border::util::test::{env_config, Env, EnvStep, RandomAgent, RandomAgentConfig};

type StepProc = SimpleStepProcessor<Env>;
type ReplayBuffer = SimpleReplayBuffer<EnvStep>;
type ActorManager_ = ActorManager<RandomAgent, Env, StepProc>;
type AsyncTrainer_ = AsyncTrainer<RandomAgent, Env, ReplayBuffer>;

fn replay_buffer_config() -> SimpleReplayBufferConfig {
    SimpleReplayBufferConfig::default()
}

fn actor_man_config() -> ActorManagerConfig {
    ActorManagerConfig::default()
}

fn async_trainer_config() -> AsyncTrainerConfig {
    AsyncTrainerConfig {
        model_dir: Some("".to_string()),
        record_interval: 5,
        eval_interval: 105,
        max_train_steps: 15,
        save_interval: 5,
        sync_interval: 5,
        eval_episodes: 1,
        warmup_period: 10,
    }
}

#[test]
fn test_async_trainer() {
    let env_config = env_config("pong".to_string());
    let env = <Env as border::base::Env>::build(&env_config, 0).unwrap();
    let n_acts = env.get_num_actions_atari();
    let agent_config = RandomAgentConfig { n_acts };
    let step_proc_config = SimpleStepProcessorConfig::default();
    let replay_buffer_config = replay_buffer_config();
    let actor_man_config = actor_man_config();
    let async_trainer_config = async_trainer_config();
    let agent_configs = vec![agent_config.clone(); 2];

    let mut recorder = BufferedRecorder::new();
    let mut evaluator = NullEvaluator {};

    // Shared flag to stop actor threads.
    let stop = StopFlag::new();

    // Pushed items into the replay buffer.
    let (item_s, item_r) = crossbeam_channel::unbounded::<PushedItemMessage<Vec<EnvStep>>>();

    // Synchronizing the model.
    let (model_s, model_r) = crossbeam_channel::unbounded::<ModelSnapshot<()>>();

    // Prevents simultaneous initialization of environments.
    let guard_init_env = InitGuard::new();

    let actors = ActorManager_::build(
        &actor_man_config,
        &agent_configs,
        &env_config,
        &step_proc_config,
        item_s,
        model_r,
        stop.share(),
    )
    .unwrap();
    let mut trainer = AsyncTrainer_::build(
        &async_trainer_config,
        &agent_config,
        &env_config,
        &replay_buffer_config,
        item_r,
        model_s,
        stop.share(),
    )
    .unwrap();

    let pool = actors.make_actors();
    assert_eq!(pool.len(), 2);

    crossbeam::thread::scope(|s| {
        for mut actor in pool {
            let sender = actors.sender().clone();
            let receiver = actors.model_receiver().clone();
            let guard = guard_init_env.share();
            s.spawn(move |_| {
                loop {
                    match actor.step(&sender, &receiver, &guard) {
                        Ok(ActorStatus::Running) => {}
                        _ => break,
                    }
                }
            });
        }
        let exit = trainer
            .train(&mut recorder, &mut evaluator, &guard_init_env)
            .unwrap();
        assert_eq!(exit, TrainExit::Budget);
        actors.stop();
    })
    .unwrap();

    assert_eq!(trainer.n_opt_steps(), 15);
    assert_eq!(trainer.agent().n_opts_steps(), 15);
    assert_eq!(trainer.published().clone(), vec![5, 10, 15]);
}

#[test]
fn actor_observes_stop_flag_within_one_iteration() {
    let env_config = env_config("pong".to_string());
    let agent_config = RandomAgentConfig { n_acts: 6 };
    let step_proc_config = SimpleStepProcessorConfig::default();
    let stop = StopFlag::new();
    let guard = InitGuard::new();
    let (item_s, _item_r) = crossbeam_channel::unbounded::<PushedItemMessage<Vec<EnvStep>>>();
    let (_model_s, model_r) = crossbeam_channel::unbounded::<ModelSnapshot<()>>();

    let mut actor = border::actor::Actor::<RandomAgent, Env, StepProc>::build(
        0,
        agent_config,
        env_config,
        &step_proc_config,
        3,
        stop.share(),
        0,
    );

    // While the flag is down the actor keeps running.
    let status = actor.step(&item_s, &model_r, &guard).unwrap();
    assert_eq!(status, ActorStatus::Running);

    // Once any party raises the flag, the very next iteration unwinds.
    stop.raise();
    let status = actor.step(&item_s, &model_r, &guard).unwrap();
    assert_eq!(status, ActorStatus::Stopped);
}

#[test]
fn actor_flushes_full_batches_only() {
    let env_config = env_config("pong".to_string());
    let agent_config = RandomAgentConfig { n_acts: 6 };
    let step_proc_config = SimpleStepProcessorConfig::default();
    let stop = StopFlag::new();
    let guard = InitGuard::new();
    let (item_s, item_r) = crossbeam_channel::unbounded::<PushedItemMessage<Vec<EnvStep>>>();
    let (_model_s, model_r) = crossbeam_channel::unbounded::<ModelSnapshot<()>>();

    let mut actor = border::actor::Actor::<RandomAgent, Env, StepProc>::build(
        7,
        agent_config,
        env_config,
        &step_proc_config,
        3,
        stop.share(),
        7,
    );

    for _ in 0..7 {
        let status = actor.step(&item_s, &model_r, &guard).unwrap();
        assert_eq!(status, ActorStatus::Running);
    }

    // Seven steps at threshold three: two full flushes, one item left over.
    let mut received = Vec::new();
    while let Ok(msg) = item_r.try_recv() {
        assert_eq!(msg.id, 7);
        assert_eq!(msg.payload.len(), 3);
        received.push(msg);
    }
    assert_eq!(received.len(), 2);
}

#[test]
fn actor_send_on_disconnected_channel_is_fatal() {
    let env_config = env_config("pong".to_string());
    let agent_config = RandomAgentConfig { n_acts: 6 };
    let step_proc_config = SimpleStepProcessorConfig::default();
    let stop = StopFlag::new();
    let guard = InitGuard::new();
    let (item_s, item_r) = crossbeam_channel::unbounded::<PushedItemMessage<Vec<EnvStep>>>();
    let (_model_s, model_r) = crossbeam_channel::unbounded::<ModelSnapshot<()>>();

    let mut actor = border::actor::Actor::<RandomAgent, Env, StepProc>::build(
        0,
        agent_config,
        env_config,
        &step_proc_config,
        1,
        stop.share(),
        0,
    );
    drop(item_r);
    // With a flush threshold of one, the very first iteration flushes, and
    // the disconnected channel is fatal to this actor.
    let r = actor.step(&item_s, &model_r, &guard);
    assert_eq!(r.unwrap_err(), border::errors::CoreError::ChannelClosed);
}

#[test]
fn random_agent_samples_within_action_range() {
    let mut agent =
        <RandomAgent as border::base::Configurable>::build(RandomAgentConfig { n_acts: 6 });
    let obs = border::util::test::Obs { frames: vec![0; 4] };
    for _ in 0..100 {
        let act = agent.sample(&obs);
        assert!(act.act < 6);
    }
}

#[test]
fn manager_rejects_mismatched_configurations() {
    let env_config = env_config("pong".to_string());
    let step_proc_config = SimpleStepProcessorConfig::default();
    let stop = StopFlag::new();
    let (item_s, _item_r) = crossbeam_channel::unbounded::<PushedItemMessage<Vec<EnvStep>>>();
    let (_model_s, model_r) = crossbeam_channel::unbounded::<ModelSnapshot<()>>();

    // Three configurations for a pool of two actors is neither one per actor
    // nor a single broadcast one.
    let agent_configs = vec![RandomAgentConfig { n_acts: 6 }; 3];
    let config = ActorManagerConfig {
        n_actors: 2,
        samples_per_push: 5,
    };
    let r = ActorManager_::build(
        &config,
        &agent_configs,
        &env_config,
        &step_proc_config,
        item_s,
        model_r,
        stop,
    );
    assert!(r.is_err());
}

#[test]
fn trainer_rejects_zero_cadences() {
    let env_config = env_config("pong".to_string());
    let agent_config = RandomAgentConfig { n_acts: 6 };
    let stop = StopFlag::new();
    let (_item_s, item_r) = crossbeam_channel::unbounded::<PushedItemMessage<Vec<EnvStep>>>();
    let (model_s, _model_r) = crossbeam_channel::unbounded::<ModelSnapshot<()>>();

    let mut config = async_trainer_config();
    config.sync_interval = 0;
    let r = AsyncTrainer_::build(
        &config,
        &agent_config,
        &env_config,
        &replay_buffer_config(),
        item_r,
        model_s,
        stop,
    );
    assert!(r.is_err());
}

#[test]
fn trainer_unwinds_when_flag_already_raised() {
    let env_config = env_config("pong".to_string());
    let agent_config = RandomAgentConfig { n_acts: 6 };
    let stop = StopFlag::new();
    let guard = InitGuard::new();
    let (_item_s, item_r) = crossbeam_channel::unbounded::<PushedItemMessage<Vec<EnvStep>>>();
    let (model_s, _model_r) = crossbeam_channel::unbounded::<ModelSnapshot<()>>();

    let mut trainer = AsyncTrainer_::build(
        &async_trainer_config(),
        &agent_config,
        &env_config,
        &replay_buffer_config(),
        item_r,
        model_s,
        stop.share(),
    )
    .unwrap();

    stop.raise();
    let mut recorder = BufferedRecorder::new();
    let mut evaluator = NullEvaluator {};
    let exit = trainer.train(&mut recorder, &mut evaluator, &guard).unwrap();
    assert_eq!(exit, TrainExit::Signalled);
    assert_eq!(trainer.n_opt_steps(), 0);
}

#[test]
fn trainer_reports_disconnected_experience_channel() {
    let env_config = env_config("pong".to_string());
    let agent_config = RandomAgentConfig { n_acts: 6 };
    let stop = StopFlag::new();
    let guard = InitGuard::new();
    let (item_s, item_r) = crossbeam_channel::unbounded::<PushedItemMessage<Vec<EnvStep>>>();
    let (model_s, _model_r) = crossbeam_channel::unbounded::<ModelSnapshot<()>>();

    let mut trainer = AsyncTrainer_::build(
        &async_trainer_config(),
        &agent_config,
        &env_config,
        &replay_buffer_config(),
        item_r,
        model_s,
        stop,
    )
    .unwrap();

    drop(item_s);
    let mut recorder = BufferedRecorder::new();
    let mut evaluator = NullEvaluator {};
    let r = trainer.train(&mut recorder, &mut evaluator, &guard);
    assert_eq!(r.unwrap_err(), border::errors::CoreError::ChannelClosed);
}

#[test]
fn trainer_rejects_an_empty_flush() {
    let env_config = env_config("pong".to_string());
    let agent_config = RandomAgentConfig { n_acts: 6 };
    let stop = StopFlag::new();
    let guard = InitGuard::new();
    let (item_s, item_r) = crossbeam_channel::unbounded::<PushedItemMessage<Vec<EnvStep>>>();
    let (model_s, _model_r) = crossbeam_channel::unbounded::<ModelSnapshot<()>>();

    let mut trainer = AsyncTrainer_::build(
        &async_trainer_config(),
        &agent_config,
        &env_config,
        &replay_buffer_config(),
        item_r,
        model_s,
        stop,
    )
    .unwrap();

    // A flush always carries at least one item; an empty one reports a
    // broken producer instead of being waited out.
    item_s
        .send(PushedItemMessage {
            id: 0,
            payload: Vec::new(),
        })
        .unwrap();
    let mut recorder = BufferedRecorder::new();
    let mut evaluator = NullEvaluator {};
    let r = trainer.train(&mut recorder, &mut evaluator, &guard);
    assert_eq!(r.unwrap_err(), border::errors::CoreError::Buffer);
}

#[test]
fn relay_forwards_messages_until_stopped() {
    let (pool_s, pool_r) = crossbeam_channel::unbounded::<PushedItemMessage<Vec<EnvStep>>>();
    let (out_s, out_r) = crossbeam_channel::unbounded::<PushedItemMessage<Vec<EnvStep>>>();
    let stop = StopFlag::new();

    pool_s
        .send(PushedItemMessage {
            id: 3,
            payload: Vec::new(),
        })
        .unwrap();
    let keep_going = border::actor_manager::handle_message(&pool_r, &out_s, &stop).unwrap();
    assert!(keep_going);
    let forwarded = out_r.try_recv().unwrap();
    assert_eq!(forwarded.id, 3);

    stop.raise();
    pool_s
        .send(PushedItemMessage {
            id: 4,
            payload: Vec::new(),
        })
        .unwrap();
    let keep_going = border::actor_manager::handle_message(&pool_r, &out_s, &stop).unwrap();
    assert!(!keep_going);
}
