//! Unit checks of the small pieces: records, errors, the guard, batch
//! columns, and the plain configuration types.

use border::errors::CoreError;
use border::guard::InitGuard;
use border::nn_config::{concat_slices, Activation, CriticLoss, Device, MlpConfig, OutDim};
use border::pointmaze::PointMazeConverterConfig;
use border::record::{BufferedRecorder, Record, RecordValue, Recorder};
use border::replay_buffer::SubBatch;
use border::gym_env::{AtariWrapper, PyGymEnvDiscreteAct, PyGymEnvDiscreteActRawFilter};
use border::gym_env::{PyGymDiscreteActFilter, PyGymEnvContinuousActRawFilter, PyVecGymEnvBuilder};
use border::util::test::{env_config, Act, ActBatch, Obs, ObsBatch};

#[test]
fn record_keeps_insertion_order() {
    let mut record = Record::empty();
    assert_eq!(record.len(), 0);
    record.insert("steps".to_string(), RecordValue::Int(15));
    record.insert("flushes".to_string(), RecordValue::Int(3));
    assert_eq!(record.len(), 2);
}

#[test]
fn buffered_recorder_counts_records() {
    let mut recorder = BufferedRecorder::new();
    assert_eq!(recorder.len(), 0);
    recorder.write(Record::empty());
    recorder.write(Record::empty());
    assert_eq!(recorder.len(), 2);
}

#[test]
fn error_descriptions() {
    assert_eq!(CoreError::ChannelClosed.describe(), "channel disconnected");
    assert_eq!(
        CoreError::LockFailure.describe(),
        "initialization guard failure"
    );
    assert_eq!(CoreError::Construction.describe(), "construction failed");
    assert_eq!(CoreError::Buffer.describe(), "replay buffer failure");
}

#[test]
fn init_guard_round_trip() {
    let guard = InitGuard::new();
    guard.acquire().unwrap();
    guard.release().unwrap();
    let other = guard.share();
    other.acquire().unwrap();
    other.release().unwrap();
}

#[test]
fn concat_slices_concatenates() {
    let v = concat_slices(&[1, 2, 3], &[10, 20]);
    assert_eq!(v, vec![1, 2, 3, 10, 20]);
    let v = concat_slices(&[], &[7]);
    assert_eq!(v, vec![7]);
}

#[test]
fn mlp_config_carries_dimensions() {
    let mut config = MlpConfig::new(4, vec![64, 64], 2, Activation::Identity);
    assert_eq!(config.in_dim, 4);
    assert_eq!(config.units, vec![64, 64]);
    assert_eq!(config.get_out_dim(), 2);
    config.set_out_dim(3);
    assert_eq!(config.get_out_dim(), 3);
    assert_eq!(config.activation_out, Activation::Identity);
    assert_ne!(CriticLoss::Mse, CriticLoss::SmoothL1);
    assert_eq!(Device::Cuda(1), Device::Cuda(1));
}

#[test]
fn vec_env_builder_setters() {
    let builder: PyVecGymEnvBuilder<Obs, Act, (), ()> = PyVecGymEnvBuilder::default();
    assert_eq!(builder.n_procs, 1);
    assert!(builder.max_steps.is_none());
    let builder = builder
        .max_steps(Some(500))
        .atari_wrapper(Some(AtariWrapper::Train))
        .n_procs(4);
    assert_eq!(builder.max_steps, Some(500));
    assert_eq!(builder.atari_wrapper, Some(AtariWrapper::Train));
    assert_eq!(builder.n_procs, 4);
}

#[test]
fn discrete_act_filters() {
    let act = PyGymEnvDiscreteAct::new(vec![2, 0, 1]);
    assert_eq!(act.act, vec![2, 0, 1]);
    let _ = PyGymEnvDiscreteActRawFilter::new();
    assert_eq!(
        PyGymEnvDiscreteActRawFilter::filt(vec![2, 0, 1]),
        vec![2, 0, 1]
    );
    let raw = PyGymEnvContinuousActRawFilter::default();
    assert!(!raw.vectorized);
}

#[test]
fn pointmaze_config_builder() {
    let config = PointMazeConverterConfig::default();
    assert!(!config.include_goal);
    let config = config.include_goal(true);
    assert!(config.include_goal);
}

#[test]
fn env_config_carries_name() {
    let config = env_config("pong".to_string());
    assert_eq!(config.name, "pong");
}

#[test]
fn act_batch_stores_and_samples() {
    let mut batch = ActBatch::new(4);
    assert_eq!(batch.n, 0);
    let one = ActBatch::from_act(Act { act: 9 });
    assert_eq!(one.buf, vec![9]);
    batch.push(2, &one);
    assert_eq!(batch.buf, vec![0, 0, 9, 0]);
    let sampled = batch.sample(&vec![2, 2, 0]);
    assert_eq!(sampled.buf, vec![9, 9, 0]);
}

#[test]
fn obs_batch_stores_one_observation() {
    let frames = vec![7u8; 4 * 84 * 84];
    let one = ObsBatch::from_obs(Obs {
        frames: frames.clone(),
    });
    assert_eq!(one.n, 1);
    assert_eq!(one.buf, frames);
    let mut batch = ObsBatch::new(2);
    batch.push(1, &one);
    assert_eq!(batch.buf[4 * 84 * 84], 7);
    assert_eq!(batch.buf[0], 0);
}
