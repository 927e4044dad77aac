//! The replay buffer's ring semantics and the configuration builders.

use border::base::replay_buffer::{ExperienceBufferBase, NullReplayBuffer, ReplayBufferBase};
use border::base::replay_buffer::NullReplayBufferConfig;
use border::replay_buffer::{SimpleReplayBuffer, SimpleReplayBufferConfig};
use border::trainer_config::TrainerConfig;

#[test]
fn ring_buffer_capacity_bound() {
    // Pushing capacity + k items leaves exactly capacity resident, with the
    // oldest evicted first.
    let mut buffer: SimpleReplayBuffer<u64> = SimpleReplayBuffer::with_capacity(10);
    for v in 0..13u64 {
        buffer.push(v).unwrap();
        assert!(buffer.len() <= 10);
    }
    assert_eq!(buffer.len(), 10);
    assert_eq!(buffer.capacity(), 10);
    // The three oldest items (0, 1, 2) were evicted.
    assert_eq!(*buffer.get(0), 3);
    assert_eq!(*buffer.get(9), 12);
}

#[test]
fn ring_buffer_below_capacity_keeps_everything() {
    let mut buffer: SimpleReplayBuffer<u64> = SimpleReplayBuffer::with_capacity(10);
    for v in 0..7u64 {
        buffer.push(v).unwrap();
    }
    assert_eq!(buffer.len(), 7);
    for i in 0..7usize {
        assert_eq!(*buffer.get(i), i as u64);
    }
}

#[test]
fn batch_sampling_length_and_emptiness() {
    let mut buffer: SimpleReplayBuffer<u64> = SimpleReplayBuffer::with_capacity(5);
    assert!(buffer.batch(3).is_err());
    buffer.push(41).unwrap();
    buffer.push(42).unwrap();
    let batch = buffer.batch(6).unwrap();
    assert_eq!(batch.len(), 6);
    for v in batch.iter() {
        assert!(*v == 41 || *v == 42);
    }
}

#[test]
fn replay_buffer_config_builder() {
    let config = SimpleReplayBufferConfig::default();
    assert_eq!(config.get_capacity(), 10000);
    let config = config.capacity(42);
    assert_eq!(config.get_capacity(), 42);
    let buffer: SimpleReplayBuffer<u64> = ReplayBufferBase::build(&config);
    assert_eq!(buffer.capacity(), 42);
}

#[test]
fn null_replay_buffer_has_no_batches() {
    let mut null = NullReplayBuffer::build(&NullReplayBufferConfig {});
    assert!(null.batch(1).is_err());
}

#[test]
fn trainer_config_builders() {
    let config = TrainerConfig::default()
        .max_opts(100)
        .eval_interval(10000)
        .opt_interval(4)
        .record_interval(50)
        .save_interval(500)
        .model_dir("some/directory".to_string());
    assert_eq!(config.max_opts, 100);
    assert_eq!(config.eval_interval, 10000);
    assert_eq!(config.opt_interval, 4);
    assert_eq!(config.record_interval, 50);
    assert_eq!(config.save_interval, 500);
    assert_eq!(config.model_dir, Some("some/directory".to_string()));
}
