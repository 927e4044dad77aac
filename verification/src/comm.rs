//! Channel transport between actors and the learner.
//!
//! All cross-thread data movement in this engine is hand-off of owned
//! messages through multi-producer channels; no buffer is ever shared by
//! reference across threads. The channel endpoints come from the
//! `crossbeam_channel` crate and are declared here for the verifier. What a
//! receive returns depends on what other threads have sent so far, so the
//! contracts below state only what holds of every outcome; the verified
//! callers take the received value as an argument and handle every case.

use vstd::prelude::*;

verus! {

#[verifier::external_type_specification]
#[verifier::external_body]
#[verifier::reject_recursive_types(T)]
/// The sending side of a `crossbeam_channel` channel.
pub struct ExSender<T>(crossbeam_channel::Sender<T>);

#[verifier::external_type_specification]
#[verifier::external_body]
#[verifier::reject_recursive_types(T)]
/// The receiving side of a `crossbeam_channel` channel.
pub struct ExReceiver<T>(crossbeam_channel::Receiver<T>);

#[verifier::external_type_specification]
#[verifier::reject_recursive_types(T)]
/// Returned by a send on a disconnected channel; carries the message back.
pub struct ExSendError<T>(crossbeam_channel::SendError<T>);

#[verifier::external_type_specification]
/// Returned by a receive on a channel that is empty and disconnected.
pub struct ExRecvError(crossbeam_channel::RecvError);

#[verifier::external_type_specification]
/// Returned by a non-blocking receive that found no message.
pub struct ExTryRecvError(crossbeam_channel::TryRecvError);

/// Relies on crossbeam_channel::unbounded: creates a connected
/// sender/receiver pair of a queue with no capacity bound, so a send on it
/// never blocks.
pub assume_specification<T>[ crossbeam_channel::unbounded::<T> ]() -> (
    crossbeam_channel::Sender<T>,
    crossbeam_channel::Receiver<T>,
);

/// Relies on crossbeam_channel::Sender::send: delivers the message unless
/// every receiver has been dropped, in which case the message comes back
/// inside the error.
pub assume_specification<T>[ crossbeam_channel::Sender::<T>::send ](
    sender: &crossbeam_channel::Sender<T>,
    msg: T,
) -> (r: Result<(), crossbeam_channel::SendError<T>>)
    ensures
        r matches Err(e) ==> e.0 == msg,
;

/// Relies on crossbeam_channel::Receiver::recv: blocks until a message
/// arrives, or reports disconnection once the channel is empty and every
/// sender has been dropped.
pub assume_specification<T>[ crossbeam_channel::Receiver::<T>::recv ](
    receiver: &crossbeam_channel::Receiver<T>,
) -> Result<T, crossbeam_channel::RecvError>;

/// Relies on crossbeam_channel::Receiver::try_recv: returns a pending
/// message without blocking, or says why none was returned.
pub assume_specification<T>[ crossbeam_channel::Receiver::<T>::try_recv ](
    receiver: &crossbeam_channel::Receiver<T>,
) -> Result<T, crossbeam_channel::TryRecvError>;

/// Relies on Clone for crossbeam_channel::Sender: the clone feeds the same
/// queue as the original.
pub assume_specification<T>[ <crossbeam_channel::Sender<T> as Clone>::clone ](
    sender: &crossbeam_channel::Sender<T>,
) -> crossbeam_channel::Sender<T>;

/// Relies on Clone for crossbeam_channel::Receiver: the clone drains the same
/// queue as the original, each message going to exactly one of them.
pub assume_specification<T>[ <crossbeam_channel::Receiver<T> as Clone>::clone ](
    receiver: &crossbeam_channel::Receiver<T>,
) -> crossbeam_channel::Receiver<T>;

} // verus!
