//! Error taxonomy of the concurrency core.
//!
//! Construction-time failures are recoverable and returned to the caller
//! before any worker starts. Steady-state loop failures — a send or receive
//! on a disconnected channel, a failed guard acquisition, a buffer push
//! failure — are unrecoverable and abort the owning worker.

use vstd::prelude::*;

verus! {

/// A fatal condition detected by a worker loop, or a recoverable
/// construction failure surfaced at build time.
#[derive(Clone, Copy, Debug, PartialEq, Eq, Structural)]
pub enum CoreError {
    /// A send or receive found the channel disconnected.
    ChannelClosed,
    /// The initialization guard could not be acquired or released.
    LockFailure,
    /// An environment, policy or pool could not be constructed.
    Construction,
    /// The replay buffer rejected a push or a sample request.
    Buffer,
}

impl CoreError {
    /// What `describe` returns for each variant.
    pub open spec fn describe_spec(&self) -> Seq<char> {
        match self {
            CoreError::ChannelClosed => "channel disconnected"@,
            CoreError::LockFailure => "initialization guard failure"@,
            CoreError::Construction => "construction failed"@,
            CoreError::Buffer => "replay buffer failure"@,
        }
    }

    /// A short description, suitable for logging by the embedding program.
    pub fn describe(&self) -> (r: &'static str)
        ensures
            r@ == self.describe_spec(),
    {
        match self {
            CoreError::ChannelClosed => "channel disconnected",
            CoreError::LockFailure => "initialization guard failure",
            CoreError::Construction => "construction failed",
            CoreError::Buffer => "replay buffer failure",
        }
    }
}

} // verus!
