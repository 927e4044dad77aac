//! Shared initialization guard.
//!
//! Some environment runtimes are not safe for concurrent initialization, so
//! the one-time construction of each environment instance is serialized
//! through this guard. It is a one-shot cooperative mutex scoped strictly to
//! the construction call and never held across a worker's main loop: a single
//! permission token circulates through an unbounded channel, `acquire` takes
//! it (blocking until it is free) and `release` puts it back.

use crate::errors::CoreError;
use vstd::prelude::*;

verus! {

/// Serializes one-time, non-thread-safe construction across workers.
pub struct InitGuard {
    sender: crossbeam_channel::Sender<()>,
    receiver: crossbeam_channel::Receiver<()>,
}

impl InitGuard {
    /// A fresh guard whose permission token is free.
    pub fn new() -> InitGuard {
        let (sender, receiver) = crossbeam_channel::unbounded::<()>();
        let _ = sender.send(());
        InitGuard { sender, receiver }
    }

    /// Another handle on the same guard, for another worker.
    pub fn share(&self) -> InitGuard {
        InitGuard { sender: self.sender.clone(), receiver: self.receiver.clone() }
    }

    /// Takes the permission token, blocking while another worker holds it.
    /// Fails only if every handle that could return the token is gone.
    pub fn acquire(&self) -> (r: Result<(), CoreError>)
        ensures
            r is Err ==> r->Err_0 == CoreError::LockFailure,
    {
        match self.receiver.recv() {
            Ok(_) => Ok(()),
            Err(_) => Err(CoreError::LockFailure),
        }
    }

    /// Puts the permission token back for the next worker.
    pub fn release(&self) -> (r: Result<(), CoreError>)
        ensures
            r is Err ==> r->Err_0 == CoreError::LockFailure,
    {
        match self.sender.send(()) {
            Ok(_) => Ok(()),
            Err(_) => Err(CoreError::LockFailure),
        }
    }
}

} // verus!
