//! Shared termination flag.
//!
//! A single boolean shared by the pool manager, every actor and the learner.
//! Its only required property is monotone false-to-true visibility across
//! threads — it is written at most once per party and never reset — so it is
//! held in an atomic boolean rather than behind a lock. What a load returns
//! depends on what other threads have stored so far, so nothing is promised
//! of the value here; the verified workers take the observed value as an
//! argument and decide from it.

use std::sync::atomic::AtomicBool;
use std::sync::atomic::Ordering;
use std::sync::Arc;
use vstd::prelude::*;

verus! {

/// Shared flag observed every iteration by every worker to unwind cleanly.
pub struct StopFlag {
    cell: Arc<AtomicBool>,
}

impl StopFlag {
    /// Creates a flag that no party has raised yet.
    ///
    /// Relies on std's Arc and AtomicBool constructors.
    #[verifier::external_body]
    pub fn new() -> StopFlag {
        StopFlag { cell: Arc::new(AtomicBool::new(false)) }
    }

    /// Another handle on the same shared cell.
    ///
    /// Relies on std's Arc::clone: the clone points at the same allocation.
    #[verifier::external_body]
    pub fn share(&self) -> StopFlag {
        StopFlag { cell: Arc::clone(&self.cell) }
    }

    /// Observes the flag. Relies on std's AtomicBool::load.
    #[verifier::external_body]
    pub fn load(&self) -> bool {
        self.cell.load(Ordering::SeqCst)
    }

    /// Stores a value into the shared cell. Relies on std's
    /// AtomicBool::store.
    #[verifier::external_body]
    fn store(&self, value: bool) {
        self.cell.store(value, Ordering::SeqCst)
    }

    /// Raises the flag. Only `true` is ever stored — here, in verified code —
    /// which is what makes the flag monotone.
    pub fn raise(&self) {
        self.store(true)
    }
}

} // verus!
