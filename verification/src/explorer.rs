//! Exploration strategies: how an agent turns action values into actions.
//! The numeric selection itself happens outside the core; these types carry
//! its configuration.

use vstd::prelude::*;

verus! {

/// Softmax action selection.
#[derive(Clone, Copy, Debug, PartialEq, Eq, Structural)]
pub struct Softmax {}

impl Softmax {
    /// Constructs a softmax explorer.
    pub fn new() -> Softmax {
        Softmax {  }
    }
}

/// The way percent points are taken when sampling quantiles.
#[derive(Clone, Copy, Debug, PartialEq, Eq, Structural)]
pub enum IQNSample {
    /// Ten fixed percent points, evenly spread with step one tenth.
    Uniform10,
}

} // verus!
