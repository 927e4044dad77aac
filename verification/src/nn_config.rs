//! Plain configuration data for the numeric models that agents are built
//! from. The numeric work itself happens outside the core; these types only
//! carry its shape.

use vstd::prelude::*;

verus! {

/// Device a model's tensors live on.
#[derive(Clone, Copy, Debug, PartialEq, Eq, Structural)]
pub enum Device {
    /// The main processor.
    Cpu,
    /// The graphics processor with the given index.
    Cuda(usize),
}

/// Activation function applied by a network layer.
#[derive(Clone, Copy, Debug, PartialEq, Eq, Structural)]
pub enum Activation {
    /// No activation.
    Identity,
    /// Rectified linear unit.
    ReLU,
    /// Hyperbolic tangent.
    Tanh,
    /// Logistic sigmoid.
    Sigmoid,
}

/// Critic loss type.
#[derive(Clone, Copy, Debug, PartialEq, Eq, Structural)]
pub enum CriticLoss {
    /// Mean squared error.
    Mse,
    /// Smooth L1 loss.
    SmoothL1,
}

/// Interface for handling output dimensions.
pub trait OutDim {
    /// Returns the output dimension.
    fn get_out_dim(&self) -> i64;

    /// Sets the output dimension.
    fn set_out_dim(&mut self, v: i64);
}

/// Configuration of a multilayer perceptron.
#[derive(Clone, Debug)]
pub struct MlpConfig {
    /// The input dimension.
    pub in_dim: i64,
    /// The width of each hidden layer.
    pub units: Vec<i64>,
    /// The output dimension.
    pub out_dim: i64,
    /// The activation added in the final layer.
    pub activation_out: Activation,
}

impl MlpConfig {
    /// Creates a configuration of a multilayer perceptron.
    pub fn new(in_dim: i64, units: Vec<i64>, out_dim: i64, activation_out: Activation) -> (r:
        MlpConfig)
        ensures
            r.in_dim == in_dim,
            r.units == units,
            r.out_dim == out_dim,
            r.activation_out == activation_out,
    {
        MlpConfig { in_dim, units, out_dim, activation_out }
    }
}

impl OutDim for MlpConfig {
    fn get_out_dim(&self) -> (r: i64)
        ensures
            r == self.out_dim,
    {
        self.out_dim
    }

    fn set_out_dim(&mut self, out_dim: i64)
        ensures
            final(self).out_dim == out_dim,
            final(self).in_dim == old(self).in_dim,
            final(self).units == old(self).units,
            final(self).activation_out == old(self).activation_out,
    {
        self.out_dim = out_dim;
    }
}

/// Concatenates slices.
pub fn concat_slices(s1: &[i64], s2: &[i64]) -> (r: Vec<i64>)
    ensures
        r@ == s1@ + s2@,
{
    let mut v: Vec<i64> = Vec::new();
    let mut i: usize = 0;
    while i < s1.len()
        invariant
            i <= s1@.len(),
            v@ =~= s1@.subrange(0, i as int),
        decreases s1@.len() - i,
    {
        v.push(s1[i]);
        proof {
            assert(v@ =~= s1@.subrange(0, i + 1));
        }
        i = i + 1;
    }
    proof {
        assert(v@ =~= s1@);
    }
    let mut j: usize = 0;
    while j < s2.len()
        invariant
            j <= s2@.len(),
            v@ =~= s1@ + s2@.subrange(0, j as int),
        decreases s2@.len() - j,
    {
        v.push(s2[j]);
        proof {
            assert(v@ =~= s1@ + s2@.subrange(0, j + 1));
        }
        j = j + 1;
    }
    proof {
        assert(s1@ + s2@.subrange(0, s2@.len() as int) =~= s1@ + s2@);
    }
    v
}

} // verus!
