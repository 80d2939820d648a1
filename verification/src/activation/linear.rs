//! The identity activation.

use vstd::prelude::*;

use crate::scalar::ONE_BITS;

verus! {

/// Identity activation: passes every value through unchanged.
pub struct Linear;

/// Value of the activation on a bit pattern: the argument itself.
pub open spec fn linear_function_bits(x: u64) -> u64 {
    x
}

/// Derivative of the activation: one everywhere.
pub open spec fn linear_derivative_bits(x: u64) -> u64 {
    ONE_BITS
}

impl Linear {
    /// Applies the activation to one scalar, given and returned as a bit
    /// pattern.
    pub fn function(&self, x: u64) -> (r: u64)
        ensures
            r == linear_function_bits(x),
    {
        x
    }

    /// Derivative at one scalar, given and returned as a bit pattern.
    pub fn derivative(&self, x: u64) -> (r: u64)
        ensures
            r == linear_derivative_bits(x),
    {
        ONE_BITS
    }

    /// Elementwise form of [`Linear::function`] over a vector of scalars.
    pub fn function_vec(&self, xs: &Vec<u64>) -> (r: Vec<u64>)
        ensures
            r@ == xs@,
    {
        let n = xs.len();
        let mut r: Vec<u64> = Vec::new();
        let mut i: usize = 0;
        while i < n
            invariant
                i <= n,
                n == xs@.len(),
                r@.len() == i,
                forall|j: int| 0 <= j < i ==> r@[j] == xs@[j],
            decreases n - i,
        {
            r.push(xs[i]);
            i += 1;
        }
        proof {
            assert(r@ =~= xs@);
        }
        r
    }

    /// Elementwise form of [`Linear::derivative`] over a vector of scalars.
    pub fn derivative_vec(&self, xs: &Vec<u64>) -> (r: Vec<u64>)
        ensures
            r@.len() == xs@.len(),
            forall|i: int| 0 <= i < xs@.len() ==> r@[i] == linear_derivative_bits(xs@[i]),
    {
        let n = xs.len();
        let mut r: Vec<u64> = Vec::new();
        let mut i: usize = 0;
        while i < n
            invariant
                i <= n,
                n == xs@.len(),
                r@.len() == i,
                forall|j: int| 0 <= j < i ==> r@[j] == ONE_BITS,
            decreases n - i,
        {
            r.push(ONE_BITS);
            i += 1;
        }
        r
    }
}

/// The identity activation returns its input unchanged and its derivative
/// is one for every input.
pub proof fn lemma_linear_identity(x: u64)
    ensures
        linear_function_bits(x) == x,
        linear_derivative_bits(x) == ONE_BITS,
{
}

} // verus!
