//! The Heaviside step activation.

use vstd::prelude::*;

use crate::scalar::{gt_zero_bits, is_gt_zero_bits, ONE_BITS, ZERO_BITS};

verus! {

/// Heaviside step: one on strictly positive values, zero everywhere else.
/// The step is not differentiable; its gradient is defined as zero
/// everywhere.
pub struct Heaviside;

/// Value of the step on a bit pattern: one where the argument denotes a
/// strictly positive value, otherwise zero.
pub open spec fn heaviside_function_bits(x: u64) -> u64 {
    if is_gt_zero_bits(x) {
        ONE_BITS
    } else {
        ZERO_BITS
    }
}

/// Derivative of the step: zero everywhere.
pub open spec fn heaviside_derivative_bits(x: u64) -> u64 {
    ZERO_BITS
}

impl Heaviside {
    /// Applies the step to one scalar, given and returned as a bit pattern.
    pub fn function(&self, x: u64) -> (r: u64)
        ensures
            r == heaviside_function_bits(x),
    {
        if gt_zero_bits(x) {
            ONE_BITS
        } else {
            ZERO_BITS
        }
    }

    /// Derivative at one scalar, given and returned as a bit pattern.
    pub fn derivative(&self, x: u64) -> (r: u64)
        ensures
            r == heaviside_derivative_bits(x),
    {
        ZERO_BITS
    }

    /// Elementwise form of [`Heaviside::function`] over a vector of scalars.
    pub fn function_vec(&self, xs: &Vec<u64>) -> (r: Vec<u64>)
        ensures
            r@.len() == xs@.len(),
            forall|i: int| 0 <= i < xs@.len() ==> r@[i] == heaviside_function_bits(xs@[i]),
    {
        let n = xs.len();
        let mut r: Vec<u64> = Vec::new();
        let mut i: usize = 0;
        while i < n
            invariant
                i <= n,
                n == xs@.len(),
                r@.len() == i,
                forall|j: int| 0 <= j < i ==> r@[j] == heaviside_function_bits(xs@[j]),
            decreases n - i,
        {
            r.push(self.function(xs[i]));
            i += 1;
        }
        r
    }

    /// Elementwise form of [`Heaviside::derivative`] over a vector of
    /// scalars.
    pub fn derivative_vec(&self, xs: &Vec<u64>) -> (r: Vec<u64>)
        ensures
            r@.len() == xs@.len(),
            forall|i: int| 0 <= i < xs@.len() ==> r@[i] == heaviside_derivative_bits(xs@[i]),
    {
        let n = xs.len();
        let mut r: Vec<u64> = Vec::new();
        let mut i: usize = 0;
        while i < n
            invariant
                i <= n,
                n == xs@.len(),
                r@.len() == i,
                forall|j: int| 0 <= j < i ==> r@[j] == ZERO_BITS,
            decreases n - i,
        {
            r.push(self.derivative(xs[i]));
            i += 1;
        }
        r
    }
}

} // verus!
