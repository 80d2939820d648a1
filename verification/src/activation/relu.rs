//! The rectified linear activation.

use vstd::prelude::*;

use crate::scalar::{gt_zero_bits, is_gt_zero_bits, ONE_BITS, ZERO_BITS};

verus! {

/// Rectified linear unit: passes strictly positive values through and maps
/// everything else to zero.
pub struct ReLU;

/// Value of the unit on a bit pattern: the argument where it denotes a
/// strictly positive value, otherwise zero.
pub open spec fn relu_function_bits(x: u64) -> u64 {
    if is_gt_zero_bits(x) {
        x
    } else {
        ZERO_BITS
    }
}

/// Derivative of the unit: one where the argument denotes a strictly
/// positive value, otherwise zero — at zero itself the derivative is zero.
pub open spec fn relu_derivative_bits(x: u64) -> u64 {
    if is_gt_zero_bits(x) {
        ONE_BITS
    } else {
        ZERO_BITS
    }
}

impl ReLU {
    /// Applies the unit to one scalar, given and returned as a bit pattern.
    pub fn function(&self, x: u64) -> (r: u64)
        ensures
            r == relu_function_bits(x),
    {
        if gt_zero_bits(x) {
            x
        } else {
            ZERO_BITS
        }
    }

    /// Derivative at one scalar, given and returned as a bit pattern.
    pub fn derivative(&self, x: u64) -> (r: u64)
        ensures
            r == relu_derivative_bits(x),
    {
        if gt_zero_bits(x) {
            ONE_BITS
        } else {
            ZERO_BITS
        }
    }

    /// Elementwise form of [`ReLU::function`] over a vector of scalars.
    pub fn function_vec(&self, xs: &Vec<u64>) -> (r: Vec<u64>)
        ensures
            r@.len() == xs@.len(),
            forall|i: int| 0 <= i < xs@.len() ==> r@[i] == relu_function_bits(xs@[i]),
    {
        let n = xs.len();
        let mut r: Vec<u64> = Vec::new();
        let mut i: usize = 0;
        while i < n
            invariant
                i <= n,
                n == xs@.len(),
                r@.len() == i,
                forall|j: int| 0 <= j < i ==> r@[j] == relu_function_bits(xs@[j]),
            decreases n - i,
        {
            r.push(self.function(xs[i]));
            i += 1;
        }
        r
    }

    /// Elementwise form of [`ReLU::derivative`] over a vector of scalars.
    pub fn derivative_vec(&self, xs: &Vec<u64>) -> (r: Vec<u64>)
        ensures
            r@.len() == xs@.len(),
            forall|i: int| 0 <= i < xs@.len() ==> r@[i] == relu_derivative_bits(xs@[i]),
    {
        let n = xs.len();
        let mut r: Vec<u64> = Vec::new();
        let mut i: usize = 0;
        while i < n
            invariant
                i <= n,
                n == xs@.len(),
                r@.len() == i,
                forall|j: int| 0 <= j < i ==> r@[j] == relu_derivative_bits(xs@[j]),
            decreases n - i,
        {
            r.push(self.derivative(xs[i]));
            i += 1;
        }
        r
    }
}

/// The ReLU derivative is one exactly on the strictly positive values and
/// zero on every other value, the zero input included.
pub proof fn lemma_relu_derivative_step(x: u64)
    ensures
        relu_derivative_bits(x) == ONE_BITS <==> is_gt_zero_bits(x),
        !is_gt_zero_bits(x) ==> relu_derivative_bits(x) == ZERO_BITS,
{
}

} // verus!
