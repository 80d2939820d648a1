//! Training configuration and its validation.
//!
//! A configuration names the loss, the weight-initialization method and an
//! ordered list of layer descriptors. Validation reports the first problem
//! found as a descriptive, recoverable error; the engine itself never
//! re-validates. The learning rate travels as the bit pattern of a binary64
//! value, so that the positivity check can be carried out, and verified, on
//! the bits alone (see [`crate::scalar`]).

use vstd::prelude::*;

use crate::scalar::{gt_zero_bits, is_gt_zero_bits};

verus! {

/// Choice of the weight-initialization strategy, by name, with an optional
/// seed for the pseudo-random draws.
#[derive(Clone)]
pub struct ConfigInitialization {
    pub method: String,
    pub seed: Option<u64>,
}

/// One dense layer: its diagnostic name, its input and output widths, and
/// the name of its activation.
#[derive(Clone)]
pub struct ConfigLayer {
    pub name: String,
    pub input_size: usize,
    pub output_size: usize,
    pub activation: String,
}

/// A full training configuration.
#[derive(Clone)]
pub struct Config {
    /// Learning rate, as the bit pattern of a binary64 value.
    pub lr_bits: u64,
    pub epochs: usize,
    pub loss: String,
    pub layers: Vec<ConfigLayer>,
    pub initialization: ConfigInitialization,
}

/// Both widths of the layer are positive and an activation is named.
pub open spec fn layer_valid(l: ConfigLayer) -> bool {
    l.input_size != 0 && l.output_size != 0 && l.activation@.len() != 0
}

/// An initialization method is named.
pub open spec fn init_valid(i: ConfigInitialization) -> bool {
    i.method@.len() != 0
}

/// Each layer's output width equals the next layer's input width.
pub open spec fn layers_chained(ls: Seq<ConfigLayer>) -> bool {
    forall|j: int|
        0 <= j && j + 1 < ls.len() ==> (#[trigger] ls[j]).output_size == ls[j + 1].input_size
}

/// Everything [`Config::validate`] checks: a learning rate strictly above
/// zero, a named loss, chained layer widths, every layer valid on its own,
/// and a named initialization method.
pub open spec fn config_valid(c: Config) -> bool {
    &&& is_gt_zero_bits(c.lr_bits)
    &&& c.loss@.len() != 0
    &&& layers_chained(c.layers@)
    &&& forall|i: int| 0 <= i < c.layers@.len() ==> layer_valid(#[trigger] c.layers@[i])
    &&& init_valid(c.initialization)
}

impl ConfigLayer {
    /// Checks this layer descriptor on its own: positive widths first, then
    /// a named activation.
    pub fn validate(&self) -> (r: Result<(), String>)
        ensures
            r is Ok <==> layer_valid(*self),
            (self.input_size == 0 || self.output_size == 0) ==> (r matches Err(m) && m@
                == "input and output size must be positive"@),
            (self.input_size != 0 && self.output_size != 0 && self.activation@.len() == 0) ==> (
            r matches Err(m) && m@ == "activation function must be specified"@),
    {
        if self.input_size == 0 || self.output_size == 0 {
            return Err("input and output size must be positive".to_owned());
        }

        if self.activation.as_str().is_empty() {
            return Err("activation function must be specified".to_owned());
        }

        Ok(())
    }
}

impl ConfigInitialization {
    /// Checks that an initialization method is named.
    pub fn validate(&self) -> (r: Result<(), String>)
        ensures
            r is Ok <==> init_valid(*self),
            self.method@.len() == 0 ==> (r matches Err(m) && m@
                == "initialization method must be specified"@),
    {
        if self.method.as_str().is_empty() {
            return Err("initialization method must be specified".to_owned());
        }

        Ok(())
    }
}

impl Config {
    /// Checks the whole configuration and reports the first problem found:
    /// the learning rate, then the loss name, then the chaining of adjacent
    /// layer widths, then each layer on its own, then the initialization
    /// method. A NaN learning rate is rejected like any other value that
    /// does not compare strictly above zero.
    pub fn validate(&self) -> (r: Result<(), String>)
        ensures
            r is Ok <==> config_valid(*self),
            !is_gt_zero_bits(self.lr_bits) ==> (r matches Err(m) && m@
                == "learning rate must be positive"@),
            (is_gt_zero_bits(self.lr_bits) && self.loss@.len() == 0) ==> (r matches Err(m)
                && m@ == "loss function must be specified"@),
            (is_gt_zero_bits(self.lr_bits) && self.loss@.len() != 0 && !layers_chained(
                self.layers@,
            )) ==> (r matches Err(m) && m@ == "input and output size must be the same"@),
            (is_gt_zero_bits(self.lr_bits) && self.loss@.len() != 0 && layers_chained(
                self.layers@,
            ) && !(forall|i: int|
                0 <= i < self.layers@.len() ==> layer_valid(#[trigger] self.layers@[i]))) ==> (
            r matches Err(m) && m@ == "layer validation failed"@),
            (is_gt_zero_bits(self.lr_bits) && self.loss@.len() != 0 && layers_chained(
                self.layers@,
            ) && (forall|i: int|
                0 <= i < self.layers@.len() ==> layer_valid(#[trigger] self.layers@[i]))
                && self.initialization.method@.len() == 0) ==> (r matches Err(m) && m@
                == "initialization method must be specified"@),
    {
        if !gt_zero_bits(self.lr_bits) {
            return Err("learning rate must be positive".to_owned());
        }

        if self.loss.as_str().is_empty() {
            return Err("loss function must be specified".to_owned());
        }

        let n = self.layers.len();
        let mut i: usize = 1;
        while i < n
            invariant
                1 <= i,
                n == self.layers@.len(),
                is_gt_zero_bits(self.lr_bits),
                self.loss@.len() != 0,
                forall|j: int|
                    0 <= j && j + 1 < i ==> (#[trigger] self.layers@[j]).output_size
                        == self.layers@[j + 1].input_size,
            decreases n - i,
        {
            if self.layers[i - 1].output_size != self.layers[i].input_size {
                return Err("input and output size must be the same".to_owned());
            }
            i += 1;
        }

        let mut k: usize = 0;
        while k < n
            invariant
                n == self.layers@.len(),
                is_gt_zero_bits(self.lr_bits),
                self.loss@.len() != 0,
                layers_chained(self.layers@),
                forall|j: int| 0 <= j < k ==> layer_valid(#[trigger] self.layers@[j]),
            decreases n - k,
        {
            if self.layers[k].validate().is_err() {
                return Err("layer validation failed".to_owned());
            }
            k += 1;
        }

        self.initialization.validate()
    }
}

} // verus!
