//! A minimal feed-forward neural-network training engine: dense layers of
//! neurons, pluggable activation, loss and weight-initialization strategies,
//! and an online gradient-descent training loop.
//!
//! The verified core of the engine is everything that can be decided without
//! computing with machine reals: configuration validation, the resolution of
//! strategy names to their variants, and the step activations whose values
//! are decidable on the bit patterns of their arguments. Scalars are carried
//! through the core as IEEE 754 binary64 bit patterns (see [`scalar`]).

pub mod activation;
pub mod config;
pub mod initialization;
pub mod loss;
pub mod scalar;
pub mod text;
