//! Activation functions.
//!
//! The step activations — rectified linear, identity and Heaviside — are
//! decidable on the bit pattern of their argument and are verified here.
//! The smooth activations (sigmoid, tanh, Gaussian, multiquadratics) need
//! transcendental real arithmetic, which stays outside the verified core;
//! the core still resolves their names (see [`utils::get_activation`]).

pub mod heaviside;
pub mod linear;
pub mod relu;
pub mod utils;

pub use crate::activation::heaviside::Heaviside;
pub use crate::activation::linear::Linear;
pub use crate::activation::relu::ReLU;
pub use crate::activation::utils::get_activation;
pub use crate::activation::utils::parse_activation;
pub use crate::activation::utils::ActivationKind;
