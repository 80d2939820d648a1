//! Resolution of activation names.
//!
//! An activation is selected by name at construction time, from a closed
//! set of variants. An unrecognized name is a configuration error that the
//! engine treats as fatal: [`get_activation`] rules such names out by
//! precondition, and [`parse_activation`] decides for any name whether it
//! is recognized.

use vstd::prelude::*;

use crate::text::str_eq;

verus! {

/// The closed set of activations the engine knows, by name.
#[derive(Clone, Copy, Debug, PartialEq, Eq, Structural)]
pub enum ActivationKind {
    Linear,
    ReLU,
    Sigmoid,
    Tanh,
    Heaviside,
    Gaussian,
    Multiquadratics,
}

/// The variant a name resolves to, or nothing for an unrecognized name.
pub open spec fn activation_kind_of(name: Seq<char>) -> Option<ActivationKind> {
    if name == "relu"@ {
        Some(ActivationKind::ReLU)
    } else if name == "tanh"@ {
        Some(ActivationKind::Tanh)
    } else if name == "linear"@ {
        Some(ActivationKind::Linear)
    } else if name == "sigmoid"@ {
        Some(ActivationKind::Sigmoid)
    } else if name == "heaviside"@ {
        Some(ActivationKind::Heaviside)
    } else if name == "gaussian"@ {
        Some(ActivationKind::Gaussian)
    } else if name == "multiquadratics"@ {
        Some(ActivationKind::Multiquadratics)
    } else {
        None
    }
}

/// Decides which variant a name resolves to.
pub fn parse_activation(name: &str) -> (r: Option<ActivationKind>)
    ensures
        r == activation_kind_of(name@),
{
    if str_eq(name, "relu") {
        Some(ActivationKind::ReLU)
    } else if str_eq(name, "tanh") {
        Some(ActivationKind::Tanh)
    } else if str_eq(name, "linear") {
        Some(ActivationKind::Linear)
    } else if str_eq(name, "sigmoid") {
        Some(ActivationKind::Sigmoid)
    } else if str_eq(name, "heaviside") {
        Some(ActivationKind::Heaviside)
    } else if str_eq(name, "gaussian") {
        Some(ActivationKind::Gaussian)
    } else if str_eq(name, "multiquadratics") {
        Some(ActivationKind::Multiquadratics)
    } else {
        None
    }
}

/// Resolves a recognized activation name to its variant. Callers rule
/// unknown names out beforehand, as the original configuration contract
/// makes them fatal.
pub fn get_activation(name: &str) -> (r: ActivationKind)
    requires
        activation_kind_of(name@) is Some,
    ensures
        Some(r) == activation_kind_of(name@),
{
    let parsed = parse_activation(name);
    parsed.unwrap()
}

} // verus!
