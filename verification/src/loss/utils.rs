//! Resolution of loss names.
//!
//! A loss is selected by name at construction time, from a closed set of
//! variants. An unrecognized name is a configuration error that the engine
//! treats as fatal: [`get_loss`] rules such names out by precondition, and
//! [`parse_loss`] decides for any name whether it is recognized.

use vstd::prelude::*;

use crate::text::str_eq;

verus! {

/// The closed set of losses the engine knows, by name.
#[derive(Clone, Copy, Debug, PartialEq, Eq, Structural)]
pub enum LossKind {
    Mse,
    CrossEntropy,
    BinaryCrossEntropy,
}

/// The variant a name resolves to, or nothing for an unrecognized name.
pub open spec fn loss_kind_of(name: Seq<char>) -> Option<LossKind> {
    if name == "mse"@ {
        Some(LossKind::Mse)
    } else if name == "crossentropy"@ {
        Some(LossKind::CrossEntropy)
    } else if name == "binary-crossentropy"@ {
        Some(LossKind::BinaryCrossEntropy)
    } else {
        None
    }
}

/// Decides which variant a name resolves to.
pub fn parse_loss(name: &str) -> (r: Option<LossKind>)
    ensures
        r == loss_kind_of(name@),
{
    if str_eq(name, "mse") {
        Some(LossKind::Mse)
    } else if str_eq(name, "crossentropy") {
        Some(LossKind::CrossEntropy)
    } else if str_eq(name, "binary-crossentropy") {
        Some(LossKind::BinaryCrossEntropy)
    } else {
        None
    }
}

/// Resolves a recognized loss name to its variant. Callers rule unknown
/// names out beforehand, as the original configuration contract makes them
/// fatal.
pub fn get_loss(name: &str) -> (r: LossKind)
    requires
        loss_kind_of(name@) is Some,
    ensures
        Some(r) == loss_kind_of(name@),
{
    let parsed = parse_loss(name);
    parsed.unwrap()
}

} // verus!
