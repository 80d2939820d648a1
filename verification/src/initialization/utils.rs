//! Resolution of initialization method names.
//!
//! An initialization strategy is selected by name at construction time,
//! from a closed set of variants. An unrecognized method name is a
//! configuration error that the engine treats as fatal:
//! [`get_initialization`] rules such names out by precondition, and
//! [`parse_initialization`] decides for any configuration whether its
//! method is recognized.

use vstd::prelude::*;

use crate::config::ConfigInitialization;
use crate::text::str_eq;

verus! {

/// The closed set of initialization strategies the engine knows, by name.
/// Both draw uniformly from the half-open interval from minus one to one.
#[derive(Clone, Copy, Debug, PartialEq, Eq, Structural)]
pub enum InitializationKind {
    UniformDistribution,
    ZeroCentered,
}

/// The variant a method name resolves to, or nothing for an unrecognized
/// name.
pub open spec fn initialization_kind_of(method: Seq<char>) -> Option<InitializationKind> {
    if method == "zero-centered"@ {
        Some(InitializationKind::ZeroCentered)
    } else if method == "uniform-distribution"@ {
        Some(InitializationKind::UniformDistribution)
    } else {
        None
    }
}

/// Decides which variant the configuration's method name resolves to.
pub fn parse_initialization(config: &ConfigInitialization) -> (r: Option<InitializationKind>)
    ensures
        r == initialization_kind_of(config.method@),
{
    if str_eq(config.method.as_str(), "zero-centered") {
        Some(InitializationKind::ZeroCentered)
    } else if str_eq(config.method.as_str(), "uniform-distribution") {
        Some(InitializationKind::UniformDistribution)
    } else {
        None
    }
}

/// Resolves a recognized method name to its variant. Callers rule unknown
/// names out beforehand, as the original configuration contract makes them
/// fatal.
pub fn get_initialization(config: &ConfigInitialization) -> (r: InitializationKind)
    requires
        initialization_kind_of(config.method@) is Some,
    ensures
        Some(r) == initialization_kind_of(config.method@),
{
    let parsed = parse_initialization(config);
    parsed.unwrap()
}

} // verus!
