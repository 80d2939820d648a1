//! Weight-initialization strategies.
//!
//! A strategy produces one pseudo-random scalar per call while a network is
//! built. The draws themselves come from a random generator outside the
//! verified core; the core resolves the method name to its variant (see
//! [`utils::get_initialization`]).

pub mod utils;

pub use crate::initialization::utils::get_initialization;
pub use crate::initialization::utils::parse_initialization;
pub use crate::initialization::utils::InitializationKind;
