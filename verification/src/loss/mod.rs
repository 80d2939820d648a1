//! Loss functions.
//!
//! Every loss the engine knows — mean squared error and the two cross
//! entropies — is evaluated with transcendental or divided real arithmetic,
//! which stays outside the verified core. The core resolves loss names to
//! their variants (see [`utils::get_loss`]).

pub mod utils;

pub use crate::loss::utils::get_loss;
pub use crate::loss::utils::parse_loss;
pub use crate::loss::utils::LossKind;
