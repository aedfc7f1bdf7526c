//! Pre-defined trit values for convenience.

pub use crate::Ternary::{Negative, Neutral, Positive};
use crate::Ternary;
use vstd::prelude::*;

verus! {

/// Short alias for `Ternary::Negative`
pub const N: Ternary = Ternary::Negative;

/// Short alias for `Ternary::Neutral`
pub const Z: Ternary = Ternary::Neutral;

/// Short alias for `Ternary::Positive`
pub const P: Ternary = Ternary::Positive;

} // verus!
