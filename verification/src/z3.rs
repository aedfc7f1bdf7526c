//! The ring of integers modulo 3 (balanced), i.e. `{-1, 0, +1}`.
//!
//! This is the underlying algebraic structure for all ternary operations;
//! its laws are proved in `crate::algebra`.

pub use crate::Ternary::{Negative, Neutral, Positive};
