//! Kelly criterion position sizing on exact rational numbers.
//!
//! The engine computes the Kelly fraction and the expected value of a wager,
//! either from decimal odds or from a prediction-market price. The validator
//! guards the engine's numeric domain, and the decimal reader turns the
//! user's text into exact values.
use vstd::prelude::*;

pub mod rational;
pub mod engine;
pub mod validate;
pub mod decimal;
pub mod calculator;

verus! {

} // verus!
