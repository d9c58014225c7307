//! Splits a target integer into two positive addends.
//!
//! A request names a target; the answer is a pair of positive integers, each
//! below the target, that sum to it, or the pair `(0, 0)` where no such pair
//! was found. The question is posed as a small set of constraints over two
//! bounded unknowns ([`model`]), decided by an engine ([`engine`]), and the
//! engine's outcome is turned into the answer ([`extract`], [`handler`]).

pub mod engine;
pub mod extract;
pub mod handler;
pub mod laws;
pub mod model;
