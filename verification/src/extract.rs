//! Reading the answer out of an engine's outcome.

use crate::engine::Outcome;
use vstd::prelude::*;

verus! {

/// The addend that a raw reading stands for: the value itself where one was
/// read and fits the answer's range, and 0 otherwise.
pub open spec fn value_read(raw: Option<u64>) -> u32 {
    match raw {
        Some(q) => if q <= u32::MAX {
            q as u32
        } else {
            0
        },
        None => 0,
    }
}

/// The pair that an outcome yields: the two readings of its witness, each
/// defaulted on its own, and nothing where there is no witness.
pub open spec fn extracted(outcome: Outcome) -> Option<(u32, u32)> {
    match outcome {
        Outcome::Satisfiable(Some(w)) => Some((value_read(w.x), value_read(w.y))),
        _ => None,
    }
}

/// Turns one raw reading into an addend. A missing reading, or one beyond the
/// answer's range, gives 0.
pub fn read_value(raw: Option<u64>) -> (value: u32)
    ensures
        value == value_read(raw),
{
    match raw {
        Some(q) => {
            if q <= 0xffff_ffff {
                q as u32
            } else {
                0
            }
        },
        None => 0,
    }
}

/// Reads the two addends out of an outcome.
///
/// Only a satisfiable outcome with a witness yields a pair. Within the
/// witness each reading is defaulted on its own: one failed reading gives 0
/// for that addend and leaves the other as it was read.
pub fn extract(outcome: &Outcome) -> (solution: Option<(u32, u32)>)
    ensures
        solution == extracted(*outcome),
{
    match outcome {
        Outcome::Satisfiable(Some(w)) => Some((read_value(w.x), read_value(w.y))),
        Outcome::Satisfiable(None) => None,
        Outcome::Unsatisfiable => None,
        Outcome::Indeterminate => None,
    }
}

} // verus!
