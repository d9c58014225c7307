//! Satisfiability engines: what one answers, when an answer is sound, and the
//! engine that decides a split by direct arithmetic.

use crate::model::is_split;
use crate::model::lemma_model_means_split;
use crate::model::lemma_satisfiable_iff_at_least_two;
use crate::model::model_for;
use crate::model::ConstraintModel;
use vstd::prelude::*;

verus! {

/// What was read for each unknown from a satisfying assignment. A value that
/// could not be read is `None`.
#[derive(Clone, Copy, Debug, PartialEq, Eq)]
pub struct Witness {
    pub x: Option<u64>,
    pub y: Option<u64>,
}

impl Witness {
    /// Whether every value that was read is the one the assignment `(x, y)` gives.
    pub open spec fn reads(self, x: int, y: int) -> bool {
        &&& self.x matches Some(a) ==> a == x
        &&& self.y matches Some(b) ==> b == y
    }

    /// Whether both values were read.
    pub open spec fn complete(self) -> bool {
        self.x is Some && self.y is Some
    }
}

/// The answer of an engine to one constraint set.
#[derive(Clone, Copy, Debug, PartialEq, Eq)]
pub enum Outcome {
    /// Some assignment meets the constraints; the witness is absent where the
    /// engine could not hand one out.
    Satisfiable(Option<Witness>),
    /// No assignment meets the constraints.
    Unsatisfiable,
    /// The engine could not decide.
    Indeterminate,
}

impl Outcome {
    /// Whether this outcome tells the truth about `model`: `Unsatisfiable`
    /// only where nothing meets it, `Satisfiable` only with a witness read
    /// from an assignment that meets it. `Indeterminate` claims nothing.
    pub open spec fn sound_for(self, model: ConstraintModel) -> bool {
        match self {
            Outcome::Satisfiable(witness) => exists|x: int, y: int|
                #[trigger] model.satisfied_by(x, y) && (witness matches Some(w) ==> w.reads(x, y)),
            Outcome::Unsatisfiable => !model.satisfiable(),
            Outcome::Indeterminate => true,
        }
    }
}

/// The outcome of the direct engine for the target `val`: the lower half and
/// what is left of `val`, where `val` is at least two.
pub open spec fn direct_outcome(val: u32) -> Outcome {
    if val >= 2 {
        Outcome::Satisfiable(
            Some(Witness { x: Some((val / 2) as u64), y: Some((val - val / 2) as u64) }),
        )
    } else {
        Outcome::Unsatisfiable
    }
}

/// The direct outcome is sound for the model of its target, and it always decides.
pub proof fn lemma_direct_outcome_sound(val: u32)
    ensures
        direct_outcome(val).sound_for(model_for(val)),
        direct_outcome(val) is Satisfiable <==> model_for(val).satisfiable(),
{
    lemma_satisfiable_iff_at_least_two(val);
    if val >= 2 {
        let x = (val / 2) as int;
        let y = (val - val / 2) as int;
        assert(is_split(val as int, x, y));
        lemma_model_means_split(val, x, y);
        assert(model_for(val).satisfied_by(x, y));
    }
}

/// Decides the model for `val` by arithmetic alone: halves `val`, takes the
/// rest as the second addend, and reports a witness where both addends are
/// positive and below `val`.
pub fn check_direct(val: u32) -> (outcome: Outcome)
    ensures
        outcome == direct_outcome(val),
        outcome.sound_for(model_for(val)),
        outcome is Satisfiable <==> val >= 2,
        outcome !is Indeterminate,
{
    let x: u32 = val / 2;
    let y: u32 = val - x;
    proof {
        lemma_direct_outcome_sound(val);
    }
    if 0 < x && x < val && 0 < y && y < val {
        Outcome::Satisfiable(Some(Witness { x: Some(x as u64), y: Some(y as u64) }))
    } else {
        Outcome::Unsatisfiable
    }
}

} // verus!
