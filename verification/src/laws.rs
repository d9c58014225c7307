//! What holds of the answer whichever engine decided the model, as long as the
//! engine's outcome is sound. The direct engine's outcome always is, so each
//! law covers it too.

use crate::engine::Outcome;
use crate::extract::extracted;
use crate::handler::response_to;
use crate::model::is_split;
use crate::model::lemma_model_means_split;
use crate::model::lemma_satisfiable_iff_at_least_two;
use crate::model::model_for;
use vstd::prelude::*;

verus! {

/// A sound outcome for the model of `val` that carries a complete witness
/// leads to a split of `val`: the two addends are positive, below `val`, and
/// sum to it. Such an outcome exists only for `val` of at least two.
pub proof fn law_complete_witness_gives_split(val: u32, outcome: Outcome)
    requires
        outcome.sound_for(model_for(val)),
        outcome matches Outcome::Satisfiable(Some(w)) && w.complete(),
    ensures
        val >= 2,
        is_split(
            val as int,
            response_to(extracted(outcome)).x as int,
            response_to(extracted(outcome)).y as int,
        ),
{
    let m = model_for(val);
    let w = outcome->Satisfiable_0->Some_0;
    let (x, y) = choose|x: int, y: int| #[trigger] m.satisfied_by(x, y) && w.reads(x, y);
    lemma_model_means_split(val, x, y);
}

/// For the targets 0 and 1 every sound outcome leads to the answer `(0, 0)`.
pub proof fn law_small_target_gives_sentinel(val: u32, outcome: Outcome)
    requires
        val < 2,
        outcome.sound_for(model_for(val)),
    ensures
        response_to(extracted(outcome)).is_sentinel(),
{
    lemma_satisfiable_iff_at_least_two(val);
    let m = model_for(val);
    if outcome is Satisfiable {
        let witness = outcome->Satisfiable_0;
        let (x, y) = choose|x: int, y: int|
            #[trigger] m.satisfied_by(x, y) && (witness matches Some(w) ==> w.reads(x, y));
        assert(m.satisfiable());
    }
}

/// Checking an answer again: an answer other than `(0, 0)` that a sound outcome
/// led to sums to the target, whichever satisfying assignment the engine
/// picked. This is stated of outcomes whose witness was read completely or
/// not at all; a witness with one reading missing yields one addend alone.
pub proof fn law_answer_sums_to_target(val: u32, outcome: Outcome)
    requires
        outcome.sound_for(model_for(val)),
        outcome matches Outcome::Satisfiable(Some(w)) ==> (w.x is Some <==> w.y is Some),
    ensures
        !response_to(extracted(outcome)).is_sentinel() ==> response_to(extracted(outcome)).x
            + response_to(extracted(outcome)).y == val,
{
    if outcome matches Outcome::Satisfiable(Some(w)) && w.complete() {
        law_complete_witness_gives_split(val, outcome);
    }
}

/// Whatever a sound outcome for the model of `val` holds, each addend of the
/// answer is either 0 or its value in one split of `val`; so the answer never
/// exceeds the target, and it is a split as soon as both addends are not 0.
pub proof fn law_answer_within_target(val: u32, outcome: Outcome)
    requires
        outcome.sound_for(model_for(val)),
    ensures
        response_to(extracted(outcome)).x + response_to(extracted(outcome)).y <= val,
        response_to(extracted(outcome)).x != 0 && response_to(extracted(outcome)).y != 0
            ==> is_split(
            val as int,
            response_to(extracted(outcome)).x as int,
            response_to(extracted(outcome)).y as int,
        ),
{
    if outcome matches Outcome::Satisfiable(Some(_)) {
        let m = model_for(val);
        let w = outcome->Satisfiable_0->Some_0;
        let (x, y) = choose|x: int, y: int| #[trigger] m.satisfied_by(x, y) && w.reads(x, y);
        lemma_model_means_split(val, x, y);
    }
}

} // verus!
