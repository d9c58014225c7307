//! Handling one request: from the target to the answer.

use crate::engine::check_direct;
use crate::engine::direct_outcome;
use crate::engine::Outcome;
use crate::extract::extract;
use crate::extract::extracted;
use crate::model::is_split;
use vstd::prelude::*;

verus! {

/// A request: the target to split.
#[derive(Clone, Copy, Debug, PartialEq, Eq, Structural)]
pub struct Request {
    pub val: u32,
}

/// An answer: the two addends, or `(0, 0)` where none were found.
#[derive(Clone, Copy, Debug, PartialEq, Eq, Structural)]
pub struct Output {
    pub x: u32,
    pub y: u32,
}

impl Output {
    /// Whether this is the pair `(0, 0)`, which stands for "nothing found".
    pub open spec fn is_sentinel(self) -> bool {
        self.x == 0 && self.y == 0
    }
}

/// The answer that a solution stands for: the pair itself, or `(0, 0)` for none.
pub open spec fn response_to(solution: Option<(u32, u32)>) -> Output {
    match solution {
        Some((x, y)) => Output { x, y },
        None => Output { x: 0, y: 0 },
    }
}

/// The answer that the direct engine leads to for the target `val`.
pub open spec fn direct_response(val: u32) -> Output {
    if val >= 2 {
        Output { x: val / 2, y: (val - val / 2) as u32 }
    } else {
        Output { x: 0, y: 0 }
    }
}

/// Turns a solution into an answer; no solution becomes `(0, 0)`.
pub fn respond(solution: Option<(u32, u32)>) -> (output: Output)
    ensures
        output == response_to(solution),
{
    match solution {
        Some((x, y)) => Output { x, y },
        None => Output { x: 0, y: 0 },
    }
}

/// Finishes a request whose constraint set an engine has decided: reads the
/// outcome and answers. Every outcome leads to an answer; an unsatisfiable or
/// indeterminate one, and one without a witness, lead to `(0, 0)`.
pub fn handle_outcome(outcome: &Outcome) -> (output: Output)
    ensures
        output == response_to(extracted(*outcome)),
        !(*outcome matches Outcome::Satisfiable(Some(_))) ==> output.is_sentinel(),
{
    respond(extract(outcome))
}

/// Finds two positive integers below `val` that sum to it, by the direct
/// engine. There are none for `val` of 0 or 1.
pub fn solve(val: u32) -> (solution: Option<(u32, u32)>)
    ensures
        solution == extracted(direct_outcome(val)),
        solution is Some <==> val >= 2,
        solution matches Some((x, y)) ==> x == val / 2 && is_split(val as int, x as int, y as int),
{
    let outcome = check_direct(val);
    extract(&outcome)
}

/// Handles one request with the direct engine.
///
/// For a target of at least two the answer is a split of it; for 0 and 1 it is
/// `(0, 0)`. An answer other than `(0, 0)` always sums to the target.
pub fn handle(request: Request) -> (output: Output)
    ensures
        output == direct_response(request.val),
        request.val >= 2 ==> is_split(request.val as int, output.x as int, output.y as int),
        request.val < 2 ==> output.is_sentinel(),
        !output.is_sentinel() ==> output.x + output.y == request.val,
{
    respond(solve(request.val))
}

} // verus!
