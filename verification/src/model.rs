//! The constraint model: two bounded unknowns and the predicates they must
//! jointly satisfy.

use vstd::arithmetic::power2::lemma2_to64;
use vstd::arithmetic::power2::pow2;
use vstd::prelude::*;

verus! {

/// The bit width of both unknowns in every model this library builds.
pub const WIDTH: u32 = 32;

/// Whether `x` and `y` split `target` into two positive addends, each below it.
pub open spec fn is_split(target: int, x: int, y: int) -> bool {
    &&& 0 < x < target
    &&& 0 < y < target
    &&& x + y == target
}

/// One of the two addends being looked for.
#[derive(Clone, Copy, Debug, PartialEq, Eq, Structural)]
pub enum Unknown {
    X,
    Y,
}

impl Unknown {
    /// The value that an assignment `(x, y)` gives to this unknown.
    pub open spec fn pick(self, x: int, y: int) -> int {
        match self {
            Unknown::X => x,
            Unknown::Y => y,
        }
    }
}

/// A predicate over the two unknowns, read as unsigned integers of a fixed width.
#[derive(Clone, Copy, Debug, PartialEq, Eq, Structural)]
pub enum Constraint {
    /// The unknown is strictly greater than the bound.
    Above { unknown: Unknown, bound: u32 },
    /// The unknown is strictly less than the bound.
    Below { unknown: Unknown, bound: u32 },
    /// The sum of the two unknowns, wrapped to the width, equals the total.
    SumIs { total: u32 },
}

/// The number of values that an unknown of `width` bits can take.
pub open spec fn modulus(width: u32) -> int {
    pow2(width as nat) as int
}

impl Constraint {
    /// Whether the assignment `(x, y)` meets this constraint at `width` bits.
    /// Constants are reduced to the width, and the sum wraps, as fixed-width
    /// arithmetic does.
    pub open spec fn holds(self, width: u32, x: int, y: int) -> bool {
        let m = modulus(width);
        match self {
            Constraint::Above { unknown, bound } => unknown.pick(x, y) > bound as int % m,
            Constraint::Below { unknown, bound } => unknown.pick(x, y) < bound as int % m,
            Constraint::SumIs { total } => (x + y) % m == total as int % m,
        }
    }
}

/// The mathematical content of a [`ConstraintSet`]: a width and a conjunction.
pub struct ConstraintModel {
    pub width: u32,
    pub constraints: Seq<Constraint>,
}

impl ConstraintModel {
    /// Whether `(x, y)` is an assignment within the width that meets every
    /// constraint.
    pub open spec fn satisfied_by(self, x: int, y: int) -> bool {
        &&& 0 <= x < modulus(self.width)
        &&& 0 <= y < modulus(self.width)
        &&& forall|i: int|
            0 <= i < self.constraints.len() ==> (#[trigger] self.constraints[i]).holds(
                self.width,
                x,
                y,
            )
    }

    /// Whether some assignment meets every constraint.
    pub open spec fn satisfiable(self) -> bool {
        exists|x: int, y: int| self.satisfied_by(x, y)
    }
}

/// A conjunction of constraints over two unknowns of `width` bits each.
#[derive(Debug)]
pub struct ConstraintSet {
    pub width: u32,
    pub constraints: Vec<Constraint>,
}

impl View for ConstraintSet {
    type V = ConstraintModel;

    open spec fn view(&self) -> ConstraintModel {
        ConstraintModel { width: self.width, constraints: self.constraints@ }
    }
}

/// The model that asks for a split of `val`: both unknowns above zero, both
/// below `val`, and their sum equal to `val`.
pub open spec fn model_for(val: u32) -> ConstraintModel {
    ConstraintModel {
        width: WIDTH,
        constraints: seq![
            Constraint::Above { unknown: Unknown::X, bound: 0 },
            Constraint::Above { unknown: Unknown::Y, bound: 0 },
            Constraint::Below { unknown: Unknown::X, bound: val },
            Constraint::Below { unknown: Unknown::Y, bound: val },
            Constraint::SumIs { total: val },
        ],
    }
}

/// The assignments that meet the model for `val` are exactly the splits of
/// `val`: at this width no wrapped sum slips through, because both addends
/// stay below the target.
pub proof fn lemma_model_means_split(val: u32, x: int, y: int)
    ensures
        model_for(val).satisfied_by(x, y) <==> is_split(val as int, x, y),
{
    lemma2_to64();
    let m = model_for(val);
    assert(modulus(WIDTH) == 0x1_0000_0000);
    assert(m.constraints.len() == 5);
    if m.satisfied_by(x, y) {
        assert(m.constraints[0].holds(WIDTH, x, y));
        assert(m.constraints[1].holds(WIDTH, x, y));
        assert(m.constraints[2].holds(WIDTH, x, y));
        assert(m.constraints[3].holds(WIDTH, x, y));
        assert(m.constraints[4].holds(WIDTH, x, y));
    }
    if is_split(val as int, x, y) {
        assert forall|i: int| 0 <= i < m.constraints.len() implies (#[trigger] m.constraints[i]).holds(
            WIDTH,
            x,
            y,
        ) by {
            if i == 0 {
            } else if i == 1 {
            } else if i == 2 {
            } else if i == 3 {
            } else {
                assert(i == 4);
            }
        }
    }
}

/// The model for `val` can be met exactly when `val` is at least two.
pub proof fn lemma_satisfiable_iff_at_least_two(val: u32)
    ensures
        model_for(val).satisfiable() <==> val >= 2,
{
    let m = model_for(val);
    if val >= 2 {
        lemma_model_means_split(val, 1, val - 1);
        assert(m.satisfied_by(1, val - 1));
    }
    if m.satisfiable() {
        let (x, y) = choose|x: int, y: int| m.satisfied_by(x, y);
        lemma_model_means_split(val, x, y);
    }
}

/// Builds the constraint set that asks for a split of `val`.
///
/// The set can be met exactly when two positive integers, each below `val`,
/// sum to it; for `val` of 0 or 1 it cannot be met.
pub fn build_model(val: u32) -> (set: ConstraintSet)
    ensures
        set@ == model_for(val),
        forall|x: int, y: int| #[trigger] set@.satisfied_by(x, y) <==> is_split(val as int, x, y),
        set@.satisfiable() <==> val >= 2,
{
    let mut constraints: Vec<Constraint> = Vec::new();
    constraints.push(Constraint::Above { unknown: Unknown::X, bound: 0 });
    constraints.push(Constraint::Above { unknown: Unknown::Y, bound: 0 });
    constraints.push(Constraint::Below { unknown: Unknown::X, bound: val });
    constraints.push(Constraint::Below { unknown: Unknown::Y, bound: val });
    constraints.push(Constraint::SumIs { total: val });
    let set = ConstraintSet { width: WIDTH, constraints };
    proof {
        assert(set@.constraints =~= model_for(val).constraints);
        assert forall|x: int, y: int| #[trigger] set@.satisfied_by(x, y) <==> is_split(val as int, x, y) by {
            lemma_model_means_split(val, x, y);
        }
        lemma_satisfiable_iff_at_least_two(val);
    }
    set
}

} // verus!
