//! The mathematical state of a number set, and what each operation does to it.

use vstd::prelude::*;

verus! {

/// What a number set holds, as plain integers: its members in insertion
/// order and the two bounds it reports.
pub struct SetModel {
    pub values: Seq<int>,
    pub max: int,
    pub min: int,
}

/// One mutating call on a number set, with the value of its argument.
pub enum Op {
    Insert(int),
    Scale(int),
}

impl SetModel {
    /// A fresh set: no members, both bounds zero.
    pub open spec fn empty() -> SetModel {
        SetModel { values: Seq::empty(), max: 0, min: 0 }
    }

    /// Whether inserting `x` adds it, that is whether `x` is not a member yet.
    pub open spec fn admits(self, x: int) -> bool {
        !self.values.contains(x)
    }

    /// The state after inserting `x`: a member is left alone; a new value is
    /// appended and becomes each bound that it passes, or both bounds when
    /// the set was empty.
    pub open spec fn insert(self, x: int) -> SetModel {
        if !self.admits(x) {
            self
        } else if self.values.len() == 0 {
            SetModel { values: self.values.push(x), max: x, min: x }
        } else {
            SetModel {
                values: self.values.push(x),
                max: if x > self.max { x } else { self.max },
                min: if x < self.min { x } else { self.min },
            }
        }
    }

    /// The state after scaling by `k`: each member is multiplied by `k` in
    /// place, and the bounds are kept as they were.
    pub open spec fn scale(self, k: int) -> SetModel {
        SetModel { values: self.values.map_values(|v: int| v * k), max: self.max, min: self.min }
    }

    /// The state after one operation.
    pub open spec fn apply(self, op: Op) -> SetModel {
        match op {
            Op::Insert(x) => self.insert(x),
            Op::Scale(k) => self.scale(k),
        }
    }

    /// Whether the members are pairwise distinct.
    pub open spec fn distinct(self) -> bool {
        self.values.no_duplicates()
    }

    /// Whether the bounds are those of the members: the greatest and the
    /// least member, or zero for an empty set.
    pub open spec fn bounds_exact(self) -> bool {
        if self.values.len() == 0 {
            self.max == 0 && self.min == 0
        } else {
            &&& self.values.contains(self.max)
            &&& self.values.contains(self.min)
            &&& forall|i: int| 0 <= i < self.values.len() ==> self.min <= #[trigger] self.values[i] <= self.max
        }
    }
}

/// The state of a fresh set after inserting each of `xs` in turn.
pub open spec fn built(xs: Seq<int>) -> SetModel
    decreases xs.len(),
{
    if xs.len() == 0 {
        SetModel::empty()
    } else {
        built(xs.drop_last()).insert(xs.last())
    }
}

/// The state of a fresh set after each of `ops` in turn.
pub open spec fn run(ops: Seq<Op>) -> SetModel
    decreases ops.len(),
{
    if ops.len() == 0 {
        SetModel::empty()
    } else {
        run(ops.drop_last()).apply(ops.last())
    }
}

/// How many of `ops`, run on a fresh set, are inserts that returned `true`.
pub open spec fn accepted(ops: Seq<Op>) -> nat
    decreases ops.len(),
{
    if ops.len() == 0 {
        0
    } else {
        let before = run(ops.drop_last());
        accepted(ops.drop_last()) + match ops.last() {
            Op::Insert(x) => if before.admits(x) { 1nat } else { 0nat },
            Op::Scale(_) => 0nat,
        }
    }
}

} // verus!
