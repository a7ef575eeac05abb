//! `NumberSet`: distinct numbers in insertion order, with running bounds.

use vstd::prelude::*;

use crate::model::SetModel;
use crate::number::Number;

verus! {

/// The storage that a fresh set reserves.
const INITIAL_SIZE: usize = 10;

/// A set of numbers without repeats, kept in insertion order, that tracks
/// the least and the greatest value inserted.
///
/// Scaling with `mul` changes the members but not the tracked bounds, so
/// after it `max` and `min` report the bounds as they stood before.
pub struct NumberSet<A: Number> {
    numbers: Vec<A>,
    max: A,
    min: A,
}

impl<A: Number> View for NumberSet<A> {
    type V = SetModel;

    closed spec fn view(&self) -> SetModel {
        SetModel {
            values: self.numbers@.map_values(|a: A| a.value()),
            max: self.max.value(),
            min: self.min.value(),
        }
    }
}

impl<A: Number> NumberSet<A> {
    /// An empty set, with both bounds zero.
    pub fn new() -> (r: Self)
        ensures
            r@ == SetModel::empty(),
    {
        let r = NumberSet { numbers: Vec::with_capacity(INITIAL_SIZE), max: A::zero(), min: A::zero() };
        assert(r@.values =~= Seq::<int>::empty());
        r
    }

    /// Inserts `number` unless an equal value is a member already; returns
    /// whether it was added. A refused insert leaves the set as it was.
    pub fn insert(&mut self, number: A) -> (r: bool)
        ensures
            r == old(self)@.admits(number.value()),
            final(self)@ == old(self)@.insert(number.value()),
            !r ==> *final(self) == *old(self),
    {
        let n = self.numbers.len();
        let mut i: usize = 0;
        while i < n
            invariant
                n == self.numbers.len(),
                i <= n,
                forall|j: int| 0 <= j < i ==> (#[trigger] self.numbers@[j]).value() != number.value(),
            decreases n - i,
        {
            if self.numbers[i].same(&number) {
                assert(self@.values[i as int] == number.value());
                return false;
            }
            i += 1;
        }
        assert(self@.admits(number.value())) by {
            if self@.values.contains(number.value()) {
                let j = choose|j: int| 0 <= j < self@.values.len() && self@.values[j] == number.value();
                assert(self.numbers@[j].value() == number.value());
            }
        }
        if self.len() == 0 {
            self.max = number;
            self.min = number;
        } else {
            if self.max.less(&number) {
                self.max = number;
            }
            if number.less(&self.min) {
                self.min = number;
            }
        }
        self.numbers.push(number);
        assert(self@.values =~= old(self)@.values.push(number.value()));
        true
    }

    /// The tracked maximum: the greatest value inserted, left as it was by
    /// `mul`, or zero for a set that never had a member.
    pub fn max(&self) -> (r: A)
        ensures
            r.value() == self@.max,
    {
        self.max
    }

    /// The tracked minimum: the least value inserted, left as it was by
    /// `mul`, or zero for a set that never had a member.
    pub fn min(&self) -> (r: A)
        ensures
            r.value() == self@.min,
    {
        self.min
    }

    /// The number of members.
    pub fn len(&self) -> (r: usize)
        ensures
            r == self@.values.len(),
    {
        self.numbers.len()
    }

    /// The members, in insertion order.
    pub fn numbers(&self) -> (r: &Vec<A>)
        ensures
            r@.map_values(|a: A| a.value()) == self@.values,
    {
        &self.numbers
    }

    /// Multiplies every member by `factor` in place. The bounds are not
    /// recomputed, and members that become equal are all kept.
    pub fn mul(&mut self, factor: A)
        requires
            forall|i: int|
                0 <= i < old(self)@.values.len() ==> A::fits(#[trigger] old(self)@.values[i] * factor.value()),
        ensures
            final(self)@ == old(self)@.scale(factor.value()),
            forall|i: int|
                0 <= i < final(self)@.values.len() ==> #[trigger] final(self)@.values[i] == old(self)@.values[i] * factor.value(),
    {
        let n = self.numbers.len();
        assert forall|j: int| 0 <= j < n implies A::fits(#[trigger] old(self).numbers@[j].value() * factor.value()) by {
            assert(old(self)@.values[j] == old(self).numbers@[j].value());
        }
        let mut i: usize = 0;
        while i < n
            invariant
                n == self.numbers.len(),
                n == old(self).numbers.len(),
                i <= n,
                self.max == old(self).max,
                self.min == old(self).min,
                forall|j: int| 0 <= j < i ==> (#[trigger] self.numbers@[j]).value() == old(self).numbers@[j].value() * factor.value(),
                forall|j: int| i <= j < n ==> #[trigger] self.numbers@[j] == old(self).numbers@[j],
                forall|j: int| 0 <= j < n ==> A::fits(#[trigger] old(self).numbers@[j].value() * factor.value()),
            decreases n - i,
        {
            let v = self.numbers[i].times(&factor);
            self.numbers.set(i, v);
            i += 1;
        }
        assert(self@.values =~= old(self)@.values.map_values(|v: int| v * factor.value()));
    }
}

} // verus!
