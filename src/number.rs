//! The numeric element types that a `NumberSet` can hold.

use vstd::prelude::*;

verus! {

/// A machine number with a mathematical value.
///
/// Each operation is stated over `value`, so the set's contracts can speak
/// of plain integers whatever the element type.
pub trait Number: Copy + Sized {
    /// The mathematical value of this number.
    spec fn value(&self) -> int;

    /// Whether `v` is the value of some number of this type.
    spec fn fits(v: int) -> bool;

    /// The zero of the type, the bound that an empty set reports.
    fn zero() -> (r: Self)
        ensures
            r.value() == 0,
    ;

    /// Equality of values.
    fn same(&self, other: &Self) -> (r: bool)
        ensures
            r == (self.value() == other.value()),
    ;

    /// Strict order of values.
    fn less(&self, other: &Self) -> (r: bool)
        ensures
            r == (self.value() < other.value()),
    ;

    /// The product, where it is representable.
    fn times(&self, other: &Self) -> (r: Self)
        requires
            Self::fits(self.value() * other.value()),
        ensures
            r.value() == self.value() * other.value(),
    ;
}

impl Number for i64 {
    open spec fn value(&self) -> int {
        *self as int
    }

    open spec fn fits(v: int) -> bool {
        i64::MIN <= v <= i64::MAX
    }

    fn zero() -> (r: i64) {
        0
    }

    fn same(&self, other: &i64) -> (r: bool) {
        *self == *other
    }

    fn less(&self, other: &i64) -> (r: bool) {
        *self < *other
    }

    fn times(&self, other: &i64) -> (r: i64) {
        *self * *other
    }
}

impl Number for i32 {
    open spec fn value(&self) -> int {
        *self as int
    }

    open spec fn fits(v: int) -> bool {
        i32::MIN <= v <= i32::MAX
    }

    fn zero() -> (r: i32) {
        0
    }

    fn same(&self, other: &i32) -> (r: bool) {
        *self == *other
    }

    fn less(&self, other: &i32) -> (r: bool) {
        *self < *other
    }

    fn times(&self, other: &i32) -> (r: i32) {
        *self * *other
    }
}

impl Number for u32 {
    open spec fn value(&self) -> int {
        *self as int
    }

    open spec fn fits(v: int) -> bool {
        u32::MIN <= v <= u32::MAX
    }

    fn zero() -> (r: u32) {
        0
    }

    fn same(&self, other: &u32) -> (r: bool) {
        *self == *other
    }

    fn less(&self, other: &u32) -> (r: bool) {
        *self < *other
    }

    fn times(&self, other: &u32) -> (r: u32) {
        *self * *other
    }
}

impl Number for u64 {
    open spec fn value(&self) -> int {
        *self as int
    }

    open spec fn fits(v: int) -> bool {
        u64::MIN <= v <= u64::MAX
    }

    fn zero() -> (r: u64) {
        0
    }

    fn same(&self, other: &u64) -> (r: bool) {
        *self == *other
    }

    fn less(&self, other: &u64) -> (r: bool) {
        *self < *other
    }

    fn times(&self, other: &u64) -> (r: u64) {
        *self * *other
    }
}

} // verus!
