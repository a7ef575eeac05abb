//! A deduplicated set of numbers that keeps a running minimum and maximum
//! and can scale all of its members by a factor.

pub mod number;
pub mod model;
pub mod number_set;
pub mod laws;

pub use number::Number;
pub use number_set::NumberSet;
