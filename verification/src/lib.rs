//! Decide whether the elapsed wall-clock time between two timestamps is at
//! least a caller-supplied threshold of less than one second.
//!
//! The predicate sits in a hot loop, so it exists in two independently
//! written forms: one that normalizes the difference with a 64-bit multiply
//! ([`difference::timespec_difference_at_least_mul`]), and one that avoids
//! the multiply by case-splitting on the whole-second fields
//! ([`difference::timespec_difference_at_least_cases`]). Both are proved to
//! return exactly [`difference::difference_at_least`], so they agree on
//! every legal input; [`laws`] records further properties of the predicate.

pub mod difference;
pub mod laws;
pub mod timestamp;

pub use difference::timespec_difference_at_least_cases;
pub use difference::timespec_difference_at_least_mul;
pub use timestamp::Timestamp;
