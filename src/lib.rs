//! Comparison helpers: whether a value lies between two bounds, and whether
//! it belongs to a set of values or to one of several half-open ranges.
//!
//! Both traits are implemented for every type with `PartialEq` and
//! `PartialOrd`, so the methods read as `x.between(0, 10)` or
//! `x.is_in(&[2, 6, 12])`.
pub mod between;
pub mod membership;
pub mod order;

pub use between::Between;
pub use membership::In;
