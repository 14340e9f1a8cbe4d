//! What it takes of a comparison for the laws of this crate to hold.
use core::cmp::Ordering;
use vstd::prelude::*;
use vstd::std_specs::cmp::{PartialOrdIs, PartialOrdSpec};

verus! {

/// The outcome of comparing the other way round.
pub open spec fn flipped(o: Option<Ordering>) -> Option<Ordering> {
    match o {
        Some(Ordering::Less) => Some(Ordering::Greater),
        Some(Ordering::Greater) => Some(Ordering::Less),
        other => other,
    }
}

/// `a` and `b` compare one way or the other: `a <= b` or `b <= a`.
pub open spec fn comparable<T: PartialOrd>(a: T, b: T) -> bool {
    a.is_le(&b) || b.is_le(&a)
}

/// `x` is neither strictly below nor strictly above itself. Every value of a
/// sound comparison is, including one that compares with nothing (a NaN).
pub open spec fn never_strictly_itself<T: PartialOrd>(x: T) -> bool {
    !x.is_lt(&x) && !x.is_gt(&x)
}

/// Restricted to the values of `xs`, the comparison is a partial order: each
/// value compares equal to itself, comparing the other way round flips the
/// outcome, and `<=` is transitive. Two values may still compare neither way.
pub open spec fn partial_order_on<T: PartialOrd>(xs: Set<T>) -> bool {
    &&& forall|x: T| #[trigger] xs.contains(x) ==> x.partial_cmp_spec(&x) == Some(Ordering::Equal)
    &&& forall|x: T, y: T|
        #[trigger] xs.contains(x) && #[trigger] xs.contains(y) ==> x.partial_cmp_spec(&y)
            == flipped(y.partial_cmp_spec(&x))
    &&& forall|x: T, y: T, z: T|
        #[trigger] xs.contains(x) && #[trigger] xs.contains(y) && #[trigger] xs.contains(z)
            && x.is_le(&y) && y.is_le(&z) ==> x.is_le(&z)
}

/// The smaller of `a` and `b`; `a` when neither is smaller.
pub open spec fn order_min<T: PartialOrd>(a: T, b: T) -> T {
    if b.is_lt(&a) {
        b
    } else {
        a
    }
}

/// The larger of `a` and `b`; `b` when neither is smaller.
pub open spec fn order_max<T: PartialOrd>(a: T, b: T) -> T {
    if b.is_lt(&a) {
        a
    } else {
        b
    }
}

} // verus!
