//! Range membership of one value against a pair of bounds.
use crate::order::{comparable, never_strictly_itself, order_max, order_min, partial_order_on};
use vstd::prelude::*;
use vstd::std_specs::cmp::{PartialOrdIs, PartialOrdSpec};

verus! {

/// `v` lies strictly between `lo` and `hi`: both bounds excluded.
pub open spec fn in_open<T: PartialOrd>(v: T, lo: T, hi: T) -> bool {
    v.is_gt(&lo) && v.is_lt(&hi)
}

/// `v` lies within `lo` and `hi`: both bounds included.
pub open spec fn in_closed<T: PartialOrd>(v: T, lo: T, hi: T) -> bool {
    v.is_ge(&lo) && v.is_le(&hi)
}

/// `v` lies in `[lo, hi)`: the lower bound included, the upper one excluded.
pub open spec fn in_left_closed<T: PartialOrd>(v: T, lo: T, hi: T) -> bool {
    v.is_ge(&lo) && v.is_lt(&hi)
}

/// `v` lies in `(lo, hi]`: the lower bound excluded, the upper one included.
pub open spec fn in_right_closed<T: PartialOrd>(v: T, lo: T, hi: T) -> bool {
    v.is_gt(&lo) && v.is_le(&hi)
}

/// The bounds `(a, b)` put in order: kept as they are when `a <= b`,
/// swapped otherwise.
pub open spec fn reordered<T: PartialOrd>(a: T, b: T) -> (T, T) {
    if a.is_le(&b) {
        (a, b)
    } else {
        (b, a)
    }
}

/// Range membership of a value, under four policies for the two bounds.
///
/// The plain methods take `left <= right` on trust and evaluate their
/// comparisons as written; the `ord_` methods first put the bounds in order.
/// The results are stated for types whose comparison obeys its specification.
pub trait Between: PartialEq + PartialOrd + Sized {
    /// The value lies between `left` and `right`, both excluded.
    fn between(&self, left: Self, right: Self) -> (r: bool)
        ensures
            Self::obeys_partial_cmp_spec() ==> r == in_open(*self, left, right),
    {
        *self > left && *self < right
    }

    /// The value lies within `left` and `right`, both included.
    fn within(&self, left: Self, right: Self) -> (r: bool)
        ensures
            Self::obeys_partial_cmp_spec() ==> r == in_closed(*self, left, right),
    {
        *self >= left && *self <= right
    }

    /// The value lies between `left` (included) and `right` (excluded).
    fn leftween(&self, left: Self, right: Self) -> (r: bool)
        ensures
            Self::obeys_partial_cmp_spec() ==> r == in_left_closed(*self, left, right),
    {
        *self >= left && *self < right
    }

    /// The value lies between `left` (excluded) and `right` (included).
    fn rightween(&self, left: Self, right: Self) -> (r: bool)
        ensures
            Self::obeys_partial_cmp_spec() ==> r == in_right_closed(*self, left, right),
    {
        *self > left && *self <= right
    }

    /// The pair `(self, right)` when `self <= right`, swapped otherwise.
    fn reorder<'a>(&'a self, right: &'a Self) -> (r: (&'a Self, &'a Self))
        ensures
            (*r.0 == *self && *r.1 == *right) || (*r.0 == *right && *r.1 == *self),
            Self::obeys_partial_cmp_spec() ==> (*r.0, *r.1) == reordered(*self, *right),
    {
        if self <= right {
            (self, right)
        } else {
            (right, self)
        }
    }

    /// As `between`, with the bounds first put in order.
    fn ord_between(&self, left: Self, right: Self) -> (r: bool)
        ensures
            Self::obeys_partial_cmp_spec() ==> r == in_open(
                *self,
                reordered(left, right).0,
                reordered(left, right).1,
            ),
    {
        let (left, right) = left.reorder(&right);
        self > left && self < right
    }

    /// As `within`, with the bounds first put in order.
    fn ord_within(&self, left: Self, right: Self) -> (r: bool)
        ensures
            Self::obeys_partial_cmp_spec() ==> r == in_closed(
                *self,
                reordered(left, right).0,
                reordered(left, right).1,
            ),
    {
        let (left, right) = left.reorder(&right);
        self >= left && self <= right
    }

    /// As `leftween`, with the bounds first put in order.
    fn ord_leftween(&self, left: Self, right: Self) -> (r: bool)
        ensures
            Self::obeys_partial_cmp_spec() ==> r == in_left_closed(
                *self,
                reordered(left, right).0,
                reordered(left, right).1,
            ),
    {
        let (left, right) = left.reorder(&right);
        self >= left && self < right
    }

    /// As `rightween`, with the bounds first put in order.
    fn ord_rightween(&self, left: Self, right: Self) -> (r: bool)
        ensures
            Self::obeys_partial_cmp_spec() ==> r == in_right_closed(
                *self,
                reordered(left, right).0,
                reordered(left, right).1,
            ),
    {
        let (left, right) = left.reorder(&right);
        self > left && self <= right
    }
}

impl<T: PartialEq + PartialOrd + Sized> Between for T {}

/// Neither bound lies strictly between the two bounds; nor does the lower
/// bound lie in `(a, b]`, nor the upper one in `[a, b)`. This holds whatever
/// the bounds, as long as neither is strictly below or above itself.
pub proof fn lemma_bounds_excluded<T: PartialOrd>(a: T, b: T)
    requires
        never_strictly_itself(a),
        never_strictly_itself(b),
    ensures
        !in_open(a, a, b),
        !in_right_closed(a, a, b),
        !in_open(b, a, b),
        !in_left_closed(b, a, b),
{
}

/// When `a <= b`, both bounds lie within the range `[a, b]` they close.
pub proof fn lemma_bounds_included<T: PartialOrd>(a: T, b: T)
    requires
        partial_order_on(set![a, b]),
        a.is_le(&b),
    ensures
        in_closed(a, a, b),
        in_closed(b, a, b),
{
    assert(set![a, b].contains(a) && set![a, b].contains(b));
}

/// When the lower bound is strictly below the upper one, the lower bound lies
/// in `[a, b)` and the upper one in `(a, b]`.
pub proof fn lemma_half_open_bounds<T: PartialOrd>(a: T, b: T)
    requires
        partial_order_on(set![a, b]),
        a.is_lt(&b),
    ensures
        in_left_closed(a, a, b),
        in_right_closed(b, a, b),
{
    assert(set![a, b].contains(a) && set![a, b].contains(b));
}

/// Putting two comparable bounds in order gives the smaller one first and
/// the larger one second, and the first is not above the second.
pub proof fn lemma_reordered_min_max<T: PartialOrd>(a: T, b: T)
    requires
        partial_order_on(set![a, b]),
        comparable(a, b),
    ensures
        reordered(a, b) == (order_min(a, b), order_max(a, b)),
        reordered(a, b).0.is_le(&reordered(a, b).1),
{
    assert(set![a, b].contains(a) && set![a, b].contains(b));
}

/// Putting two comparable bounds in order twice gives what putting them in
/// order once gave.
pub proof fn lemma_reordered_idempotent<T: PartialOrd>(a: T, b: T)
    requires
        comparable(a, b),
    ensures
        reordered(reordered(a, b).0, reordered(a, b).1) == reordered(a, b),
{
}

/// The order in which the bounds are given does not change the result of
/// any of the four policies once the bounds are put in order. The bounds
/// need not be comparable: where they are not, every policy rejects `v`
/// either way.
pub proof fn lemma_reordered_symmetric<T: PartialOrd>(v: T, a: T, b: T)
    requires
        partial_order_on(set![v, a, b]),
    ensures
        in_open(v, reordered(a, b).0, reordered(a, b).1)
            == in_open(v, reordered(b, a).0, reordered(b, a).1),
        in_closed(v, reordered(a, b).0, reordered(a, b).1)
            == in_closed(v, reordered(b, a).0, reordered(b, a).1),
        in_left_closed(v, reordered(a, b).0, reordered(a, b).1)
            == in_left_closed(v, reordered(b, a).0, reordered(b, a).1),
        in_right_closed(v, reordered(a, b).0, reordered(a, b).1)
            == in_right_closed(v, reordered(b, a).0, reordered(b, a).1),
{
    assert(set![v, a, b].contains(v) && set![v, a, b].contains(a) && set![v, a, b].contains(b));
}

} // verus!
