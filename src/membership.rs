//! Membership of one value in a list of values or in a list of half-open ranges.
use core::ops::Range;
use vstd::prelude::*;
use vstd::std_specs::cmp::{PartialEqSpec, PartialOrdIs, PartialOrdSpec};

verus! {

/// Some element of `s` equals `v`.
pub open spec fn in_set<T: PartialEq>(v: T, s: Seq<T>) -> bool {
    exists|i: int| 0 <= i < s.len() && #[trigger] s[i].eq_spec(&v)
}

/// `v` lies in the half-open range `[start, end)`.
pub open spec fn in_half_open<T: PartialOrd>(v: T, start: T, end: T) -> bool {
    start.is_le(&v) && v.is_lt(&end)
}

/// `v` lies in at least one of the half-open ranges of `rs`.
pub open spec fn in_some_range<T: PartialOrd>(v: T, rs: Seq<Range<T>>) -> bool {
    exists|i: int| 0 <= i < rs.len() && #[trigger] in_half_open(v, rs[i].start, rs[i].end)
}

/// Membership of a value in a list of values or in a list of ranges.
///
/// Both lists are scanned in order and the scan stops at the first match;
/// the result says only whether a match exists.
pub trait In: PartialEq + PartialOrd + Sized {
    /// Some element of `set` equals the value.
    fn is_in(&self, set: &[Self]) -> (r: bool)
        ensures
            set@.len() == 0 ==> !r,
            Self::obeys_eq_spec() ==> r == in_set(*self, set@),
    {
        let mut i: usize = 0;
        while i < set.len()
            invariant
                0 <= i <= set@.len(),
                Self::obeys_eq_spec() ==> forall|j: int| 0 <= j < i ==> !#[trigger] set@[j].eq_spec(self),
            decreases set@.len() - i,
        {
            if set[i].eq(self) {
                return true;
            }
            i += 1;
        }
        false
    }

    /// The value lies in at least one of the half-open `ranges`.
    fn in_ranges(&self, ranges: &[Range<Self>]) -> (r: bool)
        ensures
            ranges@.len() == 0 ==> !r,
            Self::obeys_partial_cmp_spec() ==> r == in_some_range(*self, ranges@),
    {
        let mut i: usize = 0;
        while i < ranges.len()
            invariant
                0 <= i <= ranges@.len(),
                Self::obeys_partial_cmp_spec() ==> forall|j: int|
                    0 <= j < i ==> !#[trigger] in_half_open(*self, ranges@[j].start, ranges@[j].end),
            decreases ranges@.len() - i,
        {
            if ranges[i].contains(self) {
                assert(Self::obeys_partial_cmp_spec() ==> in_half_open(
                    *self,
                    ranges@[i as int].start,
                    ranges@[i as int].end,
                ));
                return true;
            }
            i += 1;
        }
        false
    }
}

impl<T: PartialEq + PartialOrd + Sized> In for T {}

/// Membership in a list depends only on which values the list holds: neither
/// the order of its elements nor repeated elements change it.
pub proof fn lemma_in_set_same_elements<T: PartialEq>(v: T, s1: Seq<T>, s2: Seq<T>)
    requires
        s1.to_set() == s2.to_set(),
    ensures
        in_set(v, s1) == in_set(v, s2),
{
    assert forall|i: int| 0 <= i < s1.len() && #[trigger] s1[i].eq_spec(&v) implies in_set(v, s2) by {
        assert(s1.to_set().contains(s1[i]));
        assert(s2.contains(s1[i]));
    }
    assert forall|i: int| 0 <= i < s2.len() && #[trigger] s2[i].eq_spec(&v) implies in_set(v, s1) by {
        assert(s2.to_set().contains(s2[i]));
        assert(s1.contains(s2[i]));
    }
}

/// A list of ranges covers the union of what its parts cover: a value lies
/// in some range of `r1 + r2` exactly when it lies in some range of `r1` or
/// in some range of `r2`, however the ranges overlap.
pub proof fn lemma_in_some_range_concat<T: PartialOrd>(v: T, r1: Seq<Range<T>>, r2: Seq<Range<T>>)
    ensures
        in_some_range(v, r1 + r2) == (in_some_range(v, r1) || in_some_range(v, r2)),
{
    let rs = r1 + r2;
    if in_some_range(v, rs) {
        let i = choose|i: int| 0 <= i < rs.len() && #[trigger] in_half_open(v, rs[i].start, rs[i].end);
        if i >= r1.len() {
            assert(in_half_open(v, r2[i - r1.len()].start, r2[i - r1.len()].end));
        }
    }
    if in_some_range(v, r1) {
        let i = choose|i: int| 0 <= i < r1.len() && #[trigger] in_half_open(v, r1[i].start, r1[i].end);
        assert(rs[i] == r1[i]);
    }
    if in_some_range(v, r2) {
        let i = choose|i: int| 0 <= i < r2.len() && #[trigger] in_half_open(v, r2[i].start, r2[i].end);
        assert(rs[r1.len() + i] == r2[i]);
    }
}

} // verus!
