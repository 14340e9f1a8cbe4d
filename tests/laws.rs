use cond_utils::{Between, In};

#[test]
fn policy_table_inside_and_outside() {
    assert!(5.within(0, 10));
    assert!(5.between(0, 10));
    assert!(5.leftween(0, 10));
    assert!(5.rightween(0, 10));
    assert!(!11.within(0, 10));
    assert!(!(-1).between(0, 10));
    assert!(!10.leftween(0, 10));
    assert!(!0.rightween(0, 10));
    assert!(!6.within(0, 5));
}

#[test]
fn bounds_at_lower_edge() {
    assert!(0.within(0, 10));
    assert!(!0.between(0, 10));
    assert!(0.leftween(0, 10));
    assert!(!0.rightween(0, 10));
}

#[test]
fn bounds_at_upper_edge() {
    assert!(10.within(0, 10));
    assert!(!10.between(0, 10));
    assert!(!10.leftween(0, 10));
    assert!(10.rightween(0, 10));
}

#[test]
fn equal_bounds() {
    assert!(3.within(3, 3));
    assert!(!3.between(3, 3));
    assert!(!3.leftween(3, 3));
    assert!(!3.rightween(3, 3));
}

#[test]
fn unordered_bounds_in_plain_family() {
    assert!(!5.within(10, 0));
    assert!(!5.between(10, 0));
}

#[test]
fn ord_family_ignores_bound_order() {
    for v in -2..13 {
        for (a, b) in [(0, 10), (3, 3), (10, 0), (7, 2)] {
            assert_eq!(v.ord_between(a, b), v.ord_between(b, a));
            assert_eq!(v.ord_within(a, b), v.ord_within(b, a));
            assert_eq!(v.ord_leftween(a, b), v.ord_leftween(b, a));
            assert_eq!(v.ord_rightween(a, b), v.ord_rightween(b, a));
        }
    }
    assert!(10.ord_between(11, 0));
    assert!(!10.ord_between(10, 0));
    assert!(!10.ord_between(0, 0));
    assert!(5.ord_within(10, 0));
    assert!(!6.ord_within(5, 0));
    assert!(0.ord_leftween(10, 0));
    assert!(!10.ord_leftween(10, 0));
    assert!(10.ord_rightween(10, 0));
    assert!(!0.ord_rightween(10, 0));
}

#[test]
fn reorder_gives_min_then_max() {
    let (lo, hi) = 10.reorder(&3);
    assert_eq!((*lo, *hi), (3, 10));
    let (lo, hi) = 3.reorder(&10);
    assert_eq!((*lo, *hi), (3, 10));
    let (lo, hi) = 4.reorder(&4);
    assert_eq!((*lo, *hi), (4, 4));
    let (lo, hi) = "b".reorder(&"a");
    assert_eq!((*lo, *hi), ("a", "b"));
}

#[test]
fn reorder_swaps_bounds_that_do_not_compare() {
    let nan = f64::NAN;
    let (lo, hi) = nan.reorder(&1.0);
    assert_eq!(*lo, 1.0);
    assert!(hi.is_nan());
    let (lo, hi) = 1.0_f64.reorder(&nan);
    assert!(lo.is_nan());
    assert_eq!(*hi, 1.0);
}

#[test]
fn reorder_is_idempotent() {
    let (lo, hi) = 10.reorder(&3);
    let (lo2, hi2) = lo.reorder(hi);
    assert_eq!((*lo2, *hi2), (*lo, *hi));
}

#[test]
fn reorder_leaves_inputs_alone() {
    let a = String::from("zeta");
    let b = String::from("alpha");
    let (lo, hi) = a.reorder(&b);
    assert_eq!(lo, "alpha");
    assert_eq!(hi, "zeta");
    assert_eq!(a, "zeta");
    assert_eq!(b, "alpha");
}

#[test]
fn nan_compares_false() {
    assert!(!f64::NAN.within(0.0, 1.0));
    assert!(!f64::NAN.between(0.0, 1.0));
    assert!(!0.5_f64.within(f64::NAN, 1.0));
    assert!(!0.5_f64.leftween(0.0, f64::NAN));
    assert!(!f64::NAN.is_in(&[f64::NAN, 1.0]));
    assert!(!f64::NAN.in_ranges(&[0.0..1.0]));
}

#[test]
fn is_in_scenarios() {
    assert!(10.is_in(&[1, 4, 10, 0]));
    assert!(10.is_in(&[0, 10, 100]));
    assert!(!10.is_in(&[0, 100]));
}

#[test]
fn is_in_empty_set() {
    let empty: [i32; 0] = [];
    assert!(!10.is_in(&empty));
}

#[test]
fn is_in_ignores_duplicates_and_order() {
    assert_eq!(4.is_in(&[1, 4, 9]), 4.is_in(&[9, 4, 4, 1, 1]));
    assert_eq!(5.is_in(&[1, 4, 9]), 5.is_in(&[9, 4, 4, 1, 1]));
    assert!(4.is_in(&[9, 4, 4, 1, 1]));
    assert!(!5.is_in(&[9, 4, 4, 1, 1]));
}

#[test]
fn in_ranges_scenarios() {
    assert!(10.in_ranges(&[0..5, 20..1999, 5..12]));
    assert!(!10.in_ranges(&[100..1000]));
    assert!(10.in_ranges(&[0..5, 10..100]));
}

#[test]
fn in_ranges_half_open() {
    assert!(5.in_ranges(&[5..6]));
    assert!(!6.in_ranges(&[5..6]));
    assert!(!5.in_ranges(&[5..5]));
}

#[test]
fn in_ranges_empty_list() {
    let empty: [core::ops::Range<i32>; 0] = [];
    assert!(!10.in_ranges(&empty));
}

#[test]
fn in_ranges_overlapping_union() {
    let ranges = [0..10, 5..15, 12..20];
    for v in -1..21 {
        assert_eq!(v.in_ranges(&ranges), (0..20).contains(&v));
    }
}
