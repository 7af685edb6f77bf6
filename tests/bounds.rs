use nom_ranges::{many, Bound, IntoRangeBounds, RangeBounds};
use std::ops::RangeInclusive;

#[test]
fn scenario_exact_count() {
    assert_eq!(many(10), (Bound::Included(10), Bound::Included(10)));
}

#[test]
fn scenario_full_range() {
    assert_eq!(many(..), (Bound::Unbounded, Bound::Unbounded));
}

#[test]
fn scenario_range_from() {
    assert_eq!(many(10..), (Bound::Included(10), Bound::Unbounded));
}

#[test]
fn scenario_range_to() {
    assert_eq!(many(..10), (Bound::Unbounded, Bound::Excluded(10)));
}

#[test]
fn scenario_half_open_range() {
    assert_eq!(many(1..10), (Bound::Included(1), Bound::Excluded(10)));
}

#[test]
fn scenario_inclusive_range() {
    assert_eq!(many(1..=10), (Bound::Included(1), Bound::Included(10)));
}

#[test]
fn range_to_inclusive_resolves() {
    assert_eq!(many(..=7), (Bound::Unbounded, Bound::Included(7)));
}

#[test]
fn count_resolves_to_point_at_edges() {
    assert_eq!(many(0), (Bound::Included(0), Bound::Included(0)));
    assert_eq!(
        many(usize::MAX),
        (Bound::Included(usize::MAX), Bound::Included(usize::MAX))
    );
}

#[test]
fn count_converts_to_inclusive_range() {
    let r: RangeInclusive<usize> = 4usize.convert();
    assert_eq!(*r.start(), 4);
    assert_eq!(*r.end(), 4);
}

#[test]
fn range_converts_to_itself() {
    let r: std::ops::Range<usize> = (2..9).convert();
    assert_eq!(r, 2..9);
    let p: (Bound<usize>, Bound<usize>) = (Bound::Excluded(3), Bound::Unbounded).convert();
    assert_eq!(p, (Bound::Excluded(3), Bound::Unbounded));
}

#[test]
fn bound_pair_resolves_to_itself() {
    let pair = (Bound::Excluded(2usize), Bound::Included(5usize));
    assert_eq!(many(pair), pair);
}

#[test]
fn reversed_range_is_kept_as_given() {
    assert_eq!(many(10..1), (Bound::Included(10), Bound::Excluded(1)));
}

#[test]
fn resolving_twice_changes_nothing() {
    for first in [many(10), many(..), many(10..), many(..10), many(1..10), many(1..=10)] {
        assert_eq!(many(first), first);
    }
}

#[test]
fn start_and_end_bounds_of_each_shape() {
    assert_eq!(RangeBounds::<usize>::start_bound(&(3..8)), Bound::Included(&3));
    assert_eq!(RangeBounds::<usize>::end_bound(&(3..8)), Bound::Excluded(&8));
    assert_eq!(RangeBounds::<usize>::end_bound(&(3..=8)), Bound::Included(&8));
    assert_eq!(RangeBounds::<usize>::start_bound(&(..8)), Bound::Unbounded);
    assert_eq!(RangeBounds::<usize>::end_bound(&(3..)), Bound::Unbounded);
    assert_eq!(RangeBounds::<usize>::start_bound(&..), Bound::Unbounded);
}

#[test]
fn bounds_of_ranges_over_references() {
    let (a, b) = (3usize, 8usize);
    assert_eq!(RangeBounds::<usize>::start_bound(&(&a..&b)), Bound::Included(&3));
    assert_eq!(RangeBounds::<usize>::end_bound(&(&a..&b)), Bound::Excluded(&8));
    assert_eq!(RangeBounds::<usize>::end_bound(&(&a..=&b)), Bound::Included(&8));
    assert_eq!(RangeBounds::<usize>::start_bound(&(&a..)), Bound::Included(&3));
    assert_eq!(RangeBounds::<usize>::end_bound(&(..&b)), Bound::Excluded(&8));
    assert_eq!(RangeBounds::<usize>::end_bound(&(..=&b)), Bound::Included(&8));
    let pair = (Bound::Excluded(&a), Bound::Unbounded);
    assert_eq!(RangeBounds::<usize>::start_bound(&pair), Bound::Excluded(&3));
    assert_eq!(RangeBounds::<usize>::end_bound(&pair), Bound::Unbounded);
}

#[test]
fn copied_reads_the_value() {
    let x = 6usize;
    assert_eq!(Bound::Included(&x).copied(), Bound::Included(6));
    assert_eq!(Bound::Excluded(&x).copied(), Bound::Excluded(6));
    assert_eq!(Bound::<&usize>::Unbounded.copied(), Bound::Unbounded);
}

#[test]
fn half_open_contains_exactly_its_members() {
    let pair = (Bound::Included(3usize), Bound::Excluded(5usize));
    assert!(!RangeBounds::contains(&pair, &2usize));
    assert!(RangeBounds::contains(&pair, &3usize));
    assert!(RangeBounds::contains(&pair, &4usize));
    assert!(!RangeBounds::contains(&pair, &5usize));
    assert!(RangeBounds::contains(&(3..5), &4));
    assert!(!RangeBounds::contains(&(3..5), &2));
}

#[test]
fn contains_with_each_kind_of_bound() {
    let closed = (Bound::Included(3usize), Bound::Included(5usize));
    assert!(RangeBounds::contains(&closed, &5usize));
    assert!(!RangeBounds::contains(&closed, &6usize));
    let open = (Bound::Excluded(3usize), Bound::Excluded(5usize));
    assert!(!RangeBounds::contains(&open, &3usize));
    assert!(RangeBounds::contains(&open, &4usize));
    let all = (Bound::<usize>::Unbounded, Bound::Unbounded);
    assert!(RangeBounds::contains(&all, &usize::MAX));
    assert!(RangeBounds::contains(&(10..), &10));
    assert!(!RangeBounds::contains(&(..10), &10));
    assert!(RangeBounds::contains(&(..=10), &10));
}

#[test]
fn empty_and_reversed_ranges_contain_nothing() {
    assert!(!RangeBounds::contains(&(4..4), &4));
    assert!(!RangeBounds::contains(&(10..1), &5));
}

#[test]
fn unordered_item_is_never_contained() {
    assert!(RangeBounds::contains(&(0.0..1.0), &0.5));
    assert!(!RangeBounds::contains(&(0.0..1.0), &f64::NAN));
    assert!(!RangeBounds::contains(&(0.0..f64::NAN), &0.5));
    assert!(!RangeBounds::contains(&(f64::NAN..1.0), &0.5));
    assert!(!RangeBounds::contains(&(Bound::Included(0.0), Bound::Unbounded), &f64::NAN));
}
