//! Laws relating normalization and containment.
use vstd::prelude::*;
use vstd::std_specs::cmp::PartialOrdSpec;
use crate::bounds::{ordered_both_ways, within, Bound, RangeBounds};
use crate::repeat::IntoRangeBounds;

verus! {

/// Whether comparing `item` with the value of the lower bound `b` has no
/// answer.
pub open spec fn unordered_with_lower<T: PartialOrd<U>, U: ?Sized + PartialOrd<T>>(b: Bound<T>, item: &U) -> bool {
    match b {
        Bound::Included(s) => s.partial_cmp_spec(item) is None,
        Bound::Excluded(s) => s.partial_cmp_spec(item) is None,
        Bound::Unbounded => false,
    }
}

/// Whether comparing `item` with the value of the upper bound `b` has no
/// answer.
pub open spec fn unordered_with_upper<T: PartialOrd<U>, U: ?Sized + PartialOrd<T>>(b: Bound<T>, item: &U) -> bool {
    match b {
        Bound::Included(e) => item.partial_cmp_spec(&e) is None,
        Bound::Excluded(e) => item.partial_cmp_spec(&e) is None,
        Bound::Unbounded => false,
    }
}

/// A single count `n` resolves to the closed interval from `n` to `n`.
pub proof fn lemma_count_resolves_to_point(n: usize)
    ensures
        n.resolved() == (Bound::Included(n), Bound::Included(n)),
{
}

/// A value that is already range-shaped resolves to its own lower and upper
/// bound.
pub proof fn lemma_range_resolves_to_itself<R: RangeBounds<usize>>(range: R)
    ensures
        range.resolved() == (range.lower(), range.upper()),
{
}

/// An item lies in the half-open interval from `a` (included) to `b`
/// (excluded) exactly when `a <= item < b`; counts compare as `contains`
/// expects, so `contains` answers exactly that.
pub proof fn lemma_half_open_contains(a: usize, b: usize, item: usize)
    ensures
        ordered_both_ways::<usize, usize>(),
        within(Bound::Included(a), Bound::Excluded(b), &item) <==> a <= item < b,
{
}

/// A reversed range of counts, whose lower value lies above its upper
/// value, contains no item, whether each side is included or excluded.
pub proof fn lemma_reversed_range_is_empty(lower: Bound<usize>, upper: Bound<usize>, item: usize)
    requires
        !(lower is Unbounded),
        !(upper is Unbounded),
        bound_value(lower) > bound_value(upper),
    ensures
        !within(lower, upper, &item),
{
}

/// The value that a bounded side holds.
pub open spec fn bound_value(b: Bound<usize>) -> usize {
    match b {
        Bound::Included(x) => x,
        Bound::Excluded(x) => x,
        Bound::Unbounded => 0,
    }
}

/// An item that cannot be compared with the value of either bound is never
/// contained.
pub proof fn lemma_unordered_never_contained<T: PartialOrd<U>, U: ?Sized + PartialOrd<T>>(
    lower: Bound<T>,
    upper: Bound<T>,
    item: &U,
)
    requires
        unordered_with_lower(lower, item) || unordered_with_upper(upper, item),
    ensures
        !within(lower, upper, item),
{
}

/// Resolving the pair that a value resolved to gives that same pair.
pub proof fn lemma_resolve_idempotent<G: IntoRangeBounds<H>, H: RangeBounds<usize>>(value: G)
    ensures
        value.resolved().resolved() == value.resolved(),
{
}

} // verus!
