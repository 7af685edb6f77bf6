//! One-sided limits and the ranges that expose them.
use vstd::prelude::*;
use vstd::std_specs::cmp::{PartialOrdIs, PartialOrdSpec};
use core::ops::{Range, RangeFrom, RangeFull, RangeInclusive, RangeTo, RangeToInclusive};

verus! {

/// std's `start..`, read through its public field `start`.
#[verifier::external_type_specification]
#[verifier::reject_recursive_types(Idx)]
pub struct ExRangeFrom<Idx>(RangeFrom<Idx>);

/// std's `..end`, read through its public field `end`.
#[verifier::external_type_specification]
#[verifier::reject_recursive_types(Idx)]
pub struct ExRangeTo<Idx>(RangeTo<Idx>);

/// std's `..=end`, read through its public field `end`.
#[verifier::external_type_specification]
#[verifier::reject_recursive_types(Idx)]
pub struct ExRangeToInclusive<Idx>(RangeToInclusive<Idx>);

/// std's `..`, which holds nothing.
#[verifier::external_type_specification]
pub struct ExRangeFull(RangeFull);

/// Relies on RangeInclusive::start: it returns the start that the range holds.
pub assume_specification<Idx>[ RangeInclusive::<Idx>::start ](r: &RangeInclusive<Idx>) -> (s: &Idx)
    ensures
        *s == r@.start,
;

/// Relies on RangeInclusive::end: it returns the end that the range holds.
pub assume_specification<Idx>[ RangeInclusive::<Idx>::end ](r: &RangeInclusive<Idx>) -> (e: &Idx)
    ensures
        *e == r@.end,
;

/// One side of an interval: a limit that belongs to it, a limit that does
/// not, or no limit at all.
#[derive(Clone, Copy, Debug, PartialEq, Eq, Structural)]
pub enum Bound<T> {
    Included(T),
    Excluded(T),
    Unbounded,
}

/// The bound with its referenced value read out.
pub open spec fn deref_bound<T>(b: Bound<&T>) -> Bound<T> {
    match b {
        Bound::Included(x) => Bound::Included(*x),
        Bound::Excluded(x) => Bound::Excluded(*x),
        Bound::Unbounded => Bound::Unbounded,
    }
}

impl<'a, T: Copy> Bound<&'a T> {
    /// Maps a bound on a reference to a bound on a copy of the value.
    pub fn copied(self) -> (r: Bound<T>)
        ensures
            r == deref_bound(self),
    {
        match self {
            Bound::Included(x) => Bound::Included(*x),
            Bound::Excluded(x) => Bound::Excluded(*x),
            Bound::Unbounded => Bound::Unbounded,
        }
    }
}

/// Whether `item` lies on the permitted side of the lower bound `b`.
pub open spec fn above_lower<T: PartialOrd<U>, U: ?Sized + PartialOrd<T>>(b: Bound<T>, item: &U) -> bool {
    match b {
        Bound::Included(s) => s.is_le(item),
        Bound::Excluded(s) => s.is_lt(item),
        Bound::Unbounded => true,
    }
}

/// Whether `item` lies on the permitted side of the upper bound `b`.
pub open spec fn below_upper<T: PartialOrd<U>, U: ?Sized + PartialOrd<T>>(b: Bound<T>, item: &U) -> bool {
    match b {
        Bound::Included(e) => item.is_le(&e),
        Bound::Excluded(e) => item.is_lt(&e),
        Bound::Unbounded => true,
    }
}

/// Whether `item` lies between `lower` and `upper`.
pub open spec fn within<T: PartialOrd<U>, U: ?Sized + PartialOrd<T>>(
    lower: Bound<T>,
    upper: Bound<T>,
    item: &U,
) -> bool {
    above_lower(lower, item) && below_upper(upper, item)
}

/// Whether comparisons between `T` and `U`, both ways, follow their
/// specified `partial_cmp`.
pub open spec fn ordered_both_ways<T: PartialOrd<U>, U: ?Sized + PartialOrd<T>>() -> bool {
    <T as PartialOrdSpec<U>>::obeys_partial_cmp_spec() && <U as PartialOrdSpec<
        T,
    >>::obeys_partial_cmp_spec()
}

/// A value shaped like a range: it has a lower and an upper bound.
///
/// The bounds are reported as given: nothing checks that the lower one lies
/// below the upper one, and a reversed range contains no item.
pub trait RangeBounds<T> {
    /// The lower bound this value stands for.
    spec fn lower(&self) -> Bound<T>;

    /// The upper bound this value stands for.
    spec fn upper(&self) -> Bound<T>;

    /// Start index bound.
    fn start_bound(&self) -> (r: Bound<&T>)
        ensures
            deref_bound(r) == self.lower(),
    ;

    /// End index bound.
    fn end_bound(&self) -> (r: Bound<&T>)
        ensures
            deref_bound(r) == self.upper(),
    ;

    /// Returns `true` if `item` is contained in the range.
    fn contains<U>(&self, item: &U) -> (r: bool)
        where
            T: PartialOrd<U>,
            U: ?Sized + PartialOrd<T>,
        ensures
            ordered_both_ways::<T, U>() ==> r == within(self.lower(), self.upper(), item),
    {
        let above = match self.start_bound() {
            Bound::Included(start) => start.le(item),
            Bound::Excluded(start) => start.lt(item),
            Bound::Unbounded => true,
        };
        above && match self.end_bound() {
            Bound::Included(end) => item.le(end),
            Bound::Excluded(end) => item.lt(end),
            Bound::Unbounded => true,
        }
    }
}

impl<T> RangeBounds<T> for RangeFull {
    open spec fn lower(&self) -> Bound<T> {
        Bound::Unbounded
    }

    open spec fn upper(&self) -> Bound<T> {
        Bound::Unbounded
    }

    fn start_bound(&self) -> Bound<&T> {
        Bound::Unbounded
    }

    fn end_bound(&self) -> Bound<&T> {
        Bound::Unbounded
    }
}

impl<T> RangeBounds<T> for RangeFrom<T> {
    open spec fn lower(&self) -> Bound<T> {
        Bound::Included(self.start)
    }

    open spec fn upper(&self) -> Bound<T> {
        Bound::Unbounded
    }

    fn start_bound(&self) -> Bound<&T> {
        Bound::Included(&self.start)
    }

    fn end_bound(&self) -> Bound<&T> {
        Bound::Unbounded
    }
}

impl<T> RangeBounds<T> for RangeTo<T> {
    open spec fn lower(&self) -> Bound<T> {
        Bound::Unbounded
    }

    open spec fn upper(&self) -> Bound<T> {
        Bound::Excluded(self.end)
    }

    fn start_bound(&self) -> Bound<&T> {
        Bound::Unbounded
    }

    fn end_bound(&self) -> Bound<&T> {
        Bound::Excluded(&self.end)
    }
}

impl<T> RangeBounds<T> for Range<T> {
    open spec fn lower(&self) -> Bound<T> {
        Bound::Included(self.start)
    }

    open spec fn upper(&self) -> Bound<T> {
        Bound::Excluded(self.end)
    }

    fn start_bound(&self) -> Bound<&T> {
        Bound::Included(&self.start)
    }

    fn end_bound(&self) -> Bound<&T> {
        Bound::Excluded(&self.end)
    }
}

impl<T> RangeBounds<T> for RangeInclusive<T> {
    open spec fn lower(&self) -> Bound<T> {
        Bound::Included(self@.start)
    }

    open spec fn upper(&self) -> Bound<T> {
        Bound::Included(self@.end)
    }

    fn start_bound(&self) -> Bound<&T> {
        Bound::Included(self.start())
    }

    fn end_bound(&self) -> Bound<&T> {
        Bound::Included(self.end())
    }
}

impl<T> RangeBounds<T> for RangeToInclusive<T> {
    open spec fn lower(&self) -> Bound<T> {
        Bound::Unbounded
    }

    open spec fn upper(&self) -> Bound<T> {
        Bound::Included(self.end)
    }

    fn start_bound(&self) -> Bound<&T> {
        Bound::Unbounded
    }

    fn end_bound(&self) -> Bound<&T> {
        Bound::Included(&self.end)
    }
}

impl<T> RangeBounds<T> for (Bound<T>, Bound<T>) {
    open spec fn lower(&self) -> Bound<T> {
        self.0
    }

    open spec fn upper(&self) -> Bound<T> {
        self.1
    }

    fn start_bound(&self) -> Bound<&T> {
        match self.0 {
            Bound::Included(ref start) => Bound::Included(start),
            Bound::Excluded(ref start) => Bound::Excluded(start),
            Bound::Unbounded => Bound::Unbounded,
        }
    }

    fn end_bound(&self) -> Bound<&T> {
        match self.1 {
            Bound::Included(ref end) => Bound::Included(end),
            Bound::Excluded(ref end) => Bound::Excluded(end),
            Bound::Unbounded => Bound::Unbounded,
        }
    }
}

impl<'a, T> RangeBounds<T> for (Bound<&'a T>, Bound<&'a T>) {
    open spec fn lower(&self) -> Bound<T> {
        deref_bound(self.0)
    }

    open spec fn upper(&self) -> Bound<T> {
        deref_bound(self.1)
    }

    fn start_bound(&self) -> Bound<&T> {
        self.0
    }

    fn end_bound(&self) -> Bound<&T> {
        self.1
    }
}

impl<'a, T> RangeBounds<T> for RangeFrom<&'a T> {
    open spec fn lower(&self) -> Bound<T> {
        Bound::Included(*self.start)
    }

    open spec fn upper(&self) -> Bound<T> {
        Bound::Unbounded
    }

    fn start_bound(&self) -> Bound<&T> {
        Bound::Included(self.start)
    }

    fn end_bound(&self) -> Bound<&T> {
        Bound::Unbounded
    }
}

impl<'a, T> RangeBounds<T> for RangeTo<&'a T> {
    open spec fn lower(&self) -> Bound<T> {
        Bound::Unbounded
    }

    open spec fn upper(&self) -> Bound<T> {
        Bound::Excluded(*self.end)
    }

    fn start_bound(&self) -> Bound<&T> {
        Bound::Unbounded
    }

    fn end_bound(&self) -> Bound<&T> {
        Bound::Excluded(self.end)
    }
}

impl<'a, T> RangeBounds<T> for Range<&'a T> {
    open spec fn lower(&self) -> Bound<T> {
        Bound::Included(*self.start)
    }

    open spec fn upper(&self) -> Bound<T> {
        Bound::Excluded(*self.end)
    }

    fn start_bound(&self) -> Bound<&T> {
        Bound::Included(self.start)
    }

    fn end_bound(&self) -> Bound<&T> {
        Bound::Excluded(self.end)
    }
}

impl<'a, T> RangeBounds<T> for RangeInclusive<&'a T> {
    open spec fn lower(&self) -> Bound<T> {
        Bound::Included(*self@.start)
    }

    open spec fn upper(&self) -> Bound<T> {
        Bound::Included(*self@.end)
    }

    fn start_bound(&self) -> Bound<&T> {
        Bound::Included(*self.start())
    }

    fn end_bound(&self) -> Bound<&T> {
        Bound::Included(*self.end())
    }
}

impl<'a, T> RangeBounds<T> for RangeToInclusive<&'a T> {
    open spec fn lower(&self) -> Bound<T> {
        Bound::Unbounded
    }

    open spec fn upper(&self) -> Bound<T> {
        Bound::Included(*self.end)
    }

    fn start_bound(&self) -> Bound<&T> {
        Bound::Unbounded
    }

    fn end_bound(&self) -> Bound<&T> {
        Bound::Included(self.end)
    }
}

} // verus!
