//! Repetition counts: an exact count or a range of counts, accepted
//! through one entry point.
use vstd::prelude::*;
use core::ops::RangeInclusive;
use crate::bounds::{Bound, RangeBounds};

verus! {

/// A value that converts into a range of repetition counts.
pub trait IntoRangeBounds<T> where T: RangeBounds<usize> {
    /// The pair of bounds, lower then upper, that this value resolves to.
    spec fn resolved(&self) -> (Bound<usize>, Bound<usize>);

    /// Convert to a RangeBound
    fn convert(self) -> (r: T)
        ensures
            (r.lower(), r.upper()) == self.resolved(),
    ;
}

/// A range of counts is already what the entry point wants.
impl<T> IntoRangeBounds<T> for T where T: RangeBounds<usize> {
    open spec fn resolved(&self) -> (Bound<usize>, Bound<usize>) {
        (self.lower(), self.upper())
    }

    fn convert(self) -> (r: T)
        ensures
            r == self,
    {
        self
    }
}

/// A single count `n` means exactly `n` repetitions.
impl IntoRangeBounds<RangeInclusive<usize>> for usize {
    open spec fn resolved(&self) -> (Bound<usize>, Bound<usize>) {
        (Bound::Included(*self), Bound::Included(*self))
    }

    fn convert(self) -> RangeInclusive<usize> {
        self..=self
    }
}

/// Resolves a count or a range of counts to its lower and upper bound.
pub fn many<G, H>(range: G) -> (r: (Bound<usize>, Bound<usize>))
    where
        G: IntoRangeBounds<H>,
        H: RangeBounds<usize>,
    ensures
        r == range.resolved(),
{
    let range = range.convert();
    (range.start_bound().copied(), range.end_bound().copied())
}

} // verus!
