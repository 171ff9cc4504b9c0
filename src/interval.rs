//! Interval operations on address ranges.

use vstd::prelude::*;

use core::ops::Range;

verus! {

/// Whether the range holds no address.
pub open spec fn range_empty(r: Range<u64>) -> bool {
    r.start >= r.end
}

/// Interval arithmetic on half-open ranges.
pub trait Interval: Sized {
    /// The intersection of the two intervals.
    fn intersection(&self, other: &Self) -> (r: Self);

    /// Whether `other` lies completely within this interval.
    fn contains_interval(&self, other: &Self) -> (r: bool);

    /// Whether the two intervals share an element.
    fn overlaps(&self, other: &Self) -> (r: bool);
}

impl Interval for Range<u64> {
    fn intersection(&self, other: &Range<u64>) -> (r: Range<u64>)
        ensures
            r.start == if self.start > other.start { self.start } else { other.start },
            r.end == if self.end < other.end { self.end } else { other.end },
    {
        let start = if self.start > other.start { self.start } else { other.start };
        let end = if self.end < other.end { self.end } else { other.end };
        start..end
    }

    fn contains_interval(&self, other: &Range<u64>) -> (r: bool)
        ensures
            r == (intersection_spec(*self, *other) == *other),
    {
        let i = self.intersection(other);
        i.start == other.start && i.end == other.end
    }

    fn overlaps(&self, other: &Range<u64>) -> (r: bool)
        ensures
            r == (!range_empty(*self) && !range_empty(intersection_spec(*self, *other))),
    {
        let i = self.intersection(other);
        !(self.start >= self.end) && !(i.start >= i.end)
    }
}

/// The intersection of two ranges.
pub open spec fn intersection_spec(a: Range<u64>, b: Range<u64>) -> Range<u64> {
    Range {
        start: if a.start > b.start { a.start } else { b.start },
        end: if a.end < b.end { a.end } else { b.end },
    }
}

/// An address lies in both intervals exactly when it lies in their
/// intersection; overlapping intervals share an address, and containment is
/// transitive.
pub proof fn lemma_intersection_and_overlap(a: Range<u64>, b: Range<u64>, c: Range<u64>, v: u64)
    ensures
        (a.start <= v < a.end && b.start <= v < b.end) <==> (intersection_spec(a, b).start <= v < intersection_spec(a, b).end),
        (a.start <= v < a.end && b.start <= v < b.end) ==> (!range_empty(a) && !range_empty(intersection_spec(a, b))),
        (intersection_spec(a, b) == b && intersection_spec(b, c) == c) ==> intersection_spec(a, c) == c,
{
}

} // verus!
