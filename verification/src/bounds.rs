use core::ops::{Bound, Range, RangeBounds, RangeInclusive};
use vstd::prelude::*;

verus! {

/// One end of a range of indices.
#[derive(Debug, Clone, Copy, PartialEq, Eq, Structural)]
pub enum Endpoint {
    /// The range reaches this index and holds it.
    Included(usize),
    /// The range reaches this index and leaves it out.
    Excluded(usize),
    /// The range has no limit on this side.
    Unbounded,
}

/// A description of a chunk by its two ends.
pub trait ChunkBounds {
    /// The end at which the chunk starts.
    spec fn start_spec(&self) -> Endpoint;

    /// The end at which the chunk stops.
    spec fn end_spec(&self) -> Endpoint;

    fn start_point(&self) -> (b: Endpoint)
        ensures
            b == self.start_spec(),
    ;

    fn end_point(&self) -> (b: Endpoint)
        ensures
            b == self.end_spec(),
    ;
}

/// `a..b` starts at `a` and stops before `b`.
impl ChunkBounds for Range<usize> {
    open spec fn start_spec(&self) -> Endpoint {
        Endpoint::Included(self.start)
    }

    open spec fn end_spec(&self) -> Endpoint {
        Endpoint::Excluded(self.end)
    }

    fn start_point(&self) -> (b: Endpoint) {
        Endpoint::Included(self.start)
    }

    fn end_point(&self) -> (b: Endpoint) {
        Endpoint::Excluded(self.end)
    }
}

/// The start that `RangeBounds::start_bound` reports for an inclusive range
/// with this start and this end that iteration has used up.
pub uninterp spec fn used_up_start(start: usize, end: usize) -> Endpoint;

/// The end that `RangeBounds::end_bound` reports for an inclusive range with
/// this start and this end that iteration has used up.
pub uninterp spec fn used_up_end(start: usize, end: usize) -> Endpoint;

/// `RangeBounds::start_bound` of an inclusive range. std documents the start as
/// included; of a range that iteration has used up it leaves the value open,
/// and this says only that it depends on the range's start and end alone.
#[verifier::external_body]
fn start_of_inclusive(range: &RangeInclusive<usize>) -> (b: Endpoint)
    ensures
        b == if range@.exhausted {
            used_up_start(range@.start, range@.end)
        } else {
            Endpoint::Included(range@.start)
        },
{
    match range.start_bound() {
        Bound::Included(i) => Endpoint::Included(*i),
        Bound::Excluded(i) => Endpoint::Excluded(*i),
        Bound::Unbounded => Endpoint::Unbounded,
    }
}

/// `RangeBounds::end_bound` of an inclusive range. std documents the end as
/// included; of a range that iteration has used up it leaves the value open,
/// and this says only that it depends on the range's start and end alone.
#[verifier::external_body]
fn end_of_inclusive(range: &RangeInclusive<usize>) -> (b: Endpoint)
    ensures
        b == if range@.exhausted {
            used_up_end(range@.start, range@.end)
        } else {
            Endpoint::Included(range@.end)
        },
{
    match range.end_bound() {
        Bound::Included(i) => Endpoint::Included(*i),
        Bound::Excluded(i) => Endpoint::Excluded(*i),
        Bound::Unbounded => Endpoint::Unbounded,
    }
}

/// `a..=b` starts at `a` and stops after `b`, as long as nothing has iterated
/// over it to its end.
impl ChunkBounds for RangeInclusive<usize> {
    open spec fn start_spec(&self) -> Endpoint {
        if self@.exhausted {
            used_up_start(self@.start, self@.end)
        } else {
            Endpoint::Included(self@.start)
        }
    }

    open spec fn end_spec(&self) -> Endpoint {
        if self@.exhausted {
            used_up_end(self@.start, self@.end)
        } else {
            Endpoint::Included(self@.end)
        }
    }

    fn start_point(&self) -> (b: Endpoint) {
        start_of_inclusive(self)
    }

    fn end_point(&self) -> (b: Endpoint) {
        end_of_inclusive(self)
    }
}

/// A pair of ends, the start first.
impl ChunkBounds for (Endpoint, Endpoint) {
    open spec fn start_spec(&self) -> Endpoint {
        self.0
    }

    open spec fn end_spec(&self) -> Endpoint {
        self.1
    }

    fn start_point(&self) -> (b: Endpoint) {
        self.0
    }

    fn end_point(&self) -> (b: Endpoint) {
        self.1
    }
}

} // verus!
