//! Which segments of a running request have already been reported.

use vstd::prelude::*;

verus! {

/// A request's own tally of the segments it has reported so far. Each
/// request holds one; none is shared between requests.
pub struct SegmentCursor {
    seen: i32,
}

impl SegmentCursor {
    /// How many segments have been reported.
    pub closed spec fn reported(&self) -> int {
        self.seen as int
    }

    /// A cursor of a request that has reported nothing.
    pub fn new() -> (c: SegmentCursor)
        ensures
            c.reported() == 0,
    {
        SegmentCursor { seen: 0 }
    }

    /// Takes note that `available` segments now exist. Returns the half-open
    /// range of indices to report: those from the old tally up to `available`,
    /// none if the tally is already there or beyond. The tally becomes
    /// `available`.
    pub fn advance(&mut self, available: i32) -> (r: (i32, i32))
        ensures
            r.0 == old(self).reported(),
            r.1 == available,
            final(self).reported() == available,
    {
        let from = self.seen;
        self.seen = available;
        (from, available)
    }

    /// How many segments have been reported.
    pub fn position(&self) -> (r: i32)
        ensures
            r == self.reported(),
    {
        self.seen
    }
}

/// Whether `index` lies in the half-open range.
pub open spec fn in_range(range: (i32, i32), index: int) -> bool {
    range.0 <= index < range.1
}

/// Two reports in a row, over counts that do not shrink, hand out each new
/// index once: no index is in both ranges, and together they are the
/// indices from the first tally up to the second count.
pub proof fn lemma_reports_partition(start: i32, first: i32, second: i32, index: int)
    requires
        start <= first <= second,
    ensures
        !(in_range((start, first), index) && in_range((first, second), index)),
        (in_range((start, first), index) || in_range((first, second), index)) <==> in_range(
            (start, second),
            index,
        ),
{
}

} // verus!
