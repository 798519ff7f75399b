use vstd::prelude::*;
use crate::symbols::{EdgeSet, SegmentSet};

verus! {

/// `+` at corners and middles, `|` and `-` between them.
pub fn misc1() -> (r: SegmentSet)
    ensures
        r == (SegmentSet {
            left: EdgeSet { start: '+', rep_1: '|', center: '+', rep_2: '|', end: '+' },
            right: EdgeSet { start: '+', rep_1: '|', center: '+', rep_2: '|', end: '+' },
            top: EdgeSet { start: '+', rep_1: '-', center: '+', rep_2: '-', end: '+' },
            bottom: EdgeSet { start: '+', rep_1: '-', center: '+', rep_2: '-', end: '+' },
        }),
{
    SegmentSet {
        left: EdgeSet { start: '+', rep_1: '|', center: '+', rep_2: '|', end: '+' },
        right: EdgeSet { start: '+', rep_1: '|', center: '+', rep_2: '|', end: '+' },
        top: EdgeSet { start: '+', rep_1: '-', center: '+', rep_2: '-', end: '+' },
        bottom: EdgeSet { start: '+', rep_1: '-', center: '+', rep_2: '-', end: '+' },
    }
}

/// `&` at corners, `+` in the middle of the sides.
pub fn misc2() -> (r: SegmentSet)
    ensures
        r == (SegmentSet {
            left: EdgeSet { start: '&', rep_1: '|', center: '+', rep_2: '|', end: '&' },
            right: EdgeSet { start: '&', rep_1: '|', center: '+', rep_2: '|', end: '&' },
            top: EdgeSet { start: '&', rep_1: '-', center: '-', rep_2: '-', end: '&' },
            bottom: EdgeSet { start: '&', rep_1: '-', center: '-', rep_2: '-', end: '&' },
        }),
{
    SegmentSet {
        left: EdgeSet { start: '&', rep_1: '|', center: '+', rep_2: '|', end: '&' },
        right: EdgeSet { start: '&', rep_1: '|', center: '+', rep_2: '|', end: '&' },
        top: EdgeSet { start: '&', rep_1: '-', center: '-', rep_2: '-', end: '&' },
        bottom: EdgeSet { start: '&', rep_1: '-', center: '-', rep_2: '-', end: '&' },
    }
}

/// `$` at corners, `~` in the middle of the sides and the top.
pub fn misc3() -> (r: SegmentSet)
    ensures
        r == (SegmentSet {
            left: EdgeSet { start: '$', rep_1: '│', center: '~', rep_2: '│', end: '$' },
            right: EdgeSet { start: '$', rep_1: '│', center: '~', rep_2: '│', end: '$' },
            top: EdgeSet { start: '$', rep_1: '─', center: '~', rep_2: '─', end: '$' },
            bottom: EdgeSet { start: '$', rep_1: '─', center: '$', rep_2: '─', end: '$' },
        }),
{
    SegmentSet {
        left: EdgeSet { start: '$', rep_1: '│', center: '~', rep_2: '│', end: '$' },
        right: EdgeSet { start: '$', rep_1: '│', center: '~', rep_2: '│', end: '$' },
        top: EdgeSet { start: '$', rep_1: '─', center: '~', rep_2: '─', end: '$' },
        bottom: EdgeSet { start: '$', rep_1: '─', center: '$', rep_2: '─', end: '$' },
    }
}

} // verus!
