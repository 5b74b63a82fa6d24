//! How far a cut can be pushed.

use vstd::prelude::*;

use crate::layout::split::{cut_at, floor_of, MIN_SHARE_DIVISOR};

verus! {

/// The least that is left of a slice is a fifth of its fair share, rounded down, and never
/// nothing where there is a pixel for everybody.
pub proof fn a_slice_is_left_a_fifth_of_its_share(extent: int, parts: int)
    requires
        1 <= parts,
    ensures
        extent <= parts ==> floor_of(extent, parts) == 0,
        extent > parts ==> {
            let least = floor_of(extent, parts);
            &&& least >= 1
            &&& least > 1 ==> 5 * (parts * least) <= extent
            &&& extent < 5 * (parts * (least + 1))
        },
{
    if extent > parts {
        let share = extent / parts;
        let least = floor_of(extent, parts);
        assert(MIN_SHARE_DIVISOR == 5);
        let fifth = share / 5;
        assert(5 * fifth <= share < 5 * (fifth + 1));
        assert(parts * share <= extent < parts * (share + 1)) by (nonlinear_arith)
            requires
                share == extent / parts,
                1 <= parts,
        ;
        assert(parts * (share + 1) <= parts * (5 * (fifth + 1))) by (nonlinear_arith)
            requires
                share + 1 <= 5 * (fifth + 1),
                1 <= parts,
        ;
        assert(parts * (5 * (fifth + 1)) == 5 * (parts * (fifth + 1))) by (nonlinear_arith);
        assert(parts * (fifth + 1) <= parts * (least + 1)) by (nonlinear_arith)
            requires
                fifth <= least,
                1 <= parts,
        ;
        if least > 1 {
            assert(5 * (parts * least) == parts * (5 * least)) by (nonlinear_arith);
            assert(parts * (5 * least) <= parts * share) by (nonlinear_arith)
                requires
                    5 * least <= share,
                    1 <= parts,
            ;
        }
    }
}

/// A range is cut in the middle, and a push moves the cut as far as it goes, up to the
/// least that either side is left with: there it stops.
pub proof fn a_cut_stops_at_the_limits(
    start: int,
    end: int,
    push: int,
    min_first: int,
    min_rest: int,
)
    requires
        i32::MIN <= start < end <= i32::MAX,
        end - start <= i32::MAX,
        i32::MIN <= start + (end - start) / 2 + push <= i32::MAX,
        floor_of(end - start, 2) <= min_first,
        floor_of(end - start, 2) <= min_rest,
        min_first + min_rest < end - start,
    ensures
        ({
            let cut = cut_at(start, end, push, min_first, min_rest);
            let wanted = start + (end - start) / 2 + push;
            &&& start + min_first <= cut <= end - min_rest
            &&& start + min_first <= wanted <= end - min_rest ==> cut == wanted
            &&& wanted < start + min_first ==> cut == start + min_first
            &&& wanted > end - min_rest ==> cut == end - min_rest
        }),
{
}

/// A side that asks for less than the least it is due gets that.
pub proof fn a_side_gets_at_least_its_due(
    start: int,
    end: int,
    push: int,
    min_first: int,
    min_rest: int,
)
    requires
        i32::MIN <= start < end <= i32::MAX,
        2 < end - start <= i32::MAX,
        min_first <= floor_of(end - start, 2),
        min_rest <= floor_of(end - start, 2),
    ensures
        start + floor_of(end - start, 2) <= cut_at(start, end, push, min_first, min_rest) <= end
            - floor_of(end - start, 2),
        cut_at(start, end, push, min_first, min_rest) == cut_at(start, end, push, 0, 0),
{
    a_slice_is_left_a_fifth_of_its_share(end - start, 2);
}

} // verus!
