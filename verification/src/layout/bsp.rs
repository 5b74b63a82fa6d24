//! Binary space partition, the daily driver layout.
//!
//! The first container takes half the area with a vertical cut, the second
//! takes half of what is left with a horizontal cut, and so on, alternating.
//! The last two containers share the final region evenly.

use vstd::prelude::*;

use crate::geometry::{sat, Axis, Rect};
use crate::layout::split::{
    boundary_delta, cut_at, far_delta, near_delta, rect_from_slice, split_two,
};
use crate::layout::MinSize;

verus! {

/// The room a cut leaves for the tiles behind it: what is left over is cut
/// along the same axis again every second step, so it keeps one tile per later
/// cut plus the last one.
pub open spec fn room_behind(floor: int, idx: int, len: int) -> int {
    sat(floor * ((len - idx - 2) / 2 + 1)) as int
}

/// Where container `idx` of `len` is cut off what is left of the area.
pub open spec fn bsp_cut(
    remaining: Rect,
    axis: Axis,
    idx: int,
    len: int,
    resize: Seq<Option<Rect>>,
    min_tile: MinSize,
) -> int {
    let floor = min_tile.along(axis) as int;
    let delta = sat(far_delta(resize, idx, axis) + near_delta(resize, idx + 1, axis)) as int;
    cut_at(
        remaining.start(axis) as int,
        remaining.end(axis) as int,
        delta,
        floor,
        room_behind(floor, idx, len),
    )
}

/// The rectangles of the containers `idx..len` inside what is left of the area.
pub open spec fn bsp_rects(
    remaining: Rect,
    axis: Axis,
    idx: int,
    len: int,
    resize: Seq<Option<Rect>>,
    min_tile: MinSize,
) -> Seq<Rect>
    decreases len - idx,
{
    if idx >= len {
        Seq::empty()
    } else if idx + 1 == len {
        seq![remaining]
    } else {
        let at = bsp_cut(remaining, axis, idx, len, resize, min_tile) as i32;
        seq![rect_from_slice(remaining, axis, remaining.start(axis), at)] + bsp_rects(
            rect_from_slice(remaining, axis, at, remaining.end(axis)),
            axis.other(),
            idx + 1,
            len,
            resize,
            min_tile,
        )
    }
}

/// The rectangle for each of `len` containers inside `area`.
///
/// `min_tile` is the smallest a tile may get. Every cut keeps that much for
/// the container it splits off, and one more for each later cut along the same
/// axis, so the minimum holds all the way down the tree.
pub fn calculate(area: Rect, len: usize, resize: &[Option<Rect>], min_tile: MinSize) -> (r: Vec<
    Rect,
>)
    requires
        min_tile.width >= 0,
        min_tile.height >= 0,
    ensures
        r@ == bsp_rects(area, Axis::Horizontal, 0, len as int, resize@, min_tile),
{
    let mut rects: Vec<Rect> = Vec::new();
    let mut remaining = area;
    let mut axis = Axis::Horizontal;
    let mut idx: usize = 0;
    while idx < len
        invariant
            idx <= len,
            min_tile.width >= 0,
            min_tile.height >= 0,
            bsp_rects(area, Axis::Horizontal, 0, len as int, resize@, min_tile) == rects@
                + bsp_rects(remaining, axis, idx as int, len as int, resize@, min_tile),
        decreases len - idx,
    {
        let ghost head = rects@;
        let ghost before = bsp_rects(remaining, axis, idx as int, len as int, resize@, min_tile);
        if idx + 1 == len {
            rects.push(remaining);
            assert(head + before =~= rects@ + Seq::<Rect>::empty());
            idx = idx + 1;
        } else {
            let delta = boundary_delta(resize, idx, idx + 1, axis);
            let floor = min_tile.along(axis);
            let later: i128 = ((len - idx - 2) / 2 + 1) as i128;
            assert(0 <= floor * later <= i32::MAX * u64::MAX) by (nonlinear_arith)
                requires
                    0 <= floor <= i32::MAX,
                    0 <= later <= u64::MAX,
            ;
            let room: i128 = (floor as i128) * later;
            let min_rest: i32 = if room > i32::MAX as i128 {
                i32::MAX
            } else {
                room as i32
            };
            let start = remaining.start(axis);
            let end = remaining.end(axis);
            let at = split_two(start, end, delta, floor, min_rest);
            assert(at == bsp_cut(remaining, axis, idx as int, len as int, resize@, min_tile));
            let first = rect_from_slice(remaining, axis, start, at);
            rects.push(first);
            remaining = rect_from_slice(remaining, axis, at, end);
            axis = axis.other();
            idx = idx + 1;
            let ghost tail = bsp_rects(
                remaining,
                axis,
                idx as int,
                len as int,
                resize@,
                min_tile,
            );
            assert(before == seq![first] + tail);
            assert(head + (seq![first] + tail) =~= head.push(first) + tail);
        }
    }
    assert(rects@ + Seq::<Rect>::empty() =~= rects@);
    rects
}

} // verus!
