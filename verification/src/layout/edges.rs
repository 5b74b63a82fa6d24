//! Where the cuts of a layout lie, and what pushes them.

use vstd::prelude::*;

use crate::geometry::{sat, Axis, Rect};
use crate::layout::bsp::{bsp_cut, bsp_rects};
use crate::layout::split::{
    bound, deltas_of, equal_weights, far_delta, far_sum, minimum_of, near_delta, near_sum,
    rect_from_slice, shared_delta, slices, weight_sum,
};
use crate::layout::tiling::{equal_weights_add_up, grid_has_columns, tile_count};
use crate::layout::{
    cells_add_up, columns_of, grid_cells_of_column, grid_column_rects, grid_rects, in_a_row,
    main_and_rest, ultrawide_columns, Flip, Layout, MinSize,
};

verus! {

/// The near edge of a rectangle along `axis`.
pub open spec fn near_edge(r: Rect, axis: Axis) -> int {
    if axis is Horizontal {
        r.left as int
    } else {
        r.top as int
    }
}

/// The far edge of a rectangle along `axis`.
pub open spec fn far_edge(r: Rect, axis: Axis) -> int {
    if axis is Horizontal {
        r.right as int
    } else {
        r.bottom as int
    }
}

/// How far container `i` pushes the boundary at its far edge.
pub open spec fn push_ahead(resize: Seq<Option<Rect>>, i: int, axis: Axis) -> int {
    if 0 <= i < resize.len() && resize[i] is Some {
        far_edge(resize[i]->0, axis)
    } else {
        0
    }
}

/// How far container `i` pushes the boundary at its near edge.
pub open spec fn push_back(resize: Seq<Option<Rect>>, i: int, axis: Axis) -> int {
    if 0 <= i < resize.len() && resize[i] is Some {
        near_edge(resize[i]->0, axis)
    } else {
        0
    }
}

/// How far the containers `from..to` push the boundary at their far edge together.
pub open spec fn pushes_ahead(resize: Seq<Option<Rect>>, from: int, to: int, axis: Axis) -> int
    decreases to - from,
{
    if to <= from {
        0
    } else {
        pushes_ahead(resize, from, to - 1, axis) + push_ahead(resize, to - 1, axis)
    }
}

/// How far the containers `from..to` push the boundary at their near edge together.
pub open spec fn pushes_back(resize: Seq<Option<Rect>>, from: int, to: int, axis: Axis) -> int
    decreases to - from,
{
    if to <= from {
        0
    } else {
        pushes_back(resize, from, to - 1, axis) + push_back(resize, to - 1, axis)
    }
}

/// No container pushes a boundary further than `most` pixels.
pub open spec fn gentle(resize: Seq<Option<Rect>>, most: int) -> bool {
    forall|i: int|
        0 <= i < resize.len() && (#[trigger] resize[i]) is Some ==> {
            let d = resize[i]->0;
            &&& -most <= d.left <= most
            &&& -most <= d.top <= most
            &&& -most <= d.right <= most
            &&& -most <= d.bottom <= most
        }
}

/// What each of `parts` slices of a range keeps at least: a fifth of its share, a
/// pixel, and `min`.
pub open spec fn keeps(extent: int, parts: int, min: int) -> int {
    let share = extent / parts / 5;
    if share >= min && share >= 1 {
        share
    } else if min >= 1 {
        min
    } else {
        1
    }
}

/// The smallest a tile should get along `axis`.
pub open spec fn wanted(min: MinSize, axis: Axis) -> int {
    if axis is Horizontal {
        min.width as int
    } else {
        min.height as int
    }
}

/// The axis across `axis`.
pub open spec fn across(axis: Axis) -> Axis {
    if axis is Horizontal {
        Axis::Vertical
    } else {
        Axis::Horizontal
    }
}

/// `x` moved into `low..=high`.
pub open spec fn held(x: int, low: int, high: int) -> int {
    if x < low {
        low
    } else if x > high {
        high
    } else {
        x
    }
}

/// The deltas of `len` containers of which only container `i` has one.
pub open spec fn just(len: int, i: int, delta: Rect) -> Seq<Option<Rect>> {
    Seq::new(
        len as nat,
        |k: int|
            if k == i {
                Some(delta)
            } else {
                None
            },
    )
}

/// A push of `d` pixels at the far edge along `axis`.
pub open spec fn ahead(axis: Axis, d: i32) -> Rect {
    if axis is Horizontal {
        Rect { left: 0, top: 0, right: d, bottom: 0 }
    } else {
        Rect { left: 0, top: 0, right: 0, bottom: d }
    }
}

/// A push of `d` pixels at the near edge along `axis`.
pub open spec fn back(axis: Axis, d: i32) -> Rect {
    if axis is Horizontal {
        Rect { left: d, top: 0, right: 0, bottom: 0 }
    } else {
        Rect { left: 0, top: d, right: 0, bottom: 0 }
    }
}

proof fn sums_do_not_saturate(
    resize: Seq<Option<Rect>>,
    before: (int, int),
    after: (int, int),
    axis: Axis,
    most: int,
)
    requires
        gentle(resize, most),
        0 <= most,
        0 <= before.0 <= before.1,
        0 <= after.0 <= after.1,
        most * (before.1 - before.0 + after.1 - after.0) <= i32::MAX,
    ensures
        shared_delta(resize, before, after, axis) == pushes_ahead(
            resize,
            before.0,
            before.1,
            axis,
        ) + pushes_back(resize, after.0, after.1, axis),
{
    let b = before.1 - before.0;
    let a = after.1 - after.0;
    assert(most * b <= most * (b + a) && most * b + most * a == most * (b + a)) by (nonlinear_arith)
        requires
            0 <= most,
            0 <= a,
            0 <= b,
    ;
    far_sums(resize, before.0, before.1, axis, most);
    near_sums(
        far_sum(resize, before.0, before.1, axis),
        resize,
        after.0,
        after.1,
        axis,
        most,
        most * b,
    );
}

proof fn far_sums(resize: Seq<Option<Rect>>, from: int, to: int, axis: Axis, most: int)
    requires
        gentle(resize, most),
        0 <= most,
        0 <= from <= to,
        most * (to - from) <= i32::MAX,
    ensures
        far_sum(resize, from, to, axis) == pushes_ahead(resize, from, to, axis),
        -(most * (to - from)) <= far_sum(resize, from, to, axis) <= most * (to - from),
    decreases to - from,
{
    if from < to {
        let n = to - from;
        assert(most * n == most * (n - 1) + most) by (nonlinear_arith);
        far_sums(resize, from, to - 1, axis, most);
    } else {
        assert(most * 0 == 0);
    }
}

proof fn near_sums(
    base: i32,
    resize: Seq<Option<Rect>>,
    from: int,
    to: int,
    axis: Axis,
    most: int,
    reach: int,
)
    requires
        gentle(resize, most),
        0 <= most,
        0 <= from <= to,
        -reach <= base <= reach,
        0 <= reach,
        reach + most * (to - from) <= i32::MAX,
    ensures
        near_sum(base, resize, from, to, axis) == base + pushes_back(resize, from, to, axis),
        -(reach + most * (to - from)) <= near_sum(base, resize, from, to, axis) <= reach + most * (
        to - from),
    decreases to - from,
{
    if from < to {
        let n = to - from;
        assert(most * n == most * (n - 1) + most) by (nonlinear_arith);
        near_sums(base, resize, from, to - 1, axis, most, reach);
    } else {
        assert(most * 0 == 0);
    }
}

proof fn the_floor_is_kept(extent: int, parts: int, min: int)
    requires
        1 <= parts < extent,
        0 <= min,
        keeps(extent, parts, min) * parts <= extent,
    ensures
        minimum_of(extent, parts, min) == keeps(extent, parts, min),
{
}

proof fn a_row_is_cut_where_it_is_pushed(
    area: Rect,
    axis: Axis,
    first: int,
    len: int,
    resize: Seq<Option<Rect>>,
    min: MinSize,
    i: int,
)
    requires
        2 <= len < far_edge(area, axis) - near_edge(area, axis) <= i32::MAX,
        0 <= i < len - 1,
        0 <= min.width,
        0 <= min.height,
    ensures
        ({
            let tiles = in_a_row(area, axis, first, len, resize, min);
            let (start, end) = (near_edge(area, axis), far_edge(area, axis));
            let least = keeps(end - start, len, wanted(min, axis));
            let target = start + (end - start) * (i + 1) / len + push_ahead(
                resize,
                first + i,
                axis,
            ) + push_back(resize, first + i + 1, axis);
            &&& tiles.len() == len
            &&& near_edge(tiles[0], axis) == start
            &&& far_edge(tiles[len - 1], axis) == end
            &&& far_edge(tiles[i], axis) == near_edge(tiles[i + 1], axis)
            &&& near_edge(tiles[i], across(axis)) == near_edge(area, across(axis))
            &&& far_edge(tiles[i], across(axis)) == far_edge(area, across(axis))
            &&& least * len <= end - start && i32::MIN <= push_ahead(resize, first + i, axis)
                + push_back(resize, first + i + 1, axis) <= i32::MAX && near_edge(tiles[i], axis)
                + least <= target <= end - least * (len - i - 1) ==> far_edge(tiles[i], axis)
                == target
        }),
{
    let tiles = in_a_row(area, axis, first, len, resize, min);
    let (start, end) = (area.start(axis), area.end(axis));
    let weights = equal_weights(len as nat);
    let deltas = deltas_of(resize, first, len, axis);
    let low = minimum_of(end - start, len, min.along(axis) as int);
    equal_weights_add_up(len as nat, len);
    equal_weights_add_up(len as nat, i + 1);
    let s = slices(start, end, weights, deltas, min.along(axis) as int);
    assert(tiles[i] == rect_from_slice(area, axis, s[i].0, s[i].1));
    crate::layout::split::minimum_fits(end - start, len, min.along(axis) as int);
    crate::layout::split::bounds_keep_the_minimum(start as int, end as int, weights, deltas, low, i);
    crate::layout::split::bounds_keep_the_minimum(
        start as int,
        end as int,
        weights,
        deltas,
        low,
        i + 1,
    );
    crate::layout::split::bounds_keep_the_minimum(start as int, end as int, weights, deltas, low, 0);
    crate::layout::split::bounds_keep_the_minimum(
        start as int,
        end as int,
        weights,
        deltas,
        low,
        len - 1,
    );
    assert(low * (len - i) >= 0 && low * (len - i - 1) >= 0) by (nonlinear_arith)
        requires
            low >= 0,
            i < len - 1,
    ;
    if keeps(end - start, len, min.along(axis) as int) * len <= end - start {
        the_floor_is_kept(end - start, len, min.along(axis) as int);
    }
}

/// The columns and the rows: the boundary behind tile `i` lies at its fair share,
/// moved by what the two tiles beside it push, as long as every tile keeps its
/// minimum. The tiles fill the area from end to end and span it across, columns
/// from left to right and rows from top to bottom.
pub proof fn columns_and_rows_are_cut_where_they_are_pushed(
    layout: Layout,
    axis: Axis,
    area: Rect,
    len: int,
    resize: Seq<Option<Rect>>,
    min: MinSize,
    i: int,
)
    requires
        layout == if axis is Horizontal {
            Layout::Columns
        } else {
            Layout::Rows
        },
        2 <= len < far_edge(area, axis) - near_edge(area, axis) <= i32::MAX,
        0 <= i < len - 1,
        0 <= min.width,
        0 <= min.height,
    ensures
        ({
            let tiles = layout.tiles(area, len, resize, min);
            let (start, end) = (near_edge(area, axis), far_edge(area, axis));
            let least = keeps(end - start, len, wanted(min, axis));
            let pushed = push_ahead(resize, i, axis) + push_back(resize, i + 1, axis);
            let target = start + (end - start) * (i + 1) / len + pushed;
            &&& tiles.len() == len
            &&& near_edge(tiles[0], axis) == start
            &&& far_edge(tiles[len - 1], axis) == end
            &&& far_edge(tiles[i], axis) == near_edge(tiles[i + 1], axis)
            &&& near_edge(tiles[i], across(axis)) == near_edge(area, across(axis))
            &&& far_edge(tiles[i], across(axis)) == far_edge(area, across(axis))
            &&& least * len <= end - start && i32::MIN <= pushed <= i32::MAX && near_edge(
                tiles[i],
                axis,
            ) + least <= target <= end - least * (len - i - 1) ==> far_edge(tiles[i], axis)
                == target
        }),
{
    a_row_is_cut_where_it_is_pushed(area, axis, 0, len, resize, min, i);
}

proof fn two_parts(
    area: Rect,
    axis: Axis,
    delta: i32,
    min: MinSize,
)
    requires
        2 < far_edge(area, axis) - near_edge(area, axis) <= i32::MAX,
        0 <= min.width,
        0 <= min.height,
        2 * keeps(far_edge(area, axis) - near_edge(area, axis), 2, wanted(min, axis)) <= far_edge(
            area,
            axis,
        ) - near_edge(area, axis),
    ensures
        ({
            let (start, end) = (near_edge(area, axis), far_edge(area, axis));
            let least = keeps(end - start, 2, wanted(min, axis));
            let s = slices(
                area.start(axis),
                area.end(axis),
                equal_weights(2),
                seq![delta],
                min.along(axis) as int,
            );
            &&& s.len() == 2
            &&& s[0].0 == start
            &&& s[0].1 == s[1].0
            &&& s[1].1 == end
            &&& s[0].1 == held(start + (end - start) / 2 + delta, start + least, end - least)
        }),
{
    let (start, end) = (area.start(axis), area.end(axis));
    the_floor_is_kept(end - start, 2, min.along(axis) as int);
    equal_weights_add_up(2, 1);
    equal_weights_add_up(2, 2);
    let least = minimum_of(end - start, 2, min.along(axis) as int);
    assert(least * (2 - 1) == least);
    reveal_with_fuel(bound, 3);
    assert((end - start) * 1 == end - start);
}

/// The stacks: the first container and the rest meet at the middle of the area,
/// moved by what the first container and every one of the others push together, as
/// far as both sides keep their minimum. The first container spans the area
/// across, and every other one lies between the cut and the end.
pub proof fn everyone_on_the_main_cut_pushes_it(
    layout: Layout,
    axis: Axis,
    area: Rect,
    len: int,
    resize: Seq<Option<Rect>>,
    min: MinSize,
    most: int,
    i: int,
)
    requires
        layout == if axis is Horizontal {
            Layout::VerticalStack
        } else {
            Layout::HorizontalStack
        },
        2 <= len,
        2 < far_edge(area, axis) - near_edge(area, axis) <= i32::MAX,
        0 <= min.width,
        0 <= min.height,
        2 * keeps(far_edge(area, axis) - near_edge(area, axis), 2, wanted(min, axis)) <= far_edge(
            area,
            axis,
        ) - near_edge(area, axis),
        0 <= most,
        most * len <= i32::MAX,
        gentle(resize, most),
        1 <= i < len,
    ensures
        ({
            let tiles = layout.tiles(area, len, resize, min);
            let (start, end) = (near_edge(area, axis), far_edge(area, axis));
            let least = keeps(end - start, 2, wanted(min, axis));
            let pushed = push_ahead(resize, 0, axis) + pushes_back(resize, 1, len, axis);
            let cut = held(start + (end - start) / 2 + pushed, start + least, end - least);
            &&& tiles.len() == len
            &&& near_edge(tiles[0], axis) == start
            &&& far_edge(tiles[0], axis) == cut
            &&& near_edge(tiles[0], across(axis)) == near_edge(area, across(axis))
            &&& far_edge(tiles[0], across(axis)) == far_edge(area, across(axis))
            &&& near_edge(tiles[i], axis) == cut
            &&& far_edge(tiles[i], axis) == end
        }),
{
    assert(most * (1 - 0 + len - 1) == most * len);
    sums_do_not_saturate(resize, (0, 1), (1, len), axis, most);
    assert(pushes_ahead(resize, 0, 1, axis) == push_ahead(resize, 0, axis)) by {
        reveal_with_fuel(pushes_ahead, 2);
    }
    two_parts(area, axis, shared_delta(resize, (0, 1), (1, len), axis), min);
    let halves = main_and_rest(area, axis, len, resize, min);
    let row = in_a_row(halves[1], axis.other(), 1, len - 1, resize, min);
    let tiles = layout.tiles(area, len, resize, min);
    assert(tiles[0] == halves[0]);
    assert(tiles[i] == row[i - 1]);
}

/// A resize from any container of a stack moves the main cut as one from the main
/// container does: a near edge pushed by any of them is the far edge of the first
/// pushed as far. Within the limits the cut moves by just that much.
pub proof fn any_of_the_stack_moves_the_main_cut(
    layout: Layout,
    axis: Axis,
    area: Rect,
    len: int,
    min: MinSize,
    i: int,
    d: i32,
)
    requires
        layout == if axis is Horizontal {
            Layout::VerticalStack
        } else {
            Layout::HorizontalStack
        },
        2 <= len,
        2 < far_edge(area, axis) - near_edge(area, axis) <= i32::MAX,
        0 <= min.width,
        0 <= min.height,
        2 * keeps(far_edge(area, axis) - near_edge(area, axis), 2, wanted(min, axis)) <= far_edge(
            area,
            axis,
        ) - near_edge(area, axis),
        1 <= i < len,
    ensures
        ({
            let by_first = layout.tiles(area, len, just(len, 0, ahead(axis, d)), min);
            let by_other = layout.tiles(area, len, just(len, i, back(axis, d)), min);
            let (start, end) = (near_edge(area, axis), far_edge(area, axis));
            let least = keeps(end - start, 2, wanted(min, axis));
            let target = start + (end - start) / 2 + d;
            &&& far_edge(by_other[0], axis) == far_edge(by_first[0], axis)
            &&& near_edge(by_other[i], axis) == far_edge(by_first[0], axis)
            &&& start + least <= target <= end - least ==> far_edge(by_other[0], axis) == target
        }),
{
    stored_once(len, 0, ahead(axis, d), axis);
    stored_once(len, i, back(axis, d), axis);
    let (a, b) = (just(len, 0, ahead(axis, d)), just(len, i, back(axis, d)));
    assert(shared_delta(a, (0, 1), (1, len), axis) == d && shared_delta(b, (0, 1), (1, len), axis)
        == d) by {
        reveal_with_fuel(far_sum, 2);
    }
    two_parts(area, axis, d, min);
    let halves = main_and_rest(area, axis, len, b, min);
    let row = in_a_row(halves[1], axis.other(), 1, len - 1, b, min);
    let tiles = layout.tiles(area, len, b, min);
    assert(tiles[0] == halves[0]);
    assert(tiles[i] == row[i - 1]);
    assert(layout.tiles(area, len, a, min)[0] == main_and_rest(area, axis, len, a, min)[0]);
}

/// One stored delta is the whole of what is pushed.
proof fn stored_once(len: int, i: int, delta: Rect, axis: Axis)
    requires
        0 <= i < len,
    ensures
        forall|base: i32, from: int, to: int|
            0 <= from <= to <= len && (base == 0 || near_edge(delta, axis) == 0)
                ==> #[trigger] near_sum(base, just(len, i, delta), from, to, axis) == base + if from
                <= i < to {
                near_edge(delta, axis)
            } else {
                0
            },
        forall|from: int, to: int|
            0 <= from <= to <= len ==> #[trigger] far_sum(just(len, i, delta), from, to, axis)
                == if from <= i < to {
                far_edge(delta, axis)
            } else {
                0
            },
{
    assert forall|base: i32, from: int, to: int|
        0 <= from <= to <= len && (base == 0 || near_edge(delta, axis) == 0) implies
            #[trigger] near_sum(base, just(len, i, delta), from, to, axis) == base + if from <= i
            < to {
            near_edge(delta, axis)
        } else {
            0
        } by {
        near_sum_once(base, len, i, delta, axis, from, to);
    }
    assert forall|from: int, to: int| 0 <= from <= to <= len implies #[trigger] far_sum(
        just(len, i, delta),
        from,
        to,
        axis,
    ) == if from <= i < to {
        far_edge(delta, axis)
    } else {
        0
    } by {
        far_sum_once(len, i, delta, axis, from, to);
    }
}

proof fn near_sum_once(base: i32, len: int, i: int, delta: Rect, axis: Axis, from: int, to: int)
    requires
        0 <= i < len,
        0 <= from <= to <= len,
        base == 0 || near_edge(delta, axis) == 0,
    ensures
        near_sum(base, just(len, i, delta), from, to, axis) == base + if from <= i < to {
            near_edge(delta, axis)
        } else {
            0
        },
    decreases to - from,
{
    if from < to {
        near_sum_once(base, len, i, delta, axis, from, to - 1);
    }
}

proof fn far_sum_once(len: int, i: int, delta: Rect, axis: Axis, from: int, to: int)
    requires
        0 <= i < len,
        0 <= from <= to <= len,
    ensures
        far_sum(just(len, i, delta), from, to, axis) == if from <= i < to {
            far_edge(delta, axis)
        } else {
            0
        },
    decreases to - from,
{
    if from < to {
        far_sum_once(len, i, delta, axis, from, to - 1);
    }
}

/// The tiles of a stack: the boundary behind tile `i` of it lies at its fair share
/// across the main cut, moved by what the two tiles beside it push.
pub proof fn a_stack_is_cut_where_it_is_pushed(
    layout: Layout,
    axis: Axis,
    area: Rect,
    len: int,
    resize: Seq<Option<Rect>>,
    min: MinSize,
    i: int,
)
    requires
        layout == if axis is Horizontal {
            Layout::VerticalStack
        } else {
            Layout::HorizontalStack
        },
        3 <= len,
        len - 1 < far_edge(area, across(axis)) - near_edge(area, across(axis)) <= i32::MAX,
        1 <= i < len - 1,
        0 <= min.width,
        0 <= min.height,
    ensures
        ({
            let tiles = layout.tiles(area, len, resize, min);
            let side = across(axis);
            let (start, end) = (near_edge(area, side), far_edge(area, side));
            let least = keeps(end - start, len - 1, wanted(min, side));
            let pushed = push_ahead(resize, i, side) + push_back(resize, i + 1, side);
            let target = start + (end - start) * i / (len - 1) + pushed;
            &&& near_edge(tiles[1], side) == start
            &&& far_edge(tiles[len - 1], side) == end
            &&& far_edge(tiles[i], side) == near_edge(tiles[i + 1], side)
            &&& least * (len - 1) <= end - start && i32::MIN <= pushed <= i32::MAX && near_edge(
                tiles[i],
                side,
            ) + least <= target <= end - least * (len - i - 1) ==> far_edge(tiles[i], side)
                == target
        }),
{
    let halves = main_and_rest(area, axis, len, resize, min);
    a_row_is_cut_where_it_is_pushed(halves[1], axis.other(), 1, len - 1, resize, min, i - 1);
    let row = in_a_row(halves[1], axis.other(), 1, len - 1, resize, min);
    let tiles = layout.tiles(area, len, resize, min);
    assert(tiles[1] == row[0]);
    assert(tiles[i] == row[i - 1]);
    assert(tiles[i + 1] == row[i]);
    assert(tiles[len - 1] == row[len - 2]);
}

proof fn slices_are_cut(
    start: i32,
    end: i32,
    weights: Seq<u32>,
    deltas: Seq<i32>,
    min: int,
    i: int,
)
    requires
        2 <= weights.len() < end - start <= i32::MAX,
        weight_sum(weights, weights.len() as int) > 0,
        deltas.len() == weights.len() - 1,
        0 <= i < weights.len() - 1,
        0 <= min,
    ensures
        ({
            let s = slices(start, end, weights, deltas, min);
            let n = weights.len() as int;
            let least = keeps(end - start, n, min);
            let target = start + (end - start) * weight_sum(weights, i + 1) / weight_sum(
                weights,
                n,
            ) + deltas[i];
            &&& s.len() == n
            &&& s[0].0 == start
            &&& s[n - 1].1 == end
            &&& s[i].1 == s[i + 1].0
            &&& least * n <= end - start && s[i].0 + least <= target <= end - least * (n - i - 1)
                ==> s[i].1 == target
        }),
{
    let n = weights.len() as int;
    let (a, b) = (start as int, end as int);
    let low = minimum_of(end - start, n, min);
    crate::layout::split::minimum_fits(end - start, n, min);
    crate::layout::split::bounds_keep_the_minimum(a, b, weights, deltas, low, i);
    crate::layout::split::bounds_keep_the_minimum(a, b, weights, deltas, low, i + 1);
    crate::layout::split::bounds_keep_the_minimum(a, b, weights, deltas, low, 0);
    crate::layout::split::bounds_keep_the_minimum(a, b, weights, deltas, low, n - 1);
    assert(low * (n - i) >= 0 && low * (n - i - 1) >= 0) by (nonlinear_arith)
        requires
            low >= 0,
            i < n - 1,
    ;
    if keeps(end - start, n, min) * n <= end - start {
        the_floor_is_kept(end - start, n, min);
    }
}

/// The ultrawide layout of two containers: the second one on the left, the first
/// one on the right, and what either pushes moves the cut between them.
pub proof fn two_on_a_wide_screen_share_it(
    area: Rect,
    resize: Seq<Option<Rect>>,
    min: MinSize,
)
    requires
        2 < area.right - area.left <= i32::MAX,
        0 <= min.width,
        0 <= min.height,
        2 * keeps(area.right - area.left, 2, min.width as int) <= area.right - area.left,
        i32::MIN <= push_ahead(resize, 1, Axis::Horizontal) + push_back(
            resize,
            0,
            Axis::Horizontal,
        ) <= i32::MAX,
    ensures
        ({
            let tiles = Layout::UltrawideVerticalStack.tiles(area, 2, resize, min);
            let least = keeps(area.right - area.left, 2, min.width as int);
            let cut = held(
                area.left + (area.right - area.left) / 2 + push_ahead(resize, 1, Axis::Horizontal)
                    + push_back(resize, 0, Axis::Horizontal),
                area.left + least,
                area.right - least,
            );
            &&& tiles.len() == 2
            &&& tiles[1] == (Rect { right: cut as i32, ..area })
            &&& tiles[0] == (Rect { left: cut as i32, ..area })
        }),
{
    let delta = sat(
        far_delta(resize, 1, Axis::Horizontal) + near_delta(resize, 0, Axis::Horizontal),
    );
    two_parts(area, Axis::Horizontal, delta, min);
}

/// The ultrawide layout of more containers: the second one in the left quarter, the
/// first one in the middle half, and the rest in the right quarter. The first two
/// push the cut between them, and the first one and all of the rest the other one.
pub proof fn a_wide_screen_has_its_main_container_in_the_middle(
    area: Rect,
    len: int,
    resize: Seq<Option<Rect>>,
    min: MinSize,
    most: int,
    i: int,
)
    requires
        3 <= len,
        3 < area.right - area.left <= i32::MAX,
        0 <= min.width,
        0 <= min.height,
        0 <= most,
        most * len <= i32::MAX,
        gentle(resize, most),
        2 <= i < len,
    ensures
        ({
            let tiles = Layout::UltrawideVerticalStack.tiles(area, len, resize, min);
            let wide = area.right - area.left;
            let least = keeps(wide, 3, min.width as int);
            let axis = Axis::Horizontal;
            let left = area.left + wide / 4 + push_ahead(resize, 1, axis) + push_back(
                resize,
                0,
                axis,
            );
            let right = area.left + wide * 3 / 4 + push_ahead(resize, 0, axis) + pushes_back(
                resize,
                2,
                len,
                axis,
            );
            &&& tiles.len() == len
            &&& tiles[1].left == area.left
            &&& tiles[1].right == tiles[0].left
            &&& tiles[0].right == tiles[i].left
            &&& tiles[i].right == area.right
            &&& tiles[0].top == area.top && tiles[0].bottom == area.bottom
            &&& tiles[1].top == area.top && tiles[1].bottom == area.bottom
            &&& least * 3 <= wide && area.left + least <= left <= area.right - least * 2
                ==> tiles[1].right == left
            &&& least * 3 <= wide && tiles[0].left + least <= right <= area.right - least
                ==> tiles[0].right == right
        }),
{
    let axis = Axis::Horizontal;
    let tiles = Layout::UltrawideVerticalStack.tiles(area, len, resize, min);
    assert(most * (1 - 0 + len - 2) <= most * len && most * 2 <= most * len) by (nonlinear_arith)
        requires
            0 <= most,
            3 <= len,
    ;
    sums_do_not_saturate(resize, (0, 1), (2, len), axis, most);
    assert(pushes_ahead(resize, 0, 1, axis) == push_ahead(resize, 0, axis)) by {
        reveal_with_fuel(pushes_ahead, 2);
    }
    let weights = seq![1u32, 2u32, 1u32];
    assert(weight_sum(weights, 1) == 1 && weight_sum(weights, 2) == 3 && weight_sum(weights, 3)
        == 4) by {
        reveal_with_fuel(weight_sum, 4);
    }
    let deltas = seq![
        sat(far_delta(resize, 1, axis) + near_delta(resize, 0, axis)),
        shared_delta(resize, (0, 1), (2, len), axis),
    ];
    slices_are_cut(area.left, area.right, weights, deltas, min.width as int, 0);
    slices_are_cut(area.left, area.right, weights, deltas, min.width as int, 1);
    let columns = ultrawide_columns(area, len, resize, min);
    let row = in_a_row(columns[2], Axis::Vertical, 2, len - 2, resize, min);
    assert(tiles[0] == columns[1]);
    assert(tiles[1] == columns[0]);
    assert(tiles[i] == row[i - 2]);
}

/// The room the tiles behind tile `i` of `len` keep along the axis it is cut off on.
pub open spec fn keeps_behind(extent: int, i: int, len: int, min: int) -> int {
    let tiles = (len - i - 2) / 2 + 1;
    let share = keeps(extent, 2, 0);
    if min * tiles > share {
        min * tiles
    } else {
        share
    }
}

/// The axis tile `i` of a partition is cut off along: across the screen first, and
/// then in turn.
pub open spec fn cut_axis(i: int) -> Axis {
    if i % 2 == 0 {
        Axis::Horizontal
    } else {
        Axis::Vertical
    }
}

proof fn a_partition_from(
    remaining: Rect,
    idx: int,
    len: int,
    resize: Seq<Option<Rect>>,
    min: MinSize,
    i: int,
)
    requires
        0 <= idx <= i < len,
    ensures
        ({
            let tiles = bsp_rects(remaining, cut_axis(idx), idx, len, resize, min);
            let tile = tiles[i - idx];
            let axis = cut_axis(i);
            &&& tiles.len() == len - idx
            &&& i == idx ==> near_edge(tile, axis) == near_edge(remaining, axis) && near_edge(
                tile,
                across(axis),
            ) == near_edge(remaining, across(axis))
            &&& far_edge(tile, across(axis)) == far_edge(remaining, across(axis))
            &&& i == len - 1 ==> far_edge(tile, axis) == far_edge(remaining, axis)
            &&& i < len - 1 ==> {
                let next = tiles[i + 1 - idx];
                &&& near_edge(next, axis) == far_edge(tile, axis)
                &&& near_edge(next, across(axis)) == near_edge(tile, across(axis))
                &&& far_edge(tile, axis) == crate::layout::split::cut_at(
                    near_edge(tile, axis),
                    far_edge(remaining, axis),
                    sat(push_ahead(resize, i, axis) + push_back(resize, i + 1, axis)) as int,
                    wanted(min, axis),
                    crate::layout::bsp::room_behind(wanted(min, axis), i, len),
                ) as i32
            }
        }),
    decreases len - idx,
{
    let axis = cut_axis(idx);
    if idx + 1 < len {
        let at = bsp_cut(remaining, axis, idx, len, resize, min) as i32;
        let rest = rect_from_slice(remaining, axis, at, remaining.end(axis));
        let tail = bsp_rects(rest, axis.other(), idx + 1, len, resize, min);
        assert(axis.other() == cut_axis(idx + 1));
        let tiles = bsp_rects(remaining, axis, idx, len, resize, min);
        if i > idx {
            a_partition_from(rest, idx + 1, len, resize, min, i);
            assert(tiles[i - idx] == tail[i - idx - 1]);
            if i < len - 1 {
                assert(tiles[i + 1 - idx] == tail[i + 1 - idx - 1]);
            }
        } else {
            a_partition_from(rest, idx + 1, len, resize, min, idx + 1);
            assert(tiles[1] == tail[0]);
        }
    }
}

/// The binary partition: tile `i` is cut off the near half of what the tiles before
/// it leave, across the screen and down in turn, so what is left always reaches to
/// the far corner of the area. What the tile and the next one push moves the cut.
pub proof fn every_tile_takes_half_of_what_is_left(
    area: Rect,
    len: int,
    resize: Seq<Option<Rect>>,
    min: MinSize,
    i: int,
)
    requires
        0 <= i < len,
        0 <= min.width,
        0 <= min.height,
    ensures
        ({
            let tiles = Layout::Bsp.tiles(area, len, resize, min);
            let tile = tiles[i];
            let axis = cut_axis(i);
            let (start, end) = (near_edge(tile, axis), far_edge(area, axis));
            &&& tiles.len() == len
            &&& tiles[0].left == area.left && tiles[0].top == area.top
            &&& far_edge(tile, across(axis)) == far_edge(area, across(axis))
            &&& i == len - 1 ==> far_edge(tile, axis) == end
            &&& i < len - 1 ==> {
                let pushed = push_ahead(resize, i, axis) + push_back(resize, i + 1, axis);
                let target = start + (end - start) / 2 + pushed;
                let least = keeps(end - start, 2, wanted(min, axis));
                let behind = keeps_behind(end - start, i, len, wanted(min, axis));
                &&& near_edge(tiles[i + 1], axis) == far_edge(tile, axis)
                &&& near_edge(tiles[i + 1], across(axis)) == near_edge(tile, across(axis))
                &&& 2 < end - start <= i32::MAX && i32::MIN <= pushed <= i32::MAX && least + behind
                    <= end - start && start + least <= target <= end - behind ==> far_edge(
                    tile,
                    axis,
                ) == target
            }
        }),
{
    a_partition_from(area, 0, len, resize, min, i);
    a_partition_from(area, 0, len, resize, min, 0);
    let axis = cut_axis(i);
    let tiles = Layout::Bsp.tiles(area, len, resize, min);
    let (start, end) = (near_edge(tiles[i], axis), far_edge(area, axis));
    if i < len - 1 && 2 < end - start <= i32::MAX {
        let m = wanted(min, axis);
        let k = (len - i - 2) / 2 + 1;
        assert(m * k >= m) by (nonlinear_arith)
            requires
                m >= 0,
                k >= 1,
        ;
        crate::layout::split::cut_minimums_fit(
            end - start,
            m,
            crate::layout::bsp::room_behind(m, i, len),
        );
    }
}

/// The first cell of column `c` when `len` cells fill `columns` columns one after
/// the other: as many cells in each, with the ones left over in the last columns.
pub open spec fn first_cell(len: int, columns: int, c: int) -> int {
    let each = len / columns;
    let even = columns - len % columns;
    if c <= even {
        c * each
    } else {
        c * each + (c - even)
    }
}

/// Where a cell of the grid stands in its column.
pub proof fn cells_of_columns(
    area: Rect,
    len: int,
    resize: Seq<Option<Rect>>,
    min: MinSize,
    c: int,
    column: int,
    cell: int,
)
    requires
        1 <= len,
        0 <= column < c <= columns_of(len),
        first_cell(len, columns_of(len), column) <= cell < first_cell(
            len,
            columns_of(len),
            column + 1,
        ),
    ensures
        grid_rects(area, len, resize, min, c).len() == first_cell(len, columns_of(len), c),
        0 <= cell < first_cell(len, columns_of(len), c),
        grid_rects(area, len, resize, min, c)[cell] == grid_cells_of_column(
            area,
            len,
            resize,
            min,
            column,
        )[cell - first_cell(len, columns_of(len), column)],
    decreases c,
{
    grid_has_columns(len);
    let columns = columns_of(len);
    cells_add_up(len, columns, c - 1);
    cells_add_up(len, columns, column);
    if column < c - 1 {
        cells_of_columns(area, len, resize, min, c - 1, column, cell);
    } else if c > 1 {
        cells_add_up(len, columns, c - 2);
        cells_of_columns(
            area,
            len,
            resize,
            min,
            c - 1,
            c - 2,
            first_cell(len, columns, c - 2),
        );
    } else {
        assert(first_cell(len, columns, 0) == 0);
        assert(grid_rects(area, len, resize, min, 0).len() == 0);
    }
}

/// The grid: as many columns as it takes for them to be at least as many as the
/// cells of each, filled from left to right with the cells left over in the last
/// ones. Any two cells beside a column boundary meet at it, and every cell of the
/// two columns pushes it.
pub proof fn every_cell_beside_a_column_boundary_pushes_it(
    area: Rect,
    len: int,
    resize: Seq<Option<Rect>>,
    min: MinSize,
    most: int,
    columns: int,
    c: int,
    a: int,
    b: int,
)
    requires
        1 <= len,
        1 <= columns,
        (columns - 1) * (columns - 1) < len <= columns * columns,
        columns < area.right - area.left <= i32::MAX,
        0 <= min.width,
        0 <= min.height,
        0 <= most,
        most * len <= i32::MAX,
        gentle(resize, most),
        0 <= c < columns - 1,
        first_cell(len, columns, c) <= a < first_cell(len, columns, c + 1),
        first_cell(len, columns, c + 1) <= b < first_cell(len, columns, c + 2),
    ensures
        ({
            let tiles = Layout::Grid.tiles(area, len, resize, min);
            let wide = area.right - area.left;
            let least = keeps(wide, columns, min.width as int);
            let target = area.left + wide * (c + 1) / columns + pushes_ahead(
                resize,
                first_cell(len, columns, c),
                first_cell(len, columns, c + 1),
                Axis::Horizontal,
            ) + pushes_back(
                resize,
                first_cell(len, columns, c + 1),
                first_cell(len, columns, c + 2),
                Axis::Horizontal,
            );
            &&& tiles.len() == len
            &&& 0 <= a < b < len
            &&& tiles[a].right == tiles[b].left
            &&& c == 0 ==> tiles[a].left == area.left
            &&& c + 2 == columns ==> tiles[b].right == area.right
            &&& least * columns <= wide && tiles[a].left + least <= target <= area.right - least * (
            columns - c - 1) ==> tiles[a].right == target
        }),
{
    grid_has_columns(len);
    crate::layout::grid_columns_are_unique(len, columns, columns_of(len));
    cells_add_up(len, columns, c);
    cells_add_up(len, columns, c + 1);
    cells_of_columns(area, len, resize, min, columns, c, a);
    cells_of_columns(area, len, resize, min, columns, c + 1, b);
    tile_count(Layout::Grid, area, len, resize, min);
    let rects = grid_column_rects(area, len, resize, min);
    let deltas = Seq::new(
        (columns - 1) as nat,
        |k: int|
            shared_delta(
                resize,
                (
                    crate::layout::cells_before(len, columns, k),
                    crate::layout::cells_before(len, columns, k + 1),
                ),
                (
                    crate::layout::cells_before(len, columns, k + 1),
                    crate::layout::cells_before(len, columns, k + 2),
                ),
                Axis::Horizontal,
            ),
    );
    equal_weights_add_up(columns as nat, columns);
    equal_weights_add_up(columns as nat, c + 1);
    slices_are_cut(
        area.left,
        area.right,
        equal_weights(columns as nat),
        deltas,
        min.width as int,
        c,
    );
    let (x, y, z) = (
        first_cell(len, columns, c),
        first_cell(len, columns, c + 1),
        first_cell(len, columns, c + 2),
    );
    assert(most * (y - x + z - y) <= most * len) by (nonlinear_arith)
        requires
            0 <= most,
            0 <= x <= y <= z <= len,
    ;
    sums_do_not_saturate(resize, (x, y), (y, z), Axis::Horizontal, most);
    assert(deltas[c] == shared_delta(resize, (x, y), (y, z), Axis::Horizontal));
}

/// The cells of a column of the grid: the boundary behind cell `a` lies at its fair
/// share of the height, moved by what the two cells beside it push.
pub proof fn a_column_of_the_grid_is_cut_where_it_is_pushed(
    area: Rect,
    len: int,
    resize: Seq<Option<Rect>>,
    min: MinSize,
    columns: int,
    c: int,
    a: int,
)
    requires
        1 <= len,
        1 <= columns,
        (columns - 1) * (columns - 1) < len <= columns * columns,
        0 <= c < columns,
        first_cell(len, columns, c + 1) - first_cell(len, columns, c) < area.bottom - area.top
            <= i32::MAX,
        0 <= min.width,
        0 <= min.height,
        first_cell(len, columns, c) <= a < first_cell(len, columns, c + 1) - 1,
    ensures
        ({
            let tiles = Layout::Grid.tiles(area, len, resize, min);
            let first = first_cell(len, columns, c);
            let rows = first_cell(len, columns, c + 1) - first;
            let high = area.bottom - area.top;
            let least = keeps(high, rows, min.height as int);
            let pushed = push_ahead(resize, a, Axis::Vertical) + push_back(
                resize,
                a + 1,
                Axis::Vertical,
            );
            let target = area.top + high * (a - first + 1) / rows + pushed;
            &&& tiles.len() == len
            &&& 0 <= a < len - 1
            &&& tiles[a].left == tiles[a + 1].left
            &&& tiles[a].right == tiles[a + 1].right
            &&& tiles[a].bottom == tiles[a + 1].top
            &&& tiles[first].top == area.top
            &&& tiles[first + rows - 1].bottom == area.bottom
            &&& least * rows <= high && i32::MIN <= pushed <= i32::MAX && tiles[a].top + least
                <= target <= area.bottom - least * (rows - (a - first) - 1) ==> tiles[a].bottom
                == target
        }),
{
    grid_has_columns(len);
    crate::layout::grid_columns_are_unique(len, columns, columns_of(len));
    cells_add_up(len, columns, c);
    let first = first_cell(len, columns, c);
    let rows = first_cell(len, columns, c + 1) - first;
    tile_count(Layout::Grid, area, len, resize, min);
    cells_of_columns(area, len, resize, min, columns, c, a);
    cells_of_columns(area, len, resize, min, columns, c, a + 1);
    cells_of_columns(area, len, resize, min, columns, c, first);
    cells_of_columns(area, len, resize, min, columns, c, first + rows - 1);
    let column = grid_column_rects(area, len, resize, min)[c];
    a_row_is_cut_where_it_is_pushed(
        column,
        Axis::Vertical,
        first,
        rows,
        resize,
        min,
        a - first,
    );
    if a - first + 1 < rows - 1 {
        a_row_is_cut_where_it_is_pushed(
            column,
            Axis::Vertical,
            first,
            rows,
            resize,
            min,
            a - first + 1,
        );
    }
}

/// An arrangement is the tiles, each of them in from every side by the padding as
/// long as a pixel of it is left, and mirrored on the axes that are flipped: as far
/// from one end of the area as it was from the other.
pub proof fn an_arrangement_is_the_tiles_mirrored_and_padded(
    layout: Layout,
    area: Rect,
    len: int,
    padding: i32,
    flip: Flip,
    resize: Seq<Option<Rect>>,
    min: MinSize,
    i: int,
)
    requires
        0 <= i < len,
        0 <= min.width,
        0 <= min.height,
        crate::layout::tiling::proper(area),
        ({
            let tile = layout.tiles(area, len, resize, min)[i];
            &&& 0 <= padding
            &&& 2 * padding < tile.right - tile.left
            &&& 2 * padding < tile.bottom - tile.top
        }),
    ensures
        ({
            let tile = layout.tiles(area, len, resize, min)[i];
            let r = layout.arrangement(area, len, padding, flip, resize, min)[i];
            &&& layout.arrangement(area, len, padding, flip, resize, min).len() == len
            &&& if flip.horizontal {
                &&& r.left - area.left == area.right - tile.right + padding
                &&& area.right - r.right == tile.left - area.left + padding
            } else {
                r.left == tile.left + padding && r.right == tile.right - padding
            }
            &&& if flip.vertical {
                &&& r.top - area.top == area.bottom - tile.bottom + padding
                &&& area.bottom - r.bottom == tile.top - area.top + padding
            } else {
                r.top == tile.top + padding && r.bottom == tile.bottom - padding
            }
        }),
{
    crate::layout::tiling::every_layout_tiles_its_area(layout, area, len, resize, min);
    let tiles = layout.tiles(area, len, resize, min);
    assert(area.contains_rect(&tiles[i]));
    assert(min.at_least_zero() == min);
}

} // verus!
