//! How small a tile can get.

use vstd::prelude::*;

use crate::geometry::{sat, Axis, Rect};
use crate::layout::bsp::{bsp_cut, bsp_rects, room_behind};
use crate::layout::split::{
    bounds_keep_the_minimum, cut_minimums, deltas_of, equal_weights, far_delta, floor_of, larger,
    minimum_fits, minimum_of, near_delta, rect_from_slice, rects_of, shared_delta, slices,
    weight_sum,
};
use crate::layout::tiling::{
    equal_weights_add_up, every_layout_tiles_its_area, grid_has_columns,
    mirroring_twice_is_nothing, proper, tile_count,
};
use crate::layout::{
    cells_add_up, cells_before, columns_of, grid_column_rects, grid_rects, in_a_row, main_and_rest,
    main_and_stack_rects, ultrawide_columns, ultrawide_rects, Flip, Layout, MinSize,
};

verus! {

/// The length of a rectangle along `axis`.
pub open spec fn extent(rect: Rect, axis: Axis) -> int {
    rect.end(axis) - rect.start(axis)
}

/// `true` for a rectangle with at least the minimum in both dimensions.
pub open spec fn roomy(rect: Rect, min: MinSize) -> bool {
    &&& extent(rect, Axis::Horizontal) >= min.width
    &&& extent(rect, Axis::Vertical) >= min.height
}

/// Every slice of a range keeps at least a fifth of its fair share, and at least
/// the minimum when the range has room for that many of them.
pub proof fn a_slice_keeps_its_share(
    start: i32,
    end: i32,
    weights: Seq<u32>,
    deltas: Seq<i32>,
    min_tile: int,
    i: int,
)
    requires
        start <= end <= start + i32::MAX,
        weight_sum(weights, weights.len() as int) > 0,
        0 <= i < weights.len(),
    ensures
        ({
            let slice = slices(start, end, weights, deltas, min_tile)[i];
            &&& start <= slice.0 <= slice.1 <= end
            &&& slice.1 - slice.0 >= floor_of(end - start, weights.len() as int)
            &&& larger(min_tile, 0) * weights.len() <= end - start ==> slice.1 - slice.0
                >= min_tile
        }),
{
    let n = weights.len() as int;
    let length = end - start;
    minimum_fits(length, n, min_tile);
    if n > 1 && start < end {
        let min = minimum_of(length, n, min_tile);
        let (a, b) = (start as int, end as int);
        bounds_keep_the_minimum(a, b, weights, deltas, min, i);
        assert(min * (n - i) >= 0) by (nonlinear_arith)
            requires
                0 <= min,
                i < n,
        ;
        if i + 1 < n {
            bounds_keep_the_minimum(a, b, weights, deltas, min, i + 1);
            assert(min * (n - i - 1) >= 0) by (nonlinear_arith)
                requires
                    0 <= min,
                    i < n,
            ;
        }
        let floor = floor_of(length, n);
        assert(floor <= min) by {
            if larger(floor, larger(min_tile, 0)) * n > length {
                if length > n {
                    let share = length / n;
                    assert(share >= 1) by (nonlinear_arith)
                        requires
                            share == length / n,
                            1 <= n < length,
                    ;
                }
                assert(length / n >= 0) by (nonlinear_arith)
                    requires
                        0 <= length,
                        1 <= n,
                ;
            }
        }
    } else {
        assert(larger(min_tile, 0) * n >= larger(min_tile, 0)) by (nonlinear_arith)
            requires
                1 <= n,
        ;
        if length > n {
            assert(length / n <= length && length / n >= 1) by (nonlinear_arith)
                requires
                    1 <= n < length,
            ;
        }
    }
}

/// The most tiles a layout of `len` containers puts side by side along `axis`.
pub open spec fn abreast(layout: Layout, len: int, axis: Axis) -> int {
    match (layout, axis) {
        (Layout::Bsp, Axis::Horizontal) => len / 2 + 1,
        (Layout::Bsp, Axis::Vertical) => (len - 1) / 2 + 1,
        (Layout::Columns, Axis::Horizontal) => len,
        (Layout::Columns, Axis::Vertical) => 1,
        (Layout::Rows, Axis::Horizontal) => 1,
        (Layout::Rows, Axis::Vertical) => len,
        (Layout::VerticalStack, Axis::Horizontal) => if len == 1 {
            1
        } else {
            2
        },
        (Layout::VerticalStack, Axis::Vertical) => larger(len - 1, 1),
        (Layout::HorizontalStack, Axis::Horizontal) => larger(len - 1, 1),
        (Layout::HorizontalStack, Axis::Vertical) => if len == 1 {
            1
        } else {
            2
        },
        (Layout::UltrawideVerticalStack, Axis::Horizontal) => if len < 3 {
            len
        } else {
            3
        },
        (Layout::UltrawideVerticalStack, Axis::Vertical) => larger(len - 2, 1),
        (Layout::Grid, Axis::Horizontal) => columns_of(len),
        (Layout::Grid, Axis::Vertical) => len / columns_of(len) + if len % columns_of(len) > 0 {
            1int
        } else {
            0
        },
    }
}

/// `true` when an area has room for the minimum of every tile abreast.
pub open spec fn has_room(layout: Layout, area: Rect, len: int, min: MinSize) -> bool {
    &&& min.width * abreast(layout, len, Axis::Horizontal) <= extent(area, Axis::Horizontal)
    &&& min.height * abreast(layout, len, Axis::Vertical) <= extent(area, Axis::Vertical)
}

/// `true` when a binary space partition of a length into `tiles` can keep the
/// minimum of every one of them, wherever its cuts are pushed. Each side of a cut
/// also gets a tenth of what is cut, and with too many tiles on one side that tenth
/// is theirs.
pub open spec fn cuts_keep(min: int, tiles: int, length: int) -> bool {
    ||| min == 0
    ||| tiles <= 10
    ||| tiles == 11 && floor_of(length, 2) + 10 * min <= length
}

proof fn divided(
    area: Rect,
    axis: Axis,
    weights: Seq<u32>,
    deltas: Seq<i32>,
    min: MinSize,
    i: int,
)
    requires
        proper(area),
        0 <= min.along(axis),
        weight_sum(weights, weights.len() as int) > 0,
        0 <= i < weights.len(),
        min.along(axis) * weights.len() <= extent(area, axis),
    ensures
        ({
            let rect = rects_of(
                area,
                axis,
                slices(
                    area.start(axis),
                    area.end(axis),
                    weights,
                    deltas,
                    min.along(axis) as int,
                ),
            )[i];
            &&& proper(rect)
            &&& extent(rect, axis) >= min.along(axis)
            &&& extent(rect, axis.other()) == extent(area, axis.other())
        }),
{
    a_slice_keeps_its_share(
        area.start(axis),
        area.end(axis),
        weights,
        deltas,
        min.along(axis) as int,
        i,
    );
}

proof fn row_is_roomy(
    area: Rect,
    axis: Axis,
    first: int,
    len: int,
    resize: Seq<Option<Rect>>,
    min: MinSize,
    i: int,
)
    requires
        proper(area),
        0 <= min.width,
        0 <= min.height,
        0 <= i < len,
        min.along(axis) * len <= extent(area, axis),
        min.along(axis.other()) <= extent(area, axis.other()),
    ensures
        roomy(in_a_row(area, axis, first, len, resize, min)[i], min),
{
    equal_weights_add_up(len as nat, len);
    divided(area, axis, equal_weights(len as nat), deltas_of(resize, first, len, axis), min, i);
}

proof fn bsp_is_roomy(
    remaining: Rect,
    axis: Axis,
    idx: int,
    len: int,
    resize: Seq<Option<Rect>>,
    min: MinSize,
    i: int,
)
    requires
        proper(remaining),
        0 <= min.width,
        0 <= min.height,
        0 <= idx < len,
        cuts_keep(min.along(axis) as int, (len - idx) / 2 + 1, extent(remaining, axis)),
        cuts_keep(
            min.along(axis.other()) as int,
            (len - idx - 1) / 2 + 1,
            extent(remaining, axis.other()),
        ),
        min.along(axis) * ((len - idx) / 2 + 1) <= extent(remaining, axis),
        min.along(axis.other()) * ((len - idx - 1) / 2 + 1) <= extent(remaining, axis.other()),
        0 <= i < len - idx,
    ensures
        bsp_rects(remaining, axis, idx, len, resize, min).len() > i,
        roomy(bsp_rects(remaining, axis, idx, len, resize, min)[i], min),
    decreases len - idx,
{
    if idx + 1 < len {
        let (start, end) = (remaining.start(axis) as int, remaining.end(axis) as int);
        let floor = min.along(axis) as int;
        let behind = (len - idx - 2) / 2 + 1;
        let length = end - start;
        assert((len - idx) / 2 + 1 == behind + 1);
        assert(floor * (behind + 1) == floor * behind + floor && floor * behind >= 0) by (
        nonlinear_arith)
            requires
                0 <= floor,
                0 <= behind,
        ;
        assert(room_behind(floor, idx, len) == floor * behind);
        let at = bsp_cut(remaining, axis, idx, len, resize, min);
        if start < end {
            a_cut_has_room(length, floor, behind);
            crate::layout::split::cut_keeps_both_minimums(
                start,
                end,
                sat(far_delta(resize, idx, axis) + near_delta(resize, idx + 1, axis)) as int,
                floor,
                floor * behind,
            );
        }
        let at = at as i32;
        let rest = rect_from_slice(remaining, axis, at, remaining.end(axis));
        let first = rect_from_slice(remaining, axis, remaining.start(axis), at);
        assert(extent(first, axis) >= floor);
        assert(extent(rest, axis) >= floor * behind);
        let other = min.along(axis.other()) as int;
        let cells = (len - idx - 1) / 2 + 1;
        assert(other * cells >= other) by (nonlinear_arith)
            requires
                0 <= other,
                1 <= cells,
        ;
        let tail = bsp_rects(rest, axis.other(), idx + 1, len, resize, min);
        if i > 0 {
            bsp_is_roomy(rest, axis.other(), idx + 1, len, resize, min, i - 1);
            assert((seq![first] + tail)[i] == tail[i - 1]);
        } else {
            assert((seq![first] + tail)[0] == first);
        }
    } else {
        assert(len - idx == 1);
        let (along, across) = (min.along(axis) as int, min.along(axis.other()) as int);
        assert(along * ((len - idx) / 2 + 1) == along && across * ((len - idx - 1) / 2 + 1)
            == across) by (nonlinear_arith)
            requires
                len - idx == 1,
        ;
    }
}

proof fn a_cut_has_room(length: int, floor: int, behind: int)
    requires
        0 < length,
        0 <= floor,
        1 <= behind,
        cuts_keep(floor, behind + 1, length),
        floor * behind + floor <= length,
    ensures
        cut_minimums(length, floor, floor * behind).0 >= floor,
        cut_minimums(length, floor, floor * behind).1 >= floor * behind,
{
    let share = floor_of(length, 2);
    crate::layout::split::cut_minimums_fit(length, floor, floor * behind);
    assert(floor == 0 ==> floor * behind == 0) by (nonlinear_arith);
    assert(floor * behind >= 0) by (nonlinear_arith)
        requires
            0 <= floor,
            0 <= behind,
    ;
    assert(floor * behind >= floor) by (nonlinear_arith)
        requires
            0 <= floor,
            1 <= behind,
    ;
    assert(share <= length / 10 || share <= 1);
    let first = larger(share, floor);
    let rest = larger(share, floor * behind);
    assert(first + rest <= length) by {
        if behind == 10 {
            assert(floor * behind == 10 * floor) by (nonlinear_arith)
                requires
                    behind == 10,
            ;
        }
        if behind <= 9 && share > floor && share <= floor * behind {
            assert(floor * behind + share <= length) by (nonlinear_arith)
                requires
                    1 <= behind <= 9,
                    0 <= floor,
                    floor * behind + floor <= length,
                    share <= length / 10 || share <= 1,
                    share > floor,
                    share <= floor * behind,
            {
                assert(10 * share <= length || share <= 1);
                if 10 * share <= length {
                    assert(floor * behind <= 9 * floor);
                    assert(10 * (floor * behind) <= 9 * (floor * behind) + 9 * floor);
                }
            }
        } else if share > floor {
            assert(share + share <= length);
        }
    }
}

proof fn stack_is_roomy(
    area: Rect,
    axis: Axis,
    len: int,
    resize: Seq<Option<Rect>>,
    min: MinSize,
    i: int,
)
    requires
        proper(area),
        0 <= min.width,
        0 <= min.height,
        0 <= i < len,
        len > 1 ==> min.along(axis) * 2 <= extent(area, axis),
        min.along(axis) <= extent(area, axis),
        min.along(axis.other()) * larger(len - 1, 1) <= extent(area, axis.other()),
    ensures
        roomy(main_and_stack_rects(area, axis, len, resize, min)[i], min),
{
    let other = min.along(axis.other()) as int;
    assert(other * larger(len - 1, 1) >= other) by (nonlinear_arith)
        requires
            0 <= other,
            larger(len - 1, 1) >= 1,
    ;
    if len > 1 {
        let deltas = seq![shared_delta(resize, (0, 1), (1, len), axis)];
        equal_weights_add_up(2, 2);
        divided(area, axis, equal_weights(2), deltas, min, 0);
        divided(area, axis, equal_weights(2), deltas, min, 1);
        let halves = main_and_rest(area, axis, len, resize, min);
        if i > 0 {
            row_is_roomy(halves[1], axis.other(), 1, len - 1, resize, min, i - 1);
        }
    }
}

proof fn ultrawide_is_roomy(area: Rect, len: int, resize: Seq<Option<Rect>>, min: MinSize, i: int)
    requires
        proper(area),
        0 <= min.width,
        0 <= min.height,
        0 <= i < len,
        has_room(Layout::UltrawideVerticalStack, area, len, min),
    ensures
        roomy(ultrawide_rects(area, len, resize, min)[i], min),
{
    let axis = Axis::Horizontal;
    let left = sat(far_delta(resize, 1, axis) + near_delta(resize, 0, axis));
    assert(min.height * larger(len - 2, 1) >= min.height) by (nonlinear_arith)
        requires
            0 <= min.height,
            larger(len - 2, 1) >= 1,
    ;
    if len < 3 {
        assert(len == 1 ==> min.width * len == min.width) by (nonlinear_arith);
        assert(len == 2 ==> min.width * len == min.width * 2) by (nonlinear_arith);
    }
    if len == 2 {
        equal_weights_add_up(2, 2);
        divided(area, axis, equal_weights(2), seq![left], min, 0);
        divided(area, axis, equal_weights(2), seq![left], min, 1);
    } else if len > 2 {
        let right = shared_delta(resize, (0, 1), (2, len), axis);
        let weights = seq![1u32, 2u32, 1u32];
        assert(weight_sum(weights, 3) == 4) by {
            reveal_with_fuel(weight_sum, 4);
        }
        divided(area, axis, weights, seq![left, right], min, 0);
        divided(area, axis, weights, seq![left, right], min, 1);
        divided(area, axis, weights, seq![left, right], min, 2);
        let columns = ultrawide_columns(area, len, resize, min);
        if i >= 2 {
            row_is_roomy(columns[2], Axis::Vertical, 2, len - 2, resize, min, i - 2);
        }
    }
}

proof fn grid_is_roomy(
    area: Rect,
    len: int,
    resize: Seq<Option<Rect>>,
    min: MinSize,
    c: int,
    i: int,
)
    requires
        proper(area),
        0 <= min.width,
        0 <= min.height,
        1 <= len,
        0 <= c <= columns_of(len),
        0 <= i < grid_rects(area, len, resize, min, c).len(),
        has_room(Layout::Grid, area, len, min),
    ensures
        roomy(grid_rects(area, len, resize, min, c)[i], min),
    decreases c,
{
    grid_has_columns(len);
    let columns = columns_of(len);
    if c > 0 {
        let before = grid_rects(area, len, resize, min, c - 1);
        if i < before.len() {
            grid_is_roomy(area, len, resize, min, c - 1, i);
        } else {
            let deltas = Seq::new(
                (columns - 1) as nat,
                |c: int|
                    shared_delta(
                        resize,
                        (cells_before(len, columns, c), cells_before(len, columns, c + 1)),
                        (cells_before(len, columns, c + 1), cells_before(len, columns, c + 2)),
                        Axis::Horizontal,
                    ),
            );
            equal_weights_add_up(columns as nat, columns);
            divided(area, Axis::Horizontal, equal_weights(columns as nat), deltas, min, c - 1);
            let column = grid_column_rects(area, len, resize, min)[c - 1];
            let first = cells_before(len, columns, c - 1);
            let rows = cells_before(len, columns, c) - first;
            let most = abreast(Layout::Grid, len, Axis::Vertical);
            cells_add_up(len, columns, c - 1);
            assert(c * (len / columns) == (c - 1) * (len / columns) + len / columns) by (
            nonlinear_arith);
            assert(rows <= most);
            assert(min.height * rows <= min.height * most) by (nonlinear_arith)
                requires
                    0 <= min.height,
                    rows <= most,
            ;
            row_is_roomy(column, Axis::Vertical, first, rows, resize, min, i - before.len());
        }
    }
}

/// No tile is ever smaller than the minimum while the area has room for the
/// minimum of every tile abreast, whatever the deltas. A binary space partition
/// keeps that as far as [`cuts_keep`] says.
pub proof fn every_tile_keeps_the_minimum(
    layout: Layout,
    area: Rect,
    len: int,
    resize: Seq<Option<Rect>>,
    min: MinSize,
    i: int,
)
    requires
        proper(area),
        0 <= min.width,
        0 <= min.height,
        0 <= i < len,
        has_room(layout, area, len, min),
        layout is Bsp ==> forall|axis: Axis|
            cuts_keep(
                min.along(axis) as int,
                #[trigger] abreast(layout, len, axis),
                extent(area, axis),
            ),
    ensures
        roomy(layout.tiles(area, len, resize, min)[i], min),
{
    tile_count(layout, area, len, resize, min);
    let across = abreast(layout, len, Axis::Horizontal);
    let down = abreast(layout, len, Axis::Vertical);
    assert(across == 1 ==> min.width * across == min.width) by (nonlinear_arith);
    assert(across == 2 ==> min.width * across == min.width * 2) by (nonlinear_arith);
    assert(down == 1 ==> min.height * down == min.height) by (nonlinear_arith);
    assert(down == 2 ==> min.height * down == min.height * 2) by (nonlinear_arith);
    match layout {
        Layout::Bsp => {
            assert(cuts_keep(min.width as int, across, extent(area, Axis::Horizontal)));
            assert(cuts_keep(min.height as int, down, extent(area, Axis::Vertical)));
            bsp_is_roomy(area, Axis::Horizontal, 0, len, resize, min, i);
        },
        Layout::Columns => row_is_roomy(area, Axis::Horizontal, 0, len, resize, min, i),
        Layout::Rows => row_is_roomy(area, Axis::Vertical, 0, len, resize, min, i),
        Layout::VerticalStack => stack_is_roomy(area, Axis::Horizontal, len, resize, min, i),
        Layout::HorizontalStack => stack_is_roomy(area, Axis::Vertical, len, resize, min, i),
        Layout::UltrawideVerticalStack => ultrawide_is_roomy(area, len, resize, min, i),
        Layout::Grid => {
            grid_has_columns(len);
            grid_is_roomy(area, len, resize, min, columns_of(len), i);
        },
    }
}

/// Neither mirroring nor a padding of zero takes anything off a tile: what a
/// layout calculates keeps the minimum too.
pub proof fn an_arrangement_keeps_the_minimum(
    layout: Layout,
    area: Rect,
    len: int,
    flip: Flip,
    resize: Seq<Option<Rect>>,
    min: MinSize,
    i: int,
)
    requires
        proper(area),
        0 <= min.width,
        0 <= min.height,
        0 <= i < len,
        has_room(layout, area, len, min),
        layout is Bsp ==> forall|axis: Axis|
            cuts_keep(
                min.along(axis) as int,
                #[trigger] abreast(layout, len, axis),
                extent(area, axis),
            ),
    ensures
        roomy(layout.arrangement(area, len, 0, flip, resize, min)[i], min),
{
    every_tile_keeps_the_minimum(layout, area, len, resize, min, i);
    every_layout_tiles_its_area(layout, area, len, resize, min);
    let tiles = layout.tiles(area, len, resize, min);
    assert(min.at_least_zero() == min);
    assert(area.contains_rect(&tiles[i]) && proper(tiles[i]));
    mirroring_twice_is_nothing(flip, area, tiles[i]);
    let mirrored = flip.apply(area, tiles[i]);
    assert(layout.arrangement(area, len, 0, flip, resize, min)[i] == mirrored.padded_clamped(0));
}

} // verus!
