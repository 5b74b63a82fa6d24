//! What every layout promises: its rectangles tile the area.

use vstd::prelude::*;

use crate::geometry::{sat, Axis, Rect};
use crate::layout::bsp::{bsp_cut, bsp_rects, room_behind};
use crate::layout::split::{
    bound, bounds_keep_the_minimum, cut_keeps_both_minimums, equal_weights, minimum_fits,
    minimum_of, rect_from_slice, rects_of, slices, weight_sum, deltas_of,
};
use crate::layout::{
    cells_add_up, cells_before, columns_of, grid_cells_of_column, grid_column_rects, grid_rects,
    in_a_row, is_grid_columns, main_and_rest, main_and_stack_rects, ultrawide_columns,
    ultrawide_rects, Flip, Layout, MinSize,
};

verus! {

/// `true` for a rectangle that is not inverted and whose extents fit an `i32`.
pub open spec fn proper(area: Rect) -> bool {
    &&& area.left <= area.right <= area.left + i32::MAX
    &&& area.top <= area.bottom <= area.top + i32::MAX
}

/// `true` when two rectangles reach into each other in both dimensions, whether
/// or not they have any pixels.
pub open spec fn crosses(a: Rect, b: Rect) -> bool {
    &&& a.left < b.right && b.left < a.right
    &&& a.top < b.bottom && b.top < a.bottom
}

/// `true` when the rectangles cover `area` exactly: every one lies inside it,
/// no two overlap, and every point of the area is in one of them.
pub open spec fn tiles(rects: Seq<Rect>, area: Rect) -> bool {
    &&& forall|i: int|
        0 <= i < rects.len() ==> area.contains_rect(&#[trigger] rects[i]) && proper(rects[i])
    &&& forall|i: int, j: int|
        #![trigger rects[i], rects[j]]
        0 <= i < rects.len() && 0 <= j < rects.len() && i != j
            ==> !crosses(rects[i], rects[j])
    &&& forall|x: i32, y: i32| #[trigger]
        area.contains(x, y) ==> exists|i: int|
            0 <= i < rects.len() && (#[trigger] rects[i]).contains(x, y)
}

/// A grid has a number of columns, and no more of them than cells.
pub proof fn grid_has_columns(len: int)
    requires
        1 <= len,
    ensures
        is_grid_columns(len, columns_of(len)),
        1 <= columns_of(len) <= len,
{
    square_root_exists(len, 1);
    let c = columns_of(len);
    if c > len {
        assert((c - 1) * (c - 1) >= c - 1) by (nonlinear_arith)
            requires
                c >= 2,
        ;
    }
}

proof fn square_root_exists(len: int, c: int)
    requires
        1 <= c,
        1 <= len,
        c > 1 ==> (c - 1) * (c - 1) < len,
    ensures
        exists|columns: int| is_grid_columns(len, columns),
    decreases len - c,
{
    if len <= c * c {
        assert(is_grid_columns(len, c));
    } else {
        assert(c <= c * c) by (nonlinear_arith)
            requires
                1 <= c,
        ;
        square_root_exists(len, c + 1);
    }
}

proof fn bsp_count(
    remaining: Rect,
    axis: Axis,
    idx: int,
    len: int,
    resize: Seq<Option<Rect>>,
    min: MinSize,
)
    requires
        0 <= idx <= len,
    ensures
        bsp_rects(remaining, axis, idx, len, resize, min).len() == len - idx,
    decreases len - idx,
{
    if idx + 1 < len {
        let at = bsp_cut(remaining, axis, idx, len, resize, min) as i32;
        bsp_count(
            rect_from_slice(remaining, axis, at, remaining.end(axis)),
            axis.other(),
            idx + 1,
            len,
            resize,
            min,
        );
    }
}

proof fn grid_count(area: Rect, len: int, resize: Seq<Option<Rect>>, min: MinSize, c: int)
    requires
        1 <= len,
        0 <= c <= columns_of(len),
    ensures
        grid_rects(area, len, resize, min, c).len() == cells_before(len, columns_of(len), c),
    decreases c,
{
    grid_has_columns(len);
    if c > 0 {
        grid_count(area, len, resize, min, c - 1);
        cells_add_up(len, columns_of(len), c - 1);
    } else {
        cells_add_up(len, columns_of(len), 0);
    }
}

proof fn stack_count(area: Rect, axis: Axis, len: int, resize: Seq<Option<Rect>>, min: MinSize)
    requires
        1 <= len,
    ensures
        main_and_stack_rects(area, axis, len, resize, min).len() == len,
{
}

proof fn ultrawide_count(area: Rect, len: int, resize: Seq<Option<Rect>>, min: MinSize)
    requires
        1 <= len,
    ensures
        ultrawide_rects(area, len, resize, min).len() == len,
{
}

/// Every layout gives every container one rectangle.
pub proof fn tile_count(
    layout: Layout,
    area: Rect,
    len: int,
    resize: Seq<Option<Rect>>,
    min: MinSize,
)
    requires
        1 <= len,
    ensures
        layout.tiles(area, len, resize, min).len() == len,
{
    match layout {
        Layout::Bsp => bsp_count(area, Axis::Horizontal, 0, len, resize, min),
        Layout::Grid => {
            grid_has_columns(len);
            grid_count(area, len, resize, min, columns_of(len));
            cells_add_up(len, columns_of(len), 0);
        },
        Layout::Columns | Layout::Rows => {},
        Layout::VerticalStack => stack_count(area, Axis::Horizontal, len, resize, min),
        Layout::HorizontalStack => stack_count(area, Axis::Vertical, len, resize, min),
        Layout::UltrawideVerticalStack => ultrawide_count(area, len, resize, min),
    }
}

/// `true` when the slices cover `start..end` exactly, in order.
pub open spec fn partitions(slices: Seq<(i32, i32)>, start: i32, end: i32) -> bool {
    &&& forall|i: int|
        0 <= i < slices.len() ==> start <= (#[trigger] slices[i]).0 <= slices[i].1 <= end
    &&& forall|i: int, j: int|
        #![trigger slices[i], slices[j]]
        0 <= i < j < slices.len() ==> slices[i].1 <= slices[j].0
    &&& forall|x: i32| start <= x < end ==> #[trigger] some_slice_has(slices, x)
}

/// `true` when one of the slices holds the coordinate `x`.
pub open spec fn some_slice_has(slices: Seq<(i32, i32)>, x: i32) -> bool {
    exists|i: int| 0 <= i < slices.len() && (#[trigger] slices[i]).0 <= x < slices[i].1
}

proof fn bounds_in_order(
    start: int,
    end: int,
    weights: Seq<u32>,
    deltas: Seq<i32>,
    min: int,
    i: int,
    j: int,
)
    requires
        0 <= min,
        min * weights.len() <= end - start,
        start <= end,
        0 <= i <= j <= weights.len(),
        weights.len() > 0,
    ensures
        start <= bound(start, end, weights, deltas, min, i) <= bound(
            start,
            end,
            weights,
            deltas,
            min,
            j,
        ) <= end,
    decreases j - i,
{
    let n = weights.len() as int;
    if i < j {
        bounds_in_order(start, end, weights, deltas, min, i + 1, j);
        bounds_keep_the_minimum(start, end, weights, deltas, min, i);
    } else if i < n {
        bounds_keep_the_minimum(start, end, weights, deltas, min, i);
        assert(min * (n - i) >= 0) by (nonlinear_arith)
            requires
                0 <= min,
                i < n,
        ;
    }
}

proof fn some_slice_holds(
    start: int,
    end: int,
    weights: Seq<u32>,
    deltas: Seq<i32>,
    min: int,
    x: int,
    n: int,
) -> (i: int)
    requires
        start <= x < bound(start, end, weights, deltas, min, n),
        0 <= n <= weights.len(),
    ensures
        0 <= i < n,
        bound(start, end, weights, deltas, min, i) <= x < bound(
            start,
            end,
            weights,
            deltas,
            min,
            i + 1,
        ),
    decreases n,
{
    if bound(start, end, weights, deltas, min, n - 1) <= x {
        n - 1
    } else {
        some_slice_holds(start, end, weights, deltas, min, x, n - 1)
    }
}

/// Dividing a range cuts it into slices that cover it exactly, whatever the
/// deltas and the minimum.
pub proof fn slices_partition(
    start: i32,
    end: i32,
    weights: Seq<u32>,
    deltas: Seq<i32>,
    min_tile: int,
)
    requires
        start <= end <= start + i32::MAX,
        weight_sum(weights, weights.len() as int) > 0,
    ensures
        partitions(slices(start, end, weights, deltas, min_tile), start, end),
{
    let n = weights.len() as int;
    let s = slices(start, end, weights, deltas, min_tile);
    if n == 1 || start == end {
        assert forall|x: i32| start <= x < end implies #[trigger] some_slice_has(s, x) by {
            assert(s[0].0 <= x < s[0].1);
        }
    } else {
        let extent = end - start;
        let min = minimum_of(extent, n, min_tile);
        minimum_fits(extent, n, min_tile);
        let (a, b) = (start as int, end as int);
        assert forall|i: int| 0 <= i < s.len() implies start <= (#[trigger] s[i]).0 <= s[i].1
            <= end by {
            bounds_in_order(a, b, weights, deltas, min, i, i + 1);
        }
        assert forall|i: int, j: int|
            #![trigger s[i], s[j]]
            0 <= i < j < s.len() implies s[i].1 <= s[j].0 by {
            bounds_in_order(a, b, weights, deltas, min, i + 1, j);
            bounds_in_order(a, b, weights, deltas, min, i, i + 1);
            bounds_in_order(a, b, weights, deltas, min, j, j + 1);
        }
        assert forall|x: i32| start <= x < end implies #[trigger] some_slice_has(s, x) by {
            let i = some_slice_holds(a, b, weights, deltas, min, x as int, n);
            bounds_in_order(a, b, weights, deltas, min, i, i + 1);
            assert(s[i].0 <= x < s[i].1);
        }
    }
}

/// The equal weights add up to their number.
pub proof fn equal_weights_add_up(n: nat, k: int)
    requires
        0 <= k <= n,
    ensures
        weight_sum(equal_weights(n), k) == k,
    decreases k,
{
    if k > 0 {
        equal_weights_add_up(n, k - 1);
    }
}

/// Slices that cover one dimension of an area cover the area.
pub proof fn slices_tile(area: Rect, axis: Axis, slices: Seq<(i32, i32)>)
    requires
        proper(area),
        partitions(slices, area.start(axis), area.end(axis)),
    ensures
        tiles(rects_of(area, axis, slices), area),
{
    let rects = rects_of(area, axis, slices);
    assert forall|i: int| 0 <= i < rects.len() implies area.contains_rect(&#[trigger] rects[i])
        && proper(rects[i]) by {
        assert(area.start(axis) <= slices[i].0 <= slices[i].1 <= area.end(axis));
    }
    assert forall|i: int, j: int|
        #![trigger rects[i], rects[j]]
        0 <= i < rects.len() && 0 <= j < rects.len() && i != j implies !crosses(rects[i], rects[j]) by {
        if i < j {
            assert(slices[i].1 <= slices[j].0);
        } else {
            assert(slices[j].1 <= slices[i].0);
        }
    }
    assert forall|x: i32, y: i32| #[trigger] area.contains(x, y) implies exists|i: int|
        0 <= i < rects.len() && (#[trigger] rects[i]).contains(x, y) by {
        let along = match axis {
            Axis::Horizontal => x,
            Axis::Vertical => y,
        };
        assert(some_slice_has(slices, along));
        let i = choose|i: int|
            0 <= i < slices.len() && (#[trigger] slices[i]).0 <= along < slices[i].1;
        assert(slices[i].0 <= along < slices[i].1);
        assert(rects[i].contains(x, y));
    }
}

/// Replacing one tile by rectangles that tile it keeps the area tiled.
pub proof fn tiles_nest(
    before: Seq<Rect>,
    tile: Rect,
    after: Seq<Rect>,
    parts: Seq<Rect>,
    area: Rect,
)
    requires
        tiles(before.push(tile) + after, area),
        tiles(parts, tile),
    ensures
        tiles(before + parts + after, area),
{
    let outer = before.push(tile) + after;
    let all = before + parts + after;
    let b = before.len() as int;
    let p = parts.len() as int;
    assert(outer[b] == tile);
    assert(area.contains_rect(&outer[b]));
    assert forall|i: int| 0 <= i < all.len() implies area.contains_rect(&#[trigger] all[i])
        && proper(all[i]) by {
        if i < b {
            assert(all[i] == outer[i]);
        } else if i < b + p {
            assert(all[i] == parts[i - b]);
        } else {
            assert(all[i] == outer[i - p + 1]);
        }
    }
    assert forall|i: int, j: int|
        #![trigger all[i], all[j]]
        0 <= i < all.len() && 0 <= j < all.len() && i != j implies !crosses(all[i], all[j]) by {
        let oi = if i < b {
            i
        } else if i < b + p {
            b
        } else {
            i - p + 1
        };
        let oj = if j < b {
            j
        } else if j < b + p {
            b
        } else {
            j - p + 1
        };
        assert(outer[oi].contains_rect(&all[i])) by {
            if b <= i < b + p {
                assert(all[i] == parts[i - b]);
            } else {
                assert(all[i] == outer[oi]);
            }
        }
        assert(outer[oj].contains_rect(&all[j])) by {
            if b <= j < b + p {
                assert(all[j] == parts[j - b]);
            } else {
                assert(all[j] == outer[oj]);
            }
        }
        if oi == oj {
            assert(all[i] == parts[i - b] && all[j] == parts[j - b]);
        } else {
            assert(!crosses(outer[oi], outer[oj]));
        }
    }
    assert forall|x: i32, y: i32| #[trigger] area.contains(x, y) implies exists|i: int|
        0 <= i < all.len() && (#[trigger] all[i]).contains(x, y) by {
        let k = choose|k: int| 0 <= k < outer.len() && (#[trigger] outer[k]).contains(x, y);
        if k < b {
            assert(all[k] == outer[k]);
        } else if k == b {
            assert(tile.contains(x, y));
            let m = choose|m: int| 0 <= m < parts.len() && (#[trigger] parts[m]).contains(x, y);
            assert(all[b + m] == parts[m]);
        } else {
            assert(all[k + p - 1] == outer[k]);
        }
    }
}

/// An area is tiled by itself.
pub proof fn an_area_tiles_itself(area: Rect)
    requires
        proper(area),
    ensures
        tiles(seq![area], area),
{
    assert forall|x: i32, y: i32| #[trigger] area.contains(x, y) implies exists|i: int|
        0 <= i < seq![area].len() && (#[trigger] seq![area][i]).contains(x, y) by {
        assert(seq![area][0].contains(x, y));
    }
}

proof fn row_tiles(
    area: Rect,
    axis: Axis,
    first: int,
    len: int,
    resize: Seq<Option<Rect>>,
    min: MinSize,
)
    requires
        proper(area),
        1 <= len,
    ensures
        tiles(in_a_row(area, axis, first, len, resize, min), area),
{
    equal_weights_add_up(len as nat, len);
    slices_partition(
        area.start(axis),
        area.end(axis),
        equal_weights(len as nat),
        deltas_of(resize, first, len, axis),
        min.along(axis) as int,
    );
    slices_tile(
        area,
        axis,
        slices(
            area.start(axis),
            area.end(axis),
            equal_weights(len as nat),
            deltas_of(resize, first, len, axis),
            min.along(axis) as int,
        ),
    );
}

proof fn bsp_tiles(
    remaining: Rect,
    axis: Axis,
    idx: int,
    len: int,
    resize: Seq<Option<Rect>>,
    min: MinSize,
)
    requires
        proper(remaining),
        0 <= idx < len,
    ensures
        tiles(bsp_rects(remaining, axis, idx, len, resize, min), remaining),
    decreases len - idx,
{
    if idx + 1 == len {
        an_area_tiles_itself(remaining);
    } else {
        let (start, end) = (remaining.start(axis), remaining.end(axis));
        let at = bsp_cut(remaining, axis, idx, len, resize, min);
        if start < end {
            let floor = min.along(axis) as int;
            cut_keeps_both_minimums(
                start as int,
                end as int,
                sat(
                    crate::layout::split::far_delta(resize, idx, axis)
                        + crate::layout::split::near_delta(resize, idx + 1, axis),
                ) as int,
                floor,
                room_behind(floor, idx, len),
            );
        }
        let at = at as i32;
        assert(start <= at <= end);
        let first = rect_from_slice(remaining, axis, start, at);
        let rest = rect_from_slice(remaining, axis, at, end);
        let halves = seq![(start, at), (at, end)];
        assert(partitions(halves, start, end)) by {
            assert forall|x: i32| start <= x < end implies #[trigger] some_slice_has(halves, x) by {
                if x < at {
                    assert(halves[0].0 <= x < halves[0].1);
                } else {
                    assert(halves[1].0 <= x < halves[1].1);
                }
            }
        }
        slices_tile(remaining, axis, halves);
        assert(rects_of(remaining, axis, halves) =~= seq![first].push(rest) + Seq::empty());
        bsp_tiles(rest, axis.other(), idx + 1, len, resize, min);
        let parts = bsp_rects(rest, axis.other(), idx + 1, len, resize, min);
        tiles_nest(seq![first], rest, Seq::empty(), parts, remaining);
        assert(seq![first] + parts + Seq::empty() =~= bsp_rects(
            remaining,
            axis,
            idx,
            len,
            resize,
            min,
        ));
    }
}

proof fn main_and_stack_tiles(
    area: Rect,
    axis: Axis,
    len: int,
    resize: Seq<Option<Rect>>,
    min: MinSize,
)
    requires
        proper(area),
        1 <= len,
    ensures
        tiles(main_and_stack_rects(area, axis, len, resize, min), area),
{
    if len == 1 {
        an_area_tiles_itself(area);
    } else {
        let deltas = seq![crate::layout::split::shared_delta(resize, (0, 1), (1, len), axis)];
        let halves = slices(
            area.start(axis),
            area.end(axis),
            equal_weights(2),
            deltas,
            min.along(axis) as int,
        );
        equal_weights_add_up(2, 2);
        slices_partition(
            area.start(axis),
            area.end(axis),
            equal_weights(2),
            deltas,
            min.along(axis) as int,
        );
        slices_tile(area, axis, halves);
        let parts = main_and_rest(area, axis, len, resize, min);
        assert(parts =~= seq![parts[0]].push(parts[1]) + Seq::empty());
        assert(proper(parts[1]));
        let stack = in_a_row(parts[1], axis.other(), 1, len - 1, resize, min);
        row_tiles(parts[1], axis.other(), 1, len - 1, resize, min);
        tiles_nest(seq![parts[0]], parts[1], Seq::empty(), stack, area);
        assert(seq![parts[0]] + stack + Seq::empty() =~= main_and_stack_rects(
            area,
            axis,
            len,
            resize,
            min,
        ));
    }
}

/// The order of the rectangles does not matter: swapping the first two keeps
/// the area tiled.
proof fn tiles_swapped(rects: Seq<Rect>, swapped: Seq<Rect>, area: Rect)
    requires
        tiles(rects, area),
        rects.len() >= 2,
        swapped == rects.update(0, rects[1]).update(1, rects[0]),
    ensures
        tiles(swapped, area),
{
    let n = rects.len() as int;
    assert forall|i: int| 0 <= i < n implies area.contains_rect(&#[trigger] swapped[i]) && proper(
        swapped[i],
    ) by {
        let k = if i == 0 {
            1
        } else if i == 1 {
            0
        } else {
            i
        };
        assert(swapped[i] == rects[k]);
    }
    assert forall|i: int, j: int|
        #![trigger swapped[i], swapped[j]]
        0 <= i < n && 0 <= j < n && i != j implies !crosses(swapped[i], swapped[j]) by {
        let a = if i == 0 {
            1
        } else if i == 1 {
            0
        } else {
            i
        };
        let b = if j == 0 {
            1
        } else if j == 1 {
            0
        } else {
            j
        };
        assert(swapped[i] == rects[a] && swapped[j] == rects[b]);
    }
    assert forall|x: i32, y: i32| #[trigger] area.contains(x, y) implies exists|i: int|
        0 <= i < n && (#[trigger] swapped[i]).contains(x, y) by {
        let k = choose|k: int| 0 <= k < rects.len() && (#[trigger] rects[k]).contains(x, y);
        let i = if k == 0 {
            1
        } else if k == 1 {
            0
        } else {
            k
        };
        assert(swapped[i] == rects[k]);
    }
}

proof fn ultrawide_tiles(area: Rect, len: int, resize: Seq<Option<Rect>>, min: MinSize)
    requires
        proper(area),
        1 <= len,
    ensures
        tiles(ultrawide_rects(area, len, resize, min), area),
{
    let axis = Axis::Horizontal;
    let left = sat(
        crate::layout::split::far_delta(resize, 1, axis) + crate::layout::split::near_delta(
            resize,
            0,
            axis,
        ),
    );
    if len == 1 {
        an_area_tiles_itself(area);
    } else if len == 2 {
        equal_weights_add_up(2, 2);
        slices_partition(area.left, area.right, equal_weights(2), seq![left], min.width as int);
        let s = slices(area.left, area.right, equal_weights(2), seq![left], min.width as int);
        slices_tile(area, axis, s);
        let halves = rects_of(area, axis, s);
        assert(ultrawide_rects(area, len, resize, min) =~= halves.update(0, halves[1]).update(
            1,
            halves[0],
        ));
        tiles_swapped(halves, ultrawide_rects(area, len, resize, min), area);
    } else {
        let right = crate::layout::split::shared_delta(resize, (0, 1), (2, len), axis);
        let weights = seq![1u32, 2u32, 1u32];
        assert(weight_sum(weights, 3) == 4) by {
            reveal_with_fuel(weight_sum, 4);
        }
        slices_partition(area.left, area.right, weights, seq![left, right], min.width as int);
        let s = slices(area.left, area.right, weights, seq![left, right], min.width as int);
        slices_tile(area, axis, s);
        let columns = ultrawide_columns(area, len, resize, min);
        assert(columns == rects_of(area, axis, s));
        let swapped = columns.update(0, columns[1]).update(1, columns[0]);
        tiles_swapped(columns, swapped, area);
        let head = seq![columns[1], columns[0]];
        assert(swapped =~= head.push(columns[2]) + Seq::empty());
        assert(proper(columns[2]));
        let stack = in_a_row(columns[2], Axis::Vertical, 2, len - 2, resize, min);
        row_tiles(columns[2], Axis::Vertical, 2, len - 2, resize, min);
        tiles_nest(head, columns[2], Seq::empty(), stack, area);
        assert(head + stack + Seq::empty() =~= ultrawide_rects(area, len, resize, min));
    }
}

proof fn grid_columns_tile(area: Rect, len: int, resize: Seq<Option<Rect>>, min: MinSize)
    requires
        proper(area),
        1 <= len,
    ensures
        tiles(grid_column_rects(area, len, resize, min), area),
        grid_column_rects(area, len, resize, min).len() == columns_of(len),
{
    grid_has_columns(len);
    let columns = columns_of(len);
    let deltas = Seq::new(
        (columns - 1) as nat,
        |c: int|
            crate::layout::split::shared_delta(
                resize,
                (cells_before(len, columns, c), cells_before(len, columns, c + 1)),
                (cells_before(len, columns, c + 1), cells_before(len, columns, c + 2)),
                Axis::Horizontal,
            ),
    );
    equal_weights_add_up(columns as nat, columns);
    slices_partition(
        area.left,
        area.right,
        equal_weights(columns as nat),
        deltas,
        min.width as int,
    );
    slices_tile(
        area,
        Axis::Horizontal,
        slices(area.left, area.right, equal_weights(columns as nat), deltas, min.width as int),
    );
}

proof fn grid_tiles(area: Rect, len: int, resize: Seq<Option<Rect>>, min: MinSize, c: int)
    requires
        proper(area),
        1 <= len,
        0 <= c <= columns_of(len),
    ensures
        tiles(
            grid_rects(area, len, resize, min, c) + grid_column_rects(area, len, resize, min).skip(
                c,
            ),
            area,
        ),
    decreases c,
{
    grid_has_columns(len);
    grid_columns_tile(area, len, resize, min);
    let columns = grid_column_rects(area, len, resize, min);
    if c == 0 {
        assert(grid_rects(area, len, resize, min, 0) + columns.skip(0) =~= columns);
    } else {
        grid_tiles(area, len, resize, min, c - 1);
        let done = grid_rects(area, len, resize, min, c - 1);
        let tile = columns[c - 1];
        let cells = grid_cells_of_column(area, len, resize, min, c - 1);
        assert(done + columns.skip(c - 1) =~= done.push(tile) + columns.skip(c));
        assert(proper(tile));
        cells_add_up(len, columns_of(len), c - 1);
        let first = cells_before(len, columns_of(len), c - 1);
        row_tiles(
            tile,
            Axis::Vertical,
            first,
            cells_before(len, columns_of(len), c) - first,
            resize,
            min,
        );
        tiles_nest(done, tile, columns.skip(c), cells, area);
        assert(done + cells + columns.skip(c) =~= grid_rects(area, len, resize, min, c)
            + columns.skip(c));
    }
}

/// Every layout tiles its area exactly: whatever the number of containers, the
/// deltas and the minimum, its rectangles cover the area with no gap and no
/// overlap.
pub proof fn every_layout_tiles_its_area(
    layout: Layout,
    area: Rect,
    len: int,
    resize: Seq<Option<Rect>>,
    min: MinSize,
)
    requires
        proper(area),
        1 <= len,
    ensures
        tiles(layout.tiles(area, len, resize, min), area),
        layout.tiles(area, len, resize, min).len() == len,
{
    tile_count(layout, area, len, resize, min);
    match layout {
        Layout::Bsp => bsp_tiles(area, Axis::Horizontal, 0, len, resize, min),
        Layout::Columns => row_tiles(area, Axis::Horizontal, 0, len, resize, min),
        Layout::Rows => row_tiles(area, Axis::Vertical, 0, len, resize, min),
        Layout::VerticalStack => main_and_stack_tiles(area, Axis::Horizontal, len, resize, min),
        Layout::HorizontalStack => main_and_stack_tiles(area, Axis::Vertical, len, resize, min),
        Layout::UltrawideVerticalStack => ultrawide_tiles(area, len, resize, min),
        Layout::Grid => {
            grid_has_columns(len);
            let columns = columns_of(len);
            grid_tiles(area, len, resize, min, columns);
            grid_columns_tile(area, len, resize, min);
            assert(grid_rects(area, len, resize, min, columns) + grid_column_rects(
                area,
                len,
                resize,
                min,
            ).skip(columns) =~= grid_rects(area, len, resize, min, columns));
        },
    }
}

/// Mirroring inside an area is its own inverse.
pub proof fn mirroring_twice_is_nothing(flip: Flip, area: Rect, rect: Rect)
    requires
        area.contains_rect(&rect),
        proper(rect),
    ensures
        flip.apply(area, flip.apply(area, rect)) == rect,
        area.contains_rect(&flip.apply(area, rect)),
        proper(flip.apply(area, rect)),
        flip.apply(area, rect).width() == rect.width(),
        flip.apply(area, rect).height() == rect.height(),
{
}

/// A mirrored tiling still tiles the area.
pub proof fn mirroring_keeps_the_tiling(flip: Flip, area: Rect, rects: Seq<Rect>)
    requires
        tiles(rects, area),
    ensures
        tiles(rects.map_values(|rect: Rect| flip.apply(area, rect)), area),
{
    let all = rects.map_values(|rect: Rect| flip.apply(area, rect));
    assert forall|i: int| 0 <= i < all.len() implies area.contains_rect(&#[trigger] all[i])
        && proper(all[i]) by {
        mirroring_twice_is_nothing(flip, area, rects[i]);
    }
    assert forall|i: int, j: int|
        #![trigger all[i], all[j]]
        0 <= i < all.len() && 0 <= j < all.len() && i != j implies !crosses(all[i], all[j]) by {
        assert(!crosses(rects[i], rects[j]));
        assert(area.contains_rect(&rects[i]) && area.contains_rect(&rects[j]));
    }
    assert forall|x: i32, y: i32| #[trigger] area.contains(x, y) implies exists|i: int|
        0 <= i < all.len() && (#[trigger] all[i]).contains(x, y) by {
        let mx = if flip.horizontal {
            (area.left + area.right - 1 - x) as i32
        } else {
            x
        };
        let my = if flip.vertical {
            (area.top + area.bottom - 1 - y) as i32
        } else {
            y
        };
        assert(area.contains(mx, my));
        let k = choose|k: int| 0 <= k < rects.len() && (#[trigger] rects[k]).contains(mx, my);
        assert(area.contains_rect(&rects[k]));
        assert(all[k].contains(x, y));
    }
}

/// Every layout tiles its area exactly, mirrored or not.
pub proof fn a_mirrored_layout_tiles_its_area(
    layout: Layout,
    area: Rect,
    len: int,
    flip: Flip,
    resize: Seq<Option<Rect>>,
    min: MinSize,
)
    requires
        proper(area),
        1 <= len,
    ensures
        tiles(layout.mirrored_tiles(area, len, flip, resize, min), area),
{
    every_layout_tiles_its_area(layout, area, len, resize, min);
    mirroring_keeps_the_tiling(flip, area, layout.tiles(area, len, resize, min));
}

/// With no container padding, the rectangles a layout calculates tile the area
/// exactly. With a padding they stay inside the area and never overlap.
pub proof fn an_arrangement_covers_its_area(
    layout: Layout,
    area: Rect,
    len: int,
    container_padding: i32,
    flip: Flip,
    resize: Seq<Option<Rect>>,
    min: MinSize,
)
    requires
        proper(area),
        1 <= len,
    ensures
        ({
            let rects = layout.arrangement(area, len, container_padding, flip, resize, min);
            &&& rects.len() == len
            &&& container_padding <= 0 ==> tiles(rects, area)
            &&& forall|i: int| 0 <= i < len ==> area.contains_rect(&#[trigger] rects[i])
            &&& forall|i: int, j: int|
                #![trigger rects[i], rects[j]]
                0 <= i < len && 0 <= j < len && i != j ==> !crosses(rects[i], rects[j])
        }),
{
    let min = min.at_least_zero();
    a_mirrored_layout_tiles_its_area(layout, area, len, flip, resize, min);
    tile_count(layout, area, len, resize, min);
    let tiled = layout.mirrored_tiles(area, len, flip, resize, min);
    let rects = tiled.map_values(|rect: Rect| rect.padded_clamped(container_padding));
    if container_padding <= 0 {
        assert(rects =~= tiled);
    }
    assert forall|i: int| 0 <= i < len implies area.contains_rect(&#[trigger] rects[i])
        && tiled[i].contains_rect(&rects[i]) by {
        assert(area.contains_rect(&tiled[i]) && proper(tiled[i]));
    }
    assert forall|i: int, j: int|
        #![trigger rects[i], rects[j]]
        0 <= i < len && 0 <= j < len && i != j implies !crosses(rects[i], rects[j]) by {
        assert(!crosses(tiled[i], tiled[j]));
        assert(tiled[i].contains_rect(&rects[i]) && tiled[j].contains_rect(&rects[j]));
    }
}

} // verus!
