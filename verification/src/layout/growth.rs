//! What a push at one edge does to the tile it belongs to.

use vstd::prelude::*;

use crate::geometry::{sat, Axis, Rect};
use crate::layout::bsp::{bsp_cut, bsp_rects, room_behind};
use crate::layout::edges::{
    across, cells_of_columns, cut_axis, far_edge, first_cell, near_edge, push_ahead, push_back,
};
use crate::layout::split::{
    bound, bounds_keep_the_minimum, cut_keeps_both_minimums, deltas_of, divisible, equal_weights,
    far_delta, far_sum, minimum_fits, minimum_of, near_delta, near_sum, rect_from_slice, rects_of,
    shared_delta, slices, weight_sum,
};
use crate::layout::tiling::{equal_weights_add_up, grid_has_columns, proper, slices_partition};
use crate::layout::{
    cells_add_up, cells_before, columns_of, grid_column_rects, in_a_row, main_and_rest,
    ultrawide_columns, Layout, MinSize,
};

verus! {

/// `b` holds what `a` holds, but that container `i` pushes the boundary at its far
/// edge along `axis` further ahead.
pub open spec fn pushed_ahead(a: Seq<Option<Rect>>, b: Seq<Option<Rect>>, i: int, axis: Axis) -> bool {
    &&& forall|k: int, x: Axis| #[trigger] push_back(a, k, x) == push_back(b, k, x)
    &&& forall|k: int, x: Axis|
        k != i || x != axis ==> #[trigger] push_ahead(a, k, x) == push_ahead(b, k, x)
    &&& push_ahead(a, i, axis) <= push_ahead(b, i, axis)
}

/// `b` holds what `a` holds, but that container `i` pulls the boundary at its near
/// edge along `axis` further back.
pub open spec fn pulled_back(a: Seq<Option<Rect>>, b: Seq<Option<Rect>>, i: int, axis: Axis) -> bool {
    &&& forall|k: int, x: Axis| #[trigger] push_ahead(a, k, x) == push_ahead(b, k, x)
    &&& forall|k: int, x: Axis|
        k != i || x != axis ==> #[trigger] push_back(a, k, x) == push_back(b, k, x)
    &&& push_back(b, i, axis) <= push_back(a, i, axis)
}

/// The length of a rectangle along `axis`.
pub open spec fn length(r: Rect, axis: Axis) -> int {
    far_edge(r, axis) - near_edge(r, axis)
}

/// `b` is `a` with its far edge along `axis` further out, or `a` itself.
pub open spec fn reaches_further(a: Rect, b: Rect, axis: Axis) -> bool {
    &&& near_edge(a, axis) == near_edge(b, axis)
    &&& far_edge(a, axis) <= far_edge(b, axis)
    &&& near_edge(a, across(axis)) == near_edge(b, across(axis))
    &&& far_edge(a, across(axis)) == far_edge(b, across(axis))
}

/// `b` begins no later than `a` along `axis`, is no shorter, and is the same across.
pub open spec fn begins_sooner(a: Rect, b: Rect, axis: Axis) -> bool {
    &&& near_edge(b, axis) <= near_edge(a, axis)
    &&& length(a, axis) <= length(b, axis)
    &&& near_edge(a, across(axis)) == near_edge(b, across(axis))
    &&& far_edge(a, across(axis)) == far_edge(b, across(axis))
}

proof fn bounds_agree(
    start: int,
    end: int,
    weights: Seq<u32>,
    a: Seq<i32>,
    b: Seq<i32>,
    min: int,
    k: int,
)
    requires
        a.len() == b.len(),
        forall|j: int| 0 <= j < a.len() && j < k ==> #[trigger] a[j] == b[j],
    ensures
        bound(start, end, weights, a, min, k) == bound(start, end, weights, b, min, k),
    decreases k,
{
    if 0 < k < weights.len() {
        bounds_agree(start, end, weights, a, b, min, k - 1);
    }
}

/// A bigger delta behind slice `i` lets it reach further and leaves its start.
proof fn a_slice_reaches_further(
    start: i32,
    end: i32,
    weights: Seq<u32>,
    a: Seq<i32>,
    b: Seq<i32>,
    min_tile: int,
    i: int,
)
    requires
        start <= end <= start + i32::MAX,
        0 <= min_tile,
        a.len() == b.len(),
        0 <= i < weights.len(),
        forall|j: int| 0 <= j < a.len() && j != i ==> #[trigger] a[j] == b[j],
        i < a.len() ==> a[i] <= b[i],
    ensures
        slices(start, end, weights, a, min_tile)[i].0 == slices(start, end, weights, b, min_tile)[i].0,
        slices(start, end, weights, a, min_tile)[i].1 <= slices(start, end, weights, b, min_tile)[i].1,
{
    let n = weights.len() as int;
    let (s, e) = (start as int, end as int);
    let min = minimum_of(end - start, n, min_tile);
    if n > 1 && divisible(s, e, weights) {
        minimum_fits(end - start, n, min_tile);
        bounds_agree(s, e, weights, a, b, min, i);
        bounds_keep_the_minimum(s, e, weights, a, min, i);
        bounds_keep_the_minimum(s, e, weights, b, min, i);
        in_the_range(s, e, weights, a, min, i + 1);
        in_the_range(s, e, weights, b, min, i + 1);
    }
}

proof fn in_the_range(start: int, end: int, weights: Seq<u32>, deltas: Seq<i32>, min: int, i: int)
    requires
        0 <= min,
        min * weights.len() <= end - start,
        0 <= i <= weights.len(),
        weights.len() > 0,
    ensures
        start <= bound(start, end, weights, deltas, min, i) <= end,
{
    let n = weights.len() as int;
    if i < n {
        bounds_keep_the_minimum(start, end, weights, deltas, min, i);
        assert(min * (n - i) >= 0) by (nonlinear_arith)
            requires
                0 <= min,
                i < n,
        ;
    } else {
        assert(min * n >= 0) by (nonlinear_arith)
            requires
                0 <= min,
                0 <= n,
        ;
    }
}

/// A smaller delta in front of slice `i` lets it begin sooner and makes it no shorter.
proof fn a_slice_begins_sooner(
    start: i32,
    end: i32,
    weights: Seq<u32>,
    a: Seq<i32>,
    b: Seq<i32>,
    min_tile: int,
    i: int,
)
    requires
        start <= end <= start + i32::MAX,
        0 <= min_tile,
        a.len() == b.len(),
        0 <= i < weights.len(),
        forall|j: int| 0 <= j < a.len() && j != i - 1 ==> #[trigger] a[j] == b[j],
        0 <= i - 1 < a.len() ==> b[i - 1] <= a[i - 1],
    ensures
        ({
            let (s, t) = (
                slices(start, end, weights, a, min_tile)[i],
                slices(start, end, weights, b, min_tile)[i],
            );
            t.0 <= s.0 && s.1 - s.0 <= t.1 - t.0
        }),
{
    let n = weights.len() as int;
    let (s, e) = (start as int, end as int);
    let min = minimum_of(end - start, n, min_tile);
    if n > 1 && divisible(s, e, weights) {
        minimum_fits(end - start, n, min_tile);
        if i > 0 {
            bounds_agree(s, e, weights, a, b, min, i - 1);
        }
        bounds_keep_the_minimum(s, e, weights, a, min, i);
        bounds_keep_the_minimum(s, e, weights, b, min, i);
        in_the_range(s, e, weights, a, min, i);
        in_the_range(s, e, weights, b, min, i);
        in_the_range(s, e, weights, a, min, i + 1);
        in_the_range(s, e, weights, b, min, i + 1);
        assert(min * (n - (i + 1)) >= 0) by (nonlinear_arith)
            requires
                0 <= min,
                i < n,
        ;
        assert(min * (n - i) == min * (n - (i + 1)) + min) by (nonlinear_arith);
    }
}

proof fn a_row_reaches_further(
    area: Rect,
    along: Axis,
    first: int,
    len: int,
    a: Seq<Option<Rect>>,
    b: Seq<Option<Rect>>,
    min: MinSize,
    i: int,
    axis: Axis,
)
    requires
        proper(area),
        0 <= min.width,
        0 <= min.height,
        0 <= first <= i < first + len,
        pushed_ahead(a, b, i, axis),
    ensures
        reaches_further(
            in_a_row(area, along, first, len, a, min)[i - first],
            in_a_row(area, along, first, len, b, min)[i - first],
            axis,
        ),
{
    deltas_follow(a, b);
    let (x, y) = (deltas_of(a, first, len, along), deltas_of(b, first, len, along));
    assert forall|j: int| 0 <= j < x.len() && (along != axis || j != i - first) implies #[trigger] x[j]
        == y[j] by {}
    if along == axis {
        a_slice_reaches_further(
            area.start(along),
            area.end(along),
            equal_weights(len as nat),
            x,
            y,
            min.along(along) as int,
            i - first,
        );
    } else {
        assert(x =~= y);
    }
}

proof fn a_row_begins_sooner(
    area: Rect,
    along: Axis,
    first: int,
    len: int,
    a: Seq<Option<Rect>>,
    b: Seq<Option<Rect>>,
    min: MinSize,
    i: int,
    axis: Axis,
)
    requires
        proper(area),
        0 <= min.width,
        0 <= min.height,
        0 <= first <= i < first + len,
        pulled_back(a, b, i, axis),
    ensures
        begins_sooner(
            in_a_row(area, along, first, len, a, min)[i - first],
            in_a_row(area, along, first, len, b, min)[i - first],
            axis,
        ),
{
    deltas_follow(a, b);
    let (x, y) = (deltas_of(a, first, len, along), deltas_of(b, first, len, along));
    assert forall|j: int| 0 <= j < x.len() && (along != axis || j != i - first - 1) implies #[trigger] x[j]
        == y[j] by {}
    if along == axis {
        a_slice_begins_sooner(
            area.start(along),
            area.end(along),
            equal_weights(len as nat),
            x,
            y,
            min.along(along) as int,
            i - first,
        );
    } else {
        assert(x =~= y);
    }
}

/// The deltas are what is pushed.
proof fn deltas_follow(a: Seq<Option<Rect>>, b: Seq<Option<Rect>>)
    ensures
        forall|k: int, x: Axis| #[trigger] far_delta(a, k, x) == push_ahead(a, k, x),
        forall|k: int, x: Axis| #[trigger] far_delta(b, k, x) == push_ahead(b, k, x),
        forall|k: int, x: Axis| #[trigger] near_delta(a, k, x) == push_back(a, k, x),
        forall|k: int, x: Axis| #[trigger] near_delta(b, k, x) == push_back(b, k, x),
{
}

proof fn far_sums_follow(a: Seq<Option<Rect>>, b: Seq<Option<Rect>>, from: int, to: int, axis: Axis)
    requires
        forall|k: int| from <= k < to ==> #[trigger] push_ahead(a, k, axis) <= push_ahead(b, k, axis),
    ensures
        far_sum(a, from, to, axis) <= far_sum(b, from, to, axis),
    decreases to - from,
{
    if from < to {
        far_sums_follow(a, b, from, to - 1, axis);
        deltas_follow(a, b);
        assert(push_ahead(a, to - 1, axis) <= push_ahead(b, to - 1, axis));
    }
}

proof fn near_sums_follow(
    s: i32,
    t: i32,
    a: Seq<Option<Rect>>,
    b: Seq<Option<Rect>>,
    from: int,
    to: int,
    axis: Axis,
)
    requires
        s <= t,
        forall|k: int| from <= k < to ==> #[trigger] push_back(a, k, axis) <= push_back(b, k, axis),
    ensures
        near_sum(s, a, from, to, axis) <= near_sum(t, b, from, to, axis),
    decreases to - from,
{
    if from < to {
        near_sums_follow(s, t, a, b, from, to - 1, axis);
        deltas_follow(a, b);
        assert(push_back(a, to - 1, axis) <= push_back(b, to - 1, axis));
    }
}

/// A shared delta grows with the pushes it is made of.
proof fn shared_deltas_follow(
    a: Seq<Option<Rect>>,
    b: Seq<Option<Rect>>,
    before: (int, int),
    after: (int, int),
    axis: Axis,
)
    requires
        forall|k: int|
            before.0 <= k < before.1 ==> #[trigger] push_ahead(a, k, axis) <= push_ahead(b, k, axis),
        forall|k: int|
            after.0 <= k < after.1 ==> #[trigger] push_back(a, k, axis) <= push_back(b, k, axis),
    ensures
        shared_delta(a, before, after, axis) <= shared_delta(b, before, after, axis),
{
    far_sums_follow(a, b, before.0, before.1, axis);
    near_sums_follow(
        far_sum(a, before.0, before.1, axis),
        far_sum(b, before.0, before.1, axis),
        a,
        b,
        after.0,
        after.1,
        axis,
    );
}

proof fn a_cut_stays_inside(
    remaining: Rect,
    axis: Axis,
    idx: int,
    len: int,
    resize: Seq<Option<Rect>>,
    min: MinSize,
)
    requires
        proper(remaining),
    ensures
        remaining.start(axis) <= bsp_cut(remaining, axis, idx, len, resize, min) <= remaining.end(
            axis,
        ),
{
    let (start, end) = (remaining.start(axis) as int, remaining.end(axis) as int);
    if start < end {
        let floor = min.along(axis) as int;
        cut_keeps_both_minimums(
            start,
            end,
            sat(far_delta(resize, idx, axis) + near_delta(resize, idx + 1, axis)) as int,
            floor,
            room_behind(floor, idx, len),
        );
    }
}

proof fn cuts_follow(
    remaining: Rect,
    along: Axis,
    idx: int,
    len: int,
    a: Seq<Option<Rect>>,
    b: Seq<Option<Rect>>,
    min: MinSize,
)
    requires
        push_ahead(a, idx, along) + push_back(a, idx + 1, along) <= push_ahead(b, idx, along)
            + push_back(b, idx + 1, along),
    ensures
        bsp_cut(remaining, along, idx, len, a, min) <= bsp_cut(remaining, along, idx, len, b, min),
{
}

proof fn same_cut_of_the_same_range(
    remaining: Rect,
    other: Rect,
    along: Axis,
    idx: int,
    len: int,
    a: Seq<Option<Rect>>,
    b: Seq<Option<Rect>>,
    min: MinSize,
)
    requires
        near_edge(remaining, along) == near_edge(other, along),
        far_edge(remaining, along) == far_edge(other, along),
        push_ahead(a, idx, along) == push_ahead(b, idx, along),
        push_back(a, idx + 1, along) == push_back(b, idx + 1, along),
    ensures
        bsp_cut(remaining, along, idx, len, a, min) == bsp_cut(other, along, idx, len, b, min),
{
}

proof fn a_partition_goes_on(
    remaining: Rect,
    idx: int,
    len: int,
    a: Seq<Option<Rect>>,
    min: MinSize,
    k: int,
)
    requires
        proper(remaining),
        0 <= idx < k < len,
    ensures
        ({
            let along = cut_axis(idx);
            let p = bsp_cut(remaining, along, idx, len, a, min);
            let rest = rect_from_slice(remaining, along, p as i32, remaining.end(along));
            &&& remaining.start(along) <= p <= remaining.end(along)
            &&& proper(rest)
            &&& bsp_rects(remaining, along, idx, len, a, min)[k - idx] == bsp_rects(
                rest,
                cut_axis(idx + 1),
                idx + 1,
                len,
                a,
                min,
            )[k - idx - 1]
        }),
{
    let along = cut_axis(idx);
    assert(along.other() == cut_axis(idx + 1));
    a_cut_stays_inside(remaining, along, idx, len, a, min);
    let p = bsp_cut(remaining, along, idx, len, a, min);
    let rest = rect_from_slice(remaining, along, p as i32, remaining.end(along));
    partition_count(rest, idx + 1, len, a, min);
}

proof fn a_partition_starts_with(
    remaining: Rect,
    idx: int,
    len: int,
    a: Seq<Option<Rect>>,
    min: MinSize,
)
    requires
        proper(remaining),
        0 <= idx < len,
    ensures
        ({
            let along = cut_axis(idx);
            let p = bsp_cut(remaining, along, idx, len, a, min);
            let tile = bsp_rects(remaining, along, idx, len, a, min)[0];
            &&& idx + 1 == len ==> tile == remaining
            &&& idx + 1 < len ==> tile == rect_from_slice(
                remaining,
                along,
                remaining.start(along),
                p as i32,
            ) && remaining.start(along) <= p <= remaining.end(along)
        }),
{
    a_cut_stays_inside(remaining, cut_axis(idx), idx, len, a, min);
}

proof fn a_partition_reaches_further(
    remaining: Rect,
    idx: int,
    len: int,
    a: Seq<Option<Rect>>,
    b: Seq<Option<Rect>>,
    min: MinSize,
    i: int,
    axis: Axis,
)
    requires
        proper(remaining),
        0 <= idx <= i < len,
        pushed_ahead(a, b, i, axis),
    ensures
        bsp_rects(remaining, cut_axis(idx), idx, len, a, min).len() == len - idx,
        bsp_rects(remaining, cut_axis(idx), idx, len, b, min).len() == len - idx,
        reaches_further(
            bsp_rects(remaining, cut_axis(idx), idx, len, a, min)[i - idx],
            bsp_rects(remaining, cut_axis(idx), idx, len, b, min)[i - idx],
            axis,
        ),
    decreases len - idx,
{
    let along = cut_axis(idx);
    partition_count(remaining, idx, len, a, min);
    partition_count(remaining, idx, len, b, min);
    assert(push_back(a, idx + 1, along) == push_back(b, idx + 1, along));
    if i > idx {
        assert(push_ahead(a, idx, along) == push_ahead(b, idx, along));
        same_cut_of_the_same_range(remaining, remaining, along, idx, len, a, b, min);
        a_partition_goes_on(remaining, idx, len, a, min, i);
        a_partition_goes_on(remaining, idx, len, b, min, i);
        let p = bsp_cut(remaining, along, idx, len, a, min);
        let rest = rect_from_slice(remaining, along, p as i32, remaining.end(along));
        a_partition_reaches_further(rest, idx + 1, len, a, b, min, i, axis);
    } else {
        a_partition_starts_with(remaining, idx, len, a, min);
        a_partition_starts_with(remaining, idx, len, b, min);
        if along == axis {
            cuts_follow(remaining, along, idx, len, a, b, min);
        } else {
            assert(push_ahead(a, idx, along) == push_ahead(b, idx, along));
            same_cut_of_the_same_range(remaining, remaining, along, idx, len, a, b, min);
        }
    }
}

proof fn partition_count(
    remaining: Rect,
    idx: int,
    len: int,
    a: Seq<Option<Rect>>,
    min: MinSize,
)
    requires
        0 <= idx <= len,
    ensures
        bsp_rects(remaining, cut_axis(idx), idx, len, a, min).len() == len - idx,
    decreases len - idx,
{
    if idx + 1 < len {
        assert(cut_axis(idx).other() == cut_axis(idx + 1));
        let along = cut_axis(idx);
        let p = bsp_cut(remaining, along, idx, len, a, min) as i32;
        partition_count(
            rect_from_slice(remaining, along, p, remaining.end(along)),
            idx + 1,
            len,
            a,
            min,
        );
    }
}

proof fn a_partition_begins_sooner(
    remaining: Rect,
    idx: int,
    len: int,
    a: Seq<Option<Rect>>,
    b: Seq<Option<Rect>>,
    min: MinSize,
    i: int,
    axis: Axis,
)
    requires
        proper(remaining),
        0 <= idx <= i < len,
        pulled_back(a, b, i, axis),
    ensures
        bsp_rects(remaining, cut_axis(idx), idx, len, a, min).len() == len - idx,
        bsp_rects(remaining, cut_axis(idx), idx, len, b, min).len() == len - idx,
        begins_sooner(
            bsp_rects(remaining, cut_axis(idx), idx, len, a, min)[i - idx],
            bsp_rects(remaining, cut_axis(idx), idx, len, b, min)[i - idx],
            axis,
        ),
    decreases len - idx,
{
    let along = cut_axis(idx);
    partition_count(remaining, idx, len, a, min);
    partition_count(remaining, idx, len, b, min);
    assert(push_ahead(a, idx, along) == push_ahead(b, idx, along));
    if i > idx + 1 || (i == idx + 1 && along != axis) {
        assert(push_back(a, idx + 1, along) == push_back(b, idx + 1, along));
        same_cut_of_the_same_range(remaining, remaining, along, idx, len, a, b, min);
        a_partition_goes_on(remaining, idx, len, a, min, i);
        a_partition_goes_on(remaining, idx, len, b, min, i);
        let p = bsp_cut(remaining, along, idx, len, a, min);
        let rest = rect_from_slice(remaining, along, p as i32, remaining.end(along));
        a_partition_begins_sooner(rest, idx + 1, len, a, b, min, i, axis);
    } else if i == idx + 1 {
        cuts_follow(remaining, along, idx, len, b, a, min);
        a_partition_goes_on(remaining, idx, len, a, min, i);
        a_partition_goes_on(remaining, idx, len, b, min, i);
        let (p, q) = (
            bsp_cut(remaining, along, idx, len, a, min),
            bsp_cut(remaining, along, idx, len, b, min),
        );
        let rest = rect_from_slice(remaining, along, p as i32, remaining.end(along));
        let other = rect_from_slice(remaining, along, q as i32, remaining.end(along));
        let next = cut_axis(i);
        assert(push_ahead(a, i, next) == push_ahead(b, i, next));
        assert(push_back(a, i + 1, next) == push_back(b, i + 1, next));
        same_cut_of_the_same_range(rest, other, next, i, len, a, b, min);
        a_partition_starts_with(rest, i, len, a, min);
        a_partition_starts_with(other, i, len, b, min);
    } else {
        a_partition_starts_with(remaining, idx, len, a, min);
        a_partition_starts_with(remaining, idx, len, b, min);
        assert(push_back(a, idx + 1, along) == push_back(b, idx + 1, along));
        same_cut_of_the_same_range(remaining, remaining, along, idx, len, a, b, min);
    }
}

/// The slices of an area are proper, and the same across.
proof fn slices_are_proper(
    area: Rect,
    axis: Axis,
    weights: Seq<u32>,
    deltas: Seq<i32>,
    min_tile: int,
    i: int,
)
    requires
        proper(area),
        weight_sum(weights, weights.len() as int) > 0,
        0 <= i < weights.len(),
    ensures
        proper(
            rects_of(
                area,
                axis,
                slices(area.start(axis), area.end(axis), weights, deltas, min_tile),
            )[i],
        ),
{
    slices_partition(area.start(axis), area.end(axis), weights, deltas, min_tile);
    let s = slices(area.start(axis), area.end(axis), weights, deltas, min_tile);
    assert(area.start(axis) <= s[i].0 <= s[i].1 <= area.end(axis));
}

/// Two rows in areas that differ only across them are the same along.
proof fn rows_of_areas_that_differ_across(
    p: Rect,
    q: Rect,
    along: Axis,
    first: int,
    len: int,
    a: Seq<Option<Rect>>,
    b: Seq<Option<Rect>>,
    min: MinSize,
    k: int,
)
    requires
        0 <= k < len,
        near_edge(p, along) == near_edge(q, along),
        far_edge(p, along) == far_edge(q, along),
        forall|j: int| #[trigger] push_ahead(a, j, along) == push_ahead(b, j, along),
        forall|j: int| #[trigger] push_back(a, j, along) == push_back(b, j, along),
    ensures
        ({
            let s = in_a_row(p, along, first, len, a, min)[k];
            let t = in_a_row(q, along, first, len, b, min)[k];
            &&& near_edge(s, along) == near_edge(t, along)
            &&& far_edge(s, along) == far_edge(t, along)
            &&& near_edge(s, across(along)) == near_edge(p, across(along))
            &&& far_edge(s, across(along)) == far_edge(p, across(along))
            &&& near_edge(t, across(along)) == near_edge(q, across(along))
            &&& far_edge(t, across(along)) == far_edge(q, across(along))
        }),
{
    deltas_follow(a, b);
    assert(deltas_of(a, first, len, along) =~= deltas_of(b, first, len, along));
}

proof fn a_stack_reaches_further(
    layout: Layout,
    main: Axis,
    area: Rect,
    len: int,
    a: Seq<Option<Rect>>,
    b: Seq<Option<Rect>>,
    min: MinSize,
    i: int,
    axis: Axis,
)
    requires
        layout == if main is Horizontal {
            Layout::VerticalStack
        } else {
            Layout::HorizontalStack
        },
        proper(area),
        0 <= min.width,
        0 <= min.height,
        0 <= i < len,
        pushed_ahead(a, b, i, axis),
    ensures
        reaches_further(
            layout.tiles(area, len, a, min)[i],
            layout.tiles(area, len, b, min)[i],
            axis,
        ),
{
    if len > 1 {
        shared_deltas_follow(a, b, (0, 1), (1, len), main);
        if i > 0 || axis != main {
            shared_deltas_follow(b, a, (0, 1), (1, len), main);
        }
        equal_weights_add_up(2, 2);
        let (x, y) = (
            seq![shared_delta(a, (0, 1), (1, len), main)],
            seq![shared_delta(b, (0, 1), (1, len), main)],
        );
        let (h, g) = (main_and_rest(area, main, len, a, min), main_and_rest(area, main, len, b, min));
        let (s, t) = (layout.tiles(area, len, a, min), layout.tiles(area, len, b, min));
        if i == 0 {
            a_slice_reaches_further(
                area.start(main),
                area.end(main),
                equal_weights(2),
                x,
                y,
                min.along(main) as int,
                0,
            );
            assert(s[0] == h[0] && t[0] == g[0]);
        } else {
            assert(x =~= y);
            slices_are_proper(area, main, equal_weights(2), x, min.along(main) as int, 1);
            a_row_reaches_further(h[1], main.other(), 1, len - 1, a, b, min, i, axis);
            assert(s[i] == in_a_row(h[1], main.other(), 1, len - 1, a, min)[i - 1]);
            assert(t[i] == in_a_row(g[1], main.other(), 1, len - 1, b, min)[i - 1]);
        }
    }
}

proof fn a_stack_begins_sooner(
    layout: Layout,
    main: Axis,
    area: Rect,
    len: int,
    a: Seq<Option<Rect>>,
    b: Seq<Option<Rect>>,
    min: MinSize,
    i: int,
    axis: Axis,
)
    requires
        layout == if main is Horizontal {
            Layout::VerticalStack
        } else {
            Layout::HorizontalStack
        },
        proper(area),
        0 <= min.width,
        0 <= min.height,
        0 <= i < len,
        pulled_back(a, b, i, axis),
    ensures
        begins_sooner(
            layout.tiles(area, len, a, min)[i],
            layout.tiles(area, len, b, min)[i],
            axis,
        ),
{
    if len > 1 {
        shared_deltas_follow(b, a, (0, 1), (1, len), main);
        if i == 0 || axis != main {
            shared_deltas_follow(a, b, (0, 1), (1, len), main);
        }
        equal_weights_add_up(2, 2);
        let (x, y) = (
            seq![shared_delta(a, (0, 1), (1, len), main)],
            seq![shared_delta(b, (0, 1), (1, len), main)],
        );
        let (h, g) = (main_and_rest(area, main, len, a, min), main_and_rest(area, main, len, b, min));
        let (s, t) = (layout.tiles(area, len, a, min), layout.tiles(area, len, b, min));
        if i == 0 {
            assert(x =~= y);
            assert(s[0] == h[0] && t[0] == g[0]);
        } else {
            assert(s[i] == in_a_row(h[1], main.other(), 1, len - 1, a, min)[i - 1]);
            assert(t[i] == in_a_row(g[1], main.other(), 1, len - 1, b, min)[i - 1]);
            slices_are_proper(area, main, equal_weights(2), x, min.along(main) as int, 1);
            if axis == main {
                a_slice_begins_sooner(
                    area.start(main),
                    area.end(main),
                    equal_weights(2),
                    x,
                    y,
                    min.along(main) as int,
                    1,
                );
                rows_of_areas_that_differ_across(
                    h[1],
                    g[1],
                    main.other(),
                    1,
                    len - 1,
                    a,
                    b,
                    min,
                    i - 1,
                );
            } else {
                assert(x =~= y);
                a_row_begins_sooner(h[1], main.other(), 1, len - 1, a, b, min, i, axis);
            }
        }
    }
}

proof fn wide_weights()
    ensures
        weight_sum(seq![1u32, 2u32, 1u32], 3) == 4,
{
    reveal_with_fuel(weight_sum, 4);
}

spec fn wide_deltas(resize: Seq<Option<Rect>>, len: int) -> Seq<i32> {
    seq![
        sat(far_delta(resize, 1, Axis::Horizontal) + near_delta(resize, 0, Axis::Horizontal)),
        shared_delta(resize, (0, 1), (2, len), Axis::Horizontal),
    ]
}

spec fn two_wide(area: Rect, resize: Seq<Option<Rect>>, min: MinSize) -> Seq<Rect> {
    rects_of(
        area,
        Axis::Horizontal,
        slices(
            area.left,
            area.right,
            equal_weights(2),
            seq![
                sat(
                    far_delta(resize, 1, Axis::Horizontal) + near_delta(
                        resize,
                        0,
                        Axis::Horizontal,
                    ),
                ),
            ],
            min.width as int,
        ),
    )
}

#[verifier::rlimit(80)]
#[verifier::spinoff_prover]
proof fn a_wide_screen_reaches_further(
    area: Rect,
    len: int,
    a: Seq<Option<Rect>>,
    b: Seq<Option<Rect>>,
    min: MinSize,
    i: int,
    axis: Axis,
)
    requires
        proper(area),
        0 <= min.width,
        0 <= min.height,
        0 <= i < len,
        pushed_ahead(a, b, i, axis),
    ensures
        reaches_further(
            Layout::UltrawideVerticalStack.tiles(area, len, a, min)[i],
            Layout::UltrawideVerticalStack.tiles(area, len, b, min)[i],
            axis,
        ),
{
    let along = Axis::Horizontal;
    let (s, t) = (
        Layout::UltrawideVerticalStack.tiles(area, len, a, min),
        Layout::UltrawideVerticalStack.tiles(area, len, b, min),
    );
    assert(push_back(a, 0, along) == push_back(b, 0, along));
    assert(far_delta(a, 1, along) == push_ahead(a, 1, along));
    assert(far_delta(b, 1, along) == push_ahead(b, 1, along));
    assert(near_delta(a, 0, along) == push_back(a, 0, along));
    assert(near_delta(b, 0, along) == push_back(b, 0, along));
    if i != 1 || axis != along {
        assert(push_ahead(a, 1, along) == push_ahead(b, 1, along));
    }
    if len == 2 {
        let (h, g) = (two_wide(area, a, min), two_wide(area, b, min));
        assert(s[0] == h[1] && s[1] == h[0] && t[0] == g[1] && t[1] == g[0]);
        if i == 1 {
            a_slice_reaches_further(
                area.left,
                area.right,
                equal_weights(2),
                seq![sat(far_delta(a, 1, along) + near_delta(a, 0, along))],
                seq![sat(far_delta(b, 1, along) + near_delta(b, 0, along))],
                min.width as int,
                0,
            );
        } else {
            assert(h == g);
        }
    } else if len > 2 {
        wide_weights();
        let (x, y) = (wide_deltas(a, len), wide_deltas(b, len));
        let (h, g) = (ultrawide_columns(area, len, a, min), ultrawide_columns(area, len, b, min));
        shared_deltas_follow(a, b, (0, 1), (2, len), along);
        if i != 0 || axis != along {
            shared_deltas_follow(b, a, (0, 1), (2, len), along);
        }
        assert(s[0] == h[1] && s[1] == h[0] && t[0] == g[1] && t[1] == g[0]);
        if i == 0 {
            a_slice_reaches_further(
                area.left,
                area.right,
                seq![1u32, 2u32, 1u32],
                x,
                y,
                min.width as int,
                1,
            );
        } else if i == 1 {
            a_slice_reaches_further(
                area.left,
                area.right,
                seq![1u32, 2u32, 1u32],
                x,
                y,
                min.width as int,
                0,
            );
        } else {
            assert(x =~= y);
            slices_are_proper(area, along, seq![1u32, 2u32, 1u32], x, min.width as int, 2);
            a_row_reaches_further(h[2], Axis::Vertical, 2, len - 2, a, b, min, i, axis);
            assert(s[i] == in_a_row(h[2], Axis::Vertical, 2, len - 2, a, min)[i - 2]);
            assert(t[i] == in_a_row(g[2], Axis::Vertical, 2, len - 2, b, min)[i - 2]);
        }
    }
}

#[verifier::rlimit(80)]
#[verifier::spinoff_prover]
proof fn a_wide_screen_begins_sooner(
    area: Rect,
    len: int,
    a: Seq<Option<Rect>>,
    b: Seq<Option<Rect>>,
    min: MinSize,
    i: int,
    axis: Axis,
)
    requires
        proper(area),
        0 <= min.width,
        0 <= min.height,
        0 <= i < len,
        pulled_back(a, b, i, axis),
    ensures
        begins_sooner(
            Layout::UltrawideVerticalStack.tiles(area, len, a, min)[i],
            Layout::UltrawideVerticalStack.tiles(area, len, b, min)[i],
            axis,
        ),
{
    let along = Axis::Horizontal;
    let (s, t) = (
        Layout::UltrawideVerticalStack.tiles(area, len, a, min),
        Layout::UltrawideVerticalStack.tiles(area, len, b, min),
    );
    assert(push_ahead(a, 1, along) == push_ahead(b, 1, along));
    assert(far_delta(a, 1, along) == push_ahead(a, 1, along));
    assert(far_delta(b, 1, along) == push_ahead(b, 1, along));
    assert(near_delta(a, 0, along) == push_back(a, 0, along));
    assert(near_delta(b, 0, along) == push_back(b, 0, along));
    if i != 0 || axis != along {
        assert(push_back(a, 0, along) == push_back(b, 0, along));
    }
    if len == 2 {
        let (h, g) = (two_wide(area, a, min), two_wide(area, b, min));
        assert(s[0] == h[1] && s[1] == h[0] && t[0] == g[1] && t[1] == g[0]);
        if i == 0 {
            a_slice_begins_sooner(
                area.left,
                area.right,
                equal_weights(2),
                seq![sat(far_delta(a, 1, along) + near_delta(a, 0, along))],
                seq![sat(far_delta(b, 1, along) + near_delta(b, 0, along))],
                min.width as int,
                1,
            );
        } else {
            assert(h == g);
        }
    } else if len > 2 {
        wide_weights();
        let (x, y) = (wide_deltas(a, len), wide_deltas(b, len));
        let (h, g) = (ultrawide_columns(area, len, a, min), ultrawide_columns(area, len, b, min));
        shared_deltas_follow(b, a, (0, 1), (2, len), along);
        if i < 2 || axis != along {
            shared_deltas_follow(a, b, (0, 1), (2, len), along);
        }
        assert(s[0] == h[1] && s[1] == h[0] && t[0] == g[1] && t[1] == g[0]);
        if i == 0 {
            a_slice_begins_sooner(
                area.left,
                area.right,
                seq![1u32, 2u32, 1u32],
                x,
                y,
                min.width as int,
                1,
            );
        } else if i == 1 {
            assert(x =~= y);
        } else {
            slices_are_proper(area, along, seq![1u32, 2u32, 1u32], x, min.width as int, 2);
            assert(s[i] == in_a_row(h[2], Axis::Vertical, 2, len - 2, a, min)[i - 2]);
            assert(t[i] == in_a_row(g[2], Axis::Vertical, 2, len - 2, b, min)[i - 2]);
            if axis == along {
                a_slice_begins_sooner(
                    area.left,
                    area.right,
                    seq![1u32, 2u32, 1u32],
                    x,
                    y,
                    min.width as int,
                    2,
                );
                rows_of_areas_that_differ_across(
                    h[2],
                    g[2],
                    Axis::Vertical,
                    2,
                    len - 2,
                    a,
                    b,
                    min,
                    i - 2,
                );
            } else {
                assert(x =~= y);
                a_row_begins_sooner(h[2], Axis::Vertical, 2, len - 2, a, b, min, i, axis);
            }
        }
    }
}

proof fn column_of(len: int, columns: int, cell: int, c: int) -> (r: int)
    requires
        1 <= columns <= len,
        0 <= cell < first_cell(len, columns, c),
        0 <= c <= columns,
    ensures
        0 <= r < c,
        first_cell(len, columns, r) <= cell < first_cell(len, columns, r + 1),
    decreases c,
{
    if c == 0 {
        cells_add_up(len, columns, 0);
        0
    } else if first_cell(len, columns, c - 1) <= cell {
        c - 1
    } else {
        column_of(len, columns, cell, c - 1)
    }
}

spec fn grid_deltas(resize: Seq<Option<Rect>>, len: int) -> Seq<i32> {
    let columns = columns_of(len);
    Seq::new(
        (columns - 1) as nat,
        |c: int|
            shared_delta(
                resize,
                (cells_before(len, columns, c), cells_before(len, columns, c + 1)),
                (cells_before(len, columns, c + 1), cells_before(len, columns, c + 2)),
                Axis::Horizontal,
            ),
    )
}

proof fn cells_in_order(len: int, columns: int, c: int, d: int)
    requires
        1 <= columns <= len,
        0 <= c <= d <= columns,
    ensures
        cells_before(len, columns, c) <= cells_before(len, columns, d),
    decreases d - c,
{
    if c < d {
        cells_in_order(len, columns, c, d - 1);
        cells_add_up(len, columns, d - 1);
    }
}

proof fn grid_deltas_elsewhere(
    a: Seq<Option<Rect>>,
    b: Seq<Option<Rect>>,
    len: int,
    i: int,
    c: int,
    k: int,
    axis: Axis,
)
    requires
        1 <= len,
        0 <= c < columns_of(len),
        first_cell(len, columns_of(len), c) <= i < first_cell(len, columns_of(len), c + 1),
        0 <= k < columns_of(len) - 1,
    ensures
        pushed_ahead(a, b, i, axis) && (k != c || axis is Vertical) ==> grid_deltas(a, len)[k]
            == grid_deltas(b, len)[k],
        pushed_ahead(a, b, i, axis) ==> grid_deltas(a, len)[k] <= grid_deltas(b, len)[k],
        pulled_back(a, b, i, axis) && (k != c - 1 || axis is Vertical) ==> grid_deltas(a, len)[k]
            == grid_deltas(b, len)[k],
        pulled_back(a, b, i, axis) ==> grid_deltas(b, len)[k] <= grid_deltas(a, len)[k],
{
    grid_has_columns(len);
    let columns = columns_of(len);
    let (x, y, z) = (
        cells_before(len, columns, k),
        cells_before(len, columns, k + 1),
        cells_before(len, columns, k + 2),
    );
    let along = Axis::Horizontal;
    if k < c {
        cells_in_order(len, columns, k + 1, c);
    } else if k > c {
        cells_in_order(len, columns, c + 1, k);
    }
    if k + 1 < c {
        cells_in_order(len, columns, k + 2, c);
    } else if k + 1 > c {
        cells_in_order(len, columns, c + 1, k + 1);
    }
    if pushed_ahead(a, b, i, axis) {
        shared_deltas_follow(a, b, (x, y), (y, z), along);
        if k != c || axis is Vertical {
            shared_deltas_follow(b, a, (x, y), (y, z), along);
        }
    }
    if pulled_back(a, b, i, axis) {
        shared_deltas_follow(b, a, (x, y), (y, z), along);
        if k != c - 1 || axis is Vertical {
            shared_deltas_follow(a, b, (x, y), (y, z), along);
        }
    }
}

proof fn a_grid_reaches_further(
    area: Rect,
    len: int,
    a: Seq<Option<Rect>>,
    b: Seq<Option<Rect>>,
    min: MinSize,
    i: int,
    axis: Axis,
)
    requires
        proper(area),
        0 <= min.width,
        0 <= min.height,
        0 <= i < len,
        pushed_ahead(a, b, i, axis),
    ensures
        reaches_further(
            Layout::Grid.tiles(area, len, a, min)[i],
            Layout::Grid.tiles(area, len, b, min)[i],
            axis,
        ),
{
    grid_has_columns(len);
    let columns = columns_of(len);
    cells_add_up(len, columns, 0);
    let c = column_of(len, columns, i, columns);
    cells_of_columns(area, len, a, min, columns, c, i);
    cells_of_columns(area, len, b, min, columns, c, i);
    cells_add_up(len, columns, c);
    let first = first_cell(len, columns, c);
    let rows = first_cell(len, columns, c + 1) - first;
    let (x, y) = (grid_deltas(a, len), grid_deltas(b, len));
    assert forall|k: int| 0 <= k < x.len() && (k != c || axis is Vertical) implies #[trigger] x[k]
        == y[k] by {
        grid_deltas_elsewhere(a, b, len, i, c, k, axis);
    }
    if c < columns - 1 {
        grid_deltas_elsewhere(a, b, len, i, c, c, axis);
    }
    equal_weights_add_up(columns as nat, columns);
    let (p, q) = (grid_column_rects(area, len, a, min)[c], grid_column_rects(area, len, b, min)[c]);
    slices_are_proper(
        area,
        Axis::Horizontal,
        equal_weights(columns as nat),
        x,
        min.width as int,
        c,
    );
    if axis is Horizontal {
        a_slice_reaches_further(
            area.left,
            area.right,
            equal_weights(columns as nat),
            x,
            y,
            min.width as int,
            c,
        );
        rows_of_areas_that_differ_across(p, q, Axis::Vertical, first, rows, a, b, min, i - first);
    } else {
        assert(x =~= y);
        a_row_reaches_further(p, Axis::Vertical, first, rows, a, b, min, i, axis);
    }
}

proof fn a_grid_begins_sooner(
    area: Rect,
    len: int,
    a: Seq<Option<Rect>>,
    b: Seq<Option<Rect>>,
    min: MinSize,
    i: int,
    axis: Axis,
)
    requires
        proper(area),
        0 <= min.width,
        0 <= min.height,
        0 <= i < len,
        pulled_back(a, b, i, axis),
    ensures
        begins_sooner(
            Layout::Grid.tiles(area, len, a, min)[i],
            Layout::Grid.tiles(area, len, b, min)[i],
            axis,
        ),
{
    grid_has_columns(len);
    let columns = columns_of(len);
    cells_add_up(len, columns, 0);
    let c = column_of(len, columns, i, columns);
    cells_of_columns(area, len, a, min, columns, c, i);
    cells_of_columns(area, len, b, min, columns, c, i);
    cells_add_up(len, columns, c);
    let first = first_cell(len, columns, c);
    let rows = first_cell(len, columns, c + 1) - first;
    let (x, y) = (grid_deltas(a, len), grid_deltas(b, len));
    assert forall|k: int| 0 <= k < x.len() && (k != c - 1 || axis is Vertical) implies #[trigger] x[k]
        == y[k] by {
        grid_deltas_elsewhere(a, b, len, i, c, k, axis);
    }
    if c > 0 {
        grid_deltas_elsewhere(a, b, len, i, c, c - 1, axis);
    }
    equal_weights_add_up(columns as nat, columns);
    let (p, q) = (grid_column_rects(area, len, a, min)[c], grid_column_rects(area, len, b, min)[c]);
    slices_are_proper(
        area,
        Axis::Horizontal,
        equal_weights(columns as nat),
        x,
        min.width as int,
        c,
    );
    if axis is Horizontal {
        a_slice_begins_sooner(
            area.left,
            area.right,
            equal_weights(columns as nat),
            x,
            y,
            min.width as int,
            c,
        );
        rows_of_areas_that_differ_across(p, q, Axis::Vertical, first, rows, a, b, min, i - first);
    } else {
        assert(x =~= y);
        a_row_begins_sooner(p, Axis::Vertical, first, rows, a, b, min, i, axis);
    }
}

/// In every layout, a container that pushes the boundary at its far edge ahead
/// reaches further there, and no other edge of its tile moves.
pub proof fn pushing_ahead_reaches_further(
    layout: Layout,
    area: Rect,
    len: int,
    a: Seq<Option<Rect>>,
    b: Seq<Option<Rect>>,
    min: MinSize,
    i: int,
    axis: Axis,
)
    requires
        proper(area),
        0 <= min.width,
        0 <= min.height,
        0 <= i < len,
        pushed_ahead(a, b, i, axis),
    ensures
        reaches_further(
            layout.tiles(area, len, a, min)[i],
            layout.tiles(area, len, b, min)[i],
            axis,
        ),
{
    match layout {
        Layout::Bsp => a_partition_reaches_further(area, 0, len, a, b, min, i, axis),
        Layout::Columns => a_row_reaches_further(
            area,
            Axis::Horizontal,
            0,
            len,
            a,
            b,
            min,
            i,
            axis,
        ),
        Layout::Rows => a_row_reaches_further(area, Axis::Vertical, 0, len, a, b, min, i, axis),
        Layout::VerticalStack => a_stack_reaches_further(
            layout,
            Axis::Horizontal,
            area,
            len,
            a,
            b,
            min,
            i,
            axis,
        ),
        Layout::HorizontalStack => a_stack_reaches_further(
            layout,
            Axis::Vertical,
            area,
            len,
            a,
            b,
            min,
            i,
            axis,
        ),
        Layout::UltrawideVerticalStack => a_wide_screen_reaches_further(
            area,
            len,
            a,
            b,
            min,
            i,
            axis,
        ),
        Layout::Grid => a_grid_reaches_further(area, len, a, b, min, i, axis),
    }
}

/// In every layout, a container that pulls the boundary at its near edge back
/// begins sooner there and gets no shorter, and its tile stays the same across.
pub proof fn pulling_back_begins_sooner(
    layout: Layout,
    area: Rect,
    len: int,
    a: Seq<Option<Rect>>,
    b: Seq<Option<Rect>>,
    min: MinSize,
    i: int,
    axis: Axis,
)
    requires
        proper(area),
        0 <= min.width,
        0 <= min.height,
        0 <= i < len,
        pulled_back(a, b, i, axis),
    ensures
        begins_sooner(
            layout.tiles(area, len, a, min)[i],
            layout.tiles(area, len, b, min)[i],
            axis,
        ),
{
    match layout {
        Layout::Bsp => a_partition_begins_sooner(area, 0, len, a, b, min, i, axis),
        Layout::Columns => a_row_begins_sooner(area, Axis::Horizontal, 0, len, a, b, min, i, axis),
        Layout::Rows => a_row_begins_sooner(area, Axis::Vertical, 0, len, a, b, min, i, axis),
        Layout::VerticalStack => a_stack_begins_sooner(
            layout,
            Axis::Horizontal,
            area,
            len,
            a,
            b,
            min,
            i,
            axis,
        ),
        Layout::HorizontalStack => a_stack_begins_sooner(
            layout,
            Axis::Vertical,
            area,
            len,
            a,
            b,
            min,
            i,
            axis,
        ),
        Layout::UltrawideVerticalStack => a_wide_screen_begins_sooner(
            area,
            len,
            a,
            b,
            min,
            i,
            axis,
        ),
        Layout::Grid => a_grid_begins_sooner(area, len, a, b, min, i, axis),
    }
}

} // verus!
