//! The one primitive every layout is built from: divide a range into slices
//! and let resize deltas nudge the boundaries between them.

use vstd::prelude::*;

use crate::geometry::{sat, saturate, Axis, Rect};

verus! {

/// A slice may never shrink below this fraction of its fair share.
pub const MIN_SHARE_DIVISOR: i32 = 5;

/// The smallest a tile is ever allowed to get, in logical pixels.
///
/// Every boundary clamp in this crate keeps this much room on both sides, all
/// the way down a nested layout, so no number of `resize-axis` presses can
/// squeeze a window down to a sliver. An area that is too small to give every
/// tile that much scales the minimum down instead, so the layout still tiles
/// exactly.
///
/// The value is in logical pixels. The daemon multiplies it by the monitor
/// scale factor for a display that is not at 96 DPI, the same way the paddings
/// are scaled.
pub const MIN_TILE_SIZE: i32 = 64;

/// The larger of two numbers.
pub open spec fn larger(a: int, b: int) -> int {
    if a >= b {
        a
    } else {
        b
    }
}

/// `x` moved into `low..=high`.
pub open spec fn clamped(x: int, low: int, high: int) -> int {
    if x < low {
        low
    } else if x > high {
        high
    } else {
        x
    }
}

/// A fifth of one slice's share of a range, and at least one pixel, when the
/// range has more pixels than slices.
pub open spec fn floor_of(extent: int, parts: int) -> int {
    let parts = larger(parts, 1);
    if extent <= parts {
        0
    } else {
        larger(extent / parts / MIN_SHARE_DIVISOR as int, 1)
    }
}

/// The minimum every one of `parts` equal slices keeps: the fair-share floor
/// raised to `min_tile`, or the fair share itself when that does not fit.
pub open spec fn minimum_of(extent: int, parts: int, min_tile: int) -> int {
    let count = larger(parts, 1);
    let min = larger(floor_of(extent, parts), larger(min_tile, 0));
    if min * count > extent {
        if extent >= 0 {
            extent / count
        } else {
            -((-extent) / count)
        }
    } else {
        min
    }
}

/// The fair-share floor: a fifth of one slice's share of the range.
pub fn share_floor(extent: i32, parts: usize) -> (r: i32)
    ensures
        r == floor_of(extent as int, parts as int),
        0 <= r,
        extent > 0 ==> r <= extent,
{
    let parts: i128 = if parts >= 1 { parts as i128 } else { 1 };
    let extent: i128 = extent as i128;
    if extent <= parts {
        0
    } else {
        let share: i128 = extent / parts;
        assert(1 <= share <= extent) by (nonlinear_arith)
            requires
                share == extent as int / parts as int,
                1 <= parts < extent,
        ;
        let floor: i128 = share / (MIN_SHARE_DIVISOR as i128);
        (if floor >= 1 { floor } else { 1 }) as i32
    }
}

/// The minimum every one of `parts` equal slices keeps: the fair-share floor
/// raised to `min_tile`, and scaled back down when that does not fit.
pub fn uniform_minimum(extent: i32, parts: usize, min_tile: i32) -> (r: i32)
    ensures
        r == minimum_of(extent as int, parts as int, min_tile as int),
{
    let count: i128 = if parts >= 1 { parts as i128 } else { 1 };
    let floor = share_floor(extent, parts);
    let wanted: i32 = if min_tile >= 0 { min_tile } else { 0 };
    let min: i32 = if floor >= wanted { floor } else { wanted };
    assert(0 <= min * count <= i32::MAX * u64::MAX) by (nonlinear_arith)
        requires
            0 <= min <= i32::MAX,
            1 <= count <= u64::MAX,
    ;
    let demand: i128 = (min as i128) * count;
    if demand > extent as i128 {
        let wide: i128 = extent as i128;
        let share: i128 = wide / count;
        proof {
            if extent >= 0 {
                assert(0 <= extent as int / count as int <= extent) by (nonlinear_arith)
                    requires
                        0 <= extent,
                        1 <= count,
                ;
            } else {
                assert(0 <= (-extent) / count as int <= -extent) by (nonlinear_arith)
                    requires
                        extent < 0,
                        1 <= count,
                ;
            }
        }
        share as i32
    } else {
        min
    }
}

/// The two minimums of a cut of a range of length `extent`: each raised to the
/// fair-share floor, and both scaled down together when they do not fit.
pub open spec fn cut_minimums(extent: int, min_first: int, min_rest: int) -> (int, int) {
    let floor = floor_of(extent, 2);
    let first = larger(floor, larger(min_first, 0));
    let rest = larger(floor, larger(min_rest, 0));
    if first + rest > extent {
        (first * extent / (first + rest), rest * extent / (first + rest))
    } else {
        (first, rest)
    }
}

/// Where a range is cut in two: the middle moved by `delta`, as far as the two
/// minimums allow. A range with no room in it is cut at its end.
pub open spec fn cut_at(start: int, end: int, delta: int, min_first: int, min_rest: int) -> int {
    let extent = sat(end - start) as int;
    if extent <= 0 {
        end
    } else {
        let (first, rest) = cut_minimums(extent, min_first, min_rest);
        if start + first >= end - rest {
            start + first
        } else {
            clamped(sat(start + extent / 2 + delta) as int, start + first, end - rest)
        }
    }
}

/// The minimums of a cut are not negative and fit the range together.
pub proof fn cut_minimums_fit(extent: int, min_first: int, min_rest: int)
    requires
        extent > 0,
    ensures
        ({
            let (first, rest) = cut_minimums(extent, min_first, min_rest);
            0 <= first && 0 <= rest && first + rest <= extent
        }),
{
    let floor = floor_of(extent, 2);
    let first = larger(floor, larger(min_first, 0));
    let rest = larger(floor, larger(min_rest, 0));
    if first + rest > extent {
        let demand = first + rest;
        assert(0 <= first * extent / demand && 0 <= rest * extent / demand && first * extent
            / demand + rest * extent / demand <= extent) by (nonlinear_arith)
            requires
                0 <= first,
                0 <= rest,
                0 < extent,
                demand == first + rest,
                0 < demand,
        {
            assert(first * extent + rest * extent == demand * extent);
            vstd::arithmetic::div_mod::lemma_fundamental_div_mod(first * extent, demand);
            vstd::arithmetic::div_mod::lemma_fundamental_div_mod(rest * extent, demand);
            let a = first * extent / demand;
            let b = rest * extent / demand;
            assert(demand * (a + b) <= demand * extent);
        }
    }
}

/// A cut of a range that has pixels in it lies inside the range and keeps both
/// minimums, scaled down together when the range is too small for them.
pub proof fn cut_keeps_both_minimums(
    start: int,
    end: int,
    delta: int,
    min_first: int,
    min_rest: int,
)
    requires
        start < end <= start + i32::MAX,
    ensures
        ({
            let at = cut_at(start, end, delta, min_first, min_rest);
            let (first, rest) = cut_minimums(end - start, min_first, min_rest);
            start + first <= at <= end - rest && start <= at <= end
        }),
{
    cut_minimums_fit(end - start, min_first, min_rest);
}

/// The boundary between two slices of `start..end`.
///
/// The natural boundary is the middle, `delta` moves it, and the clamps keep
/// `min_first` pixels on the near side and `min_rest` on the far side. When
/// the two minimums do not both fit they are scaled down together, so a
/// pathologically small range still produces two slices that are not inverted.
///
/// This is the allocation free path the BSP layout runs for every cut.
pub fn split_two(start: i32, end: i32, delta: i32, min_first: i32, min_rest: i32) -> (r: i32)
    ensures
        r == cut_at(start as int, end as int, delta as int, min_first as int, min_rest as int),
{
    let extent = saturate(end as i64 - start as i64);
    if extent <= 0 {
        return end;
    }
    let floor = share_floor(extent, 2);
    let mut first: i64 = (if min_first > floor { min_first } else { floor }) as i64;
    let mut rest: i64 = (if min_rest > floor { min_rest } else { floor }) as i64;
    let demand: i64 = first + rest;
    proof {
        cut_minimums_fit(extent as int, min_first as int, min_rest as int);
    }
    if demand > extent as i64 {
        assert(0 <= first * extent <= i32::MAX * i32::MAX && 0 <= rest * extent <= i32::MAX
            * i32::MAX) by (nonlinear_arith)
            requires
                0 <= first <= i32::MAX,
                0 <= rest <= i32::MAX,
                0 < extent <= i32::MAX,
        ;
        first = first * (extent as i64) / demand;
        rest = rest * (extent as i64) / demand;
    }
    let low: i64 = start as i64 + first;
    let high: i64 = end as i64 - rest;
    if low >= high {
        return low as i32;
    }
    let target = saturate(start as i64 + (extent / 2) as i64 + delta as i64) as i64;
    (if target < low {
        low
    } else if target > high {
        high
    } else {
        target
    }) as i32
}

/// The sum of the first `n` weights.
pub open spec fn weight_sum(weights: Seq<u32>, n: int) -> int
    decreases n,
{
    if n <= 0 {
        0
    } else {
        weight_sum(weights, n - 1) + weights[n - 1]
    }
}

/// The delta of boundary `i`. Missing deltas count as zero.
pub open spec fn delta_at(deltas: Seq<i32>, i: int) -> int {
    if 0 <= i < deltas.len() {
        deltas[i] as int
    } else {
        0
    }
}

/// Boundary `i` of `start..end` divided by `weights`, before any delta.
pub open spec fn natural_bound(start: int, end: int, weights: Seq<u32>, i: int) -> int {
    start + sat(end - start) * weight_sum(weights, i) / weight_sum(weights, weights.len() as int)
}

/// Boundary `i` of `start..end` divided by `weights`: the natural boundary
/// moved by its delta, as far as `min` pixels for the slice before it and `min`
/// for each slice after it allow.
pub open spec fn bound(
    start: int,
    end: int,
    weights: Seq<u32>,
    deltas: Seq<i32>,
    min: int,
    i: int,
) -> int
    decreases i,
{
    if i <= 0 {
        start
    } else if i >= weights.len() {
        end
    } else {
        let low = bound(start, end, weights, deltas, min, i - 1) + min;
        let high = end - min * (weights.len() - i);
        let target = sat(natural_bound(start, end, weights, i) + delta_at(deltas, i - 1)) as int;
        if low >= high {
            low
        } else {
            clamped(target, low, high)
        }
    }
}

/// `true` when there is something to divide, and something to divide it by.
pub open spec fn divisible(start: int, end: int, weights: Seq<u32>) -> bool {
    start < end && weight_sum(weights, weights.len() as int) > 0
}

/// The slices of `start..end` with the given relative `weights`, each boundary
/// moved by its delta.
pub open spec fn slices(
    start: i32,
    end: i32,
    weights: Seq<u32>,
    deltas: Seq<i32>,
    min_tile: int,
) -> Seq<(i32, i32)> {
    let parts = weights.len();
    let min = minimum_of(sat(end - start) as int, parts as int, min_tile);
    Seq::new(
        parts,
        |i: int|
            if parts == 1 || !divisible(start as int, end as int, weights) {
                (start, end)
            } else {
                (
                    bound(start as int, end as int, weights, deltas, min, i) as i32,
                    bound(start as int, end as int, weights, deltas, min, i + 1) as i32,
                )
            },
    )
}

/// `n` equal weights.
pub open spec fn equal_weights(n: nat) -> Seq<u32> {
    Seq::new(n, |i: int| 1u32)
}

/// The minimum fits every slice of the range.
pub proof fn minimum_fits(extent: int, parts: int, min_tile: int)
    requires
        0 <= extent,
        1 <= parts,
    ensures
        0 <= minimum_of(extent, parts, min_tile),
        minimum_of(extent, parts, min_tile) * parts <= extent,
        larger(min_tile, 0) * parts <= extent ==> minimum_of(extent, parts, min_tile) >= min_tile,
{
    let wanted = larger(min_tile, 0);
    let floor = floor_of(extent, parts);
    if extent > parts {
        let share = extent / parts;
        assert(share * parts <= extent && share >= 1) by (nonlinear_arith)
            requires
                share == extent / parts,
                1 <= parts < extent,
        ;
        assert(floor <= share);
        assert(floor * parts <= share * parts) by (nonlinear_arith)
            requires
                floor <= share,
                1 <= parts,
        ;
    }
    assert(extent / parts * parts <= extent && 0 <= extent / parts) by (nonlinear_arith)
        requires
            0 <= extent,
            1 <= parts,
    ;
}

/// A sum of weights only grows.
pub proof fn weight_sum_grows(weights: Seq<u32>, a: int, b: int)
    requires
        0 <= a <= b <= weights.len(),
    ensures
        0 <= weight_sum(weights, a) <= weight_sum(weights, b),
        weight_sum(weights, b) <= b * u32::MAX,
    decreases b,
{
    if b > 0 {
        if a < b {
            weight_sum_grows(weights, a, b - 1);
        } else {
            weight_sum_grows(weights, a - 1, b - 1);
        }
    }
}

/// Every slice of a divisible range keeps the minimum, and the boundaries stay
/// inside the range.
pub proof fn bounds_keep_the_minimum(
    start: int,
    end: int,
    weights: Seq<u32>,
    deltas: Seq<i32>,
    min: int,
    i: int,
)
    requires
        0 <= min,
        min * weights.len() <= end - start,
        0 <= i < weights.len(),
    ensures
        bound(start, end, weights, deltas, min, i) + min <= bound(
            start,
            end,
            weights,
            deltas,
            min,
            i + 1,
        ),
        start <= bound(start, end, weights, deltas, min, i) <= end - min * (weights.len() - i),
    decreases i,
{
    let n = weights.len() as int;
    if i > 0 {
        bounds_keep_the_minimum(start, end, weights, deltas, min, i - 1);
    }
    let here = bound(start, end, weights, deltas, min, i);
    assert(min * (n - i) == min + min * (n - i - 1)) by (nonlinear_arith);
    assert(min * (n - (i - 1)) == min + min * (n - i)) by (nonlinear_arith);
    assert(min * (n - i - 1) >= 0) by (nonlinear_arith)
        requires
            0 <= min,
            i < n,
    ;
    if i == 0 {
        assert(min * (n - 0) == min * n);
    }
    assert(here <= end - min * (n - i));
    assert(here + min <= end - min * (n - i - 1));
}

/// Divides `start..end` into slices with the given relative `weights`, then
/// moves internal boundary `i` by `deltas[i]` pixels.
///
/// Boundaries are clamped so every slice keeps at least a fifth of its fair
/// share and at least `min_tile` pixels, and so the slices always tile the
/// range exactly with no gap and no overlap. Missing deltas count as zero.
pub fn divide_weighted(
    start: i32,
    end: i32,
    weights: &[u32],
    deltas: &[i32],
    min_tile: i32,
) -> (r: Vec<(i32, i32)>)
    ensures
        r@ == slices(start, end, weights@, deltas@, min_tile as int),
{
    let parts = weights.len();
    if parts == 0 {
        let none: Vec<(i32, i32)> = Vec::new();
        assert(none@ =~= slices(start, end, weights@, deltas@, min_tile as int));
        return none;
    }
    if parts == 1 {
        let one = vec![(start, end)];
        assert(one@ =~= slices(start, end, weights@, deltas@, min_tile as int));
        return one;
    }
    let extent = saturate(end as i64 - start as i64);
    let mut total: i128 = 0;
    for i in 0..weights.len()
        invariant
            total == weight_sum(weights@, i as int),
            0 <= total <= i * u32::MAX,
    {
        total = total + weights[i] as i128;
    }
    if extent <= 0 || total <= 0 {
        let mut whole: Vec<(i32, i32)> = Vec::new();
        for i in 0..parts
            invariant
                whole@ == Seq::new(i as nat, |j: int| (start, end)),
        {
            whole.push((start, end));
            assert(whole@ =~= Seq::new((i + 1) as nat, |j: int| (start, end)));
        }
        assert(whole@ =~= slices(start, end, weights@, deltas@, min_tile as int));
        return whole;
    }
    // The floor keeps the clamp satisfiable even on a pathologically small area.

    let min = uniform_minimum(extent, parts, min_tile);
    let mut out: Vec<(i32, i32)> = Vec::new();
    let mut near: i32 = start;
    let mut running: i128 = 0;
    proof {
        minimum_fits(extent as int, parts as int, min_tile as int);
    }
    for i in 0..parts - 1
        invariant
            parts == weights@.len(),
            parts >= 2,
            extent == sat(end - start),
            extent > 0,
            total == weight_sum(weights@, parts as int),
            0 < total,
            min == minimum_of(extent as int, parts as int, min_tile as int),
            0 <= min,
            min * parts <= extent,
            divisible(start as int, end as int, weights@),
            running == weight_sum(weights@, i as int),
            near == bound(start as int, end as int, weights@, deltas@, min as int, i as int),
            out@ == slices(start, end, weights@, deltas@, min_tile as int).take(i as int),
    {
        let ghost w = weights@;
        let ghost k = i + 1;
        proof {
            weight_sum_grows(w, k, parts as int);
            weight_sum_grows(w, i as int, k);
            bounds_keep_the_minimum(start as int, end as int, w, deltas@, min as int, i as int);
            assert(min * parts <= end - start);
        }
        running = running + weights[i] as i128;
        assert(0 <= extent * running <= i32::MAX * (u64::MAX * u32::MAX)) by (nonlinear_arith)
            requires
                0 <= extent <= i32::MAX,
                0 <= running <= u64::MAX * u32::MAX,
        ;
        let scaled: i128 = (extent as i128) * running / total;
        assert(0 <= extent * running / total as int <= extent) by (nonlinear_arith)
            requires
                0 <= extent,
                0 <= running <= total,
                0 < total,
        ;
        let natural: i64 = start as i64 + scaled as i64;
        let delta: i64 = if i < deltas.len() {
            deltas[i] as i64
        } else {
            0
        };
        let target = saturate(natural + delta);
        let later: i128 = (parts - 1 - i) as i128;
        assert(0 <= min * later && min * (later + 1) <= min * parts) by (nonlinear_arith)
            requires
                0 <= min,
                0 <= later,
                later + 1 <= parts,
        ;
        assert(min * (later + 1) == min * later + min) by (nonlinear_arith);
        assert(later == parts - k);
        let low: i64 = near as i64 + min as i64;
        let high: i64 = end as i64 - ((min as i128) * later) as i64;
        let far: i64 = if low >= high {
            low
        } else if (target as i64) < low {
            low
        } else if target as i64 > high {
            high
        } else {
            target as i64
        };
        let ghost s = slices(start, end, weights@, deltas@, min_tile as int);
        assert(far == bound(start as int, end as int, w, deltas@, min as int, k));
        assert(far <= end);
        out.push((near, far as i32));
        assert(s.take(i as int).push(s[i as int]) =~= s.take(k));
        near = far as i32;
    }
    out.push((near, end));
    assert(out@ =~= slices(start, end, weights@, deltas@, min_tile as int));
    out
}

/// Divides `start..end` into `parts` equal slices, nudged by `deltas`.
pub fn divide(start: i32, end: i32, parts: usize, deltas: &[i32], min_tile: i32) -> (r: Vec<
    (i32, i32),
>)
    ensures
        r@ == slices(start, end, equal_weights(parts as nat), deltas@, min_tile as int),
{
    let weights: Vec<u32> = vec![1u32; parts];
    assert(weights@ =~= equal_weights(parts as nat));
    divide_weighted(start, end, weights.as_slice(), deltas, min_tile)
}

/// One slice of `area` along `axis`, as a rectangle.
#[verifier::allow_in_spec]
pub fn rect_from_slice(area: Rect, axis: Axis, from: i32, to: i32) -> Rect
    returns
        (match axis {
            Axis::Horizontal => Rect { left: from, right: to, ..area },
            Axis::Vertical => Rect { top: from, bottom: to, ..area },
        }),
{
    match axis {
        Axis::Horizontal => Rect { left: from, top: area.top, right: to, bottom: area.bottom },
        Axis::Vertical => Rect { left: area.left, top: from, right: area.right, bottom: to },
    }
}

/// The slices of one axis as rectangles inside `area`.
pub open spec fn rects_of(area: Rect, axis: Axis, slices: Seq<(i32, i32)>) -> Seq<Rect> {
    slices.map_values(|s: (i32, i32)| rect_from_slice(area, axis, s.0, s.1))
}

/// Turns the slices of one axis into rectangles inside `area`.
pub fn slices_to_rects(area: Rect, axis: Axis, slices: &[(i32, i32)]) -> (r: Vec<Rect>)
    ensures
        r@ == rects_of(area, axis, slices@),
{
    let mut out: Vec<Rect> = Vec::new();
    extend_with_rects(&mut out, area, axis, slices);
    assert(out@ =~= rects_of(area, axis, slices@));
    out
}

/// Appends the slices of one axis to `out` as rectangles inside `area`.
///
/// The same as [`slices_to_rects`] with no vector in between: a layout builds
/// one output vector and every division writes straight into it.
pub fn extend_with_rects(out: &mut Vec<Rect>, area: Rect, axis: Axis, slices: &[(i32, i32)])
    ensures
        final(out)@ == old(out)@ + rects_of(area, axis, slices@),
{
    for i in 0..slices.len()
        invariant
            out@ == old(out)@ + rects_of(area, axis, slices@).take(i as int),
    {
        let (from, to) = slices[i];
        let ghost all = rects_of(area, axis, slices@);
        out.push(rect_from_slice(area, axis, from, to));
        assert(all.take(i as int).push(all[i as int]) =~= all.take(i + 1));
        assert(out@ =~= old(out)@ + all.take(i + 1));
    }
    assert(rects_of(area, axis, slices@).take(slices@.len() as int) =~= rects_of(
        area,
        axis,
        slices@,
    ));
}

/// The far-edge delta of container `i` along `axis`, zero when it has none.
pub open spec fn far_delta(resize: Seq<Option<Rect>>, i: int, axis: Axis) -> int {
    if 0 <= i < resize.len() && resize[i] is Some {
        resize[i]->0.end(axis) as int
    } else {
        0
    }
}

/// The near-edge delta of container `i` along `axis`, zero when it has none.
pub open spec fn near_delta(resize: Seq<Option<Rect>>, i: int, axis: Axis) -> int {
    if 0 <= i < resize.len() && resize[i] is Some {
        resize[i]->0.start(axis) as int
    } else {
        0
    }
}

/// The sum of the far-edge deltas of the containers `from..to`, saturating at
/// every step.
pub open spec fn far_sum(resize: Seq<Option<Rect>>, from: int, to: int, axis: Axis) -> i32
    decreases to - from,
{
    if to <= from {
        0
    } else {
        sat(far_sum(resize, from, to - 1, axis) + far_delta(resize, to - 1, axis))
    }
}

/// `base` plus the near-edge deltas of the containers `from..to`, saturating at
/// every step.
pub open spec fn near_sum(
    base: i32,
    resize: Seq<Option<Rect>>,
    from: int,
    to: int,
    axis: Axis,
) -> i32
    decreases to - from,
{
    if to <= from {
        base
    } else {
        sat(near_sum(base, resize, from, to - 1, axis) + near_delta(resize, to - 1, axis))
    }
}

fn far_delta_at(resize: &[Option<Rect>], i: usize, axis: Axis) -> (r: i32)
    ensures
        r == far_delta(resize@, i as int, axis),
{
    if i < resize.len() {
        match resize[i] {
            Some(delta) => delta.end(axis),
            None => 0,
        }
    } else {
        0
    }
}

fn near_delta_at(resize: &[Option<Rect>], i: usize, axis: Axis) -> (r: i32)
    ensures
        r == near_delta(resize@, i as int, axis),
{
    if i < resize.len() {
        match resize[i] {
            Some(delta) => delta.start(axis),
            None => 0,
        }
    } else {
        0
    }
}

/// The resize delta that moves the boundary between container `first` and
/// container `second` along `axis`.
///
/// A container's far-edge delta and its neighbour's near-edge delta both push
/// the same boundary, so they add up. Commands only ever write one of the two.
pub fn boundary_delta(
    resize_dimensions: &[Option<Rect>],
    first: usize,
    second: usize,
    axis: Axis,
) -> (r: i32)
    ensures
        r == sat(
            far_delta(resize_dimensions@, first as int, axis) + near_delta(
                resize_dimensions@,
                second as int,
                axis,
            ),
        ),
{
    saturate(
        far_delta_at(resize_dimensions, first, axis) as i64 + near_delta_at(
            resize_dimensions,
            second,
            axis,
        ) as i64,
    )
}

/// The delta a boundary gets from every container on either side of it.
pub open spec fn shared_delta(
    resize: Seq<Option<Rect>>,
    before: (int, int),
    after: (int, int),
    axis: Axis,
) -> i32 {
    near_sum(far_sum(resize, before.0, before.1, axis), resize, after.0, after.1, axis)
}

/// The resize delta that moves a boundary more than two containers sit on,
/// such as the cut between the main container and a whole stack.
///
/// The containers in `before` face the boundary with their far edge and the
/// ones in `after` with their near edge, and every one of them gets a push at
/// it. The pushes add up the same way the two facing edges of a boundary
/// between two containers already do.
///
/// Summing is what makes a keypress from any window on the boundary count.
/// Reading one representative pair drops the delta of every other window on it
/// on the floor, and picking the largest or the average would make one
/// window's press undo another's. A sum also keeps a single window's presses
/// exactly reversible: unwinding its own stored delta takes away exactly what
/// it contributed, whatever the other windows have stored.
pub fn shared_boundary_delta(
    resize_dimensions: &[Option<Rect>],
    before: std::ops::Range<usize>,
    after: std::ops::Range<usize>,
    axis: Axis,
) -> (r: i32)
    ensures
        r == shared_delta(
            resize_dimensions@,
            (before.start as int, before.end as int),
            (after.start as int, after.end as int),
            axis,
        ),
{
    let mut sum: i32 = 0;
    let (from, to) = (before.start, before.end);
    let mut i: usize = from;
    while i < to
        invariant
            from <= i,
            from <= to ==> i <= to,
            from > to ==> i == from,
            sum == far_sum(resize_dimensions@, from as int, i as int, axis),
        decreases to - i,
    {
        sum = saturate(sum as i64 + far_delta_at(resize_dimensions, i, axis) as i64);
        i = i + 1;
    }
    let ghost base = sum;
    proof {
        assert(base == far_sum(resize_dimensions@, before.start as int, before.end as int, axis));
    }
    let (from, to) = (after.start, after.end);
    let mut i: usize = from;
    while i < to
        invariant
            from <= i,
            from <= to ==> i <= to,
            from > to ==> i == from,
            sum == near_sum(base, resize_dimensions@, from as int, i as int, axis),
        decreases to - i,
    {
        sum = saturate(sum as i64 + near_delta_at(resize_dimensions, i, axis) as i64);
        i = i + 1;
    }
    sum
}

/// The deltas for the `count - 1` boundaries between the containers
/// `first..first + count`.
pub open spec fn deltas_of(
    resize: Seq<Option<Rect>>,
    first: int,
    count: int,
    axis: Axis,
) -> Seq<i32> {
    Seq::new(
        (if count >= 1 { count - 1 } else { 0 }) as nat,
        |i: int|
            sat(far_delta(resize, first + i, axis) + near_delta(resize, first + i + 1, axis)),
    )
}

/// The deltas for the `count - 1` boundaries between containers
/// `first..first + count`.
pub fn boundary_deltas(
    resize_dimensions: &[Option<Rect>],
    first: usize,
    count: usize,
    axis: Axis,
) -> (r: Vec<i32>)
    requires
        count >= 2 ==> first + count - 1 <= usize::MAX,
    ensures
        r@ == deltas_of(resize_dimensions@, first as int, count as int, axis),
{
    let mut out: Vec<i32> = Vec::new();
    if count >= 2 {
        for i in 0..count - 1
            invariant
                count >= 2,
                first + count - 1 <= usize::MAX,
                out@ == deltas_of(resize_dimensions@, first as int, count as int, axis).take(
                    i as int,
                ),
        {
            let ghost all = deltas_of(resize_dimensions@, first as int, count as int, axis);
            out.push(boundary_delta(resize_dimensions, first + i, first + i + 1, axis));
            assert(all.take(i as int).push(all[i as int]) =~= all.take(i + 1));
        }
    }
    assert(out@ =~= deltas_of(resize_dimensions@, first as int, count as int, axis));
    out
}

} // verus!
