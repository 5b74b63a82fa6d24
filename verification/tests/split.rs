//! One dimensional division of a range.

use mochi::geometry::{Axis, Rect};
use mochi::layout::split::{
    boundary_delta, boundary_deltas, divide, divide_weighted, rect_from_slice, slices_to_rects,
    split_two, uniform_minimum, MIN_TILE_SIZE,
};

/// Asking for no minimum tile size leaves only the fair-share floor.
const NO_MIN: i32 = 0;

fn widths(slices: &[(i32, i32)]) -> Vec<i32> {
    slices.iter().map(|(a, b)| b - a).collect()
}

fn divided(start: i32, end: i32, parts: usize, deltas: &[i32]) -> Vec<(i32, i32)> {
    divide(start, end, parts, deltas, MIN_TILE_SIZE)
}

#[test]
fn dividing_into_one_returns_the_whole_range() {
    assert_eq!(divided(0, 100, 1, &[]), vec![(0, 100)]);
    assert_eq!(divided(0, 100, 0, &[]), vec![]);
}

#[test]
fn equal_division_tiles_the_range_exactly() {
    for parts in 1..=9_usize {
        let slices = divided(0, 1000, parts, &[]);
        assert_eq!(slices.len(), parts);
        assert_eq!(slices[0].0, 0);
        assert_eq!(slices[parts - 1].1, 1000);
        for pair in slices.windows(2) {
            assert_eq!(pair[0].1, pair[1].0, "no gap and no overlap");
        }
        let total: i32 = widths(&slices).iter().sum();
        assert_eq!(total, 1000);
    }
}

#[test]
fn deltas_move_the_boundary() {
    let slices = divided(0, 1000, 2, &[100]);
    assert_eq!(slices, vec![(0, 600), (600, 1000)]);

    let slices = divided(0, 1000, 2, &[-100]);
    assert_eq!(slices, vec![(0, 400), (400, 1000)]);
}

#[test]
fn deltas_are_clamped_to_a_fifth_of_the_fair_share() {
    // Two parts of 500 each, minimum 100.
    let slices = divided(0, 1000, 2, &[10_000]);
    assert_eq!(slices, vec![(0, 900), (900, 1000)]);

    let slices = divided(0, 1000, 2, &[-10_000]);
    assert_eq!(slices, vec![(0, 100), (100, 1000)]);
}

#[test]
fn a_huge_delta_still_leaves_room_for_every_later_slice() {
    let slices = divided(0, 1000, 4, &[100_000, 0, 0]);
    assert_eq!(slices.len(), 4);
    assert_eq!(slices[3].1, 1000);
    for (a, b) in &slices {
        assert!(b >= a, "no inverted slice: {a}..{b}");
    }
    for pair in slices.windows(2) {
        assert_eq!(pair[0].1, pair[1].0);
    }
}

#[test]
fn a_tiny_range_never_panics() {
    for extent in 0..12 {
        for parts in 1..=6 {
            let slices = divided(0, extent, parts, &[1000, -1000, 5]);
            assert_eq!(slices.len(), parts);
            assert_eq!(slices[0].0, 0);
            assert_eq!(slices[parts - 1].1, extent.max(0));
        }
    }
}

#[test]
fn saturating_deltas_do_not_overflow() {
    let slices = divided(0, 1000, 2, &[i32::MAX]);
    assert_eq!(slices[1].1, 1000);
    let slices = divided(0, 1000, 2, &[i32::MIN]);
    assert_eq!(slices[0].0, 0);
}

#[test]
fn weighted_division_respects_the_weights() {
    let slices = divide_weighted(0, 1000, &[1, 2, 1], &[], MIN_TILE_SIZE);
    assert_eq!(widths(&slices), vec![250, 500, 250]);
    assert_eq!(slices[2].1, 1000);
}

#[test]
fn no_slice_is_squeezed_below_the_minimum_tile_size() {
    // Twelve slices of a 1080 pixel range: the fair share is 90, so the
    // fifth-of-the-share floor on its own would allow 18 pixel slices.
    for delta in [i32::MAX, 100_000, 1_000, -1_000, -100_000, i32::MIN] {
        let deltas = vec![delta; 11];
        let slices = divided(0, 1080, 12, &deltas);
        for (i, width) in widths(&slices).iter().enumerate() {
            assert!(
                *width >= MIN_TILE_SIZE,
                "slice {i} is {width} px wide with delta {delta}"
            );
        }
    }
}

#[test]
fn a_range_too_small_for_the_minimum_shares_it_out_evenly() {
    // Eight slices of 200 pixels cannot all be 64 wide, so the minimum
    // drops to the fair share and the range still tiles exactly.
    let slices = divided(0, 200, 8, &[10_000, 0, 0, 0, 0, 0, 0]);
    assert_eq!(slices[0].0, 0);
    assert_eq!(slices[7].1, 200);
    for (i, width) in widths(&slices).iter().enumerate() {
        assert!(*width >= 25, "slice {i} is {width} px wide");
    }
}

#[test]
fn the_fair_share_floor_still_applies_without_a_minimum_tile_size() {
    assert_eq!(
        divide(0, 1000, 2, &[10_000], NO_MIN),
        vec![(0, 900), (900, 1000)]
    );
    assert_eq!(uniform_minimum(1000, 2, NO_MIN), 100);
    assert_eq!(uniform_minimum(1000, 12, NO_MIN), 16);
    assert_eq!(uniform_minimum(1000, 12, MIN_TILE_SIZE), 64);
    assert_eq!(uniform_minimum(200, 8, MIN_TILE_SIZE), 25);
    assert_eq!(uniform_minimum(4, 8, MIN_TILE_SIZE), 0);
}

#[test]
fn two_slices_keep_their_own_minimums() {
    // The far side of a BSP cut needs room for three more tiles.
    let three = 3 * MIN_TILE_SIZE;
    assert_eq!(split_two(0, 1000, 100_000, MIN_TILE_SIZE, three), 808);
    assert_eq!(split_two(0, 1000, -100_000, MIN_TILE_SIZE, three), 100);
    assert_eq!(split_two(0, 1000, 0, MIN_TILE_SIZE, MIN_TILE_SIZE), 500);
    // Nothing fits: the two minimums shrink together.
    assert_eq!(split_two(0, 100, 100_000, MIN_TILE_SIZE, three), 25);
    // A degenerate range never inverts.
    assert_eq!(split_two(10, 10, 500, MIN_TILE_SIZE, MIN_TILE_SIZE), 10);
    assert_eq!(split_two(10, 5, 500, MIN_TILE_SIZE, MIN_TILE_SIZE), 5);
}

#[test]
fn slices_become_rects_along_the_right_axis() {
    let area = Rect::new(0, 0, 100, 50);
    let cols = slices_to_rects(area, Axis::Horizontal, &[(0, 40), (40, 100)]);
    assert_eq!(
        cols,
        vec![Rect::new(0, 0, 40, 50), Rect::new(40, 0, 100, 50)]
    );
    let rows = slices_to_rects(area, Axis::Vertical, &[(0, 20), (20, 50)]);
    assert_eq!(
        rows,
        vec![Rect::new(0, 0, 100, 20), Rect::new(0, 20, 100, 50)]
    );
    assert_eq!(
        rect_from_slice(area, Axis::Horizontal, 0, 40),
        Rect::new(0, 0, 40, 50)
    );
}

#[test]
fn boundary_deltas_add_the_two_facing_edges() {
    let resize = vec![
        Some(Rect::new(0, 0, 40, 0)),
        Some(Rect::new(10, 0, 0, 0)),
        None,
    ];
    assert_eq!(boundary_delta(&resize, 0, 1, Axis::Horizontal), 50);
    assert_eq!(boundary_delta(&resize, 1, 2, Axis::Horizontal), 0);
    assert_eq!(boundary_delta(&resize, 9, 10, Axis::Horizontal), 0);
    assert_eq!(
        boundary_deltas(&resize, 0, 3, Axis::Horizontal),
        vec![50, 0]
    );
    assert_eq!(
        boundary_deltas(&resize, 0, 1, Axis::Horizontal),
        Vec::<i32>::new()
    );
    assert_eq!(
        boundary_deltas(&[], 0, 0, Axis::Vertical),
        Vec::<i32>::new()
    );
}
