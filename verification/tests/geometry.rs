//! Rectangles, axes and directions.

use std::str::FromStr;

use mochi::geometry::{nearest_in_direction, Axis, Direction, Offset, Rect};

#[test]
fn padded_shrinks_every_side() {
    let r = Rect::new(0, 0, 100, 50).padded(10);
    assert_eq!(r, Rect::new(10, 10, 90, 40));
    assert_eq!(r.width(), 80);
    assert_eq!(r.height(), 30);
}

#[test]
fn padded_clamped_never_inverts() {
    let r = Rect::new(0, 0, 10, 4).padded_clamped(50);
    assert!(!r.is_empty() || r.width() == 0);
    assert!(r.width() >= 0 && r.height() >= 0);
    assert_eq!(
        Rect::new(0, 0, 100, 100).padded_clamped(0),
        Rect::new(0, 0, 100, 100)
    );
}

#[test]
fn contains_is_half_open() {
    let r = Rect::new(0, 0, 10, 10);
    assert!(r.contains(0, 0));
    assert!(!r.contains(10, 10));
}

#[test]
fn from_size_round_trips() {
    let r = Rect::from_size(10, 20, 30, 40);
    assert_eq!(r, Rect::new(10, 20, 40, 60));
    assert_eq!((r.width(), r.height()), (30, 40));
}

#[test]
fn area_is_zero_for_inverted() {
    assert_eq!(Rect::new(0, 0, 10, 10).area(), 100);
    assert_eq!(Rect::new(10, 10, 0, 0).area(), 0);
    assert_eq!(Rect::new(0, 0, 3840, 2160).area(), 8_294_400);
}

#[test]
fn centre_is_the_middle() {
    let r = Rect::new(0, 0, 100, 50);
    assert_eq!(r.center(), (50, 25));
    assert_eq!(r.center_on(Axis::Horizontal), 50);
    assert_eq!(r.center_on(Axis::Vertical), 25);
}

#[test]
fn intersection_and_union() {
    let a = Rect::new(0, 0, 100, 100);
    let b = Rect::new(50, 50, 150, 150);
    assert_eq!(a.intersection(&b), Some(Rect::new(50, 50, 100, 100)));
    assert_eq!(a.union(&b), Rect::new(0, 0, 150, 150));

    let c = Rect::new(200, 200, 300, 300);
    assert_eq!(a.intersection(&c), None);
    assert!(!a.intersects(&c));
}

#[test]
fn touching_rects_do_not_intersect() {
    let a = Rect::new(0, 0, 100, 100);
    let b = Rect::new(100, 0, 200, 100);
    assert!(!a.intersects(&b));
    assert_eq!(a.intersection(&b), None);
}

#[test]
fn contains_rect_is_inclusive() {
    let outer = Rect::new(0, 0, 100, 100);
    assert!(outer.contains_rect(&outer));
    assert!(outer.contains_rect(&Rect::new(10, 10, 90, 90)));
    assert!(!outer.contains_rect(&Rect::new(10, 10, 110, 90)));
}

#[test]
fn splits_cover_the_whole_rect() {
    let r = Rect::new(0, 0, 100, 60);
    let (a, b) = r.split_at_x(30);
    assert_eq!(a, Rect::new(0, 0, 30, 60));
    assert_eq!(b, Rect::new(30, 0, 100, 60));
    assert_eq!(a.area() + b.area(), r.area());

    let (t, d) = r.split_at_y(20);
    assert_eq!(t, Rect::new(0, 0, 100, 20));
    assert_eq!(d, Rect::new(0, 20, 100, 60));
    assert_eq!(t.area() + d.area(), r.area());
}

#[test]
fn halve_splits_down_the_middle() {
    let r = Rect::new(0, 0, 100, 60);
    assert_eq!(r.halve(Axis::Horizontal).0, Rect::new(0, 0, 50, 60));
    assert_eq!(r.halve(Axis::Vertical).1, Rect::new(0, 30, 100, 60));
}

#[test]
fn mirroring_is_an_involution() {
    let area = Rect::new(0, 0, 100, 100);
    let r = Rect::new(0, 0, 40, 100);
    let flipped = r.mirrored(&area, Axis::Horizontal);
    assert_eq!(flipped, Rect::new(60, 0, 100, 100));
    assert_eq!(flipped.mirrored(&area, Axis::Horizontal), r);

    let v = r.mirrored(&area, Axis::Vertical);
    assert_eq!(v.mirrored(&area, Axis::Vertical), r);
}

#[test]
fn direction_helpers() {
    assert_eq!(Direction::Left.opposite(), Direction::Right);
    assert_eq!(Direction::Up.axis(), Axis::Vertical);
    assert!(Direction::Down.is_forward());
    assert!(!Direction::Up.is_forward());
    assert_eq!(Axis::Horizontal.other(), Axis::Vertical);
}

#[test]
fn distance_in_direction_reports_the_gap() {
    let a = Rect::new(0, 0, 100, 100);
    let b = Rect::new(120, 0, 220, 100);
    assert_eq!(a.distance_in_direction(&b, Direction::Right), Some(20));
    assert_eq!(b.distance_in_direction(&a, Direction::Left), Some(20));
    assert_eq!(a.distance_in_direction(&b, Direction::Left), None);
    assert_eq!(a.distance_in_direction(&b, Direction::Up), None);
}

#[test]
fn touching_rects_have_a_zero_gap() {
    let a = Rect::new(0, 0, 100, 100);
    let b = Rect::new(100, 0, 200, 100);
    assert_eq!(a.distance_in_direction(&b, Direction::Right), Some(0));
}

#[test]
fn an_overlapping_rect_is_in_no_direction_at_all() {
    let a = Rect::new(0, 0, 100, 100);
    let b = Rect::new(50, 0, 150, 100);
    for direction in Direction::ALL {
        assert_eq!(a.distance_in_direction(&b, direction), None, "{direction:?}");
    }
}

#[test]
fn nearest_in_direction_prefers_the_aligned_neighbour() {
    // A BSP-like arrangement: one tall window on the left, two stacked right.
    let rects = [
        Rect::new(0, 0, 500, 1000),
        Rect::new(500, 0, 1000, 500),
        Rect::new(500, 500, 1000, 1000),
    ];
    assert_eq!(
        nearest_in_direction(&rects, 1, Direction::Left),
        Some(0),
        "left of the top-right window is the tall one"
    );
    assert_eq!(nearest_in_direction(&rects, 1, Direction::Down), Some(2));
    assert_eq!(nearest_in_direction(&rects, 2, Direction::Up), Some(1));
    assert_eq!(nearest_in_direction(&rects, 0, Direction::Left), None);
    assert_eq!(nearest_in_direction(&rects, 1, Direction::Right), None);
}

#[test]
fn nearest_in_direction_skips_misaligned_candidates() {
    let rects = [
        Rect::new(0, 0, 100, 100),
        // directly to the right
        Rect::new(100, 0, 200, 100),
        // further right and far below: same gap class, worse alignment
        Rect::new(100, 900, 200, 1000),
    ];
    assert_eq!(nearest_in_direction(&rects, 0, Direction::Right), Some(1));
}

#[test]
fn nearest_in_direction_handles_an_out_of_range_origin() {
    assert_eq!(nearest_in_direction(&[], 0, Direction::Left), None);
}

#[test]
fn offset_shrinks_the_work_area() {
    let area = Rect::new(0, 0, 1920, 1080);
    let offset = Offset::new(0, 40, 0, 40);
    assert_eq!(offset.apply(area), Rect::new(0, 40, 1920, 1040));
    assert_eq!(Offset::default().apply(area), area);
}

#[test]
fn axis_and_direction_parse_from_cli_words() {
    assert_eq!(Axis::from_str("horizontal"), Ok(Axis::Horizontal));
    assert_eq!(Axis::from_str("VERTICAL"), Ok(Axis::Vertical));
    assert!(Axis::from_str("diagonal").is_err());
    assert_eq!(Direction::from_str("left"), Ok(Direction::Left));
    assert_eq!(Direction::from_str("j"), Ok(Direction::Down));
    assert!(Direction::from_str("sideways").is_err());
    assert_eq!(Direction::Left.to_string(), "left");
    assert_eq!(Axis::Vertical.to_string(), "vertical");
}
