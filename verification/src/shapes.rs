//! What the operations on rectangles and directions come to.

use vstd::prelude::*;

use crate::geometry::{Axis, Direction, Offset, Rect};
use crate::layout::{Flip, MinSize, Sizing};
use crate::model::areas::is_coordinate;
use crate::model::scale::{scaled, Scale};
use crate::model::window::WindowView;
use crate::rules::ApplicationIdentifier;

verus! {

/// Every edge of the rectangle is before the far one, and its sides can be measured.
pub open spec fn is_proper(r: Rect) -> bool {
    r.left <= r.right && r.top <= r.bottom && is_coordinate(r.right - r.left) && is_coordinate(
        r.bottom - r.top,
    )
}

/// A rectangle is as wide and as high as it was made, and moving it moves every edge
/// alike, so that moving it back undoes it.
pub proof fn moving_keeps_the_size(r: Rect, dx: i32, dy: i32)
    requires
        is_proper(r),
        dx > i32::MIN,
        dy > i32::MIN,
        is_coordinate(r.left + dx),
        is_coordinate(r.right + dx),
        is_coordinate(r.top + dy),
        is_coordinate(r.bottom + dy),
    ensures
        r.translated(dx, dy).left - r.left == dx,
        r.translated(dx, dy).top - r.top == dy,
        r.translated(dx, dy).width() == r.width(),
        r.translated(dx, dy).height() == r.height(),
        r.translated(dx, dy).translated((-dx) as i32, (-dy) as i32) == r,
        Rect::from_size(r.left, r.top, r.width(), r.height()) == r,
        r.width() == r.right - r.left,
        r.height() == r.bottom - r.top,
        r.is_empty() <==> r.width() == 0 || r.height() == 0,
{
}

/// The union of two rectangles holds both, and lies in every rectangle that does.
pub proof fn a_union_is_the_smallest_around_both(a: Rect, b: Rect, c: Rect)
    ensures
        a.union(&b).contains_rect(&a),
        a.union(&b).contains_rect(&b),
        c.contains_rect(&a) && c.contains_rect(&b) ==> c.contains_rect(&a.union(&b)),
        a.union(&b) == b.union(&a),
{
}

/// Two rectangles meet exactly when they overlap on both axes, and neither is empty.
pub proof fn rectangles_meet_when_they_overlap_on_both_axes(a: Rect, b: Rect)
    requires
        a.left < a.right,
        a.top < a.bottom,
        b.left < b.right,
        b.top < b.bottom,
    ensures
        a.intersects(&b) <==> a.overlaps_on(&b, Axis::Horizontal) && a.overlaps_on(
            &b,
            Axis::Vertical,
        ),
        a.overlaps_on(&b, Axis::Horizontal) <==> !(a.right <= b.left || b.right <= a.left),
        a.overlaps_on(&b, Axis::Vertical) <==> !(a.bottom <= b.top || b.bottom <= a.top),
{
}

/// Cutting a rectangle gives the two parts on either side of the cut, in order: they
/// share it, and have all the other edges of the whole.
pub proof fn a_cut_makes_two_parts(r: Rect, x: i32, y: i32)
    ensures
        ({
            let (a, b) = r.split(Axis::Horizontal, x);
            &&& a.right == x && b.left == x
            &&& a.left == r.left && b.right == r.right
            &&& a.top == r.top && b.top == r.top && a.bottom == r.bottom && b.bottom == r.bottom
            &&& r.split_at_x(x) == (a, b)
        }),
        ({
            let (a, b) = r.split(Axis::Vertical, y);
            &&& a.bottom == y && b.top == y
            &&& a.top == r.top && b.bottom == r.bottom
            &&& a.left == r.left && b.left == r.left && a.right == r.right && b.right == r.right
            &&& r.split_at_y(y) == (a, b)
        }),
{
}

/// The halves of a rectangle are of one size, but for the pixel an odd length leaves over,
/// which is in the second.
pub proof fn halves_are_of_one_size(r: Rect)
    requires
        is_proper(r),
    ensures
        ({
            let (a, b) = r.halve(Axis::Horizontal);
            &&& a.right == b.left
            &&& 0 <= (b.right - b.left) - (a.right - a.left) <= 1
            &&& a.left == r.left && b.right == r.right
        }),
        ({
            let (a, b) = r.halve(Axis::Vertical);
            &&& a.bottom == b.top
            &&& 0 <= (b.bottom - b.top) - (a.bottom - a.top) <= 1
            &&& a.top == r.top && b.bottom == r.bottom
        }),
{
}

/// Mirrored inside another, a rectangle is as far from one side as it was from the other,
/// and where it was on the other axis.
pub proof fn a_mirror_swaps_the_distances(r: Rect, within: Rect)
    requires
        is_proper(r),
        is_proper(within),
        within.contains_rect(&r),
    ensures
        ({
            let m = r.mirrored(&within, Axis::Horizontal);
            &&& m.left - within.left == within.right - r.right
            &&& within.right - m.right == r.left - within.left
            &&& m.top == r.top && m.bottom == r.bottom
            &&& m.mirrored(&within, Axis::Horizontal) == r
        }),
        ({
            let m = r.mirrored(&within, Axis::Vertical);
            &&& m.top - within.top == within.bottom - r.bottom
            &&& within.bottom - m.bottom == r.top - within.top
            &&& m.left == r.left && m.right == r.right
            &&& m.mirrored(&within, Axis::Vertical) == r
        }),
{
}

/// A rectangle lies in a direction when its near edge is past the far edge, or on it, and
/// the distance is what is between the two. The other then lies the opposite way, as far.
pub proof fn distances_are_between_facing_edges(a: Rect, b: Rect, direction: Direction)
    requires
        is_coordinate(b.left - a.right),
        is_coordinate(a.left - b.right),
        is_coordinate(b.top - a.bottom),
        is_coordinate(a.top - b.bottom),
    ensures
        a.is_in_direction(&b, Direction::Right) <==> a.right <= b.left,
        a.is_in_direction(&b, Direction::Left) <==> b.right <= a.left,
        a.is_in_direction(&b, Direction::Down) <==> a.bottom <= b.top,
        a.is_in_direction(&b, Direction::Up) <==> b.bottom <= a.top,
        a.distance_in_direction(&b, direction) is Some <==> a.is_in_direction(&b, direction),
        a.distance_in_direction(&b, Direction::Right) matches Some(d) ==> d == b.left - a.right,
        a.distance_in_direction(&b, Direction::Left) matches Some(d) ==> d == a.left - b.right,
        a.distance_in_direction(&b, Direction::Down) matches Some(d) ==> d == b.top - a.bottom,
        a.distance_in_direction(&b, Direction::Up) matches Some(d) ==> d == a.top - b.bottom,
        b.distance_in_direction(&a, direction.opposite()) == a.distance_in_direction(&b, direction),
{
}

/// The opposite of a direction is the other one on the same axis, and of the two one goes
/// forward: to the right or down.
pub proof fn opposites_share_an_axis(direction: Direction, axis: Axis)
    ensures
        direction.opposite() != direction,
        direction.opposite().opposite() == direction,
        direction.opposite().axis() == direction.axis(),
        direction.is_forward() <==> direction is Right || direction is Down,
        direction.axis() is Horizontal <==> direction is Left || direction is Right,
        axis.other() != axis,
        axis.other().other() == axis,
{
}

/// Increasing adds and decreasing takes off as much, and each undoes the other.
pub proof fn increasing_and_decreasing_are_opposite(sizing: Sizing, delta: i32)
    requires
        delta > i32::MIN,
    ensures
        Sizing::Increase.signed(delta) == delta,
        sizing.signed(delta) + sizing.opposite().signed(delta) == 0,
        sizing.opposite() != sizing,
        sizing.opposite().opposite() == sizing,
{
}

/// A size has a width along the horizontal axis and a height along the other, and a flip
/// mirrors the axes that it names.
pub proof fn every_axis_has_its_own_measure(size: MinSize, flip: Flip, axis: Axis)
    ensures
        size.along(Axis::Horizontal) == size.width,
        size.along(Axis::Vertical) == size.height,
        flip.is_flipped(Axis::Horizontal) == flip.horizontal,
        flip.is_flipped(Axis::Vertical) == flip.vertical,
        flip.toggled(axis).is_flipped(axis) == !flip.is_flipped(axis),
        flip.toggled(axis).is_flipped(axis.other()) == flip.is_flipped(axis.other()),
        size.at_least_zero().width >= 0 && size.at_least_zero().height >= 0,
        size.width >= 0 && size.height >= 0 ==> size.at_least_zero() == size,
{
}

/// Every side of an offset is scaled like any other length, and stays its own side.
pub proof fn every_side_of_an_offset_is_scaled(offset: Offset, scale: Scale)
    ensures
        offset.scaled(scale).left == scaled(offset.left as int, scale),
        offset.scaled(scale).top == scaled(offset.top as int, scale),
        offset.scaled(scale).right == scaled(offset.right as int, scale),
        offset.scaled(scale).bottom == scaled(offset.bottom as int, scale),
        offset.scaled(Scale::one()) == offset,
{
}

/// The rules see the title, the class, the executable and the path of a window, each
/// under its own name.
pub proof fn the_rules_see_the_window_as_it_is(window: WindowView)
    ensures
        window.info().piece(ApplicationIdentifier::Title) == window.title,
        window.info().piece(ApplicationIdentifier::Class) == window.class,
        window.info().piece(ApplicationIdentifier::Exe) == window.exe,
        window.info().piece(ApplicationIdentifier::Path) == window.path,
{
}

} // verus!
