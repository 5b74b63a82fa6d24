//! Pure geometry: rectangles, axes and directions.
//!
//! [`Rect`] stores absolute screen coordinates. `right` and `bottom` are the
//! exclusive far edges, *not* a width and a height. Coordinates are physical
//! pixels; scaling for DPI is the daemon's job.
//!
//! Arithmetic on coordinates saturates at the ends of the `i32` range, so no
//! rectangle, however far off screen, can wrap round to the other side of it.

use vstd::prelude::*;

use crate::error::{Error, Result};
use crate::model::scale::{scale_padding, scaled, Scale};
use crate::text::{lower, lower_is, owned};

verus! {

/// `x`, or the nearest end of the `i32` range when it lies outside.
pub open spec fn sat(x: int) -> i32 {
    if x > i32::MAX {
        i32::MAX
    } else if x < i32::MIN {
        i32::MIN
    } else {
        x as i32
    }
}

/// Half of `x`, rounded towards zero.
pub open spec fn half(x: int) -> int {
    if x >= 0 {
        x / 2
    } else {
        -((-x) / 2)
    }
}

/// The absolute value of `x`.
pub open spec fn distance(x: int) -> int {
    if x >= 0 {
        x
    } else {
        -x
    }
}

/// `x`, or the nearest end of the `i32` range when it lies outside.
pub fn saturate(x: i64) -> (r: i32)
    ensures
        r == sat(x as int),
{
    if x > i32::MAX as i64 {
        i32::MAX
    } else if x < i32::MIN as i64 {
        i32::MIN
    } else {
        x as i32
    }
}

/// The dimension an operation works on.
#[derive(Debug, Clone, Copy, PartialEq, Eq, Hash, Structural)]
pub enum Axis {
    /// The x dimension: widths, left and right edges.
    Horizontal,
    /// The y dimension: heights, top and bottom edges.
    Vertical,
}

impl Axis {
    /// The other axis.
    #[must_use]
    #[verifier::allow_in_spec]
    pub fn other(self) -> Self
        returns
            (match self {
                Axis::Horizontal => Axis::Vertical,
                Axis::Vertical => Axis::Horizontal,
            }),
    {
        match self {
            Axis::Horizontal => Axis::Vertical,
            Axis::Vertical => Axis::Horizontal,
        }
    }

    /// The word for this axis.
    pub open spec fn name(self) -> Seq<char> {
        match self {
            Axis::Horizontal => "horizontal"@,
            Axis::Vertical => "vertical"@,
        }
    }

    /// The word for this axis.
    pub fn to_string(&self) -> (r: String)
        ensures
            r@ == self.name(),
    {
        match self {
            Axis::Horizontal => owned("horizontal"),
            Axis::Vertical => owned("vertical"),
        }
    }

    /// The axis a word stands for, in any case.
    pub open spec fn named(s: Seq<char>) -> Option<Axis> {
        let s = lower(s);
        if s == "horizontal"@ || s == "h"@ || s == "x"@ {
            Some(Axis::Horizontal)
        } else if s == "vertical"@ || s == "v"@ || s == "y"@ {
            Some(Axis::Vertical)
        } else {
            None
        }
    }

    /// Reads an axis from its name or one of its short forms, in any case.
    pub fn parse(s: &str) -> (r: Result<Self>)
        ensures
            match r {
                Ok(axis) => Axis::named(s@) == Some(axis),
                Err(e) => Axis::named(s@) is None && e.is_parse("axis"@, s@),
            },
    {
        if lower_is(s, "horizontal") || lower_is(s, "h") || lower_is(s, "x") {
            Ok(Axis::Horizontal)
        } else if lower_is(s, "vertical") || lower_is(s, "v") || lower_is(s, "y") {
            Ok(Axis::Vertical)
        } else {
            Err(Error::Parse { kind: "axis", value: owned(s) })
        }
    }
}

impl std::str::FromStr for Axis {
    type Err = Error;

    fn from_str(s: &str) -> (r: Result<Self>)
        ensures
            match r {
                Ok(axis) => Axis::named(s@) == Some(axis),
                Err(e) => Axis::named(s@) is None && e.is_parse("axis"@, s@),
            },
    {
        Axis::parse(s)
    }
}

/// A cardinal direction, used for directional focus and movement.
#[derive(Debug, Clone, Copy, PartialEq, Eq, Hash, Structural)]
pub enum Direction {
    /// Towards smaller x.
    Left,
    /// Towards larger x.
    Right,
    /// Towards smaller y.
    Up,
    /// Towards larger y.
    Down,
}

impl Direction {
    /// Every direction, in a stable order.
    pub const ALL: [Direction; 4] = [
        Direction::Left,
        Direction::Right,
        Direction::Up,
        Direction::Down,
    ];

    /// The direction pointing the other way.
    #[must_use]
    #[verifier::allow_in_spec]
    pub fn opposite(self) -> Self
        returns
            (match self {
                Direction::Left => Direction::Right,
                Direction::Right => Direction::Left,
                Direction::Up => Direction::Down,
                Direction::Down => Direction::Up,
            }),
    {
        match self {
            Direction::Left => Direction::Right,
            Direction::Right => Direction::Left,
            Direction::Up => Direction::Down,
            Direction::Down => Direction::Up,
        }
    }

    /// The axis this direction moves along.
    #[must_use]
    #[verifier::allow_in_spec]
    pub fn axis(self) -> Axis
        returns
            (if self is Left || self is Right {
                Axis::Horizontal
            } else {
                Axis::Vertical
            }),
    {
        match self {
            Direction::Left | Direction::Right => Axis::Horizontal,
            Direction::Up | Direction::Down => Axis::Vertical,
        }
    }

    /// `true` for the directions that increase the coordinate along their axis.
    #[must_use]
    #[verifier::allow_in_spec]
    pub fn is_forward(self) -> bool
        returns
            (self is Right || self is Down),
    {
        match self {
            Direction::Right | Direction::Down => true,
            Direction::Left | Direction::Up => false,
        }
    }

    /// The word for this direction.
    pub open spec fn name(self) -> Seq<char> {
        match self {
            Direction::Left => "left"@,
            Direction::Right => "right"@,
            Direction::Up => "up"@,
            Direction::Down => "down"@,
        }
    }

    /// The word for this direction.
    pub fn to_string(&self) -> (r: String)
        ensures
            r@ == self.name(),
    {
        match self {
            Direction::Left => owned("left"),
            Direction::Right => owned("right"),
            Direction::Up => owned("up"),
            Direction::Down => owned("down"),
        }
    }

    /// The direction a word stands for, in any case.
    pub open spec fn named(s: Seq<char>) -> Option<Direction> {
        let s = lower(s);
        if s == "left"@ || s == "h"@ {
            Some(Direction::Left)
        } else if s == "right"@ || s == "l"@ {
            Some(Direction::Right)
        } else if s == "up"@ || s == "k"@ {
            Some(Direction::Up)
        } else if s == "down"@ || s == "j"@ {
            Some(Direction::Down)
        } else {
            None
        }
    }

    /// Reads a direction from its name or its home row key, in any case.
    pub fn parse(s: &str) -> (r: Result<Self>)
        ensures
            match r {
                Ok(direction) => Direction::named(s@) == Some(direction),
                Err(e) => Direction::named(s@) is None && e.is_parse("direction"@, s@),
            },
    {
        if lower_is(s, "left") || lower_is(s, "h") {
            Ok(Direction::Left)
        } else if lower_is(s, "right") || lower_is(s, "l") {
            Ok(Direction::Right)
        } else if lower_is(s, "up") || lower_is(s, "k") {
            Ok(Direction::Up)
        } else if lower_is(s, "down") || lower_is(s, "j") {
            Ok(Direction::Down)
        } else {
            Err(Error::Parse { kind: "direction", value: owned(s) })
        }
    }
}

impl std::str::FromStr for Direction {
    type Err = Error;

    fn from_str(s: &str) -> (r: Result<Self>)
        ensures
            match r {
                Ok(direction) => Direction::named(s@) == Some(direction),
                Err(e) => Direction::named(s@) is None && e.is_parse("direction"@, s@),
            },
    {
        Direction::parse(s)
    }
}

/// Per-edge pixel deltas that shrink (positive) or grow (negative) an area.
///
/// This is the shape `work_area_offset` has in a config file.
#[derive(Debug, Clone, Copy, PartialEq, Eq, Structural)]
pub struct Offset {
    /// Pixels taken off the left edge.
    pub left: i32,
    /// Pixels taken off the top edge.
    pub top: i32,
    /// Pixels taken off the right edge.
    pub right: i32,
    /// Pixels taken off the bottom edge.
    pub bottom: i32,
}

impl Offset {
    /// A new offset.
    #[must_use]
    #[verifier::allow_in_spec]
    pub fn new(left: i32, top: i32, right: i32, bottom: i32) -> Self
        returns
            (Offset { left, top, right, bottom }),
    {
        Offset { left, top, right, bottom }
    }

    /// Applies the offset to `area`, shrinking it on each side.
    ///
    /// Saturating, because these four numbers come straight out of the
    /// configuration file with no validation and are applied on the tiling
    /// path. Two offsets are applied in sequence there, so two individually
    /// sane values can reach the end of the range.
    #[must_use]
    #[verifier::allow_in_spec]
    pub fn apply(&self, area: Rect) -> Rect
        returns
            (Rect {
                left: sat(area.left + self.left),
                top: sat(area.top + self.top),
                right: sat(area.right - self.right),
                bottom: sat(area.bottom - self.bottom),
            }),
    {
        Rect {
            left: saturate(area.left as i64 + self.left as i64),
            top: saturate(area.top as i64 + self.top as i64),
            right: saturate(area.right as i64 - self.right as i64),
            bottom: saturate(area.bottom as i64 - self.bottom as i64),
        }
    }

    /// The same offset in the physical pixels of a display at `scale`.
    ///
    /// Offsets are written in logical pixels like the paddings, because they
    /// exist to reserve room for a status bar and a bar is sized in logical
    /// pixels too.
    #[must_use]
    #[verifier::allow_in_spec]
    pub fn scaled(self, scale: Scale) -> Self
        returns
            (Offset {
                left: scaled(self.left as int, scale),
                top: scaled(self.top as int, scale),
                right: scaled(self.right as int, scale),
                bottom: scaled(self.bottom as int, scale),
            }),
    {
        Offset {
            left: scale_padding(self.left, scale),
            top: scale_padding(self.top, scale),
            right: scale_padding(self.right, scale),
            bottom: scale_padding(self.bottom, scale),
        }
    }
}

impl Default for Offset {
    fn default() -> (r: Self)
        ensures
            r == (Offset { left: 0, top: 0, right: 0, bottom: 0 }),
    {
        Offset { left: 0, top: 0, right: 0, bottom: 0 }
    }
}

/// An axis-aligned rectangle in physical screen pixels.
#[derive(Debug, Clone, Copy, PartialEq, Eq, Structural)]
pub struct Rect {
    /// The inclusive left edge.
    pub left: i32,
    /// The inclusive top edge.
    pub top: i32,
    /// The exclusive right edge.
    pub right: i32,
    /// The exclusive bottom edge.
    pub bottom: i32,
}

impl Default for Rect {
    fn default() -> (r: Self)
        ensures
            r == (Rect { left: 0, top: 0, right: 0, bottom: 0 }),
    {
        Rect { left: 0, top: 0, right: 0, bottom: 0 }
    }
}

/// How far an inset of `padding` may go into a range of length `extent`
/// without taking its last pixel.
pub open spec fn inset(extent: int, padding: int) -> int {
    if padding <= 0 || extent <= 1 {
        0
    } else if padding <= (extent - 1) / 2 {
        padding
    } else {
        (extent - 1) / 2
    }
}

fn inset_by(extent: i32, padding: i32) -> (r: i32)
    ensures
        r == inset(extent as int, padding as int),
{
    if padding <= 0 || extent <= 1 {
        0
    } else {
        padding.min((extent - 1) / 2)
    }
}

impl Rect {
    /// A rectangle from its four edges.
    #[must_use]
    #[verifier::allow_in_spec]
    pub fn new(left: i32, top: i32, right: i32, bottom: i32) -> Self
        returns
            (Rect { left, top, right, bottom }),
    {
        Rect { left, top, right, bottom }
    }

    /// A rectangle from an origin plus a width and a height.
    #[must_use]
    #[verifier::allow_in_spec]
    pub fn from_size(x: i32, y: i32, width: i32, height: i32) -> Self
        returns
            (Rect { left: x, top: y, right: sat(x + width), bottom: sat(y + height) }),
    {
        Rect {
            left: x,
            top: y,
            right: saturate(x as i64 + width as i64),
            bottom: saturate(y as i64 + height as i64),
        }
    }

    /// The width in pixels. Negative for an inverted rectangle.
    #[must_use]
    #[verifier::allow_in_spec]
    pub fn width(&self) -> i32
        returns
            sat(self.right - self.left),
    {
        saturate(self.right as i64 - self.left as i64)
    }

    /// The height in pixels. Negative for an inverted rectangle.
    #[must_use]
    #[verifier::allow_in_spec]
    pub fn height(&self) -> i32
        returns
            sat(self.bottom - self.top),
    {
        saturate(self.bottom as i64 - self.top as i64)
    }

    /// `true` when the rectangle covers no pixels.
    #[must_use]
    #[verifier::allow_in_spec]
    pub fn is_empty(&self) -> bool
        returns
            (self.right <= self.left || self.bottom <= self.top),
    {
        self.width() <= 0 || self.height() <= 0
    }

    /// The covered pixel count. Widened so that 4K rectangles cannot overflow.
    #[must_use]
    pub fn area(&self) -> (r: i64)
        ensures
            self.is_empty() ==> r == 0,
            !self.is_empty() ==> r == self.width() * self.height(),
    {
        if self.is_empty() {
            return 0;
        }
        let w = self.width() as i64;
        let h = self.height() as i64;
        assert(0 <= w * h <= i32::MAX * i32::MAX) by (nonlinear_arith)
            requires
                0 <= w <= i32::MAX,
                0 <= h <= i32::MAX,
        ;
        w * h
    }

    /// The x coordinate of the centre.
    #[must_use]
    #[verifier::allow_in_spec]
    pub fn center_x(&self) -> i32
        returns
            ((self.left + half(self.width() as int)) as i32),
    {
        self.left + self.width() / 2
    }

    /// The y coordinate of the centre.
    #[must_use]
    #[verifier::allow_in_spec]
    pub fn center_y(&self) -> i32
        returns
            ((self.top + half(self.height() as int)) as i32),
    {
        self.top + self.height() / 2
    }

    /// The centre point.
    #[must_use]
    pub fn center(&self) -> (r: (i32, i32))
        ensures
            r == (self.center_x(), self.center_y()),
    {
        (self.center_x(), self.center_y())
    }

    /// The centre coordinate along `axis`.
    #[must_use]
    #[verifier::allow_in_spec]
    pub fn center_on(&self, axis: Axis) -> i32
        returns
            (match axis {
                Axis::Horizontal => self.center_x(),
                Axis::Vertical => self.center_y(),
            }),
    {
        match axis {
            Axis::Horizontal => self.center_x(),
            Axis::Vertical => self.center_y(),
        }
    }

    /// The near edge along `axis`.
    #[must_use]
    #[verifier::allow_in_spec]
    pub fn start(&self, axis: Axis) -> i32
        returns
            (match axis {
                Axis::Horizontal => self.left,
                Axis::Vertical => self.top,
            }),
    {
        match axis {
            Axis::Horizontal => self.left,
            Axis::Vertical => self.top,
        }
    }

    /// The far edge along `axis`.
    #[must_use]
    #[verifier::allow_in_spec]
    pub fn end(&self, axis: Axis) -> i32
        returns
            (match axis {
                Axis::Horizontal => self.right,
                Axis::Vertical => self.bottom,
            }),
    {
        match axis {
            Axis::Horizontal => self.right,
            Axis::Vertical => self.bottom,
        }
    }

    /// The width or the height, depending on `axis`.
    #[must_use]
    #[verifier::allow_in_spec]
    pub fn extent(&self, axis: Axis) -> i32
        returns
            sat(self.end(axis) - self.start(axis)),
    {
        saturate(self.end(axis) as i64 - self.start(axis) as i64)
    }

    /// Shrinks the rectangle by `padding` on every side.
    ///
    /// The result can be inverted; use [`Rect::padded_clamped`] when the input
    /// may be smaller than twice the padding.
    #[must_use]
    #[verifier::allow_in_spec]
    pub fn padded(&self, padding: i32) -> Self
        returns
            (Rect {
                left: sat(self.left + padding),
                top: sat(self.top + padding),
                right: sat(self.right - padding),
                bottom: sat(self.bottom - padding),
            }),
    {
        Rect {
            left: saturate(self.left as i64 + padding as i64),
            top: saturate(self.top as i64 + padding as i64),
            right: saturate(self.right as i64 - padding as i64),
            bottom: saturate(self.bottom as i64 - padding as i64),
        }
    }

    /// Shrinks the rectangle by at most `padding` on every side, never
    /// inverting it and never taking its last pixel.
    ///
    /// A rectangle that has at least one pixel in a dimension keeps at least
    /// one, because a window with a zero width or height is a window nobody can
    /// see or click.
    #[must_use]
    #[verifier::allow_in_spec]
    pub fn padded_clamped(&self, padding: i32) -> Self
        returns
            (Rect {
                left: (self.left + inset(self.width() as int, padding as int)) as i32,
                top: (self.top + inset(self.height() as int, padding as int)) as i32,
                right: (self.right - inset(self.width() as int, padding as int)) as i32,
                bottom: (self.bottom - inset(self.height() as int, padding as int)) as i32,
            }),
    {
        let x = inset_by(self.width(), padding);
        let y = inset_by(self.height(), padding);
        Rect { left: self.left + x, top: self.top + y, right: self.right - x, bottom: self.bottom - y }
    }

    /// Moves the rectangle without resizing it.
    #[must_use]
    #[verifier::allow_in_spec]
    pub fn translated(&self, dx: i32, dy: i32) -> Self
        returns
            (Rect {
                left: sat(self.left + dx),
                top: sat(self.top + dy),
                right: sat(self.right + dx),
                bottom: sat(self.bottom + dy),
            }),
    {
        Rect {
            left: saturate(self.left as i64 + dx as i64),
            top: saturate(self.top as i64 + dy as i64),
            right: saturate(self.right as i64 + dx as i64),
            bottom: saturate(self.bottom as i64 + dy as i64),
        }
    }

    /// `true` when the point lies inside, using half-open edges.
    #[must_use]
    #[verifier::allow_in_spec]
    pub fn contains(&self, x: i32, y: i32) -> bool
        returns
            (self.left <= x < self.right && self.top <= y < self.bottom),
    {
        x >= self.left && x < self.right && y >= self.top && y < self.bottom
    }

    /// `true` when `other` lies entirely inside `self`.
    #[must_use]
    #[verifier::allow_in_spec]
    pub fn contains_rect(&self, other: &Rect) -> bool
        returns
            (self.left <= other.left && other.right <= self.right && self.top <= other.top
                && other.bottom <= self.bottom),
    {
        other.left >= self.left && other.top >= self.top && other.right <= self.right
            && other.bottom <= self.bottom
    }

    /// `true` when the two rectangles share at least one pixel.
    #[must_use]
    #[verifier::allow_in_spec]
    pub fn intersects(&self, other: &Rect) -> bool
        returns
            ({
                &&& self.left < self.right && other.left < other.right
                &&& self.top < self.bottom && other.top < other.bottom
                &&& self.left < other.right && other.left < self.right
                &&& self.top < other.bottom && other.top < self.bottom
            }),
    {
        let across = self.left.max(other.left) < self.right.min(other.right);
        let down = self.top.max(other.top) < self.bottom.min(other.bottom);
        across && down
    }

    /// The shared area, or `None` when the rectangles are disjoint.
    #[must_use]
    #[verifier::allow_in_spec]
    pub fn intersection(&self, other: &Rect) -> Option<Rect>
        returns
            (if self.intersects(other) {
                Some(
                    Rect {
                        left: if self.left >= other.left { self.left } else { other.left },
                        top: if self.top >= other.top { self.top } else { other.top },
                        right: if self.right <= other.right { self.right } else { other.right },
                        bottom: if self.bottom <= other.bottom {
                            self.bottom
                        } else {
                            other.bottom
                        },
                    },
                )
            } else {
                None
            }),
    {
        if !self.intersects(other) {
            return None;
        }
        Some(
            Rect {
                left: self.left.max(other.left),
                top: self.top.max(other.top),
                right: self.right.min(other.right),
                bottom: self.bottom.min(other.bottom),
            },
        )
    }

    /// The smallest rectangle containing both.
    #[must_use]
    #[verifier::allow_in_spec]
    pub fn union(&self, other: &Rect) -> Rect
        returns
            (Rect {
                left: if self.left <= other.left { self.left } else { other.left },
                top: if self.top <= other.top { self.top } else { other.top },
                right: if self.right >= other.right { self.right } else { other.right },
                bottom: if self.bottom >= other.bottom { self.bottom } else { other.bottom },
            }),
    {
        Rect {
            left: self.left.min(other.left),
            top: self.top.min(other.top),
            right: self.right.max(other.right),
            bottom: self.bottom.max(other.bottom),
        }
    }

    /// `true` when the two rectangles overlap along `axis`.
    #[must_use]
    #[verifier::allow_in_spec]
    pub fn overlaps_on(&self, other: &Rect, axis: Axis) -> bool
        returns
            (self.start(axis) < other.end(axis) && other.start(axis) < self.end(axis)),
    {
        self.start(axis) < other.end(axis) && other.start(axis) < self.end(axis)
    }

    /// Splits at the absolute x coordinate `x` into a left and a right part.
    #[must_use]
    #[verifier::allow_in_spec]
    pub fn split_at_x(&self, x: i32) -> (Rect, Rect)
        returns
            ((Rect { right: x, ..*self }, Rect { left: x, ..*self })),
    {
        (
            Rect { left: self.left, top: self.top, right: x, bottom: self.bottom },
            Rect { left: x, top: self.top, right: self.right, bottom: self.bottom },
        )
    }

    /// Splits at the absolute y coordinate `y` into a top and a bottom part.
    #[must_use]
    #[verifier::allow_in_spec]
    pub fn split_at_y(&self, y: i32) -> (Rect, Rect)
        returns
            ((Rect { bottom: y, ..*self }, Rect { top: y, ..*self })),
    {
        (
            Rect { left: self.left, top: self.top, right: self.right, bottom: y },
            Rect { left: self.left, top: y, right: self.right, bottom: self.bottom },
        )
    }

    /// Splits the given dimension at the absolute coordinate `at`.
    #[must_use]
    #[verifier::allow_in_spec]
    pub fn split(&self, axis: Axis, at: i32) -> (Rect, Rect)
        returns
            (match axis {
                Axis::Horizontal => self.split_at_x(at),
                Axis::Vertical => self.split_at_y(at),
            }),
    {
        match axis {
            Axis::Horizontal => self.split_at_x(at),
            Axis::Vertical => self.split_at_y(at),
        }
    }

    /// Splits the given dimension down the middle.
    #[must_use]
    #[verifier::allow_in_spec]
    pub fn halve(&self, axis: Axis) -> (Rect, Rect)
        returns
            self.split(axis, (self.start(axis) + half(self.extent(axis) as int)) as i32),
    {
        self.split(axis, self.start(axis) + self.extent(axis) / 2)
    }

    /// Mirrors the rectangle inside `within` along `axis`.
    #[must_use]
    #[verifier::allow_in_spec]
    pub fn mirrored(&self, within: &Rect, axis: Axis) -> Rect
        returns
            (match axis {
                Axis::Horizontal => Rect {
                    left: sat(within.left + within.right - self.right),
                    right: sat(within.left + within.right - self.left),
                    ..*self
                },
                Axis::Vertical => Rect {
                    top: sat(within.top + within.bottom - self.bottom),
                    bottom: sat(within.top + within.bottom - self.top),
                    ..*self
                },
            }),
    {
        match axis {
            Axis::Horizontal => {
                let sum: i64 = within.left as i64 + within.right as i64;
                Rect {
                    left: saturate(sum - self.right as i64),
                    top: self.top,
                    right: saturate(sum - self.left as i64),
                    bottom: self.bottom,
                }
            },
            Axis::Vertical => {
                let sum: i64 = within.top as i64 + within.bottom as i64;
                Rect {
                    left: self.left,
                    top: saturate(sum - self.bottom as i64),
                    right: self.right,
                    bottom: saturate(sum - self.top as i64),
                }
            },
        }
    }

    /// `true` when `other` lies wholly beyond `self` in `direction`.
    ///
    /// The test is on the facing edges, not the centres, because tiles and
    /// monitors never overlap: a rectangle that starts before `self` ends is
    /// not in that direction at all, however far its centre has drifted.
    #[must_use]
    #[verifier::allow_in_spec]
    pub fn is_in_direction(&self, other: &Rect, direction: Direction) -> bool
        returns
            self.gap(other, direction) >= 0,
    {
        match direction {
            Direction::Left => other.right <= self.left,
            Direction::Right => other.left >= self.right,
            Direction::Up => other.bottom <= self.top,
            Direction::Down => other.top >= self.bottom,
        }
    }

    /// The signed gap between the facing edges of `self` and `other` towards
    /// `direction`. Negative when `other` does not lie wholly beyond `self`.
    pub open spec fn gap(&self, other: &Rect, direction: Direction) -> int {
        match direction {
            Direction::Left => self.left - other.right,
            Direction::Right => other.left - self.right,
            Direction::Up => self.top - other.bottom,
            Direction::Down => other.top - self.bottom,
        }
    }

    /// The gap in pixels between the two facing edges when `other` lies in
    /// `direction`, or `None` when it does not.
    ///
    /// The gap is `0` for rectangles that touch along the axis.
    #[must_use]
    #[verifier::allow_in_spec]
    pub fn distance_in_direction(&self, other: &Rect, direction: Direction) -> Option<i32>
        returns
            (if self.is_in_direction(other, direction) {
                Some(sat(self.gap(other, direction)))
            } else {
                None
            }),
    {
        if !self.is_in_direction(other, direction) {
            return None;
        }
        let gap: i64 = match direction {
            Direction::Left => self.left as i64 - other.right as i64,
            Direction::Right => other.left as i64 - self.right as i64,
            Direction::Up => self.top as i64 - other.bottom as i64,
            Direction::Down => other.top as i64 - self.bottom as i64,
        };
        Some(saturate(gap))
    }
}

/// How far the centres of two rectangles are apart along `axis`.
pub open spec fn center_offset(a: &Rect, b: &Rect, axis: Axis) -> int {
    distance(a.center_on(axis) - b.center_on(axis))
}

/// `true` when `b` is a worse neighbour of `origin` than `a`, or as good a one.
///
/// A rectangle that overlaps the origin on the perpendicular axis is better
/// than one that does not, then the one with the smaller gap, then the one with
/// the closer centre.
pub open spec fn no_worse(origin: &Rect, a: &Rect, b: &Rect, direction: Direction) -> bool {
    let across = direction.axis().other();
    let aligned_a = origin.overlaps_on(a, across);
    let aligned_b = origin.overlaps_on(b, across);
    let gap_a = sat(origin.gap(a, direction));
    let gap_b = sat(origin.gap(b, direction));
    if aligned_a != aligned_b {
        aligned_a
    } else if gap_a != gap_b {
        gap_a < gap_b
    } else {
        center_offset(origin, a, across) <= center_offset(origin, b, across)
    }
}

/// `true` when `rects[k]` lies beyond `rects[from]` in `direction`.
pub open spec fn is_candidate(rects: Seq<Rect>, from: int, direction: Direction, k: int) -> bool {
    0 <= k < rects.len() && k != from && rects[from].is_in_direction(&rects[k], direction)
}

/// `true` when `rects[k]` is the best neighbour of `rects[from]` in `direction`:
/// no candidate is better, and none before it is as good.
pub open spec fn is_nearest(rects: Seq<Rect>, from: int, direction: Direction, k: int) -> bool {
    &&& 0 <= from < rects.len()
    &&& is_candidate(rects, from, direction, k)
    &&& forall|j: int|
        #![trigger rects[j]]
        is_candidate(rects, from, direction, j) ==> no_worse(
            &rects[from],
            &rects[k],
            &rects[j],
            direction,
        ) && (j < k ==> !no_worse(&rects[from], &rects[j], &rects[k], direction))
}

/// The index of the best neighbour of `rects[from]` in `direction`, if any.
pub open spec fn nearest(rects: Seq<Rect>, from: int, direction: Direction) -> Option<int> {
    if exists|k: int| is_nearest(rects, from, direction, k) {
        Some(choose|k: int| is_nearest(rects, from, direction, k))
    } else {
        None
    }
}

/// There is at most one best neighbour.
pub proof fn nearest_is_unique(rects: Seq<Rect>, from: int, direction: Direction, a: int, b: int)
    requires
        is_nearest(rects, from, direction, a),
        is_nearest(rects, from, direction, b),
    ensures
        a == b,
{
    assert(rects[a] == rects[a] && rects[b] == rects[b]);
}

fn is_better(origin: &Rect, a: &Rect, b: &Rect, direction: Direction) -> (r: bool)
    ensures
        r == !no_worse(origin, b, a, direction),
{
    let across = direction.axis().other();
    let aligned_a = origin.overlaps_on(a, across);
    let aligned_b = origin.overlaps_on(b, across);
    if aligned_a != aligned_b {
        return aligned_a;
    }
    let gap_a = saturate(gap_to(origin, a, direction));
    let gap_b = saturate(gap_to(origin, b, direction));
    if gap_a != gap_b {
        return gap_a < gap_b;
    }
    let offset_a: i64 = origin.center_on(across) as i64 - a.center_on(across) as i64;
    let offset_b: i64 = origin.center_on(across) as i64 - b.center_on(across) as i64;
    let far_a: i64 = if offset_a >= 0 { offset_a } else { -offset_a };
    let far_b: i64 = if offset_b >= 0 { offset_b } else { -offset_b };
    far_a < far_b
}

fn gap_to(from: &Rect, to: &Rect, direction: Direction) -> (r: i64)
    ensures
        r == from.gap(to, direction),
{
    match direction {
        Direction::Left => from.left as i64 - to.right as i64,
        Direction::Right => to.left as i64 - from.right as i64,
        Direction::Up => from.top as i64 - to.bottom as i64,
        Direction::Down => to.top as i64 - from.bottom as i64,
    }
}

/// Picks the rectangle nearest to `rects[from]` in `direction`.
///
/// Candidates that overlap the origin on the perpendicular axis win over ones
/// that do not, then the smallest gap wins, then the closest centre, then the
/// lowest index. Returns `None` when nothing lies in that direction.
#[must_use]
pub fn nearest_in_direction(rects: &[Rect], from: usize, direction: Direction) -> (r: Option<usize>)
    ensures
        match r {
            Some(k) => nearest(rects@, from as int, direction) == Some(k as int) && is_nearest(
                rects@,
                from as int,
                direction,
                k as int,
            ),
            None => nearest(rects@, from as int, direction) is None && (from < rects@.len()
                ==> forall|k: int| !is_candidate(rects@, from as int, direction, k)),
        },
{
    if from >= rects.len() {
        return None;
    }
    let origin = rects[from];
    let mut best: Option<usize> = None;
    for idx in 0..rects.len()
        invariant
            from < rects@.len(),
            origin == rects@[from as int],
            match best {
                Some(k) => {
                    &&& k < idx
                    &&& is_candidate(rects@, from as int, direction, k as int)
                    &&& forall|j: int|
                        #![trigger rects@[j]]
                        0 <= j < idx && is_candidate(rects@, from as int, direction, j)
                            ==> no_worse(&origin, &rects@[k as int], &rects@[j], direction) && (j
                            < k ==> !no_worse(&origin, &rects@[j], &rects@[k as int], direction))
                },
                None => forall|j: int|
                    0 <= j < idx ==> !is_candidate(rects@, from as int, direction, j),
            },
    {
        if idx != from && origin.is_in_direction(&rects[idx], direction) {
            match best {
                None => {
                    best = Some(idx);
                },
                Some(k) => {
                    if is_better(&origin, &rects[idx], &rects[k], direction) {
                        best = Some(idx);
                    }
                },
            }
        }
    }
    proof {
        if best is Some {
            let k = best->0 as int;
            assert(is_nearest(rects@, from as int, direction, k));
            let c = choose|c: int| is_nearest(rects@, from as int, direction, c);
            nearest_is_unique(rects@, from as int, direction, k, c);
        }
    }
    best
}

/// Two rectangles intersect exactly when they share a pixel, and their
/// intersection holds exactly the pixels they share.
pub proof fn an_intersection_holds_the_shared_pixels(a: Rect, b: Rect)
    ensures
        a.intersects(&b) <==> exists|x: i32, y: i32| #[trigger]
            a.contains(x, y) && b.contains(x, y),
        forall|x: i32, y: i32| #[trigger]
            a.contains(x, y) && b.contains(x, y) <==> a.intersection(&b) is Some
                && a.intersection(&b)->0.contains(x, y),
{
    if a.intersects(&b) {
        let x = if a.left >= b.left {
            a.left
        } else {
            b.left
        };
        let y = if a.top >= b.top {
            a.top
        } else {
            b.top
        };
        assert(a.contains(x, y) && b.contains(x, y));
    }
}

} // verus!
