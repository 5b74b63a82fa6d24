//! Layouts: pure functions from an area and a container count to rectangles.
//!
//! Every layout tiles its area exactly. With a container padding of zero the
//! returned rectangles cover the area with no gap and no overlap, which is what
//! [`tiling`] proves for every layout and every number of containers.
//!
//! Resize deltas are per container [`Rect`]s of pixel offsets, one per edge.
//! A container's far-edge delta and its neighbour's near-edge delta push the
//! same boundary, and every boundary is clamped so no container can be squeezed
//! below a fifth of its fair share.

use vstd::prelude::*;

use crate::error::{Error, Result};
use crate::geometry::{Axis, Rect};
use crate::layout::split::{
    boundary_delta, boundary_deltas, deltas_of, divide, divide_weighted, equal_weights, far_delta,
    near_delta, rects_of, shared_boundary_delta, shared_delta, slices, slices_to_rects,
};
use crate::geometry::sat;
use crate::model::ring::{stepped, CycleDirection};
use crate::text::{lower, lower_is, owned, same, squash, squashed};

pub use crate::layout::split::MIN_TILE_SIZE;

pub mod bsp;
pub mod deltas;
pub mod edges;
pub mod growth;
pub mod limits;
pub mod room;
pub mod split;
pub mod tiling;

verus! {

/// Whether a resize grows or shrinks.
#[derive(Debug, Clone, Copy, PartialEq, Eq, Hash, Structural)]
pub enum Sizing {
    /// Make the container bigger along the axis.
    Increase,
    /// Make the container smaller along the axis.
    Decrease,
}

impl Sizing {
    /// `delta` for an increase, `-delta` for a decrease.
    #[must_use]
    #[verifier::allow_in_spec]
    pub fn signed(self, delta: i32) -> i32
        returns
            (match self {
                Sizing::Increase => delta,
                Sizing::Decrease => sat(-delta),
            }),
    {
        match self {
            Sizing::Increase => delta,
            Sizing::Decrease => if delta == i32::MIN {
                i32::MAX
            } else {
                -delta
            },
        }
    }

    /// The other way round.
    #[must_use]
    #[verifier::allow_in_spec]
    pub fn opposite(self) -> Self
        returns
            (match self {
                Sizing::Increase => Sizing::Decrease,
                Sizing::Decrease => Sizing::Increase,
            }),
    {
        match self {
            Sizing::Increase => Sizing::Decrease,
            Sizing::Decrease => Sizing::Increase,
        }
    }

    /// The word for this sizing.
    pub open spec fn name(self) -> Seq<char> {
        match self {
            Sizing::Increase => "increase"@,
            Sizing::Decrease => "decrease"@,
        }
    }

    /// The word for this sizing.
    pub fn to_string(&self) -> (r: String)
        ensures
            r@ == self.name(),
    {
        match self {
            Sizing::Increase => owned("increase"),
            Sizing::Decrease => owned("decrease"),
        }
    }

    /// The sizing a word stands for, in any case.
    pub open spec fn named(s: Seq<char>) -> Option<Sizing> {
        let s = lower(s);
        if s == "increase"@ || s == "grow"@ || s == "+"@ {
            Some(Sizing::Increase)
        } else if s == "decrease"@ || s == "shrink"@ || s == "-"@ {
            Some(Sizing::Decrease)
        } else {
            None
        }
    }

    /// Reads a sizing from its name or a sign, in any case.
    pub fn parse(s: &str) -> (r: Result<Self>)
        ensures
            match r {
                Ok(sizing) => Sizing::named(s@) == Some(sizing),
                Err(e) => Sizing::named(s@) is None && e.is_parse("sizing"@, s@),
            },
    {
        if lower_is(s, "increase") || lower_is(s, "grow") || lower_is(s, "+") {
            Ok(Sizing::Increase)
        } else if lower_is(s, "decrease") || lower_is(s, "shrink") || lower_is(s, "-") {
            Ok(Sizing::Decrease)
        } else {
            Err(Error::Parse { kind: "sizing", value: owned(s) })
        }
    }
}

impl std::str::FromStr for Sizing {
    type Err = Error;

    fn from_str(s: &str) -> (r: Result<Self>)
        ensures
            match r {
                Ok(sizing) => Sizing::named(s@) == Some(sizing),
                Err(e) => Sizing::named(s@) is None && e.is_parse("sizing"@, s@),
            },
    {
        Sizing::parse(s)
    }
}

/// The smallest a tile may get, one number per axis.
#[derive(Debug, Clone, Copy, PartialEq, Eq, Structural)]
pub struct MinSize {
    /// The smallest width.
    pub width: i32,
    /// The smallest height.
    pub height: i32,
}

impl MinSize {
    /// The same minimum on both axes.
    #[must_use]
    #[verifier::allow_in_spec]
    pub fn square(size: i32) -> Self
        returns
            (MinSize { width: size, height: size }),
    {
        MinSize { width: size, height: size }
    }

    /// The minimum along `axis`.
    #[must_use]
    #[verifier::allow_in_spec]
    pub fn along(self, axis: Axis) -> i32
        returns
            (match axis {
                Axis::Horizontal => self.width,
                Axis::Vertical => self.height,
            }),
    {
        match axis {
            Axis::Horizontal => self.width,
            Axis::Vertical => self.height,
        }
    }

    /// The same minimums, with a negative one counting as zero.
    #[must_use]
    #[verifier::allow_in_spec]
    pub fn at_least_zero(self) -> Self
        returns
            (MinSize {
                width: if self.width >= 0 { self.width } else { 0 },
                height: if self.height >= 0 { self.height } else { 0 },
            }),
    {
        MinSize { width: self.width.max(0), height: self.height.max(0) }
    }
}

/// Which axes a layout is mirrored on.
#[derive(Debug, Clone, Copy, PartialEq, Eq, Hash, Structural)]
pub struct Flip {
    /// Mirror left to right.
    pub horizontal: bool,
    /// Mirror top to bottom.
    pub vertical: bool,
}

impl Default for Flip {
    fn default() -> (r: Self)
        ensures
            r == Flip::none(),
    {
        Flip::none()
    }
}

impl Flip {
    /// No mirroring.
    #[must_use]
    #[verifier::allow_in_spec]
    pub fn none() -> Self
        returns
            (Flip { horizontal: false, vertical: false }),
    {
        Flip { horizontal: false, vertical: false }
    }

    /// Mirrored left to right.
    #[must_use]
    #[verifier::allow_in_spec]
    pub fn horizontal() -> Self
        returns
            (Flip { horizontal: true, vertical: false }),
    {
        Flip { horizontal: true, vertical: false }
    }

    /// Mirrored top to bottom.
    #[must_use]
    #[verifier::allow_in_spec]
    pub fn vertical() -> Self
        returns
            (Flip { horizontal: false, vertical: true }),
    {
        Flip { horizontal: false, vertical: true }
    }

    /// Mirrored on both axes.
    #[must_use]
    #[verifier::allow_in_spec]
    pub fn both() -> Self
        returns
            (Flip { horizontal: true, vertical: true }),
    {
        Flip { horizontal: true, vertical: true }
    }

    /// `true` when nothing is mirrored.
    #[must_use]
    #[verifier::allow_in_spec]
    pub fn is_none(self) -> bool
        returns
            (!self.horizontal && !self.vertical),
    {
        !self.horizontal && !self.vertical
    }

    /// Flips `axis` on or off.
    #[must_use]
    #[verifier::allow_in_spec]
    pub fn toggled(self, axis: Axis) -> Self
        returns
            (match axis {
                Axis::Horizontal => Flip { horizontal: !self.horizontal, ..self },
                Axis::Vertical => Flip { vertical: !self.vertical, ..self },
            }),
    {
        match axis {
            Axis::Horizontal => Flip { horizontal: !self.horizontal, vertical: self.vertical },
            Axis::Vertical => Flip { horizontal: self.horizontal, vertical: !self.vertical },
        }
    }

    /// `true` when `axis` is mirrored.
    #[must_use]
    #[verifier::allow_in_spec]
    pub fn is_flipped(self, axis: Axis) -> bool
        returns
            (match axis {
                Axis::Horizontal => self.horizontal,
                Axis::Vertical => self.vertical,
            }),
    {
        match axis {
            Axis::Horizontal => self.horizontal,
            Axis::Vertical => self.vertical,
        }
    }

    /// Mirrors `rect` inside `area` on every flipped axis.
    #[must_use]
    #[verifier::allow_in_spec]
    pub fn apply(self, area: Rect, rect: Rect) -> Rect
        returns
            ({
                let across = if self.horizontal {
                    rect.mirrored(&area, Axis::Horizontal)
                } else {
                    rect
                };
                if self.vertical {
                    across.mirrored(&area, Axis::Vertical)
                } else {
                    across
                }
            }),
    {
        let mut rect = rect;
        if self.horizontal {
            rect = rect.mirrored(&area, Axis::Horizontal);
        }
        if self.vertical {
            rect = rect.mirrored(&area, Axis::Vertical);
        }
        rect
    }
}

/// How containers are arranged inside a workspace.
///
/// In a config file the layouts go by names such as `"layout": "BSP"`.
#[derive(Debug, Clone, Copy, PartialEq, Eq, Hash, Structural)]
pub enum Layout {
    /// Binary space partition: every new container halves the space left over
    /// by the previous one, alternating between vertical and horizontal splits.
    Bsp,
    /// Equal width columns, left to right.
    Columns,
    /// Equal height rows, top to bottom.
    Rows,
    /// One container on the left, the rest stacked vertically on the right.
    VerticalStack,
    /// One container on top, the rest side by side underneath.
    HorizontalStack,
    /// The main container in the middle, the second one on the left and the
    /// rest stacked on the right. For very wide screens.
    UltrawideVerticalStack,
    /// A grid of roughly square cells.
    Grid,
}

impl Default for Layout {
    fn default() -> (r: Self)
        ensures
            r == Layout::Bsp,
    {
        Layout::Bsp
    }
}

/// `len` containers side by side along `axis`, the first of them container
/// `first` of the workspace.
pub open spec fn in_a_row(
    area: Rect,
    axis: Axis,
    first: int,
    len: int,
    resize: Seq<Option<Rect>>,
    min: MinSize,
) -> Seq<Rect> {
    rects_of(
        area,
        axis,
        slices(
            area.start(axis),
            area.end(axis),
            equal_weights(len as nat),
            deltas_of(resize, first, len, axis),
            min.along(axis) as int,
        ),
    )
}

/// The main container and the area of the stack, split off along `axis`.
pub open spec fn main_and_rest(
    area: Rect,
    axis: Axis,
    len: int,
    resize: Seq<Option<Rect>>,
    min: MinSize,
) -> Seq<Rect> {
    rects_of(
        area,
        axis,
        slices(
            area.start(axis),
            area.end(axis),
            equal_weights(2),
            seq![shared_delta(resize, (0, 1), (1, len), axis)],
            min.along(axis) as int,
        ),
    )
}

/// One main container plus a stack of the rest.
pub open spec fn main_and_stack_rects(
    area: Rect,
    axis: Axis,
    len: int,
    resize: Seq<Option<Rect>>,
    min: MinSize,
) -> Seq<Rect> {
    if len == 1 {
        seq![area]
    } else {
        let halves = main_and_rest(area, axis, len, resize, min);
        seq![halves[0]] + in_a_row(halves[1], axis.other(), 1, len - 1, resize, min)
    }
}

/// The three columns of the ultrawide layout: a quarter for the secondary
/// container, a half for the primary one, a quarter for the stack.
pub open spec fn ultrawide_columns(
    area: Rect,
    len: int,
    resize: Seq<Option<Rect>>,
    min: MinSize,
) -> Seq<Rect> {
    let left = sat(
        far_delta(resize, 1, Axis::Horizontal) + near_delta(resize, 0, Axis::Horizontal),
    );
    let right = shared_delta(resize, (0, 1), (2, len), Axis::Horizontal);
    rects_of(
        area,
        Axis::Horizontal,
        slices(area.left, area.right, seq![1u32, 2u32, 1u32], seq![left, right], min.width as int),
    )
}

/// The ultrawide layout: secondary container on the left, primary one in the
/// middle, the rest stacked on the right.
pub open spec fn ultrawide_rects(
    area: Rect,
    len: int,
    resize: Seq<Option<Rect>>,
    min: MinSize,
) -> Seq<Rect> {
    if len == 1 {
        seq![area]
    } else if len == 2 {
        let left = sat(
            far_delta(resize, 1, Axis::Horizontal) + near_delta(resize, 0, Axis::Horizontal),
        );
        let halves = rects_of(
            area,
            Axis::Horizontal,
            slices(area.left, area.right, equal_weights(2), seq![left], min.width as int),
        );
        seq![halves[1], halves[0]]
    } else {
        let columns = ultrawide_columns(area, len, resize, min);
        seq![columns[1], columns[0]] + in_a_row(
            columns[2],
            Axis::Vertical,
            2,
            len - 2,
            resize,
            min,
        )
    }
}

/// `columns` is the ceiling of the square root of `len`, and at least one.
pub open spec fn is_grid_columns(len: int, columns: int) -> bool {
    &&& 1 <= columns
    &&& len <= columns * columns
    &&& columns > 1 ==> (columns - 1) * (columns - 1) < len
}

/// The number of columns a grid of `len` cells uses.
pub open spec fn columns_of(len: int) -> int {
    choose|columns: int| is_grid_columns(len, columns)
}

/// The number of cells before column `c`: every column has `len / columns`
/// rows, and the rightmost `len % columns` one more.
pub open spec fn cells_before(len: int, columns: int, c: int) -> int {
    c * (len / columns) + split::larger(c - (columns - len % columns), 0)
}

/// The columns of a grid of `len` cells.
pub open spec fn grid_column_rects(
    area: Rect,
    len: int,
    resize: Seq<Option<Rect>>,
    min: MinSize,
) -> Seq<Rect> {
    let columns = columns_of(len);
    let deltas = Seq::new(
        (columns - 1) as nat,
        |c: int|
            shared_delta(
                resize,
                (cells_before(len, columns, c), cells_before(len, columns, c + 1)),
                (cells_before(len, columns, c + 1), cells_before(len, columns, c + 2)),
                Axis::Horizontal,
            ),
    );
    rects_of(
        area,
        Axis::Horizontal,
        slices(area.left, area.right, equal_weights(columns as nat), deltas, min.width as int),
    )
}

/// The cells of column `c` of a grid of `len` cells.
pub open spec fn grid_cells_of_column(
    area: Rect,
    len: int,
    resize: Seq<Option<Rect>>,
    min: MinSize,
    c: int,
) -> Seq<Rect> {
    let columns = columns_of(len);
    let first = cells_before(len, columns, c);
    in_a_row(
        grid_column_rects(area, len, resize, min)[c],
        Axis::Vertical,
        first,
        cells_before(len, columns, c + 1) - first,
        resize,
        min,
    )
}

/// The cells of the first `c` columns of a grid of `len` cells, column by column.
pub open spec fn grid_rects(
    area: Rect,
    len: int,
    resize: Seq<Option<Rect>>,
    min: MinSize,
    c: int,
) -> Seq<Rect>
    decreases c,
{
    if c <= 0 {
        Seq::empty()
    } else {
        grid_rects(area, len, resize, min, c - 1) + grid_cells_of_column(
            area,
            len,
            resize,
            min,
            c - 1,
        )
    }
}

impl Layout {
    /// Every layout, in the order `cycle-layout` walks through them.
    pub const ALL: [Layout; 7] = [
        Layout::Bsp,
        Layout::Columns,
        Layout::Rows,
        Layout::VerticalStack,
        Layout::HorizontalStack,
        Layout::UltrawideVerticalStack,
        Layout::Grid,
    ];

    /// The place of this layout in the order `cycle-layout` walks through them.
    pub open spec fn place(self) -> int {
        match self {
            Layout::Bsp => 0,
            Layout::Columns => 1,
            Layout::Rows => 2,
            Layout::VerticalStack => 3,
            Layout::HorizontalStack => 4,
            Layout::UltrawideVerticalStack => 5,
            Layout::Grid => 6,
        }
    }

    /// The layout at a place of that order.
    pub open spec fn at_place(idx: int) -> Layout {
        if idx == 0 {
            Layout::Bsp
        } else if idx == 1 {
            Layout::Columns
        } else if idx == 2 {
            Layout::Rows
        } else if idx == 3 {
            Layout::VerticalStack
        } else if idx == 4 {
            Layout::HorizontalStack
        } else if idx == 5 {
            Layout::UltrawideVerticalStack
        } else {
            Layout::Grid
        }
    }

    /// The next or previous layout, wrapping.
    #[must_use]
    #[verifier::allow_in_spec]
    pub fn cycle(self, direction: CycleDirection) -> Self
        returns
            Layout::at_place(stepped(direction, self.place(), 7)),
    {
        let idx: usize = match self {
            Layout::Bsp => 0,
            Layout::Columns => 1,
            Layout::Rows => 2,
            Layout::VerticalStack => 3,
            Layout::HorizontalStack => 4,
            Layout::UltrawideVerticalStack => 5,
            Layout::Grid => 6,
        };
        match direction.step(idx, 7) {
            Some(next) => Layout::ALL[next],
            None => self,
        }
    }

    /// The tiles of `len` containers, before any mirroring or padding.
    pub open spec fn tiles(
        self,
        area: Rect,
        len: int,
        resize: Seq<Option<Rect>>,
        min: MinSize,
    ) -> Seq<Rect> {
        match self {
            Layout::Bsp => bsp::bsp_rects(area, Axis::Horizontal, 0, len, resize, min),
            Layout::Columns => in_a_row(area, Axis::Horizontal, 0, len, resize, min),
            Layout::Rows => in_a_row(area, Axis::Vertical, 0, len, resize, min),
            Layout::VerticalStack => main_and_stack_rects(
                area,
                Axis::Horizontal,
                len,
                resize,
                min,
            ),
            Layout::HorizontalStack => main_and_stack_rects(
                area,
                Axis::Vertical,
                len,
                resize,
                min,
            ),
            Layout::UltrawideVerticalStack => ultrawide_rects(area, len, resize, min),
            Layout::Grid => grid_rects(area, len, resize, min, columns_of(len)),
        }
    }

    /// The tiles of `len` containers, mirrored as `flip` says.
    pub open spec fn mirrored_tiles(
        self,
        area: Rect,
        len: int,
        flip: Flip,
        resize: Seq<Option<Rect>>,
        min: MinSize,
    ) -> Seq<Rect> {
        self.tiles(area, len, resize, min).map_values(|rect: Rect| flip.apply(area, rect))
    }

    /// The rectangle of each of `len` containers.
    pub open spec fn arrangement(
        self,
        area: Rect,
        len: int,
        container_padding: i32,
        flip: Flip,
        resize: Seq<Option<Rect>>,
        min: MinSize,
    ) -> Seq<Rect> {
        if len == 0 {
            Seq::empty()
        } else {
            self.mirrored_tiles(area, len, flip, resize, min.at_least_zero()).map_values(
                |rect: Rect| rect.padded_clamped(container_padding),
            )
        }
    }

    /// The rectangle for each of `len` containers.
    ///
    /// `area` is the workspace area with its workspace padding already taken
    /// off. `container_padding` is shrunk off every returned rectangle, never
    /// far enough to invert it. `flip` mirrors the finished arrangement.
    /// `resize_dimensions` holds one optional per-edge delta per container;
    /// shorter slices and `None` entries count as no delta.
    ///
    /// The returned vector always has exactly `len` elements.
    #[must_use]
    pub fn calculate(
        &self,
        area: Rect,
        len: usize,
        container_padding: i32,
        flip: Flip,
        resize_dimensions: &[Option<Rect>],
    ) -> (r: Vec<Rect>)
        ensures
            r@.len() == len,
            r@ == self.arrangement(
                area,
                len as int,
                container_padding,
                flip,
                resize_dimensions@,
                MinSize::square(MIN_TILE_SIZE),
            ),
    {
        self.calculate_with_min(
            area,
            len,
            container_padding,
            flip,
            resize_dimensions,
            MinSize::square(MIN_TILE_SIZE),
        )
    }

    /// The same as [`Layout::calculate`] with a minimum tile size of your own.
    ///
    /// [`MIN_TILE_SIZE`] is in logical pixels, so a daemon that tiles a display
    /// at 150 percent scaling passes `MIN_TILE_SIZE * 3 / 2` here. An area too
    /// small to give every tile that much scales the minimum down rather than
    /// leaving a gap.
    #[must_use]
    pub fn calculate_with_min(
        &self,
        area: Rect,
        len: usize,
        container_padding: i32,
        flip: Flip,
        resize_dimensions: &[Option<Rect>],
        min_tile_size: MinSize,
    ) -> (r: Vec<Rect>)
        ensures
            r@.len() == len,
            r@ == self.arrangement(
                area,
                len as int,
                container_padding,
                flip,
                resize_dimensions@,
                min_tile_size,
            ),
    {
        if len == 0 {
            return Vec::new();
        }
        let min = min_tile_size.at_least_zero();
        let rects = match self {
            Layout::Bsp => bsp::calculate(area, len, resize_dimensions, min),
            Layout::Columns => row_of(area, Axis::Horizontal, 0, len, resize_dimensions, min),
            Layout::Rows => row_of(area, Axis::Vertical, 0, len, resize_dimensions, min),
            Layout::VerticalStack => main_and_stack(
                area,
                len,
                resize_dimensions,
                Axis::Horizontal,
                min,
            ),
            Layout::HorizontalStack => main_and_stack(
                area,
                len,
                resize_dimensions,
                Axis::Vertical,
                min,
            ),
            Layout::UltrawideVerticalStack => ultrawide(area, len, resize_dimensions, min),
            Layout::Grid => grid(area, len, resize_dimensions, min),
        };
        let ghost tiles = rects@;
        proof {
            tiling::tile_count(*self, area, len as int, resize_dimensions@, min);
        }
        let mut out: Vec<Rect> = Vec::new();
        for i in 0..rects.len()
            invariant
                rects@ == tiles,
                out@ == tiles.map_values(|rect: Rect| flip.apply(area, rect)).map_values(
                    |rect: Rect| rect.padded_clamped(container_padding),
                ).take(i as int),
        {
            let ghost all = tiles.map_values(|rect: Rect| flip.apply(area, rect)).map_values(
                |rect: Rect| rect.padded_clamped(container_padding),
            );
            out.push(flip.apply(area, rects[i]).padded_clamped(container_padding));
            assert(all.take(i as int).push(all[i as int]) =~= all.take(i + 1));
        }
        assert(out@ =~= self.arrangement(
            area,
            len as int,
            container_padding,
            flip,
            resize_dimensions@,
            min_tile_size,
        ));
        out
    }

    /// The name of this layout, as the config format spells it.
    pub open spec fn name(self) -> Seq<char> {
        match self {
            Layout::Bsp => "BSP"@,
            Layout::Columns => "Columns"@,
            Layout::Rows => "Rows"@,
            Layout::VerticalStack => "VerticalStack"@,
            Layout::HorizontalStack => "HorizontalStack"@,
            Layout::UltrawideVerticalStack => "UltrawideVerticalStack"@,
            Layout::Grid => "Grid"@,
        }
    }

    /// The name of this layout, as the config format spells it.
    pub fn to_string(&self) -> (r: String)
        ensures
            r@ == self.name(),
    {
        match self {
            Layout::Bsp => owned("BSP"),
            Layout::Columns => owned("Columns"),
            Layout::Rows => owned("Rows"),
            Layout::VerticalStack => owned("VerticalStack"),
            Layout::HorizontalStack => owned("HorizontalStack"),
            Layout::UltrawideVerticalStack => owned("UltrawideVerticalStack"),
            Layout::Grid => owned("Grid"),
        }
    }

    /// The layout a text names. Only its ASCII letters and digits count, in any case.
    pub open spec fn named(s: Seq<char>) -> Option<Layout> {
        let s = squashed(s);
        if s == "bsp"@ {
            Some(Layout::Bsp)
        } else if s == "columns"@ {
            Some(Layout::Columns)
        } else if s == "rows"@ {
            Some(Layout::Rows)
        } else if s == "verticalstack"@ {
            Some(Layout::VerticalStack)
        } else if s == "horizontalstack"@ {
            Some(Layout::HorizontalStack)
        } else if s == "ultrawideverticalstack"@ {
            Some(Layout::UltrawideVerticalStack)
        } else if s == "grid"@ {
            Some(Layout::Grid)
        } else {
            None
        }
    }

    /// Reads a layout from its name, in any case and with any punctuation.
    pub fn parse(s: &str) -> (r: Result<Self>)
        ensures
            match r {
                Ok(layout) => Layout::named(s@) == Some(layout),
                Err(e) => Layout::named(s@) is None && e.is_parse("layout"@, s@),
            },
    {
        let word = squash(s);
        let word = word.as_str();
        if same(word, "bsp") {
            Ok(Layout::Bsp)
        } else if same(word, "columns") {
            Ok(Layout::Columns)
        } else if same(word, "rows") {
            Ok(Layout::Rows)
        } else if same(word, "verticalstack") {
            Ok(Layout::VerticalStack)
        } else if same(word, "horizontalstack") {
            Ok(Layout::HorizontalStack)
        } else if same(word, "ultrawideverticalstack") {
            Ok(Layout::UltrawideVerticalStack)
        } else if same(word, "grid") {
            Ok(Layout::Grid)
        } else {
            Err(Error::Parse { kind: "layout", value: owned(s) })
        }
    }
}

impl std::str::FromStr for Layout {
    type Err = Error;

    fn from_str(s: &str) -> (r: Result<Self>)
        ensures
            match r {
                Ok(layout) => Layout::named(s@) == Some(layout),
                Err(e) => Layout::named(s@) is None && e.is_parse("layout"@, s@),
            },
    {
        Layout::parse(s)
    }
}

fn row_of(
    area: Rect,
    axis: Axis,
    first: usize,
    len: usize,
    resize: &[Option<Rect>],
    min: MinSize,
) -> (r: Vec<Rect>)
    requires
        len >= 2 ==> first + len - 1 <= usize::MAX,
    ensures
        r@ == in_a_row(area, axis, first as int, len as int, resize@, min),
{
    let deltas = boundary_deltas(resize, first, len, axis);
    let slices = divide(
        area.start(axis),
        area.end(axis),
        len,
        deltas.as_slice(),
        min.along(axis),
    );
    slices_to_rects(area, axis, slices.as_slice())
}

/// One main container plus a stack of the rest.
///
/// `main_axis` is the axis the main container is split off along: horizontal
/// gives the main container the left half and stacks the rest vertically on
/// the right.
fn main_and_stack(
    area: Rect,
    len: usize,
    resize: &[Option<Rect>],
    main_axis: Axis,
    min: MinSize,
) -> (r: Vec<Rect>)
    requires
        len > 0,
    ensures
        r@ == main_and_stack_rects(area, main_axis, len as int, resize@, min),
{
    if len == 1 {
        let one = vec![area];
        assert(one@ =~= seq![area]);
        return one;
    }
    // Every container in the stack sits on the main cut, so a resize from any
    // of them moves it, not just one from the first.

    let split_delta = shared_boundary_delta(resize, 0..1, 1..len, main_axis);
    let deltas: [i32; 1] = [split_delta];
    assert(deltas@ =~= seq![split_delta]);
    let halves = divide(
        area.start(main_axis),
        area.end(main_axis),
        2,
        &deltas,
        min.along(main_axis),
    );
    let parts = slices_to_rects(area, main_axis, halves.as_slice());
    let mut rects: Vec<Rect> = Vec::new();
    rects.push(parts[0]);
    let mut stack = row_of(parts[1], main_axis.other(), 1, len - 1, resize, min);
    rects.append(&mut stack);
    assert(rects@ =~= main_and_stack_rects(area, main_axis, len as int, resize@, min));
    rects
}

fn ultrawide(area: Rect, len: usize, resize: &[Option<Rect>], min: MinSize) -> (r: Vec<Rect>)
    requires
        len > 0,
    ensures
        r@ == ultrawide_rects(area, len as int, resize@, min),
{
    if len == 1 {
        let one = vec![area];
        assert(one@ =~= seq![area]);
        return one;
    }
    let left_delta = boundary_delta(resize, 1, 0, Axis::Horizontal);
    let mut rects: Vec<Rect> = Vec::new();
    if len == 2 {
        // Secondary on the left, primary on the right.
        let deltas: [i32; 1] = [left_delta];
        assert(deltas@ =~= seq![left_delta]);
        let halves = divide(area.left, area.right, 2, &deltas, min.width);
        let parts = slices_to_rects(area, Axis::Horizontal, halves.as_slice());
        rects.push(parts[1]);
        rects.push(parts[0]);
        assert(rects@ =~= ultrawide_rects(area, len as int, resize@, min));
        return rects;
    }
    // A quarter for the secondary, a half for the primary, a quarter for the
    // stack. The whole stack sits on the cut between the primary and itself.

    let right_delta = shared_boundary_delta(resize, 0..1, 2..len, Axis::Horizontal);
    let deltas: [i32; 2] = [left_delta, right_delta];
    let weights: [u32; 3] = [1, 2, 1];
    assert(deltas@ =~= seq![left_delta, right_delta]);
    assert(weights@ =~= seq![1u32, 2u32, 1u32]);
    let columns = divide_weighted(area.left, area.right, &weights, &deltas, min.width);
    let parts = slices_to_rects(area, Axis::Horizontal, columns.as_slice());
    rects.push(parts[1]);
    rects.push(parts[0]);
    let mut stack = row_of(parts[2], Axis::Vertical, 2, len - 2, resize, min);
    rects.append(&mut stack);
    assert(rects@ =~= ultrawide_rects(area, len as int, resize@, min));
    rects
}

/// There is at most one ceiling of the square root.
pub proof fn grid_columns_are_unique(len: int, a: int, b: int)
    requires
        is_grid_columns(len, a),
        is_grid_columns(len, b),
    ensures
        a == b,
{
    if a < b {
        assert(a * a <= (b - 1) * (b - 1)) by (nonlinear_arith)
            requires
                1 <= a <= b - 1,
        ;
    } else if b < a {
        assert(b * b <= (a - 1) * (a - 1)) by (nonlinear_arith)
            requires
                1 <= b <= a - 1,
        ;
    }
}

fn square_is_below(x: usize, bound: usize) -> (r: bool)
    ensures
        r == (x * x < bound),
{
    assert(0 <= x * x <= usize::MAX * usize::MAX) by (nonlinear_arith)
        requires
            0 <= x <= usize::MAX,
    ;
    (x as u128) * (x as u128) < bound as u128
}

/// The number of columns a grid of `len` cells uses: the ceiling of the square
/// root, so the cells stay as square as possible.
pub fn grid_columns(len: usize) -> (r: usize)
    ensures
        is_grid_columns(len as int, r as int),
        r == columns_of(len as int),
        len > 0 ==> r <= len,
{
    let mut columns: usize = 1;
    while square_is_below(columns, len)
        invariant
            1 <= columns,
            len > 0 ==> columns <= len,
            columns > 1 ==> (columns - 1) * (columns - 1) < len,
        decreases len - columns,
    {
        assert(columns <= columns * columns) by (nonlinear_arith)
            requires
                1 <= columns,
        ;
        columns = columns + 1;
    }
    proof {
        let c = columns_of(len as int);
        assert(is_grid_columns(len as int, columns as int));
        grid_columns_are_unique(len as int, columns as int, c);
    }
    columns
}

/// The columns of a grid hold every cell, in order.
pub proof fn cells_add_up(len: int, columns: int, c: int)
    requires
        1 <= columns <= len,
        0 <= c < columns,
    ensures
        0 <= cells_before(len, columns, c) < cells_before(len, columns, c + 1) <= len,
        cells_before(len, columns, 0) == 0,
        cells_before(len, columns, columns) == len,
{
    let base = len / columns;
    let extra = len % columns;
    vstd::arithmetic::div_mod::lemma_fundamental_div_mod(len, columns);
    assert(base >= 1) by (nonlinear_arith)
        requires
            base == len / columns,
            1 <= columns <= len,
    ;
    assert(0 <= extra < columns);
    assert((c + 1) * base == c * base + base) by (nonlinear_arith);
    assert(0 <= c * base) by (nonlinear_arith)
        requires
            0 <= c,
            1 <= base,
    ;
    assert((c + 1) * base <= columns * base) by (nonlinear_arith)
        requires
            c + 1 <= columns,
            1 <= base,
    ;
    assert(columns * base + extra == len);
    assert(0 * base == 0);
}

fn column_start(len: usize, columns: usize, c: usize) -> (r: usize)
    requires
        1 <= columns <= len,
        c <= columns,
    ensures
        r == cells_before(len as int, columns as int, c as int),
        r <= len,
{
    let base = len / columns;
    let extra = len % columns;
    proof {
        if c < columns {
            cells_add_up(len as int, columns as int, c as int);
        } else {
            cells_add_up(len as int, columns as int, 0);
        }
        assert(c * base >= 0) by (nonlinear_arith)
            requires
                0 <= c,
                0 <= base,
        ;
    }
    let full = c * base;
    if c > columns - extra {
        full + (c - (columns - extra))
    } else {
        full
    }
}

fn grid(area: Rect, len: usize, resize: &[Option<Rect>], min: MinSize) -> (r: Vec<Rect>)
    requires
        len > 0,
    ensures
        r@ == grid_rects(area, len as int, resize@, min, columns_of(len as int)),
{
    let columns = grid_columns(len);
    // Every cell of the two columns either side of a column boundary sits on
    // it, so they all get a push at it, not just the top cell of each column.

    let mut deltas: Vec<i32> = Vec::new();
    let ghost wanted = Seq::new(
        (columns - 1) as nat,
        |c: int|
            shared_delta(
                resize@,
                (
                    cells_before(len as int, columns as int, c),
                    cells_before(len as int, columns as int, c + 1),
                ),
                (
                    cells_before(len as int, columns as int, c + 1),
                    cells_before(len as int, columns as int, c + 2),
                ),
                Axis::Horizontal,
            ),
    );
    for c in 0..columns - 1
        invariant
            1 <= columns <= len,
            wanted.len() == columns - 1,
            wanted == Seq::new(
                (columns - 1) as nat,
                |c: int|
                    shared_delta(
                        resize@,
                        (
                            cells_before(len as int, columns as int, c),
                            cells_before(len as int, columns as int, c + 1),
                        ),
                        (
                            cells_before(len as int, columns as int, c + 1),
                            cells_before(len as int, columns as int, c + 2),
                        ),
                        Axis::Horizontal,
                    ),
            ),
            deltas@ == wanted.take(c as int),
    {
        let first = column_start(len, columns, c);
        let second = column_start(len, columns, c + 1);
        let third = column_start(len, columns, c + 2);
        deltas.push(shared_boundary_delta(resize, first..second, second..third, Axis::Horizontal));
        assert(wanted.take(c as int).push(wanted[c as int]) =~= wanted.take(c + 1));
    }
    assert(deltas@ =~= wanted);
    let column_slices = divide(area.left, area.right, columns, deltas.as_slice(), min.width);
    let column_rects = slices_to_rects(area, Axis::Horizontal, column_slices.as_slice());
    assert(column_rects@ == grid_column_rects(area, len as int, resize@, min));

    let mut rects: Vec<Rect> = Vec::new();
    for column in 0..columns
        invariant
            1 <= columns <= len,
            columns == columns_of(len as int),
            column_rects@ == grid_column_rects(area, len as int, resize@, min),
            column_rects@.len() == columns,
            rects@ == grid_rects(area, len as int, resize@, min, column as int),
    {
        proof {
            cells_add_up(len as int, columns as int, column as int);
        }
        let first = column_start(len, columns, column);
        let end = column_start(len, columns, column + 1);
        let mut cells = row_of(
            column_rects[column],
            Axis::Vertical,
            first,
            end - first,
            resize,
            min,
        );
        rects.append(&mut cells);
        assert(rects@ =~= grid_rects(area, len as int, resize@, min, column + 1));
    }
    rects
}

} // verus!
