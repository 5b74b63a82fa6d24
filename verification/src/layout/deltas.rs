//! What a layout makes of the resize deltas: a missing one is as good as zero.

use vstd::prelude::*;

use crate::geometry::{Axis, Rect};
use crate::layout::bsp::{bsp_cut, bsp_rects};
use crate::layout::split::{
    deltas_of, far_delta, far_sum, near_delta, near_sum, rect_from_slice, shared_delta,
};
use crate::layout::{
    cells_before, columns_of, grid_cells_of_column, grid_column_rects, grid_rects, in_a_row,
    main_and_rest, main_and_stack_rects, ultrawide_columns, ultrawide_rects, Flip, Layout, MinSize,
};

verus! {

/// `true` when two lists of deltas say the same about every edge.
pub open spec fn same_deltas(a: Seq<Option<Rect>>, b: Seq<Option<Rect>>) -> bool {
    forall|i: int, axis: Axis|
        #![trigger far_delta(a, i, axis)]
        #![trigger far_delta(b, i, axis)]
        #![trigger near_delta(a, i, axis)]
        #![trigger near_delta(b, i, axis)]
        far_delta(a, i, axis) == far_delta(b, i, axis) && near_delta(a, i, axis) == near_delta(
            b,
            i,
            axis,
        )
}

proof fn same_far_sum(
    a: Seq<Option<Rect>>,
    b: Seq<Option<Rect>>,
    from: int,
    to: int,
    axis: Axis,
)
    requires
        same_deltas(a, b),
    ensures
        far_sum(a, from, to, axis) == far_sum(b, from, to, axis),
    decreases to - from,
{
    if from < to {
        same_far_sum(a, b, from, to - 1, axis);
        assert(far_delta(a, to - 1, axis) == far_delta(b, to - 1, axis));
    }
}

proof fn same_near_sum(
    base: i32,
    a: Seq<Option<Rect>>,
    b: Seq<Option<Rect>>,
    from: int,
    to: int,
    axis: Axis,
)
    requires
        same_deltas(a, b),
    ensures
        near_sum(base, a, from, to, axis) == near_sum(base, b, from, to, axis),
    decreases to - from,
{
    if from < to {
        same_near_sum(base, a, b, from, to - 1, axis);
        assert(near_delta(a, to - 1, axis) == near_delta(b, to - 1, axis));
    }
}

proof fn same_shared_delta(
    a: Seq<Option<Rect>>,
    b: Seq<Option<Rect>>,
    before: (int, int),
    after: (int, int),
    axis: Axis,
)
    requires
        same_deltas(a, b),
    ensures
        shared_delta(a, before, after, axis) == shared_delta(b, before, after, axis),
{
    same_far_sum(a, b, before.0, before.1, axis);
    same_near_sum(
        far_sum(a, before.0, before.1, axis),
        a,
        b,
        after.0,
        after.1,
        axis,
    );
}

proof fn same_row(
    area: Rect,
    axis: Axis,
    first: int,
    len: int,
    a: Seq<Option<Rect>>,
    b: Seq<Option<Rect>>,
    min: MinSize,
)
    requires
        same_deltas(a, b),
    ensures
        in_a_row(area, axis, first, len, a, min) == in_a_row(area, axis, first, len, b, min),
{
    let (x, y) = (deltas_of(a, first, len, axis), deltas_of(b, first, len, axis));
    assert forall|i: int| 0 <= i < x.len() implies x[i] == y[i] by {
        assert(far_delta(a, first + i, axis) == far_delta(b, first + i, axis));
        assert(near_delta(a, first + i + 1, axis) == near_delta(b, first + i + 1, axis));
    }
    assert(x =~= y);
}

proof fn same_bsp(
    remaining: Rect,
    axis: Axis,
    idx: int,
    len: int,
    a: Seq<Option<Rect>>,
    b: Seq<Option<Rect>>,
    min: MinSize,
)
    requires
        same_deltas(a, b),
    ensures
        bsp_rects(remaining, axis, idx, len, a, min) == bsp_rects(
            remaining,
            axis,
            idx,
            len,
            b,
            min,
        ),
    decreases len - idx,
{
    if idx + 1 < len {
        assert(far_delta(a, idx, axis) == far_delta(b, idx, axis));
        assert(near_delta(a, idx + 1, axis) == near_delta(b, idx + 1, axis));
        let at = bsp_cut(remaining, axis, idx, len, a, min) as i32;
        assert(at == bsp_cut(remaining, axis, idx, len, b, min) as i32);
        same_bsp(
            rect_from_slice(remaining, axis, at, remaining.end(axis)),
            axis.other(),
            idx + 1,
            len,
            a,
            b,
            min,
        );
    }
}

proof fn same_stack(
    area: Rect,
    axis: Axis,
    len: int,
    a: Seq<Option<Rect>>,
    b: Seq<Option<Rect>>,
    min: MinSize,
)
    requires
        same_deltas(a, b),
    ensures
        main_and_stack_rects(area, axis, len, a, min) == main_and_stack_rects(
            area,
            axis,
            len,
            b,
            min,
        ),
{
    same_shared_delta(a, b, (0, 1), (1, len), axis);
    same_row(
        main_and_rest(area, axis, len, a, min)[1],
        axis.other(),
        1,
        len - 1,
        a,
        b,
        min,
    );
}

proof fn same_ultrawide(
    area: Rect,
    len: int,
    a: Seq<Option<Rect>>,
    b: Seq<Option<Rect>>,
    min: MinSize,
)
    requires
        same_deltas(a, b),
    ensures
        ultrawide_rects(area, len, a, min) == ultrawide_rects(area, len, b, min),
{
    let axis = Axis::Horizontal;
    assert(far_delta(a, 1, axis) == far_delta(b, 1, axis));
    assert(near_delta(a, 0, axis) == near_delta(b, 0, axis));
    same_shared_delta(a, b, (0, 1), (2, len), axis);
    same_row(
        ultrawide_columns(area, len, a, min)[2],
        Axis::Vertical,
        2,
        len - 2,
        a,
        b,
        min,
    );
}

proof fn same_grid_columns(
    area: Rect,
    len: int,
    a: Seq<Option<Rect>>,
    b: Seq<Option<Rect>>,
    min: MinSize,
)
    requires
        same_deltas(a, b),
    ensures
        grid_column_rects(area, len, a, min) == grid_column_rects(area, len, b, min),
{
    let columns = columns_of(len);
    let across = |resize: Seq<Option<Rect>>|
        Seq::new(
            (columns - 1) as nat,
            |c: int|
                shared_delta(
                    resize,
                    (cells_before(len, columns, c), cells_before(len, columns, c + 1)),
                    (cells_before(len, columns, c + 1), cells_before(len, columns, c + 2)),
                    Axis::Horizontal,
                ),
        );
    let (x, y) = (across(a), across(b));
    assert forall|c: int| 0 <= c < x.len() implies x[c] == y[c] by {
        same_shared_delta(
            a,
            b,
            (cells_before(len, columns, c), cells_before(len, columns, c + 1)),
            (cells_before(len, columns, c + 1), cells_before(len, columns, c + 2)),
            Axis::Horizontal,
        );
    }
    assert(x =~= y);
    assert(grid_column_rects(area, len, a, min) =~= grid_column_rects(area, len, b, min));
}

proof fn same_grid(
    area: Rect,
    len: int,
    a: Seq<Option<Rect>>,
    b: Seq<Option<Rect>>,
    min: MinSize,
    c: int,
)
    requires
        same_deltas(a, b),
    ensures
        grid_rects(area, len, a, min, c) == grid_rects(area, len, b, min, c),
    decreases c,
{
    if c > 0 {
        same_grid(area, len, a, b, min, c - 1);
        same_grid_columns(area, len, a, b, min);
        let columns = columns_of(len);
        let first = cells_before(len, columns, c - 1);
        same_row(
            grid_column_rects(area, len, a, min)[c - 1],
            Axis::Vertical,
            first,
            cells_before(len, columns, c) - first,
            a,
            b,
            min,
        );
        assert(grid_cells_of_column(area, len, a, min, c - 1) == grid_cells_of_column(
            area,
            len,
            b,
            min,
            c - 1,
        ));
    }
}

/// A layout reads nothing but the numbers: deltas that say the same about every
/// edge give the same rectangles, so a delta of zero is as good as none.
pub proof fn a_missing_delta_is_zero(
    layout: Layout,
    area: Rect,
    len: int,
    container_padding: i32,
    flip: Flip,
    a: Seq<Option<Rect>>,
    b: Seq<Option<Rect>>,
    min: MinSize,
)
    requires
        same_deltas(a, b),
    ensures
        layout.arrangement(area, len, container_padding, flip, a, min) == layout.arrangement(
            area,
            len,
            container_padding,
            flip,
            b,
            min,
        ),
{
    let floor = min.at_least_zero();
    match layout {
        Layout::Bsp => same_bsp(area, Axis::Horizontal, 0, len, a, b, floor),
        Layout::Columns => same_row(area, Axis::Horizontal, 0, len, a, b, floor),
        Layout::Rows => same_row(area, Axis::Vertical, 0, len, a, b, floor),
        Layout::VerticalStack => same_stack(area, Axis::Horizontal, len, a, b, floor),
        Layout::HorizontalStack => same_stack(area, Axis::Vertical, len, a, b, floor),
        Layout::UltrawideVerticalStack => same_ultrawide(area, len, a, b, floor),
        Layout::Grid => same_grid(area, len, a, b, floor, columns_of(len)),
    }
}

} // verus!
