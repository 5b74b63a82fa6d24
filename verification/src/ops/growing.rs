//! What a resize does to the window it is about.

use vstd::prelude::*;

use crate::geometry::{Axis, Direction, Rect};
use crate::layout::edges::{across, far_edge, near_edge, push_ahead, push_back};
use crate::layout::growth::{
    length, pulled_back, pulling_back_begins_sooner, pushed_ahead, pushing_ahead_reaches_further,
};
use crate::layout::tiling::{every_layout_tiles_its_area, proper};
use crate::layout::{Flip, Layout, MinSize, Sizing};
use crate::model::state::StateView;
use crate::model::workspace::WorkspaceView;
use crate::ops::outcome::{delta_or_zero, nudge, Outcome};

verus! {

/// `true` when a command moved something: it reports a workspace to lay out.
pub open spec fn moved(after: Outcome) -> bool {
    after.1 is Ok && after.1->Ok_0.retiled.len() > 0
}

/// The edges along `axis`, the one with the larger coordinate first.
pub open spec fn edges_along(axis: Axis) -> (Direction, Direction) {
    if axis is Horizontal {
        (Direction::Right, Direction::Left)
    } else {
        (Direction::Down, Direction::Up)
    }
}

/// A resize along an axis is a resize of the far edge where that edge gives way,
/// and otherwise one of the near edge. A far edge that only has no room left in one
/// direction is still the edge, and then nothing happens.
pub proof fn resizing_an_axis_is_resizing_one_of_its_edges(
    state: StateView,
    axis: Axis,
    sizing: Sizing,
)
    requires
        state.can_resize(),
        state.resize_delta > i32::MIN,
    ensures
        ({
            let (far, near) = edges_along(axis);
            let other = if sizing is Increase {
                Sizing::Decrease
            } else {
                Sizing::Increase
            };
            let after = state.resize_axis(axis, sizing);
            if moved(state.resize_edge(far, sizing)) {
                after == state.resize_edge(far, sizing)
            } else if moved(state.resize_edge(far, other)) {
                !moved(after) && after == state.resize_edge(far, sizing)
            } else {
                after == state.resize_edge(near, sizing)
            }
        }),
{
    let (m, w, t) = state.target()->Ok_0;
    let one = crate::model::changes::ChangesView::none().retile(m, w);
    assert(one.retiled.len() == 1);
    assert(crate::model::changes::ChangesView::none().retiled.len() == 0);
}

/// The focused monitor and workspace.
pub open spec fn focused_workspace_of(state: StateView) -> WorkspaceView {
    let monitor = state.monitors.elements[state.monitors.focused];
    monitor.workspaces.elements[monitor.workspaces.focused]
}

/// The tile of the focused container.
pub open spec fn focused_tile(state: StateView) -> Rect {
    let workspace = focused_workspace_of(state);
    workspace.latest_layout[workspace.containers.focused]
}

/// `true` when the focused workspace is laid out as its settings say, in an area
/// that is one, and its focused container has a tile.
pub open spec fn is_laid_out(state: StateView) -> bool {
    let (m, w) = (
        state.monitors.focused,
        state.monitors.elements[state.monitors.focused].workspaces.focused,
    );
    let workspace = focused_workspace_of(state);
    &&& state.can_resize()
    &&& state.refreshed(m, w) == state
    &&& workspace.tile
    &&& 0 <= workspace.containers.focused < workspace.containers.len()
    &&& proper(
        workspace.area(
            state.area_for(m, w)->0,
            state.default_workspace_padding,
            state.padding_scale(m),
        ),
    )
}

/// The two edges of a tile along `axis` after the padding, when it leaves three
/// pixels: each in by the same number of pixels.
proof fn padding_keeps_the_edges(a: Rect, b: Rect, padding: i32, axis: Axis)
    requires
        proper(a),
        proper(b),
        length(a.padded_clamped(padding), axis) >= 3,
        length(b.padded_clamped(padding), axis) >= 3,
    ensures
        ({
            let by = if padding > 0 {
                padding as int
            } else {
                0
            };
            let (p, q) = (a.padded_clamped(padding), b.padded_clamped(padding));
            &&& near_edge(p, axis) == near_edge(a, axis) + by
            &&& far_edge(p, axis) == far_edge(a, axis) - by
            &&& near_edge(q, axis) == near_edge(b, axis) + by
            &&& far_edge(q, axis) == far_edge(b, axis) - by
        }),
        near_edge(a, across(axis)) == near_edge(b, across(axis)) && far_edge(a, across(axis))
            == far_edge(b, across(axis)) ==> near_edge(a.padded_clamped(padding), across(axis))
            == near_edge(b.padded_clamped(padding), across(axis)) && far_edge(
            a.padded_clamped(padding),
            across(axis),
        ) == far_edge(b.padded_clamped(padding), across(axis)),
{
}

/// A tile inside its area, mirrored: as far from one end as it was from the other.
proof fn mirroring_keeps_the_edges(area: Rect, a: Rect, flip: Flip, axis: Axis)
    requires
        proper(area),
        proper(a),
        area.contains_rect(&a),
    ensures
        proper(flip.apply(area, a)),
        ({
            let r = flip.apply(area, a);
            let flipped = if axis is Horizontal {
                flip.horizontal
            } else {
                flip.vertical
            };
            if flipped {
                &&& near_edge(r, axis) == near_edge(area, axis) + far_edge(area, axis) - far_edge(
                    a,
                    axis,
                )
                &&& far_edge(r, axis) == near_edge(area, axis) + far_edge(area, axis) - near_edge(
                    a,
                    axis,
                )
            } else {
                near_edge(r, axis) == near_edge(a, axis) && far_edge(r, axis) == far_edge(a, axis)
            }
        }),
{
}

/// `true` when the workspace is mirrored along `axis`.
pub open spec fn is_mirrored(workspace: WorkspaceView, axis: Axis) -> bool {
    if axis is Horizontal {
        workspace.layout_flip.horizontal
    } else {
        workspace.layout_flip.vertical
    }
}

proof fn an_arranged_tile(
    layout: Layout,
    area: Rect,
    len: int,
    padding: i32,
    flip: Flip,
    resize: Seq<Option<Rect>>,
    min: MinSize,
    i: int,
)
    requires
        proper(area),
        0 <= i < len,
    ensures
        ({
            let tile = layout.tiles(area, len, resize, min.at_least_zero())[i];
            &&& layout.arrangement(area, len, padding, flip, resize, min).len() == len
            &&& layout.arrangement(area, len, padding, flip, resize, min)[i] == flip.apply(
                area,
                tile,
            ).padded_clamped(padding)
            &&& proper(tile)
            &&& area.contains_rect(&tile)
        }),
{
    every_layout_tiles_its_area(layout, area, len, resize, min.at_least_zero());
    let tiles = layout.tiles(area, len, resize, min.at_least_zero());
    assert(area.contains_rect(&tiles[i]));
}

/// What a push ahead makes of the rectangle on screen.
proof fn a_push_ahead_on_screen(
    layout: Layout,
    area: Rect,
    len: int,
    padding: i32,
    flip: Flip,
    a: Seq<Option<Rect>>,
    b: Seq<Option<Rect>>,
    min: MinSize,
    i: int,
    axis: Axis,
)
    requires
        proper(area),
        0 <= i < len,
        pushed_ahead(a, b, i, axis),
        length(layout.arrangement(area, len, padding, flip, a, min)[i], axis) >= 3,
        length(layout.arrangement(area, len, padding, flip, b, min)[i], axis) >= 3,
    ensures
        ({
            let p = layout.arrangement(area, len, padding, flip, a, min)[i];
            let q = layout.arrangement(area, len, padding, flip, b, min)[i];
            let mirrored = if axis is Horizontal {
                flip.horizontal
            } else {
                flip.vertical
            };
            &&& length(p, axis) <= length(q, axis)
            &&& near_edge(p, across(axis)) == near_edge(q, across(axis))
            &&& far_edge(p, across(axis)) == far_edge(q, across(axis))
            &&& if mirrored {
                far_edge(p, axis) == far_edge(q, axis)
            } else {
                near_edge(p, axis) == near_edge(q, axis)
            }
        }),
{
    an_arranged_tile(layout, area, len, padding, flip, a, min, i);
    an_arranged_tile(layout, area, len, padding, flip, b, min, i);
    pushing_ahead_reaches_further(layout, area, len, a, b, min.at_least_zero(), i, axis);
    let s = layout.tiles(area, len, a, min.at_least_zero())[i];
    let t = layout.tiles(area, len, b, min.at_least_zero())[i];
    mirroring_keeps_the_edges(area, s, flip, axis);
    mirroring_keeps_the_edges(area, t, flip, axis);
    mirroring_keeps_the_edges(area, s, flip, across(axis));
    mirroring_keeps_the_edges(area, t, flip, across(axis));
    padding_keeps_the_edges(flip.apply(area, s), flip.apply(area, t), padding, axis);
}

/// What a pull back makes of the rectangle on screen.
proof fn a_pull_back_on_screen(
    layout: Layout,
    area: Rect,
    len: int,
    padding: i32,
    flip: Flip,
    a: Seq<Option<Rect>>,
    b: Seq<Option<Rect>>,
    min: MinSize,
    i: int,
    axis: Axis,
)
    requires
        proper(area),
        0 <= i < len,
        pulled_back(a, b, i, axis),
        length(layout.arrangement(area, len, padding, flip, a, min)[i], axis) >= 3,
        length(layout.arrangement(area, len, padding, flip, b, min)[i], axis) >= 3,
    ensures
        ({
            let p = layout.arrangement(area, len, padding, flip, a, min)[i];
            let q = layout.arrangement(area, len, padding, flip, b, min)[i];
            let mirrored = if axis is Horizontal {
                flip.horizontal
            } else {
                flip.vertical
            };
            &&& length(p, axis) <= length(q, axis)
            &&& near_edge(p, across(axis)) == near_edge(q, across(axis))
            &&& far_edge(p, across(axis)) == far_edge(q, across(axis))
            &&& if mirrored {
                far_edge(p, axis) <= far_edge(q, axis)
            } else {
                near_edge(q, axis) <= near_edge(p, axis)
            }
        }),
{
    an_arranged_tile(layout, area, len, padding, flip, a, min, i);
    an_arranged_tile(layout, area, len, padding, flip, b, min, i);
    pulling_back_begins_sooner(layout, area, len, a, b, min.at_least_zero(), i, axis);
    let s = layout.tiles(area, len, a, min.at_least_zero())[i];
    let t = layout.tiles(area, len, b, min.at_least_zero())[i];
    mirroring_keeps_the_edges(area, s, flip, axis);
    mirroring_keeps_the_edges(area, t, flip, axis);
    mirroring_keeps_the_edges(area, s, flip, across(axis));
    mirroring_keeps_the_edges(area, t, flip, across(axis));
    padding_keeps_the_edges(flip.apply(area, s), flip.apply(area, t), padding, axis);
}

/// The axis of the edge in `direction`.
pub open spec fn along(direction: Direction) -> Axis {
    if direction is Left || direction is Right {
        Axis::Horizontal
    } else {
        Axis::Vertical
    }
}

/// A resize of one edge that moves something changes the focused tile along that
/// edge's axis only. Increasing never makes it shorter there and decreasing never
/// longer. A right or bottom edge moves while the edge across from it stays, and a
/// left or top edge moves out when increasing and in when decreasing.
pub proof fn resizing_an_edge_moves_that_edge(
    state: StateView,
    direction: Direction,
    sizing: Sizing,
)
    requires
        is_laid_out(state),
        state.resize_delta > 0,
        moved(state.resize_edge(direction, sizing)),
        length(focused_tile(state), along(direction)) >= 3,
        length(focused_tile(state.resize_edge(direction, sizing).0), along(direction)) >= 3,
        !is_mirrored(focused_workspace_of(state), along(direction)),
    ensures
        ({
            let axis = along(direction);
            let before = focused_tile(state);
            let after = focused_tile(state.resize_edge(direction, sizing).0);
            let grown = if sizing is Increase {
                length(before, axis) <= length(after, axis)
            } else {
                length(after, axis) <= length(before, axis)
            };
            &&& before != after
            &&& grown
            &&& near_edge(before, across(axis)) == near_edge(after, across(axis))
            &&& far_edge(before, across(axis)) == far_edge(after, across(axis))
            &&& direction is Right || direction is Down ==> near_edge(before, axis) == near_edge(
                after,
                axis,
            ) && (if sizing is Increase {
                far_edge(before, axis) < far_edge(after, axis)
            } else {
                far_edge(after, axis) < far_edge(before, axis)
            })
            &&& direction is Left || direction is Up ==> if sizing is Increase {
                near_edge(after, axis) <= near_edge(before, axis)
            } else {
                near_edge(before, axis) <= near_edge(after, axis)
            }
        }),
{
    let axis = along(direction);
    a_resize_on_screen(state, direction, sizing);
}

/// A resize that moves something never makes the focused tile shorter when
/// increasing, nor longer when decreasing, whichever way the workspace is mirrored,
/// and leaves it alone across.
pub proof fn increasing_never_shrinks(state: StateView, axis: Axis, sizing: Sizing)
    requires
        is_laid_out(state),
        state.resize_delta > 0,
        moved(state.resize_axis(axis, sizing)),
        length(focused_tile(state), axis) >= 3,
        length(focused_tile(state.resize_axis(axis, sizing).0), axis) >= 3,
    ensures
        ({
            let before = focused_tile(state);
            let after = focused_tile(state.resize_axis(axis, sizing).0);
            &&& before != after
            &&& if sizing is Increase {
                length(before, axis) <= length(after, axis)
            } else {
                length(after, axis) <= length(before, axis)
            }
            &&& near_edge(before, across(axis)) == near_edge(after, across(axis))
            &&& far_edge(before, across(axis)) == far_edge(after, across(axis))
        }),
{
    let (far, near) = edges_along(axis);
    resizing_an_axis_is_resizing_one_of_its_edges(state, axis, sizing);
    if moved(state.resize_edge(far, sizing)) {
        a_resize_on_screen(state, far, sizing);
    } else {
        a_resize_on_screen(state, near, sizing);
    }
}

proof fn a_resize_on_screen(state: StateView, direction: Direction, sizing: Sizing)
    requires
        is_laid_out(state),
        state.resize_delta > 0,
        moved(state.resize_edge(direction, sizing)),
        length(focused_tile(state), along(direction)) >= 3,
        length(focused_tile(state.resize_edge(direction, sizing).0), along(direction)) >= 3,
    ensures
        ({
            let axis = along(direction);
            let before = focused_tile(state);
            let after = focused_tile(state.resize_edge(direction, sizing).0);
            let mirrored = is_mirrored(focused_workspace_of(state), axis);
            &&& before != after
            &&& near_edge(before, across(axis)) == near_edge(after, across(axis))
            &&& far_edge(before, across(axis)) == far_edge(after, across(axis))
            &&& if sizing is Increase {
                length(before, axis) <= length(after, axis)
            } else {
                length(after, axis) <= length(before, axis)
            }
            &&& direction is Right || direction is Down ==> if mirrored {
                far_edge(before, axis) == far_edge(after, axis)
            } else {
                near_edge(before, axis) == near_edge(after, axis)
            }
            &&& (direction is Left || direction is Up) && !mirrored ==> if sizing is Increase {
                near_edge(after, axis) <= near_edge(before, axis)
            } else {
                near_edge(before, axis) <= near_edge(after, axis)
            }
        }),
{
    let axis = along(direction);
    let now = focused_workspace_of(state);
    let then = focused_workspace_of(state.resize_edge(direction, sizing).0);
    let f = now.containers.focused;
    let len = now.containers.len();
    let (area, gap, min, a, b) = what_a_resize_stores(state, direction, sizing);
    let layout = now.resolved(len);
    let flip = now.layout_flip;
    an_arranged_tile(layout, area, len, gap, flip, a, min, f);
    an_arranged_tile(layout, area, len, gap, flip, b, min, f);
    if direction is Right || direction is Down {
        if sizing is Increase {
            a_push_ahead_on_screen(layout, area, len, gap, flip, a, b, min, f, axis);
        } else {
            a_push_ahead_on_screen(layout, area, len, gap, flip, b, a, min, f, axis);
        }
    } else {
        if sizing is Increase {
            a_pull_back_on_screen(layout, area, len, gap, flip, a, b, min, f, axis);
        } else {
            a_pull_back_on_screen(layout, area, len, gap, flip, b, a, min, f, axis);
        }
    }
}

/// What a resize stores, and how the workspace is laid out before and after.
proof fn what_a_resize_stores(state: StateView, direction: Direction, sizing: Sizing) -> (r: (
    Rect,
    i32,
    MinSize,
    Seq<Option<Rect>>,
    Seq<Option<Rect>>,
))
    requires
        is_laid_out(state),
        state.resize_delta > 0,
        moved(state.resize_edge(direction, sizing)),
    ensures
        ({
            let (area, gap, min, a, b) = r;
            let axis = along(direction);
            let now = focused_workspace_of(state);
            let then = focused_workspace_of(state.resize_edge(direction, sizing).0);
            let f = now.containers.focused;
            let len = now.containers.len();
            let layout = now.resolved(len);
            &&& proper(area)
            &&& 0 <= f < len
            &&& then.containers == now.containers
            &&& now.latest_layout == layout.arrangement(area, len, gap, now.layout_flip, a, min)
            &&& then.latest_layout == layout.arrangement(area, len, gap, now.layout_flip, b, min)
            &&& now.latest_layout.len() == len
            &&& then.latest_layout.len() == len
            &&& now.latest_layout[f] != then.latest_layout[f]
            &&& if direction is Right || direction is Down {
                if sizing is Increase {
                    pushed_ahead(a, b, f, axis)
                } else {
                    pushed_ahead(b, a, f, axis)
                }
            } else {
                if sizing is Increase {
                    pulled_back(a, b, f, axis)
                } else {
                    pulled_back(b, a, f, axis)
                }
            }
        }),
{
    let axis = along(direction);
    let (m, w, t) = state.target()->Ok_0;
    let bench = state.bench(m, w, t);
    let now = focused_workspace_of(state);
    let by = sizing.signed(state.resize_delta) as int;
    let far = direction is Right || direction is Down;
    let f = now.containers.focused;
    let len = now.containers.len();
    assert(crate::model::changes::ChangesView::none().retiled.len() == 0);
    the_bench_is_the_workspace(state);
    let a = now.resize_dimensions;
    let b = a.update(f, Some(nudge(delta_or_zero(now.delta(f)), axis, far, by)));
    assert(crate::model::workspace::fitted(b, len) =~= b);
    let area = now.area(
        state.area_for(m, w)->0,
        state.default_workspace_padding,
        state.padding_scale(m),
    );
    let gap = now.gap(state.default_container_padding, state.padding_scale(m));
    let min = now.min_tile(state.padding_scale(m));
    let layout = now.resolved(len);
    an_arranged_tile(layout, area, len, gap, now.layout_flip, a, min, f);
    an_arranged_tile(layout, area, len, gap, now.layout_flip, b, min, f);
    a_nudge_is_a_push(a, f, axis, far, by);
    assert(bench.moves(axis, far, by));
    (area, gap, min, a, b)
}

/// A workspace that is laid out is what a resize starts from.
proof fn the_bench_is_the_workspace(state: StateView)
    requires
        is_laid_out(state),
    ensures
        ({
            let (m, w, t) = state.target()->Ok_0;
            let now = focused_workspace_of(state);
            let len = now.containers.len();
            &&& m == state.monitors.focused
            &&& w == state.monitors.elements[m].workspaces.focused
            &&& 0 <= m < state.monitors.len()
            &&& 0 <= w < state.monitors.elements[m].workspaces.len()
            &&& state.bench(m, w, t).workspace == now
            &&& now.resize_dimensions.len() == len
            &&& now.latest_layout == now.resolved(len).arrangement(
                now.area(
                    state.area_for(m, w)->0,
                    state.default_workspace_padding,
                    state.padding_scale(m),
                ),
                len,
                now.gap(state.default_container_padding, state.padding_scale(m)),
                now.layout_flip,
                now.resize_dimensions,
                now.min_tile(state.padding_scale(m)),
            )
        }),
{
    let (m, w, t) = state.target()->Ok_0;
    let now = focused_workspace_of(state);
    let after = state.refreshed(m, w);
    assert(after.monitors.elements[m].workspaces.elements[w] == state.bench(m, w, t).workspace);
    assert(state.bench(m, w, t).workspace == now);
}

proof fn a_nudge_is_a_push(a: Seq<Option<Rect>>, f: int, axis: Axis, far: bool, by: int)
    requires
        0 <= f < a.len(),
    ensures
        ({
            let b = a.update(f, Some(nudge(delta_or_zero(a[f]), axis, far, by)));
            &&& far && by >= 0 ==> pushed_ahead(a, b, f, axis)
            &&& far && by <= 0 ==> pushed_ahead(b, a, f, axis)
            &&& !far && by >= 0 ==> pulled_back(a, b, f, axis)
            &&& !far && by <= 0 ==> pulled_back(b, a, f, axis)
        }),
{
    let b = a.update(f, Some(nudge(delta_or_zero(a[f]), axis, far, by)));
    assert forall|k: int, x: Axis| k != f || x != axis || !far implies #[trigger] push_ahead(a, k, x)
        == push_ahead(b, k, x) by {}
    assert forall|k: int, x: Axis| k != f || x != axis || far implies #[trigger] push_back(a, k, x)
        == push_back(b, k, x) by {}
}

} // verus!
