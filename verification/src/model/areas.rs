//! Where on a display the tiles go.

use vstd::prelude::*;

use crate::geometry::{Axis, Offset, Rect};
use crate::model::monitor::MonitorView;
use crate::model::scale::{factor, scaled, Scale, DEFAULT_DPI, PARTS};
use crate::model::single::rounding_keeps_the_order;
use crate::model::state::{covers, StateView};
use crate::model::workspace::WorkspaceView;
use crate::seqs::{first_idx, first_when_any};

verus! {

/// The sides of `inner` lie that far inside the sides of `outer`.
pub open spec fn lies_inside(
    outer: Rect,
    inner: Rect,
    left: int,
    top: int,
    right: int,
    bottom: int,
) -> bool {
    &&& inner.left == outer.left + left
    &&& inner.top == outer.top + top
    &&& inner.right == outer.right - right
    &&& inner.bottom == outer.bottom - bottom
}

/// A whole number that a coordinate can hold.
pub open spec fn is_coordinate(x: int) -> bool {
    i32::MIN <= x <= i32::MAX
}

/// An offset takes its own amount off each side of an area.
pub proof fn an_offset_takes_off_each_side(area: Rect, offset: Offset)
    requires
        is_coordinate(area.left + offset.left),
        is_coordinate(area.top + offset.top),
        is_coordinate(area.right - offset.right),
        is_coordinate(area.bottom - offset.bottom),
    ensures
        lies_inside(
            area,
            offset.apply(area),
            offset.left as int,
            offset.top as int,
            offset.right as int,
            offset.bottom as int,
        ),
{
}

/// A padding takes the same amount off each side, as long as something is left
/// between them. It never turns an area inside out, and never leaves it.
pub proof fn a_padding_takes_off_each_side(area: Rect, padding: i32)
    requires
        area.left < area.right,
        area.top < area.bottom,
        is_coordinate(area.right - area.left),
        is_coordinate(area.bottom - area.top),
    ensures
        0 <= padding && 2 * padding < area.right - area.left && 2 * padding < area.bottom - area.top
            ==> lies_inside(
            area,
            area.padded_clamped(padding),
            padding as int,
            padding as int,
            padding as int,
            padding as int,
        ),
        padding <= 0 ==> area.padded_clamped(padding) == area,
        area.left <= area.padded_clamped(padding).left < area.padded_clamped(padding).right
            <= area.right,
        area.top <= area.padded_clamped(padding).top < area.padded_clamped(padding).bottom
            <= area.bottom,
        area.padded_clamped(padding).left - area.left == area.right - area.padded_clamped(
            padding,
        ).right,
        area.padded_clamped(padding).top - area.top == area.bottom - area.padded_clamped(
            padding,
        ).bottom,
{
}

/// The offset of the monitor itself counts before that of all monitors, and with
/// neither the whole work area is there for the tiles.
pub proof fn a_monitor_has_its_own_offset(
    monitor: MonitorView,
    workspace: int,
    global: Option<Offset>,
)
    requires
        monitor.window_based_work_area_offset is None,
    ensures
        monitor.work_area_offset matches Some(own) ==> monitor.area_for(workspace, global)
            == own.apply(monitor.work_area),
        monitor.work_area_offset is None && global is Some ==> monitor.area_for(workspace, global)
            == global->0.apply(monitor.work_area),
        monitor.work_area_offset is None && global is None ==> monitor.area_for(workspace, global)
            == monitor.work_area,
{
}

/// The window based offset comes on top, on a workspace that takes it and has no
/// more containers than the limit, and on no other.
pub proof fn few_windows_take_the_window_based_offset(
    monitor: MonitorView,
    w: int,
    global: Option<Offset>,
)
    requires
        0 <= w < monitor.workspaces.elements.len(),
        monitor.window_based_work_area_offset is Some,
    ensures
        ({
            let bare = MonitorView { window_based_work_area_offset: None, ..monitor };
            let workspace = monitor.workspaces.elements[w];
            let few = workspace.containers.elements.len()
                <= monitor.window_based_work_area_offset_limit;
            &&& workspace.apply_window_based_work_area_offset && few ==> monitor.area_for(w, global)
                == monitor.window_based_work_area_offset->0.apply(bare.area_for(w, global))
            &&& !workspace.apply_window_based_work_area_offset || !few ==> monitor.area_for(
                w,
                global,
            ) == bare.area_for(w, global)
        }),
{
}

/// What is asked for: the workspace's own when it has one, the default otherwise.
pub open spec fn own_or(own: Option<i32>, default: i32) -> int {
    match own {
        Some(own) => own as int,
        None => default as int,
    }
}

/// At 100 percent a workspace tiles into the work area less its own padding, or the
/// default one when it has none, on every side.
pub proof fn a_workspace_keeps_its_padding(workspace: WorkspaceView, area: Rect, default: i32)
    requires
        0 <= own_or(workspace.workspace_padding, default),
        2 * own_or(workspace.workspace_padding, default) < area.right - area.left <= i32::MAX,
        2 * own_or(workspace.workspace_padding, default) < area.bottom - area.top <= i32::MAX,
    ensures
        ({
            let p = own_or(workspace.workspace_padding, default);
            lies_inside(area, workspace.area(area, default, Scale::one()), p, p, p, p)
        }),
{
    a_padding_takes_off_each_side(area, own_or(workspace.workspace_padding, default) as i32);
}

/// At 100 percent the space between two tiles is the container padding of the
/// workspace, or the default one when it has none, and a tile is never smaller than
/// the workspace allows.
pub proof fn tiles_keep_the_container_padding(workspace: WorkspaceView, default: i32)
    ensures
        workspace.gap(default, Scale::one()) == own_or(workspace.container_padding, default),
        workspace.min_tile(Scale::one()).width == workspace.minimum_window_width,
        workspace.min_tile(Scale::one()).height == workspace.minimum_window_height,
{
}

/// A denser display never gets fewer pixels of padding, and a longer length never
/// fewer than a shorter one.
pub proof fn a_denser_display_gets_more_pixels(length: int, a: Scale, b: Scale)
    requires
        0 <= length,
        a.dpi <= b.dpi,
        a.dpi != DEFAULT_DPI,
        b.dpi != DEFAULT_DPI,
    ensures
        0 <= scaled(length, a) <= scaled(length, b),
        scaled(-length, a) >= scaled(-length, b),
{
    let (p, q) = (a.dpi as int, b.dpi as int);
    rounding_keeps_the_order(p, q, 1);
    let (x, y) = (
        crate::model::single::single(p, 1),
        crate::model::single::single(q, 1),
    );
    rounding_keeps_the_order(x * PARTS, y * PARTS, DEFAULT_DPI as int);
    rounding_keeps_the_order(length, length, 1);
    let l = crate::model::single::single(length, 1);
    assert(0 <= l * factor(a) <= l * factor(b)) by (nonlinear_arith)
        requires
            0 <= l,
            0 <= factor(a) <= factor(b),
    ;
    rounding_keeps_the_order(l * factor(a), l * factor(b), 1);
    if length == 0 {
        assert(-length == length);
        let (s, t) = (factor(a), factor(b));
        assert(l == 0) by {
            assert(crate::model::single::spacing(0, 1) == 1);
        }
        assert(l * s == 0 && l * t == 0) by (nonlinear_arith)
            requires
                l == 0,
        ;
    }
}

/// The padding is scaled by the density of the display it is on where that is
/// wanted, and left alone where it is not.
pub proof fn padding_goes_by_the_density_of_its_display(state: StateView, m: int)
    requires
        0 <= m < state.monitors.elements.len(),
        state.monitors.elements[m].dpi > 0,
    ensures
        state.scale_padding_with_dpi ==> state.padding_scale(m).dpi
            == state.monitors.elements[m].dpi,
        !state.scale_padding_with_dpi ==> forall|padding: i32|
            #[trigger] scaled(padding as int, state.padding_scale(m)) == padding,
{
}

/// The display under a point is the first one whose rectangle the point lies in.
pub proof fn a_point_is_on_the_display_around_it(state: StateView, x: i32, y: i32)
    ensures
        match first_idx(state.monitors.elements, covers(x, y)) {
            Some(m) => {
                let size = state.monitors.elements[m].size;
                &&& 0 <= m < state.monitors.elements.len()
                &&& size.left <= x < size.right
                &&& size.top <= y < size.bottom
            },
            None => forall|m: int|
                0 <= m < state.monitors.elements.len() ==> {
                    let size = (#[trigger] state.monitors.elements[m]).size;
                    !(size.left <= x < size.right && size.top <= y < size.bottom)
                },
        },
{
    first_when_any(state.monitors.elements, covers(x, y));
    if first_idx(state.monitors.elements, covers(x, y)) is None {
        assert forall|m: int| 0 <= m < state.monitors.elements.len() implies {
            let size = (#[trigger] state.monitors.elements[m]).size;
            !(size.left <= x < size.right && size.top <= y < size.bottom)
        } by {
            assert(!covers(x, y)(state.monitors.elements[m]));
        }
    }
}

/// A rectangle lies in another exactly when its corners do, and two rectangles meet
/// exactly when some pixel is in both.
pub proof fn rectangles_are_their_pixels(a: Rect, b: Rect, x: i32, y: i32)
    requires
        b.left < b.right,
        b.top < b.bottom,
    ensures
        a.contains_rect(&b) <==> a.contains(b.left, b.top) && a.contains(
            (b.right - 1) as i32,
            (b.bottom - 1) as i32,
        ),
        a.contains(x, y) && b.contains(x, y) ==> a.intersects(&b),
        a.contains_rect(&b) && b.contains(x, y) ==> a.contains(x, y),
        a.contains(x, y) <==> a.left <= x <= a.right - 1 && a.top <= y <= a.bottom - 1,
{
}

/// The centre of a rectangle is as far from its near edges as from its far ones, but
/// for the pixel an odd length leaves over.
pub proof fn the_centre_is_in_the_middle(r: Rect)
    requires
        r.left <= r.right,
        r.top <= r.bottom,
        is_coordinate(r.right - r.left),
        is_coordinate(r.bottom - r.top),
    ensures
        0 <= (r.right - r.center_x()) - (r.center_x() - r.left) <= 1,
        0 <= (r.bottom - r.center_y()) - (r.center_y() - r.top) <= 1,
        r.center_on(Axis::Horizontal) == r.center_x(),
        r.center_on(Axis::Vertical) == r.center_y(),
{
}

} // verus!
