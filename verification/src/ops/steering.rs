//! Where the focus and the focused container go.

use vstd::prelude::*;

use crate::geometry::{Direction, Rect};
use crate::model::changes::ChangesView;
use crate::model::container::ContainerView;
use crate::model::ring::CycleDirection;
use crate::model::state::StateView;
use crate::model::window::WindowId;
use crate::model::workspace::WorkspaceView;
use crate::neighbours::{
    columns_are_neighbours_in_order, in_columns, in_rows, is_neighbour, leads_somewhere,
    rows_are_neighbours_in_order, the_neighbour_is_picked,
};
use crate::ops::growing::focused_workspace_of;

verus! {

/// The workspace at `w` on the monitor at `m`.
pub open spec fn at(state: StateView, m: int, w: int) -> WorkspaceView {
    state.monitors.elements[m].workspaces.elements[w]
}

/// The index of the focused workspace on the focused monitor.
pub open spec fn on_front(state: StateView) -> int {
    state.monitors.elements[state.monitors.focused].workspaces.focused
}

/// `true` when a workspace has the focus and commands are obeyed.
pub open spec fn is_ready(state: StateView) -> bool {
    &&& !state.is_paused
    &&& 0 <= state.monitors.focused < state.monitors.len()
    &&& 0 <= on_front(state) < state.monitors.elements[state.monitors.focused].workspaces.len()
}

/// `true` when the focus is on the tiles: nothing is maximized or monocled, and no
/// floating window has it.
pub open spec fn is_tiled_focus(workspace: WorkspaceView) -> bool {
    &&& workspace.maximized_window is None
    &&& workspace.monocle_container is None
    &&& !(workspace.focus_is_floating && workspace.floating_windows.elements.len() > 0)
}

/// `true` when every container has a tile and one of them the focus.
pub open spec fn has_tiles(workspace: WorkspaceView) -> bool {
    &&& 0 <= workspace.containers.focused < workspace.containers.elements.len()
    &&& workspace.latest_layout.len() == workspace.containers.elements.len()
}

/// The visible window of a container that has one.
pub open spec fn shown(container: ContainerView) -> Option<WindowId> {
    if 0 <= container.focused < container.elements.len() {
        Some(container.elements[container.focused].id)
    } else {
        None
    }
}

/// The monitors are the same, and so is every workspace but the one at `w` on the
/// monitor at `m`.
pub open spec fn only_touches(before: StateView, after: StateView, m: int, w: int) -> bool {
    &&& after.monitors.elements.len() == before.monitors.elements.len()
    &&& forall|i: int|
        0 <= i < before.monitors.elements.len() ==> {
            let (a, b) = (before.monitors.elements[i], #[trigger] after.monitors.elements[i]);
            &&& b.size == a.size
            &&& b.work_area == a.work_area
            &&& b.workspaces.elements.len() == a.workspaces.elements.len()
        }
    &&& forall|i: int, k: int|
        0 <= i < before.monitors.elements.len() && 0 <= k
            < before.monitors.elements[i].workspaces.elements.len() && (i, k) != (m, w)
            ==> #[trigger] at(after, i, k) == at(before, i, k)
}

/// The focus is on the same monitor and workspace.
pub open spec fn stays(before: StateView, after: StateView) -> bool {
    &&& after.monitors.focused == before.monitors.focused
    &&& on_front(after) == on_front(before)
}

/// Nothing has to be done on screen but to give `id` the keyboard.
pub open spec fn only_focuses(changes: ChangesView, id: Option<WindowId>) -> bool {
    &&& changes.focus == id
    &&& changes.retiled.len() == 0
    &&& changes.show.len() == 0
    &&& changes.hide.len() == 0
    &&& changes.minimize.len() == 0
    &&& changes.restore.len() == 0
    &&& changes.maximize is None
    &&& changes.close is None
}

/// The rectangles of the displays.
pub open spec fn displays(state: StateView) -> Seq<Rect> {
    Seq::new(state.monitors.elements.len(), |i: int| state.monitors.elements[i].size)
}

/// Focusing in a direction gives the focus to the neighbour of the focused tile
/// there: the closest of the tiles straight ahead, or of the others when none is.
/// No window moves.
pub proof fn focusing_goes_to_the_neighbour(state: StateView, direction: Direction)
    requires
        is_ready(state),
        is_tiled_focus(focused_workspace_of(state)),
        has_tiles(focused_workspace_of(state)),
        ({
            let workspace = focused_workspace_of(state);
            leads_somewhere(workspace.latest_layout, workspace.containers.focused, direction)
        }),
    ensures
        ({
            let (after, r) = state.focus_direction(direction);
            let workspace = focused_workspace_of(state);
            let now = focused_workspace_of(after);
            let k = now.containers.focused;
            &&& r is Ok
            &&& stays(state, after)
            &&& only_touches(state, after, state.monitors.focused, on_front(state))
            &&& now.containers.elements == workspace.containers.elements
            &&& now.latest_layout == workspace.latest_layout
            &&& is_tiled_focus(now)
            &&& is_neighbour(workspace.latest_layout, workspace.containers.focused, direction, k)
            &&& only_focuses(r->Ok_0, shown(workspace.containers.elements[k]))
            &&& !r->Ok_0.focused_monitor_changed
        }),
{
    let workspace = focused_workspace_of(state);
    the_neighbour_is_picked(workspace.latest_layout, workspace.containers.focused, direction);
}

/// In a row of columns, focusing left and right goes to the column next to the
/// focused one, and in a pile of rows focusing up and down to the row next to it.
pub proof fn focusing_goes_one_tile_on(state: StateView)
    requires
        is_ready(state),
        is_tiled_focus(focused_workspace_of(state)),
        has_tiles(focused_workspace_of(state)),
    ensures
        ({
            let workspace = focused_workspace_of(state);
            let f = workspace.containers.focused;
            let right = focused_workspace_of(state.focus_direction(Direction::Right).0);
            let left = focused_workspace_of(state.focus_direction(Direction::Left).0);
            let down = focused_workspace_of(state.focus_direction(Direction::Down).0);
            let up = focused_workspace_of(state.focus_direction(Direction::Up).0);
            let last = workspace.containers.elements.len() - 1;
            &&& in_columns(workspace.latest_layout) && f < last ==> right.containers.focused == f + 1
            &&& in_columns(workspace.latest_layout) && f > 0 ==> left.containers.focused == f - 1
            &&& in_rows(workspace.latest_layout) && f < last ==> down.containers.focused == f + 1
            &&& in_rows(workspace.latest_layout) && f > 0 ==> up.containers.focused == f - 1
        }),
{
    let workspace = focused_workspace_of(state);
    if in_columns(workspace.latest_layout) {
        columns_are_neighbours_in_order(workspace.latest_layout, workspace.containers.focused);
    }
    if in_rows(workspace.latest_layout) {
        rows_are_neighbours_in_order(workspace.latest_layout, workspace.containers.focused);
    }
}

/// Where no tile lies in the direction, the focus goes to the monitor there, to the
/// workspace and the window that have it on that monitor. Where no monitor lies
/// there either, nothing happens.
pub proof fn focusing_past_the_edge_goes_to_the_next_monitor(state: StateView, direction: Direction)
    requires
        is_ready(state),
        has_tiles(focused_workspace_of(state)),
        ({
            let workspace = focused_workspace_of(state);
            !leads_somewhere(workspace.latest_layout, workspace.containers.focused, direction)
        }),
    ensures
        ({
            let (after, r) = state.focus_direction(direction);
            &&& r is Ok
            &&& after.monitors.elements == state.monitors.elements
            &&& if leads_somewhere(displays(state), state.monitors.focused, direction) {
                &&& is_neighbour(
                    displays(state),
                    state.monitors.focused,
                    direction,
                    after.monitors.focused,
                )
                &&& r->Ok_0.focused_monitor_changed
                &&& only_focuses(r->Ok_0, after.focused_id())
            } else {
                after == state && r->Ok_0 == ChangesView::none()
            }
        }),
{
    let workspace = focused_workspace_of(state);
    the_neighbour_is_picked(workspace.latest_layout, workspace.containers.focused, direction);
    assert(state.screens() =~= displays(state));
    the_neighbour_is_picked(displays(state), state.monitors.focused, direction);
}

/// Moving in a direction trades places with the neighbour of the focused tile
/// there, takes the focus along and leaves every other container where it is.
pub proof fn moving_trades_places_with_the_neighbour(state: StateView, direction: Direction)
    requires
        is_ready(state),
        is_tiled_focus(focused_workspace_of(state)),
        has_tiles(focused_workspace_of(state)),
        ({
            let workspace = focused_workspace_of(state);
            leads_somewhere(workspace.latest_layout, workspace.containers.focused, direction)
        }),
    ensures
        ({
            let (after, r) = state.move_direction(direction);
            let workspace = focused_workspace_of(state);
            let f = workspace.containers.focused;
            let now = focused_workspace_of(after);
            let k = now.containers.focused;
            let (old, new) = (workspace.containers.elements, now.containers.elements);
            &&& r is Ok
            &&& stays(state, after)
            &&& only_touches(state, after, state.monitors.focused, on_front(state))
            &&& is_neighbour(workspace.latest_layout, f, direction, k)
            &&& new.len() == old.len()
            &&& new[k] == old[f]
            &&& new[f] == old[k]
            &&& forall|i: int| 0 <= i < old.len() && i != f && i != k ==> new[i] == #[trigger] old[i]
            &&& r->Ok_0.focus == shown(old[f])
            &&& r->Ok_0.retiled.len() == 1
        }),
{
    let workspace = focused_workspace_of(state);
    the_neighbour_is_picked(workspace.latest_layout, workspace.containers.focused, direction);
}

/// The index next to `idx` among `len`, going round at the ends.
pub open spec fn next_to(idx: int, len: int, direction: CycleDirection) -> int {
    if direction is Next {
        if idx == len - 1 {
            0
        } else {
            idx + 1
        }
    } else {
        if idx == 0 {
            len - 1
        } else {
            idx - 1
        }
    }
}

proof fn a_step_is_next(idx: int, len: int, direction: CycleDirection)
    requires
        0 <= idx < len,
    ensures
        crate::model::ring::stepped(direction, idx, len) == next_to(idx, len, direction),
{
    if idx + 1 == len {
        assert((idx + 1) % len == 0) by (nonlinear_arith)
            requires
                idx + 1 == len,
                len > 0,
        ;
    } else {
        assert((idx + 1) % len == idx + 1) by (nonlinear_arith)
            requires
                0 <= idx + 1 < len,
        ;
    }
}

/// Cycling the focus gives it to the container next in the ring, cycling a container
/// trades its place with that one and keeps the focus on it, and cycling a stack
/// brings up the window next in it. Going on and going back are each other's
/// opposite, and the ring goes round at its ends.
pub proof fn cycling_goes_to_the_next(state: StateView, direction: CycleDirection)
    requires
        is_ready(state),
        is_tiled_focus(focused_workspace_of(state)),
        ({
            let workspace = focused_workspace_of(state);
            let f = workspace.containers.focused;
            &&& 0 <= f < workspace.containers.elements.len()
            &&& 0 <= workspace.containers.elements[f].focused
                < workspace.containers.elements[f].elements.len()
        }),
    ensures
        ({
            let workspace = focused_workspace_of(state);
            let old = workspace.containers.elements;
            let f = workspace.containers.focused;
            let next = next_to(f, old.len() as int, direction);
            let focused = focused_workspace_of(state.cycle_focus(direction).0);
            let moved = focused_workspace_of(state.cycle_move(direction).0);
            let turned = focused_workspace_of(state.cycle_stack(direction).0);
            &&& state.cycle_focus(direction).1 is Ok
            &&& focused.containers.elements == old
            &&& focused.containers.focused == next
            &&& only_focuses(state.cycle_focus(direction).1->Ok_0, shown(old[next]))
            &&& state.cycle_move(direction).1 is Ok
            &&& moved.containers.focused == next
            &&& moved.containers.elements.len() == old.len()
            &&& moved.containers.elements[next] == old[f]
            &&& moved.containers.elements[f] == old[next]
            &&& forall|i: int|
                0 <= i < old.len() && i != f && i != next ==> moved.containers.elements[i]
                    == #[trigger] old[i]
            &&& state.cycle_move(direction).1->Ok_0.focus == shown(old[f])
            &&& state.cycle_stack(direction).1 is Ok
            &&& turned.containers.focused == f
            &&& turned.containers.elements.len() == old.len()
            &&& turned.containers.elements[f].elements == old[f].elements
            &&& turned.containers.elements[f].focused == next_to(
                old[f].focused,
                old[f].elements.len() as int,
                direction,
            )
            &&& forall|i: int|
                0 <= i < old.len() && i != f ==> turned.containers.elements[i] == #[trigger] old[i]
            &&& state.cycle_stack(direction).1->Ok_0.focus == shown(turned.containers.elements[f])
        }),
{
    let workspace = focused_workspace_of(state);
    let old = workspace.containers.elements;
    let f = workspace.containers.focused;
    a_step_is_next(f, old.len() as int, direction);
    a_step_is_next(old[f].focused, old[f].elements.len() as int, direction);
}

/// Cycling through workspaces and monitors goes to the next one on the focused
/// monitor and the next monitor, going round at the ends.
pub proof fn cycling_goes_to_the_next_workspace_and_monitor(
    state: StateView,
    direction: CycleDirection,
)
    requires
        is_ready(state),
    ensures
        ({
            let monitor = state.monitors.elements[state.monitors.focused];
            let workspace = state.cycle_workspace(direction);
            let other = state.cycle_monitor(direction);
            &&& workspace.1 is Ok
            &&& workspace.0.monitors.focused == state.monitors.focused
            &&& on_front(workspace.0) == next_to(
                on_front(state),
                monitor.workspaces.elements.len() as int,
                direction,
            )
            &&& other.1 is Ok
            &&& other.0.monitors.elements == state.monitors.elements
            &&& other.0.monitors.focused == next_to(
                state.monitors.focused,
                state.monitors.elements.len() as int,
                direction,
            )
        }),
{
    let monitor = state.monitors.elements[state.monitors.focused];
    a_step_is_next(on_front(state), monitor.workspaces.elements.len() as int, direction);
    a_step_is_next(
        state.monitors.focused,
        state.monitors.elements.len() as int,
        direction,
    );
}

/// Promoting brings the focused container to the front with the focus on it, and
/// leaves the others in their order behind it. Promoting the focus only moves the
/// focus to the container at the front.
pub proof fn promoting_brings_to_the_front(state: StateView)
    requires
        is_ready(state),
        is_tiled_focus(focused_workspace_of(state)),
        ({
            let workspace = focused_workspace_of(state);
            0 <= workspace.containers.focused < workspace.containers.elements.len()
        }),
    ensures
        ({
            let workspace = focused_workspace_of(state);
            let f = workspace.containers.focused;
            let old = workspace.containers.elements;
            let now = focused_workspace_of(state.promote().0).containers;
            let looking = focused_workspace_of(state.promote_focus().0).containers;
            &&& state.promote().1 is Ok
            &&& now.focused == 0
            &&& now.elements == seq![old[f]] + old.take(f) + old.skip(f + 1)
            &&& f > 0 ==> state.promote().1->Ok_0.focus == shown(old[f])
            &&& state.promote_focus().1 is Ok
            &&& looking.elements == old
            &&& looking.focused == 0
            &&& only_focuses(state.promote_focus().1->Ok_0, shown(old[0]))
        }),
{
    let workspace = focused_workspace_of(state);
    let f = workspace.containers.focused;
    let old = workspace.containers.elements;
    let now = focused_workspace_of(state.promote().0).containers;
    assert(now.elements =~= seq![old[f]] + old.take(f) + old.skip(f + 1));
}

} // verus!
