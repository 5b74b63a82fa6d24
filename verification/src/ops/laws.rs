//! What holds of the commands as a whole.

use vstd::prelude::*;

use crate::error::ErrorView;
use crate::geometry::{Axis, Direction};
use crate::layout::{Layout, Sizing};
use crate::model::changes::{not_in, not_in_keeps, settled_changes_do_not_blink, ChangesView};
use crate::model::monitor::MonitorView;
use crate::model::ring::CycleDirection;
use crate::model::state::{visible_across, StateView};
use crate::model::window::{WindowId, WindowView};
use crate::ops::outcome::{done, Outcome};
use crate::MAX_WORKSPACES;

verus! {

/// A command that changed nothing and reports nothing.
pub open spec fn is_no_op(state: StateView, after: Outcome) -> bool {
    after == done(state, ChangesView::none())
}

/// While the manager is paused, no command about the focused workspace does
/// anything.
pub proof fn pausing_stops_every_command_on_a_workspace(
    state: StateView,
    direction: Direction,
    cycle: CycleDirection,
    axis: Axis,
    layout: Layout,
    sizing: Sizing,
)
    requires
        state.is_paused,
    ensures
        is_no_op(state, state.retile()),
        is_no_op(state, state.toggle_tiling()),
        is_no_op(state, state.focus_direction(direction)),
        is_no_op(state, state.cycle_focus(cycle)),
        is_no_op(state, state.cycle_stack(cycle)),
        is_no_op(state, state.move_direction(direction)),
        is_no_op(state, state.cycle_move(cycle)),
        is_no_op(state, state.promote()),
        is_no_op(state, state.promote_focus()),
        is_no_op(state, state.stack(direction)),
        is_no_op(state, state.unstack()),
        is_no_op(state, state.stack_all()),
        is_no_op(state, state.unstack_all()),
        is_no_op(state, state.toggle_float()),
        is_no_op(state, state.toggle_monocle()),
        is_no_op(state, state.toggle_maximize()),
        is_no_op(state, state.minimize_focused_window()),
        is_no_op(state, state.close_focused_window()),
        is_no_op(state, state.change_layout(layout)),
        state.focused_workspace() is Ok ==> is_no_op(state, state.cycle_layout(cycle)),
        state.cycle_layout(cycle).0 == state,
        is_no_op(state, state.flip_layout(axis)),
        is_no_op(state, state.resize_axis(axis, sizing)),
        is_no_op(state, state.resize_edge(direction, sizing)),
{
}

/// While the manager is paused, no command about workspaces, monitors or single
/// windows does anything. A new window is only remembered, and a window that is
/// gone is only forgotten.
pub proof fn pausing_stops_every_other_command(
    state: StateView,
    cycle: CycleDirection,
    monitor: int,
    idx: int,
    name: Seq<char>,
    follow: bool,
    window: WindowView,
    x: i32,
    y: i32,
)
    requires
        state.is_paused,
    ensures
        is_no_op(state, state.focus_window(window.id)),
        is_no_op(state, state.focus_workspace(idx)),
        is_no_op(state, state.focus_last_workspace()),
        is_no_op(state, state.cycle_workspace(cycle)),
        is_no_op(state, state.move_to_workspace(idx, follow)),
        is_no_op(state, state.focus_named_workspace(name)),
        is_no_op(state, state.move_to_named_workspace(name, follow)),
        is_no_op(state, state.focus_monitor(idx)),
        is_no_op(state, state.cycle_monitor(cycle)),
        is_no_op(state, state.move_to_monitor(idx, follow)),
        is_no_op(state, state.move_container_to(monitor, idx, follow, None)),
        is_no_op(state, state.float_window(window.id)),
        is_no_op(state, state.swap_window_at_point(window.id, x, y)),
        state.add_window_to(monitor, idx, window).1 == Ok::<ChangesView, ErrorView>(
            ChangesView::none(),
        ),
        state.add_window_to(monitor, idx, window).0.monitors == state.monitors,
        state.remove_window(window.id).1 is Ok ==> state.remove_window(window.id).1 == Ok::<
            ChangesView,
            ErrorView,
        >(ChangesView::none()),
{
}

/// Pausing changes nothing but the pause itself.
pub proof fn pausing_only_pauses(state: StateView)
    requires
        !state.is_paused,
    ensures
        state.toggle_pause() == done(
            StateView { is_paused: true, ..state },
            ChangesView::none(),
        ),
{
}

/// Turning the manager off and on again is a retile: every visible workspace goes
/// back into its tiles, and nothing else happens.
pub proof fn pausing_and_back_is_a_retile(state: StateView)
    requires
        !state.is_paused,
    ensures
        state.toggle_pause().0.toggle_pause() == state.retile(),
{
    let off = state.toggle_pause().0;
    assert((StateView { is_paused: !off.is_paused, ..off }) == state);
}

/// What is shown and hidden is exactly what came on and what went off screen.
pub proof fn show_and_hide_are_the_difference(
    state: StateView,
    before: Seq<WindowId>,
    changes: ChangesView,
    id: WindowId,
)
    requires
        changes.show.len() == 0,
        changes.hide.len() == 0,
    ensures
        state.visibility_delta(before, changes).show.contains(id) <==> state.visible().contains(id)
            && !before.contains(id),
        state.visibility_delta(before, changes).hide.contains(id) <==> before.contains(id)
            && !state.visible().contains(id),
{
    let after = state.visible();
    let filled = ChangesView {
        show: changes.show + not_in(after, before),
        hide: changes.hide + not_in(before, after),
        ..changes
    };
    assert(filled.show =~= not_in(after, before));
    assert(filled.hide =~= not_in(before, after));
    settled_changes_do_not_blink(filled, id);
    not_in_keeps(after, before, id);
    not_in_keeps(before, after, id);
}

/// Whatever the focused workspace of a monitor shows is visible.
pub proof fn a_focused_workspace_is_visible(monitors: Seq<MonitorView>, m: int, id: WindowId)
    requires
        0 <= m < monitors.len(),
        monitors[m].workspaces.current() is Some,
        monitors[m].workspaces.current()->0.visible().contains(id),
    ensures
        visible_across(monitors).contains(id),
    decreases monitors.len(),
{
    let head = visible_across(monitors.drop_last());
    let last = match monitors.last().workspaces.current() {
        Some(w) => w.visible(),
        None => Seq::empty(),
    };
    if m == monitors.len() - 1 {
        let k = choose|k: int| 0 <= k < last.len() && last[k] == id;
        assert((head + last)[head.len() + k] == id);
    } else {
        a_focused_workspace_is_visible(monitors.drop_last(), m, id);
        let k = choose|k: int| 0 <= k < head.len() && head[k] == id;
        assert((head + last)[k] == id);
    }
}

/// The focused window is always on screen.
pub proof fn the_focused_window_is_on_screen(state: StateView)
    requires
        state.wf(),
    ensures
        state.focused_id() matches Some(id) ==> state.visible().contains(id),
{
    if state.focused_id() is Some {
        let m = state.monitors.focused;
        let monitor = state.monitors.elements[m];
        assert(monitor.wf());
        let workspace = monitor.workspaces.elements[monitor.workspaces.focused];
        workspace.the_focused_window_is_visible();
        a_focused_workspace_is_visible(state.monitors.elements, m, state.focused_id()->0);
    }
}

/// Going to a workspace and back to the last one leads to the workspace you came
/// from, and once more leads to the other one again.
pub proof fn the_last_workspace_goes_back_and_forth(state: StateView, idx: int)
    requires
        !state.is_paused,
        state.wf(),
        state.monitors.len() > 0,
        state.monitors.current()->0.workspaces.len() > 0,
        0 <= idx,
        state.allows_workspace(state.monitors.focused, idx),
        idx != state.monitors.current()->0.workspaces.focused,
    ensures
        ({
            let there = state.focus_workspace(idx).0;
            let back = there.focus_last_workspace().0;
            let again = back.focus_last_workspace().0;
            &&& there.focused_indices() == Ok::<(int, int), ErrorView>(
                (state.monitors.focused, idx),
            )
            &&& back.focused_indices() == state.focused_indices()
            &&& again.focused_indices() == there.focused_indices()
        }),
{
    let m = state.monitors.focused;
    let was = state.monitors.elements[m].workspaces.focused;
    assert(state.monitors.elements[m].wf());
    a_switch_is_remembered(state, idx);
    let there = state.focus_workspace(idx).0;
    a_switch_is_remembered(there, was);
    let back = there.focus_workspace(was).0;
    a_switch_is_remembered(back, idx);
}

proof fn a_switch_is_remembered(state: StateView, idx: int)
    requires
        !state.is_paused,
        0 <= state.monitors.focused < state.monitors.len(),
        0 <= idx,
        state.allows_workspace(state.monitors.focused, idx),
        idx != state.monitors.elements[state.monitors.focused].workspaces.focused,
        0 <= state.monitors.elements[state.monitors.focused].workspaces.focused
            < state.monitors.elements[state.monitors.focused].workspaces.len(),
    ensures
        ({
            let after = state.focus_workspace(idx).0;
            let monitor = state.monitors.elements[state.monitors.focused];
            let now = after.monitors.elements[state.monitors.focused];
            &&& !after.is_paused
            &&& after.monitors.focused == state.monitors.focused
            &&& after.monitors.len() == state.monitors.len()
            &&& now.workspaces.focused == idx
            &&& idx < now.workspaces.len()
            &&& now.workspaces.len() >= monitor.workspaces.len()
            &&& now.last_focused_workspace == Some(monitor.workspaces.focused)
        }),
{
}

/// Commands create workspaces only up to the limit, and never remove one.
pub proof fn workspaces_are_created_up_to_the_limit(state: StateView, idx: int)
    requires
        state.monitors.current() is Some,
        0 <= idx,
    ensures
        ({
            let before = state.monitors.current()->0.workspaces.len();
            let after = state.focus_workspace(idx).0.monitors.elements[state.monitors.focused].workspaces.len();
            &&& before <= after
            &&& after > before ==> after <= MAX_WORKSPACES
        }),
        state.focus_workspace(idx).1 is Ok <==> state.is_paused || state.allows_workspace(
            state.monitors.focused,
            idx,
        ),
{
}

/// A resize that does nothing leaves the workspace as it was, laid out.
pub proof fn a_refused_resize_changes_nothing(
    state: StateView,
    axis: Axis,
    direction: Direction,
    sizing: Sizing,
)
    requires
        !state.is_paused,
        state.target() is Ok,
        !state.target()->Ok_0.2.focus_outside_the_ring(),
        state.target()->Ok_0.2.containers.len() > 0,
    ensures
        ({
            let (m, w, t) = state.target()->Ok_0;
            let untouched = state.with_workspace(m, w, state.bench(m, w, t).workspace);
            &&& is_no_op(untouched, state.resize_axis(axis, sizing)) || state.resize_axis(
                axis,
                sizing,
            ).1 == Ok::<ChangesView, ErrorView>(ChangesView::none().retile(m, w))
            &&& is_no_op(untouched, state.resize_edge(direction, sizing)) || state.resize_edge(
                direction,
                sizing,
            ).1 == Ok::<ChangesView, ErrorView>(ChangesView::none().retile(m, w))
        }),
{
}

} // verus!
