//! When a command does nothing, and when it is refused.

use vstd::prelude::*;

use crate::error::ErrorView;
use crate::geometry::{Axis, Direction};
use crate::layout::{Layout, Sizing};
use crate::model::changes::ChangesView;
use crate::model::ring::CycleDirection;
use crate::model::state::StateView;
use crate::ops::growing::focused_workspace_of;
use crate::ops::outcome::Outcome;
use crate::ops::steering::{is_ready, is_tiled_focus};

verus! {

/// The command changed nothing, and nothing has to be done.
pub open spec fn does_nothing(state: StateView, after: Outcome) -> bool {
    after == (state, Ok::<ChangesView, ErrorView>(ChangesView::none()))
}

/// The command changed nothing and says why.
pub open spec fn is_refused(state: StateView, after: Outcome, why: ErrorView) -> bool {
    after == (state, Err::<ChangesView, ErrorView>(why))
}

/// While a window is maximized, a container is in monocle mode or a floating window has
/// the focus, no command moves a tile.
pub proof fn what_is_not_a_tile_is_not_moved(
    state: StateView,
    direction: Direction,
    cycle: CycleDirection,
    m: int,
    w: int,
    follow: bool,
)
    requires
        is_ready(state),
        !is_tiled_focus(focused_workspace_of(state)),
    ensures
        does_nothing(state, state.move_direction(direction)),
        does_nothing(state, state.cycle_move(cycle)),
        does_nothing(state, state.promote()),
        does_nothing(state, state.stack(direction)),
        does_nothing(state, state.unstack()),
        does_nothing(state, state.move_container_to(m, w, follow, Some(direction))),
        does_nothing(state, state.move_container_to(m, w, follow, None)),
{
}

/// Going through the tiles takes the focus away from the floating windows.
pub proof fn going_through_the_tiles_leaves_the_floating_windows(
    state: StateView,
    cycle: CycleDirection,
)
    requires
        is_ready(state),
        focused_workspace_of(state).containers.elements.len() > 0,
    ensures
        !focused_workspace_of(state.cycle_focus(cycle).0).focus_is_floating,
        !focused_workspace_of(state.promote_focus().0).focus_is_floating,
{
}

/// Without a display there is nothing to work on, and every command says so.
pub proof fn without_a_display_every_command_is_refused(
    state: StateView,
    direction: Direction,
    cycle: CycleDirection,
    layout: Layout,
    axis: Axis,
    sizing: Sizing,
)
    requires
        !state.is_paused,
        state.monitors.elements.len() == 0,
    ensures
        ({
            let why = ErrorView::NoFocusedMonitor;
            &&& is_refused(state, state.focus_direction(direction), why)
            &&& is_refused(state, state.cycle_focus(cycle), why)
            &&& is_refused(state, state.cycle_stack(cycle), why)
            &&& is_refused(state, state.move_direction(direction), why)
            &&& is_refused(state, state.cycle_move(cycle), why)
            &&& is_refused(state, state.promote(), why)
            &&& is_refused(state, state.promote_focus(), why)
            &&& is_refused(state, state.stack(direction), why)
            &&& is_refused(state, state.unstack(), why)
            &&& is_refused(state, state.stack_all(), why)
            &&& is_refused(state, state.unstack_all(), why)
            &&& is_refused(state, state.toggle_float(), why)
            &&& is_refused(state, state.toggle_monocle(), why)
            &&& is_refused(state, state.toggle_maximize(), why)
            &&& is_refused(state, state.minimize_focused_window(), why)
            &&& is_refused(state, state.close_focused_window(), why)
            &&& is_refused(state, state.change_layout(layout), why)
            &&& is_refused(state, state.cycle_layout(cycle), why)
            &&& is_refused(state, state.flip_layout(axis), why)
            &&& is_refused(state, state.toggle_tiling(), why)
            &&& is_refused(state, state.resize_axis(axis, sizing), why)
            &&& is_refused(state, state.resize_edge(direction, sizing), why)
        }),
{
}

} // verus!
