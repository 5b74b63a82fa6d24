//! What becomes of a container that leaves its workspace.

use vstd::prelude::*;

use crate::geometry::Direction;
use crate::model::changes::ChangesView;
use crate::model::container::ContainerView;
use crate::model::state::StateView;
use crate::neighbours::{is_neighbour, leads_somewhere, the_neighbour_is_picked};
use crate::ops::growing::focused_workspace_of;
use crate::ops::steering::{at, displays, has_tiles, is_ready, is_tiled_focus, on_front};

verus! {

/// The containers of one workspace, in order.
pub open spec fn containers_at(state: StateView, m: int, w: int) -> Seq<ContainerView> {
    at(state, m, w).containers.elements
}

/// There is a workspace at `w` on the monitor at `m`.
pub open spec fn exists_at(state: StateView, m: int, w: int) -> bool {
    0 <= m < state.monitors.elements.len() && 0 <= w
        < state.monitors.elements[m].workspaces.elements.len()
}

/// The focused workspace has a tiled container with the focus.
pub open spec fn has_something_to_move(state: StateView) -> bool {
    let workspace = focused_workspace_of(state);
    &&& is_ready(state)
    &&& is_tiled_focus(workspace)
    &&& 0 <= workspace.containers.focused < workspace.containers.elements.len()
}

/// Every workspace but two keeps its containers.
pub open spec fn others_keep_theirs(
    before: StateView,
    after: StateView,
    from: (int, int),
    to: (int, int),
) -> bool {
    forall|m: int, w: int|
        exists_at(before, m, w) && (m, w) != from && (m, w) != to ==> #[trigger] containers_at(
            after,
            m,
            w,
        ) == containers_at(before, m, w)
}

/// Laying a workspace out again leaves its containers, and everything elsewhere, alone.
pub proof fn a_refresh_keeps_the_containers(state: StateView, m: int, w: int, i: int, k: int)
    ensures
        state.refreshed(m, w).monitors.elements.len() == state.monitors.elements.len(),
        state.refreshed(m, w).monitors.focused == state.monitors.focused,
        0 <= i < state.monitors.elements.len() ==> {
            let (a, b) = (
                state.monitors.elements[i].workspaces,
                state.refreshed(m, w).monitors.elements[i].workspaces,
            );
            b.elements.len() == a.elements.len() && b.focused == a.focused
        },
        exists_at(state, i, k) ==> at(state.refreshed(m, w), i, k).containers == at(
            state,
            i,
            k,
        ).containers && at(state.refreshed(m, w), i, k).monocle_container == at(
            state,
            i,
            k,
        ).monocle_container && at(state.refreshed(m, w), i, k).maximized_window == at(
            state,
            i,
            k,
        ).maximized_window && at(state.refreshed(m, w), i, k).floating_windows == at(
            state,
            i,
            k,
        ).floating_windows && at(state.refreshed(m, w), i, k).focus_is_floating == at(
            state,
            i,
            k,
        ).focus_is_floating,
{
}

/// The state a move leads to, apart from the layout and what the user looks at.
proof fn a_move_is_a_transfer(
    state: StateView,
    m: int,
    w: int,
    follow: bool,
    entering: Option<Direction>,
    i: int,
    k: int,
)
    requires
        has_something_to_move(state),
        exists_at(state, m, w),
        (m, w) != (state.monitors.focused, on_front(state)),
        exists_at(state, i, k),
    ensures
        ({
            let from = (state.monitors.focused, on_front(state));
            let (after, r) = state.move_container_to(m, w, follow, entering);
            let landed = state.transferred(from, (m, w), entering);
            &&& r is Ok
            &&& exists_at(after, i, k)
            &&& at(after, i, k).containers == at(landed, i, k).containers
            &&& at(after, i, k).monocle_container == at(landed, i, k).monocle_container
            &&& at(after, i, k).maximized_window == at(landed, i, k).maximized_window
            &&& at(after, i, k).floating_windows == at(landed, i, k).floating_windows
            &&& at(after, i, k).focus_is_floating == at(landed, i, k).focus_is_floating
            &&& r->Ok_0.focus == after.focused_id()
            &&& r->Ok_0.focused_monitor_changed == (follow && m != from.0)
            &&& follow ==> after.monitors.focused == m && on_front(after) == w
            &&& !follow ==> after.monitors.focused == from.0 && on_front(after) == from.1
        }),
{
    let from = (state.monitors.focused, on_front(state));
    let landed = state.transferred(from, (m, w), entering);
    a_transfer_keeps_the_shape(state, m, w, entering, i, k);
    a_transfer_keeps_the_shape(state, m, w, entering, m, w);
    a_transfer_keeps_the_shape(state, m, w, entering, from.0, from.1);
    a_refresh_keeps_the_containers(landed, from.0, from.1, i, k);
    a_refresh_keeps_the_containers(landed, from.0, from.1, m, w);
    a_refresh_keeps_the_containers(landed, from.0, from.1, from.0, from.1);
    let once = landed.refreshed(from.0, from.1);
    a_refresh_keeps_the_containers(once, m, w, i, k);
    a_refresh_keeps_the_containers(once, m, w, m, w);
    a_refresh_keeps_the_containers(once, m, w, from.0, from.1);
    let tiled = once.refreshed(m, w);
    let (after, r) = state.move_container_to(m, w, follow, entering);
    assert(after == if follow {
        tiled.look_at(m, w)
    } else {
        tiled
    });
    assert(after.focus_change(after.focused_id()).focus == after.focused_id());
}

/// A transfer leaves the monitors and workspaces there are, and every workspace but two
/// as it is.
pub proof fn a_transfer_keeps_the_shape(
    state: StateView,
    m: int,
    w: int,
    entering: Option<Direction>,
    i: int,
    k: int,
)
    requires
        has_something_to_move(state),
        exists_at(state, m, w),
        (m, w) != (state.monitors.focused, on_front(state)),
        exists_at(state, i, k),
    ensures
        ({
            let from = (state.monitors.focused, on_front(state));
            let landed = state.transferred(from, (m, w), entering);
            &&& exists_at(landed, i, k)
            &&& landed.monitors.elements.len() == state.monitors.elements.len()
            &&& landed.monitors.focused == state.monitors.focused
            &&& landed.monitors.elements[i].workspaces.elements.len()
                == state.monitors.elements[i].workspaces.elements.len()
            &&& landed.monitors.elements[i].workspaces.focused
                == state.monitors.elements[i].workspaces.focused
            &&& (i, k) != from && (i, k) != (m, w) ==> at(landed, i, k) == at(state, i, k)
        }),
{
}

/// `true` when a move between two monitors makes two containers trade places.
pub open spec fn trades(state: StateView, m: int) -> bool {
    state.cross_monitor_move_behaviour is Swap && m != state.monitors.focused
}

proof fn a_transfer_puts_it_there(
    state: StateView,
    m: int,
    w: int,
    entering: Option<Direction>,
)
    requires
        has_something_to_move(state),
        exists_at(state, m, w),
        (m, w) != (state.monitors.focused, on_front(state)),
        0 <= at(state, m, w).containers.focused <= at(state, m, w).containers.elements.len(),
        at(state, m, w).containers.elements.len() > 0 ==> at(state, m, w).containers.focused < at(
            state,
            m,
            w,
        ).containers.elements.len(),
    ensures
        ({
            let from = (state.monitors.focused, on_front(state));
            let landed = state.transferred(from, (m, w), entering);
            let source = at(state, from.0, from.1).containers;
            let there = at(state, m, w).containers;
            let moved = source.elements[source.focused];
            let now = at(landed, m, w);
            let left = at(landed, from.0, from.1).containers;
            &&& now.monocle_container == at(state, m, w).monocle_container
            &&& now.maximized_window == at(state, m, w).maximized_window
            &&& now.floating_windows == at(state, m, w).floating_windows
            &&& !now.focus_is_floating
            &&& if trades(state, m) && there.elements.len() > 0 {
                &&& now.containers.elements == there.elements.update(there.focused, moved)
                &&& now.containers.focused == there.focused
                &&& left.elements == source.elements.update(
                    source.focused,
                    there.elements[there.focused],
                )
                &&& left.focused == source.focused
            } else {
                let slot = if trades(state, m) {
                    0
                } else {
                    match entering {
                        Some(direction) => if direction is Right || direction is Down {
                            0
                        } else {
                            there.elements.len() as int
                        },
                        None => there.focused,
                    }
                };
                &&& now.containers.elements == there.elements.insert(slot, moved)
                &&& now.containers.focused == slot
                &&& left.elements == source.elements.remove(source.focused)
            }
        }),
{
    let from = (state.monitors.focused, on_front(state));
    let source = at(state, from.0, from.1).containers;
    let there = at(state, m, w).containers;
    let moved = source.elements[source.focused];
    if trades(state, m) && there.elements.len() > 0 {
        let back = there.elements[there.focused];
        assert(there.elements.remove(there.focused).insert(there.focused, moved)
            =~= there.elements.update(there.focused, moved));
        assert(source.elements.remove(source.focused).insert(source.focused, back)
            =~= source.elements.update(source.focused, back));
    }
}

/// A move past the edge of a monitor, with `Insert`, brings the focused container to
/// the workspace in front on the next monitor: to its front when it comes from the
/// left or from above, to its back when it comes from the right or from below. The
/// containers there keep their order, those that stay behind keep theirs, and the
/// focus goes along.
pub proof fn a_container_enters_through_the_edge_it_came_over(
    state: StateView,
    direction: Direction,
)
    requires
        has_something_to_move(state),
        has_tiles(focused_workspace_of(state)),
        state.wf(),
        state.cross_monitor_move_behaviour is Insert,
        !leads_somewhere(
            focused_workspace_of(state).latest_layout,
            focused_workspace_of(state).containers.focused,
            direction,
        ),
        leads_somewhere(displays(state), state.monitors.focused, direction),
        forall|i: int|
            0 <= i < state.monitors.elements.len() ==> (
            #[trigger] state.monitors.elements[i]).workspaces.elements.len() > 0,
    ensures
        ({
            let from = (state.monitors.focused, on_front(state));
            let (after, r) = state.move_direction(direction);
            let m = after.monitors.focused;
            let w = on_front(after);
            let source = focused_workspace_of(state).containers;
            let moved = source.elements[source.focused];
            let there = containers_at(state, m, w);
            let now = containers_at(after, m, w);
            &&& r is Ok
            &&& is_neighbour(displays(state), from.0, direction, m)
            &&& w == state.monitors.elements[m].workspaces.focused
            &&& direction is Right || direction is Down ==> now == seq![moved] + there && at(
                after,
                m,
                w,
            ).containers.focused == 0
            &&& direction is Left || direction is Up ==> now == there + seq![moved] && at(
                after,
                m,
                w,
            ).containers.focused == there.len()
            &&& containers_at(after, from.0, from.1) == source.elements.remove(source.focused)
            &&& others_keep_theirs(state, after, from, (m, w))
            &&& r->Ok_0.focused_monitor_changed
        }),
{
    let from = (state.monitors.focused, on_front(state));
    let workspace = focused_workspace_of(state);
    the_neighbour_is_picked(workspace.latest_layout, workspace.containers.focused, direction);
    assert(state.screens() =~= displays(state));
    the_neighbour_is_picked(displays(state), state.monitors.focused, direction);
    let m = crate::geometry::nearest(state.screens(), state.monitors.focused, direction)->0;
    assert(state.monitors.elements[m].wf());
    let w = state.monitors.elements[m].workspaces.focused;
    assert(state.monitors.elements[m].workspaces.elements[w].wf());
    let (after, r) = state.move_container_to(m, w, true, Some(direction));
    assert(state.move_direction(direction) == (after, r));
    a_move_is_a_transfer(state, m, w, true, Some(direction), m, w);
    a_move_is_a_transfer(state, m, w, true, Some(direction), from.0, from.1);
    a_transfer_puts_it_there(state, m, w, Some(direction));
    assert forall|i: int, k: int|
        exists_at(state, i, k) && (i, k) != from && (i, k) != (m, w) implies
            #[trigger] containers_at(after, i, k) == containers_at(state, i, k) by {
        a_move_is_a_transfer(state, m, w, true, Some(direction), i, k);
        a_transfer_keeps_the_shape(state, m, w, Some(direction), i, k);
    }
    let there = containers_at(state, m, w);
    let moved = workspace.containers.elements[workspace.containers.focused];
    assert(there.insert(0, moved) =~= seq![moved] + there);
    assert(there.insert(there.len() as int, moved) =~= there + seq![moved]);
}

/// A move past the edge of a monitor, with `Swap`, trades the focused container for
/// the focused one on the next monitor, each in the other's place, and takes the
/// focus along. With `NoOp` it does nothing, and so it does where there is no
/// monitor.
pub proof fn a_swap_trades_the_focused_containers(state: StateView, direction: Direction)
    requires
        has_something_to_move(state),
        has_tiles(focused_workspace_of(state)),
        state.wf(),
        !leads_somewhere(
            focused_workspace_of(state).latest_layout,
            focused_workspace_of(state).containers.focused,
            direction,
        ),
        forall|i: int|
            0 <= i < state.monitors.elements.len() ==> (
            #[trigger] state.monitors.elements[i]).workspaces.elements.len() > 0,
    ensures
        ({
            let from = (state.monitors.focused, on_front(state));
            let (after, r) = state.move_direction(direction);
            let m = after.monitors.focused;
            let w = on_front(after);
            let source = focused_workspace_of(state).containers;
            let moved = source.elements[source.focused];
            let there = at(state, m, w).containers;
            &&& r is Ok
            &&& !leads_somewhere(displays(state), from.0, direction)
                || state.cross_monitor_move_behaviour is NoOp ==> after == state && r->Ok_0
                == ChangesView::none()
            &&& leads_somewhere(displays(state), from.0, direction)
                && state.cross_monitor_move_behaviour is Swap ==> {
                &&& is_neighbour(displays(state), from.0, direction, m)
                &&& w == state.monitors.elements[m].workspaces.focused
                &&& there.elements.len() > 0 ==> containers_at(after, m, w)
                    == there.elements.update(there.focused, moved) && at(
                    after,
                    m,
                    w,
                ).containers.focused == there.focused && containers_at(after, from.0, from.1)
                    == source.elements.update(
                    source.focused,
                    there.elements[there.focused],
                )
                &&& there.elements.len() == 0 ==> containers_at(after, m, w) == seq![moved]
                    && containers_at(after, from.0, from.1) == source.elements.remove(
                    source.focused,
                )
                &&& r->Ok_0.focused_monitor_changed
            }
        }),
{
    let from = (state.monitors.focused, on_front(state));
    let workspace = focused_workspace_of(state);
    the_neighbour_is_picked(workspace.latest_layout, workspace.containers.focused, direction);
    assert(state.screens() =~= displays(state));
    the_neighbour_is_picked(displays(state), state.monitors.focused, direction);
    if leads_somewhere(displays(state), from.0, direction)
        && state.cross_monitor_move_behaviour is Swap {
        let m = crate::geometry::nearest(state.screens(), state.monitors.focused, direction)->0;
        assert(state.monitors.elements[m].wf());
        let w = state.monitors.elements[m].workspaces.focused;
        assert(state.monitors.elements[m].workspaces.elements[w].wf());
        let (after, r) = state.move_container_to(m, w, true, Some(direction));
        assert(state.move_direction(direction) == (after, r));
        a_move_is_a_transfer(state, m, w, true, Some(direction), m, w);
        a_move_is_a_transfer(state, m, w, true, Some(direction), from.0, from.1);
        a_transfer_puts_it_there(state, m, w, Some(direction));
        let there = at(state, m, w).containers;
        let moved = workspace.containers.elements[workspace.containers.focused];
        if there.elements.len() == 0 {
            assert(there.elements.insert(0, moved) =~= seq![moved]);
        }
    }
}

/// A container sent to another workspace, by its place or its name, or to the
/// workspace in front on another monitor, goes in at the place of the container
/// that has the focus there and takes its focus. The others keep their order. The
/// user goes along when moving and stays when sending. Between monitors that
/// `Swap`, the two trade places instead.
pub proof fn a_container_goes_where_it_is_sent(
    state: StateView,
    m: int,
    w: int,
    follow: bool,
)
    requires
        has_something_to_move(state),
        exists_at(state, m, w),
        (m, w) != (state.monitors.focused, on_front(state)),
        state.wf(),
    ensures
        ({
            let from = (state.monitors.focused, on_front(state));
            let (after, r) = state.move_container_to(m, w, follow, None);
            let source = focused_workspace_of(state).containers;
            let moved = source.elements[source.focused];
            let there = at(state, m, w).containers;
            let traded = state.cross_monitor_move_behaviour is Swap && m != from.0
                && there.elements.len() > 0;
            &&& r is Ok
            &&& containers_at(after, m, w)[at(after, m, w).containers.focused] == moved
            &&& containers_at(after, m, w) == if traded {
                there.elements.update(there.focused, moved)
            } else {
                there.elements.take(there.focused) + seq![moved] + there.elements.skip(
                    there.focused,
                )
            }
            &&& containers_at(after, from.0, from.1) == if traded {
                source.elements.update(source.focused, there.elements[there.focused])
            } else {
                source.elements.remove(source.focused)
            }
            &&& others_keep_theirs(state, after, from, (m, w))
            &&& follow ==> after.monitors.focused == m && on_front(after) == w
            &&& !follow ==> after.monitors.focused == from.0 && on_front(after) == from.1
            &&& r->Ok_0.focused_monitor_changed == (follow && m != from.0)
            &&& r->Ok_0.focus == after.focused_id()
        }),
{
    let from = (state.monitors.focused, on_front(state));
    let source = focused_workspace_of(state).containers;
    let moved = source.elements[source.focused];
    let there = at(state, m, w).containers;
    assert(state.monitors.elements[m].wf());
    assert(state.monitors.elements[m].workspaces.elements[w].wf());
    a_move_is_a_transfer(state, m, w, follow, None, m, w);
    a_move_is_a_transfer(state, m, w, follow, None, from.0, from.1);
    a_transfer_puts_it_there(state, m, w, None);
    let (after, r) = state.move_container_to(m, w, follow, None);
    assert forall|i: int, k: int|
        exists_at(state, i, k) && (i, k) != from && (i, k) != (m, w) implies
            #[trigger] containers_at(after, i, k) == containers_at(state, i, k) by {
        a_move_is_a_transfer(state, m, w, follow, None, i, k);
        a_transfer_keeps_the_shape(state, m, w, None, i, k);
    }
    assert(there.elements.insert(there.focused, moved) =~= there.elements.take(there.focused)
        + seq![moved] + there.elements.skip(there.focused));
}

} // verus!
