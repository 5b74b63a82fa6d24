//! What becomes of a window that appears, and of the one in front.

use vstd::prelude::*;

use crate::error::ErrorView;
use crate::model::changes::ChangesView;
use crate::model::container::{holds, ContainerView};
use crate::model::monitor::houses;
use crate::model::ring::RingView;
use crate::model::state::{shows, StateView};
use crate::model::window::{has_id, WindowId, WindowView};
use crate::ops::growing::focused_workspace_of;
use crate::ops::steering::{at, is_ready, on_front, only_touches, shown, stays};
use crate::ops::travel::{containers_at, exists_at, has_something_to_move};
use crate::seqs::any;

verus! {

/// A container of one window.
pub open spec fn just(window: WindowView) -> ContainerView {
    RingView { elements: seq![window], focused: 0 }
}

proof fn nobody_else_has_it(state: StateView, m: int, w: int, id: WindowId)
    requires
        !state.manages(id),
        exists_at(state, m, w),
    ensures
        !at(state, m, w).has_window(id),
        at(state, m, w).container_idx(id) is None,
        crate::model::container::idx_of(at(state, m, w).floating_windows.elements, id) is None,
        forall|c: int|
            0 <= c < containers_at(state, m, w).len() ==> crate::model::container::idx_of(
                (#[trigger] containers_at(state, m, w)[c]).elements,
                id,
            ) is None,
{
    let monitor = state.monitors.elements[m];
    let workspace = at(state, m, w);
    if workspace.has_window(id) {
        assert(houses(id)(monitor.workspaces.elements[w]));
        assert(shows(id)(state.monitors.elements[m]));
    }
    workspace.window_is_somewhere(id);
    crate::seqs::first_when_any(workspace.containers.elements, holds(id));
    crate::seqs::first_when_any(workspace.floating_windows.elements, has_id(id));
    assert forall|c: int| 0 <= c < containers_at(state, m, w).len() implies crate::model::container::idx_of(
        (#[trigger] containers_at(state, m, w)[c]).elements,
        id,
    ) is None by {
        let container = workspace.containers.elements[c];
        crate::seqs::first_when_any(container.elements, has_id(id));
        if any(container.elements, has_id(id)) {
            assert(holds(id)(workspace.containers.elements[c]));
        }
    }
}

/// A window the rules leave alone changes nothing.
pub proof fn an_ignored_window_is_left_alone(state: StateView, window: WindowView)
    requires
        is_ready(state),
        state.rules.decide(window.info()) is Ignore,
    ensures
        state.add_window(window).0 == state,
        state.add_window(window).1 == Ok::<ChangesView, ErrorView>(ChangesView::none()),
{
}

/// A new window the rules tile goes in right behind the focused container, in a
/// container of its own and with the focus, or on top of the focused container when
/// new windows are to be appended. Every other container stays as it is.
pub proof fn a_new_window_goes_behind_the_focused_container(state: StateView, window: WindowView)
    requires
        is_ready(state),
        state.rules.decide(window.info()) is Tile,
        !state.float_override,
        !focused_workspace_of(state).float_override,
        !state.manages(window.id),
        focused_workspace_of(state).containers.wf(),
    ensures
        ({
            let (after, r) = state.add_window(window);
            let old = focused_workspace_of(state).containers;
            let workspace = focused_workspace_of(after);
            let now = workspace.containers;
            let empty = old.elements.len() == 0;
            &&& r is Ok
            &&& stays(state, after)
            &&& only_touches(state, after, state.monitors.focused, on_front(state))
            &&& workspace.floating_windows == focused_workspace_of(state).floating_windows
            &&& empty ==> now.elements == seq![just(window)]
            &&& !empty && state.window_container_behaviour is Create ==> {
                &&& now.elements == old.elements.take(old.focused + 1) + seq![just(window)]
                    + old.elements.skip(old.focused + 1)
                &&& now.focused == old.focused + 1
                &&& !workspace.focus_is_floating
            }
            &&& !empty && state.window_container_behaviour is Append ==> {
                &&& now.elements.len() == old.elements.len()
                &&& now.focused == old.focused
                &&& now.elements[now.focused].elements == old.elements[old.focused].elements.push(
                    window,
                )
                &&& shown(now.elements[now.focused]) == Some(window.id)
                &&& forall|i: int|
                    0 <= i < old.elements.len() && i != old.focused ==> now.elements[i]
                        == #[trigger] old.elements[i]
            }
        }),
{
    let (m, w) = (state.monitors.focused, on_front(state));
    nobody_else_has_it(state, m, w, window.id);
    let workspace = focused_workspace_of(state);
    let old = workspace.containers;
    let stamped = state.stamped(workspace);
    assert(stamped.container_idx(window.id) is None);
    let at = if old.elements.len() == 0 {
        0
    } else {
        old.focused + 1
    };
    assert(old.elements.insert(at, just(window)) =~= old.elements.take(at) + seq![just(window)]
        + old.elements.skip(at));
    if old.elements.len() > 0 {
        assert(containers_at(state, m, w)[old.focused] == old.elements[old.focused]);
    } else {
        assert(old.elements.insert(0, just(window)) =~= seq![just(window)]);
    }
}

/// A new window the rules float, or one that appears where everything floats, goes
/// to the end of the floating list with the focus. The tiles stay as they are.
pub proof fn a_new_window_floats_where_it_should(state: StateView, window: WindowView)
    requires
        is_ready(state),
        state.rules.decide(window.info()) is Float || (state.rules.decide(window.info()) is Tile && (
        state.float_override || focused_workspace_of(state).float_override)),
        !state.manages(window.id),
    ensures
        ({
            let (after, r) = state.add_window(window);
            let old = focused_workspace_of(state);
            let now = focused_workspace_of(after);
            &&& r is Ok
            &&& stays(state, after)
            &&& only_touches(state, after, state.monitors.focused, on_front(state))
            &&& now.containers == old.containers
            &&& now.floating_windows.elements == old.floating_windows.elements.push(window)
            &&& now.floating_windows.focused == old.floating_windows.elements.len()
            &&& now.focus_is_floating
        }),
{
    let (m, w) = (state.monitors.focused, on_front(state));
    nobody_else_has_it(state, m, w, window.id);
}

/// Closing asks the window in front to close and changes nothing itself.
/// Minimizing asks it to be minimized.
pub proof fn closing_and_minimizing_are_about_the_window_in_front(state: StateView)
    requires
        is_ready(state),
    ensures
        ({
            let (after, r) = state.close_focused_window();
            &&& after == state
            &&& r is Ok
            &&& r->Ok_0 == ChangesView {
                close: focused_workspace_of(state).focused_id(),
                ..ChangesView::none()
            }
        }),
        ({
            let (after, r) = state.minimize_focused_window();
            &&& r is Ok
            &&& focused_workspace_of(state).focused_id() matches Some(id) ==> r->Ok_0.minimize
                == seq![id] && r->Ok_0.retiled.len() == 1
            &&& focused_workspace_of(state).focused_id() is None ==> r->Ok_0 == ChangesView::none()
        }),
{
    if focused_workspace_of(state).focused_id() is Some {
        let id = focused_workspace_of(state).focused_id()->0;
        let r = state.minimize_focused_window().1->Ok_0;
        assert(seq![id] + Seq::<WindowId>::empty() =~= seq![id]);
        assert(r.minimize =~= seq![id]);
    }
}

/// A floating window that is no longer to float goes into a container of its own
/// behind the container that has the focus among the tiles.
pub proof fn a_floating_window_goes_back_among_the_tiles(state: StateView)
    requires
        is_ready(state),
        focused_workspace_of(state).maximized_window is None,
        focused_workspace_of(state).monocle_container is None,
        focused_workspace_of(state).floating_focus(),
        focused_workspace_of(state).wf(),
    ensures
        ({
            let (after, r) = state.toggle_float();
            let old = focused_workspace_of(state);
            let now = focused_workspace_of(after);
            let f = old.floating_windows.focused;
            let slot = if old.containers.elements.len() == 0 {
                0
            } else {
                old.containers.focused + 1
            };
            &&& r is Ok
            &&& stays(state, after)
            &&& only_touches(state, after, state.monitors.focused, on_front(state))
            &&& now.floating_windows.elements == old.floating_windows.elements.remove(f)
            &&& now.containers.elements == old.containers.elements.take(slot) + seq![
                just(old.floating_windows.elements[f]),
            ] + old.containers.elements.skip(slot)
            &&& now.containers.focused == slot
            &&& !now.focus_is_floating
            &&& r->Ok_0.focus == Some(old.floating_windows.elements[f].id)
        }),
{
    let old = focused_workspace_of(state);
    let f = old.floating_windows.focused;
    let slot = if old.containers.elements.len() == 0 {
        0
    } else {
        old.containers.focused + 1
    };
    let window = old.floating_windows.elements[f];
    assert(old.containers.elements.insert(slot, just(window)) =~= old.containers.elements.take(slot)
        + seq![just(window)] + old.containers.elements.skip(slot));
    let t = state.stamped(old);
    assert(t.toggle_float().focused_id() == Some(window.id));
}

/// Monocle mode takes the focused container out of the tiles and gives it the whole
/// workspace, so that its visible window and the floating ones are all there is to
/// see.
pub proof fn monocle_shows_one_container(state: StateView)
    requires
        has_something_to_move(state),
        focused_workspace_of(state).wf(),
        ({
            let c = focused_workspace_of(state).containers;
            c.elements[c.focused].elements.len() > 0
        }),
    ensures
        ({
            let (after, r) = state.toggle_monocle();
            let old = focused_workspace_of(state);
            let now = focused_workspace_of(after);
            let f = old.containers.focused;
            &&& r is Ok
            &&& stays(state, after)
            &&& only_touches(state, after, state.monitors.focused, on_front(state))
            &&& now.monocle_container == Some(old.containers.elements[f])
            &&& now.containers.elements == old.containers.elements.remove(f)
            &&& now.floating_windows == old.floating_windows
            &&& now.maximized_window is None
            &&& r->Ok_0.focus == shown(old.containers.elements[f])
            &&& now.visible().len() == 1 + old.floating_windows.elements.len()
            &&& now.visible()[0] == shown(old.containers.elements[f])->0
        }),
{
    let old = focused_workspace_of(state);
    let c = old.containers;
    assert(c.elements[c.focused].wf());
}

/// Maximizing takes the focused tile's window out of its container, asks for it to
/// be maximized and makes it all there is to see but the floating windows.
/// Maximizing again takes it back, and asks for the window with the focus to be
/// restored.
pub proof fn maximizing_is_about_the_window_in_front(state: StateView)
    requires
        has_something_to_move(state),
        focused_workspace_of(state).wf(),
        ({
            let c = focused_workspace_of(state).containers;
            c.elements[c.focused].elements.len() > 0
        }),
    ensures
        ({
            let (after, r) = state.toggle_maximize();
            let old = focused_workspace_of(state);
            let now = focused_workspace_of(after);
            let container = old.containers.elements[old.containers.focused];
            let window = container.elements[container.focused];
            let (back, restored) = after.toggle_maximize();
            &&& r is Ok
            &&& stays(state, after)
            &&& now.maximized_window == Some(window)
            &&& now.monocle_container is None
            &&& now.floating_windows == old.floating_windows
            &&& r->Ok_0.maximize == Some(window.id)
            &&& r->Ok_0.focus == Some(window.id)
            &&& r->Ok_0.restore.len() == 0
            &&& now.visible().len() == 1 + old.floating_windows.elements.len()
            &&& now.visible()[0] == window.id
            &&& restored is Ok
            &&& focused_workspace_of(back).maximized_window is None
            &&& restored->Ok_0.maximize is None
            &&& focused_workspace_of(back).focused_id() matches Some(id) ==> restored->Ok_0.restore
                == seq![id]
        }),
{
    let old = focused_workspace_of(state);
    let c = old.containers;
    assert(c.elements[c.focused].wf());
    let after = state.toggle_maximize().0;
    let now = focused_workspace_of(after);
    assert(now.maximized_window is Some);
    let (back, restored) = after.toggle_maximize();
    if let Some(id) = focused_workspace_of(back).focused_id() {
        assert(restored->Ok_0.restore =~= seq![id]);
    }
}

} // verus!
