//! What is on screen, and what the user looks at.

use vstd::prelude::*;

use crate::error::ErrorView;
use crate::geometry::{Direction, Rect};
use crate::model::changes::ChangesView;
use crate::model::container::ContainerView;
use crate::model::monitor::MonitorView;
use crate::model::ring::CycleDirection;
use crate::model::state::{visible_across, StateView};
use crate::model::window::{ids_of, WindowId};
use crate::model::workspace::{tops, WorkspaceView};
use crate::ops::arranging::a_tiled_window_is_found;
use crate::ops::laws::show_and_hide_are_the_difference;
use crate::ops::outcome::{has_named, is_named, Outcome};
use crate::ops::steering::{at, is_ready, on_front, only_focuses, shown};
use crate::ops::travel::{containers_at, exists_at};
use crate::seqs::first_when_any;
use crate::text::lower;
use crate::MAX_WORKSPACES;

verus! {

proof fn tops_are_shown(containers: Seq<ContainerView>, id: WindowId)
    ensures
        tops(containers).contains(id) <==> exists|c: int|
            0 <= c < containers.len() && shown(#[trigger] containers[c]) == Some(id),
    decreases containers.len(),
{
    if containers.len() > 0 {
        let head = containers.drop_last();
        let last = containers.last();
        tops_are_shown(head, id);
        if shown(last) is Some {
            crate::model::changes::lemma_push_contains(tops(head), shown(last)->0, id);
        }
        if exists|c: int| 0 <= c < head.len() && shown(#[trigger] head[c]) == Some(id) {
            let c = choose|c: int| 0 <= c < head.len() && shown(#[trigger] head[c]) == Some(id);
            assert(shown(containers[c]) == Some(id));
        }
        if shown(last) == Some(id) {
            assert(shown(containers[containers.len() - 1]) == Some(id));
        }
        if exists|c: int| 0 <= c < containers.len() && shown(#[trigger] containers[c]) == Some(id) {
            let c = choose|c: int|
                0 <= c < containers.len() && shown(#[trigger] containers[c]) == Some(id);
            if c < head.len() {
                assert(shown(head[c]) == Some(id));
            }
        }
    }
}

/// A floating window has that handle.
pub open spec fn floats(workspace: WorkspaceView, id: WindowId) -> bool {
    exists|i: int|
        0 <= i < workspace.floating_windows.elements.len() && (
        #[trigger] workspace.floating_windows.elements[i]).id == id
}

/// What there is to see of a workspace: the maximized window when there is one, else
/// the top of the container in monocle mode when there is one, else the top of every
/// container, and every floating window in any case.
pub proof fn what_there_is_to_see(workspace: WorkspaceView, id: WindowId)
    ensures
        workspace.maximized_window is Some ==> (workspace.visible().contains(id) <==> id
            == workspace.maximized_window->0.id || floats(workspace, id)),
        workspace.maximized_window is None && workspace.monocle_container is Some ==> (
        workspace.visible().contains(id) <==> shown(workspace.monocle_container->0) == Some(id)
            || floats(workspace, id)),
        workspace.maximized_window is None && workspace.monocle_container is None ==> (
        workspace.visible().contains(id) <==> floats(workspace, id) || exists|c: int|
            0 <= c < workspace.containers.elements.len() && shown(
                #[trigger] workspace.containers.elements[c],
            ) == Some(id)),
{
    tops_are_shown(workspace.containers.elements, id);
    let floating = ids_of(workspace.floating_windows.elements);
    let first = match (workspace.maximized_window, workspace.monocle_container) {
        (Some(w), _) => seq![w.id],
        (None, Some(c)) => match shown(c) {
            Some(id) => seq![id],
            None => Seq::empty(),
        },
        (None, None) => tops(workspace.containers.elements),
    };
    assert(workspace.visible() == first + floating);
    assert(floating.contains(id) <==> floats(workspace, id)) by {
        if floats(workspace, id) {
            let i = choose|i: int|
                0 <= i < workspace.floating_windows.elements.len() && (
                #[trigger] workspace.floating_windows.elements[i]).id == id;
            assert(floating[i] == id);
        }
        if floating.contains(id) {
            let i = choose|i: int| 0 <= i < floating.len() && floating[i] == id;
            assert(workspace.floating_windows.elements[i].id == id);
        }
    }
    in_two_lists(first, floating, id);
    if first.len() == 1 {
        assert(first.contains(id) <==> first[0] == id) by {
            if first[0] == id {
                assert(first.contains(id));
            }
        }
    }
}

proof fn in_two_lists(a: Seq<WindowId>, b: Seq<WindowId>, id: WindowId)
    ensures
        (a + b).contains(id) <==> a.contains(id) || b.contains(id),
{
    if a.contains(id) {
        let i = choose|i: int| 0 <= i < a.len() && a[i] == id;
        assert((a + b)[i] == id);
    }
    if b.contains(id) {
        let i = choose|i: int| 0 <= i < b.len() && b[i] == id;
        assert((a + b)[a.len() + i] == id);
    }
    if (a + b).contains(id) {
        let i = choose|i: int| 0 <= i < (a + b).len() && (a + b)[i] == id;
        if i < a.len() {
            assert(a[i] == id);
        } else {
            assert(b[i - a.len()] == id);
        }
    }
}

/// The workspace in front on a monitor shows that window.
pub open spec fn is_seen_on(monitor: MonitorView, id: WindowId) -> bool {
    let (w, all) = (monitor.workspaces.focused, monitor.workspaces.elements);
    0 <= w < all.len() && all[w].visible().contains(id)
}

/// What is on screen is what the workspace in front on each monitor shows.
pub proof fn each_monitor_shows_the_workspace_in_front(monitors: Seq<MonitorView>, id: WindowId)
    ensures
        visible_across(monitors).contains(id) <==> exists|m: int|
            0 <= m < monitors.len() && is_seen_on(#[trigger] monitors[m], id),
    decreases monitors.len(),
{
    if monitors.len() > 0 {
        let head = monitors.drop_last();
        each_monitor_shows_the_workspace_in_front(head, id);
        let last = match monitors.last().workspaces.current() {
            Some(w) => w.visible(),
            None => Seq::empty(),
        };
        in_two_lists(visible_across(head), last, id);
        if exists|m: int| 0 <= m < head.len() && is_seen_on(#[trigger] head[m], id) {
            let m = choose|m: int| 0 <= m < head.len() && is_seen_on(#[trigger] head[m], id);
            assert(is_seen_on(monitors[m], id));
        }
        if is_seen_on(monitors.last(), id) {
            assert(is_seen_on(monitors[monitors.len() - 1], id));
        }
        if exists|m: int| 0 <= m < monitors.len() && is_seen_on(#[trigger] monitors[m], id) {
            let m = choose|m: int|
                0 <= m < monitors.len() && is_seen_on(#[trigger] monitors[m], id);
            if m < head.len() {
                assert(is_seen_on(head[m], id));
            }
        }
    }
}

/// A command shows what came on screen and hides what went off it, and nothing else.
pub open spec fn shows_the_difference(before: StateView, after: Outcome, id: WindowId) -> bool {
    after.1 is Ok && after.1->Ok_0 != ChangesView::none() ==> {
        &&& after.1->Ok_0.show.contains(id) <==> after.0.visible().contains(id)
            && !before.visible().contains(id)
        &&& after.1->Ok_0.hide.contains(id) <==> before.visible().contains(id)
            && !after.0.visible().contains(id)
    }
}

/// Every command that can bring a window on screen or take one off it says so, for
/// each of the windows and for no other.
pub proof fn commands_show_and_hide_what_they_should(
    state: StateView,
    direction: Direction,
    cycle: CycleDirection,
    idx: int,
    id: WindowId,
    window: WindowId,
)
    ensures
        shows_the_difference(state, state.cycle_stack(cycle), id),
        shows_the_difference(state, state.stack(direction), id),
        shows_the_difference(state, state.unstack(), id),
        shows_the_difference(state, state.stack_all(), id),
        shows_the_difference(state, state.unstack_all(), id),
        shows_the_difference(state, state.toggle_float(), id),
        shows_the_difference(state, state.toggle_monocle(), id),
        shows_the_difference(state, state.toggle_maximize(), id),
        shows_the_difference(state, state.minimize_focused_window(), id),
        shows_the_difference(state, state.focus_workspace(idx), id),
        shows_the_difference(state, state.focus_window(window), id),
        shows_the_difference(state, state.float_window(window), id),
        shows_the_difference(state, state.remove_window(window), id),
{
    reveal_differences(state, id);
}

/// Whatever else is reported, what is shown and hidden is the difference.
proof fn reveal_differences(state: StateView, id: WindowId)
    ensures
        forall|after: StateView, changes: ChangesView|
            #![trigger after.visibility_delta(state.visible(), changes)]
            changes.show.len() == 0 && changes.hide.len() == 0 ==> {
                let r = after.visibility_delta(state.visible(), changes);
                &&& r.show.contains(id) <==> after.visible().contains(id)
                    && !state.visible().contains(id)
                &&& r.hide.contains(id) <==> state.visible().contains(id)
                    && !after.visible().contains(id)
            },
{
    assert forall|after: StateView, changes: ChangesView|
        #![trigger after.visibility_delta(state.visible(), changes)]
        changes.show.len() == 0 && changes.hide.len() == 0 implies {
        let r = after.visibility_delta(state.visible(), changes);
        &&& r.show.contains(id) <==> after.visible().contains(id) && !state.visible().contains(id)
        &&& r.hide.contains(id) <==> state.visible().contains(id) && !after.visible().contains(id)
    } by {
        show_and_hide_are_the_difference(after, state.visible(), changes, id);
    }
}

/// A command that only moves the focus leaves the tiles alone.
pub open spec fn keeps_every_container(before: StateView, after: StateView) -> bool {
    forall|m: int, w: int|
        exists_at(before, m, w) ==> exists_at(after, m, w) && #[trigger] containers_at(after, m, w)
            == containers_at(before, m, w)
}

/// Focusing a workspace brings the one at that place on the focused monitor to the
/// front, creating it where it may, and gives the keyboard to its window. No window
/// moves. A place beyond the last workspace and the limit is refused.
pub proof fn focusing_a_workspace_brings_it_to_the_front(state: StateView, idx: int)
    requires
        is_ready(state),
        0 <= idx,
    ensures
        ({
            let (after, r) = state.focus_workspace(idx);
            let monitor = state.monitors.elements[state.monitors.focused];
            let len = monitor.workspaces.elements.len();
            &&& idx < len || idx < MAX_WORKSPACES ==> {
                &&& r is Ok
                &&& after.monitors.focused == state.monitors.focused
                &&& on_front(after) == idx
                &&& keeps_every_container(state, after)
                &&& r->Ok_0.focus == after.focused_id()
                &&& !r->Ok_0.focused_monitor_changed
            }
            &&& idx >= len && idx >= MAX_WORKSPACES ==> after == state && r == Err::<
                ChangesView,
                ErrorView,
            >(ErrorView::WorkspaceIndexOutOfRange(idx))
        }),
{
    let (after, r) = state.focus_workspace(idx);
    if r is Ok {
        assert forall|m: int, w: int| exists_at(state, m, w) implies exists_at(after, m, w)
            && #[trigger] containers_at(after, m, w) == containers_at(state, m, w) by {}
    }
}

/// Focusing a monitor gives it the focus, and the keyboard to the window in front
/// there, and changes nothing on any of them. One that is not there is refused.
pub proof fn focusing_a_monitor_only_looks_there(state: StateView, idx: int)
    requires
        is_ready(state),
        0 <= idx,
    ensures
        ({
            let (after, r) = state.focus_monitor(idx);
            &&& idx < state.monitors.elements.len() ==> {
                &&& r is Ok
                &&& after.monitors.elements == state.monitors.elements
                &&& after.monitors.focused == idx
                &&& only_focuses(r->Ok_0, after.focused_id())
                &&& r->Ok_0.focused_monitor_changed == (idx != state.monitors.focused)
            }
            &&& idx >= state.monitors.elements.len() ==> after == state && r == Err::<
                ChangesView,
                ErrorView,
            >(ErrorView::MonitorNotFound(idx))
        }),
{
}

/// Sending to a place or a monitor that cannot be is refused, and sending to the
/// workspace one is on does nothing.
pub proof fn sending_to_a_monitor_is_sending_to_the_workspace_in_front_there(
    state: StateView,
    idx: int,
    follow: bool,
)
    requires
        is_ready(state),
        0 <= idx,
    ensures
        idx < state.monitors.elements.len() ==> state.move_to_monitor(idx, follow)
            == state.move_container_to(
            idx,
            state.monitors.elements[idx].workspaces.focused,
            follow,
            None,
        ),
        idx >= state.monitors.elements.len() ==> state.move_to_monitor(idx, follow) == (
            state,
            Err::<ChangesView, ErrorView>(ErrorView::MonitorNotFound(idx)),
        ),
        idx < state.monitors.elements[state.monitors.focused].workspaces.elements.len()
            ==> state.move_to_workspace(idx, follow) == state.move_container_to(
            state.monitors.focused,
            idx,
            follow,
            None,
        ),
        idx >= state.monitors.elements[state.monitors.focused].workspaces.elements.len() && idx
            >= MAX_WORKSPACES ==> state.move_to_workspace(idx, follow) == (
            state,
            Err::<ChangesView, ErrorView>(ErrorView::WorkspaceIndexOutOfRange(idx)),
        ),
{
    let monitor = state.monitors.elements[state.monitors.focused];
    if idx < monitor.workspaces.elements.len() {
        assert(monitor.ensure_workspaces(idx + 1) == monitor);
        assert(state.with_monitor(state.monitors.focused, monitor).monitors.elements
            =~= state.monitors.elements);
        assert(state.with_monitor(state.monitors.focused, monitor) == state);
    }
}

/// The workspace has that name, in any case of its letters.
pub open spec fn is_called(workspace: WorkspaceView, name: Seq<char>) -> bool {
    workspace.name is Some && lower(workspace.name->0) == lower(name)
}

/// A workspace is found by its name, in any case of its letters: on the focused
/// monitor when it is there, and wherever it is otherwise.
pub proof fn a_workspace_is_found_by_its_name(state: StateView, name: Seq<char>)
    requires
        is_ready(state),
    ensures
        match state.named_workspace(name) {
            Some((m, w)) => {
                &&& exists_at(state, m, w)
                &&& is_called(at(state, m, w), name)
                &&& (exists|k: int|
                    exists_at(state, state.monitors.focused, k) && is_called(
                        #[trigger] at(state, state.monitors.focused, k),
                        name,
                    )) ==> m == state.monitors.focused
                &&& forall|k: int|
                    0 <= k < w ==> !is_called(#[trigger] at(state, m, k), name)
            },
            None => forall|m: int, w: int|
                exists_at(state, m, w) ==> !is_called(#[trigger] at(state, m, w), name),
        },
{
    let ring = state.from_focus_on();
    let n = state.monitors.len();
    let f = state.monitors.focused;
    first_when_any(ring, has_named(name));
    assert((f + 0) % n == f) by (nonlinear_arith)
        requires
            0 <= f < n,
    ;
    assert(ring[0] == state.monitors.elements[f]);
    match state.named_workspace(name) {
        Some((m, w)) => {
            let step = crate::seqs::first_idx(ring, has_named(name))->0;
            assert(has_named(name)(ring[step]));
            assert(0 <= (f + step) % n < n) by (nonlinear_arith)
                requires
                    0 < n,
            ;
            assert(ring[step] == state.monitors.elements[m]);
            first_when_any(state.monitors.elements[m].workspaces.elements, is_named(name));
            assert forall|k: int| 0 <= k < w implies !is_called(
                #[trigger] at(state, m, k),
                name,
            ) by {
                assert(!is_named(name)(state.monitors.elements[m].workspaces.elements[k]));
            }
            if exists|k: int|
                exists_at(state, f, k) && is_called(#[trigger] at(state, f, k), name) {
                let k = choose|k: int|
                    exists_at(state, f, k) && is_called(#[trigger] at(state, f, k), name);
                first_when_any(state.monitors.elements[f].workspaces.elements, is_named(name));
                assert(is_named(name)(state.monitors.elements[f].workspaces.elements[k]));
                assert(has_named(name)(ring[0]));
                if step > 0 {
                    assert(!has_named(name)(ring[0]));
                }
            }
        },
        None => {
            assert forall|m: int, w: int| exists_at(state, m, w) implies !is_called(
                #[trigger] at(state, m, w),
                name,
            ) by {
                let step = (m - f) % n;
                assert(0 <= step < n && (f + step) % n == m) by (nonlinear_arith)
                    requires
                        step == (m - f) % n,
                        0 <= m < n,
                        0 <= f < n,
                ;
                assert(ring[step] == state.monitors.elements[m]);
                assert(!has_named(name)(ring[step]));
                first_when_any(state.monitors.elements[m].workspaces.elements, is_named(name));
                if is_called(at(state, m, w), name) {
                    assert(is_named(name)(state.monitors.elements[m].workspaces.elements[w]));
                }
            }
        },
    }
}

/// Focusing a workspace by its name brings it to the front wherever it is, and
/// sending a container there is sending it to that workspace. A name no workspace
/// has is refused.
pub proof fn a_name_stands_for_its_workspace(state: StateView, name: Seq<char>, follow: bool)
    requires
        is_ready(state),
        state.wf(),
    ensures
        match state.named_workspace(name) {
            Some((m, w)) => {
                let (after, r) = state.focus_named_workspace(name);
                &&& r is Ok
                &&& after.monitors.focused == m
                &&& on_front(after) == w
                &&& keeps_every_container(state, after)
                &&& r->Ok_0.focused_monitor_changed == (m != state.monitors.focused)
                &&& state.move_to_named_workspace(name, follow) == state.move_container_to(
                    m,
                    w,
                    follow,
                    None,
                )
            },
            None => {
                &&& state.focus_named_workspace(name) == (
                    state,
                    Err::<ChangesView, ErrorView>(ErrorView::WorkspaceNameNotFound(name)),
                )
                &&& state.move_to_named_workspace(name, follow) == (
                    state,
                    Err::<ChangesView, ErrorView>(ErrorView::WorkspaceNameNotFound(name)),
                )
            },
        },
{
    a_workspace_is_found_by_its_name(state, name);
    if let Some((m, w)) = state.named_workspace(name) {
        focusing_a_monitor_only_looks_there(state, m);
        let looking = state.focus_monitor(m).0;
        assert(state.monitors.elements[m].wf());
        focusing_a_workspace_brings_it_to_the_front(looking, w);
        let after = state.focus_named_workspace(name).0;
        assert(after == looking.focus_workspace(w).0);
        assert forall|i: int, k: int| exists_at(state, i, k) implies exists_at(after, i, k)
            && #[trigger] containers_at(after, i, k) == containers_at(state, i, k) by {
            assert(exists_at(looking, i, k));
            assert(containers_at(looking, i, k) == containers_at(state, i, k));
        }
    }
}

/// Focusing a window brings its workspace to the front on its monitor, gives that
/// monitor the focus and the window the keyboard. A window that is not managed is
/// refused.
pub proof fn focusing_a_window_goes_to_where_it_is(
    state: StateView,
    m: int,
    w: int,
    c: int,
    k: int,
)
    requires
        is_ready(state),
        exists_at(state, m, w),
        at(state, m, w).no_doubles(),
        at(state, m, w).maximized_window is None,
        at(state, m, w).monocle_container is None,
        0 <= c < containers_at(state, m, w).len(),
        0 <= k < containers_at(state, m, w)[c].elements.len(),
        state.locate(containers_at(state, m, w)[c].elements[k].id) == Some((m, w)),
    ensures
        ({
            let id = containers_at(state, m, w)[c].elements[k].id;
            let (after, r) = state.focus_window(id);
            let now = at(after, m, w);
            &&& r is Ok
            &&& r->Ok_0.focus == Some(id)
            &&& after.monitors.focused == m
            &&& on_front(after) == w
            &&& now.containers.focused == c
            &&& shown(now.containers.elements[c]) == Some(id)
            &&& now.containers.elements.len() == containers_at(state, m, w).len()
            &&& now.containers.elements[c].elements == containers_at(state, m, w)[c].elements
            &&& forall|i: int|
                0 <= i < now.containers.elements.len() && i != c
                    ==> #[trigger] now.containers.elements[i] == containers_at(state, m, w)[i]
            &&& !now.focus_is_floating
        }),
{
    let id = containers_at(state, m, w)[c].elements[k].id;
    let looking = state.look_at(m, w);
    let old = at(state, m, w);
    assert(at(looking, m, w) == old);
    let t = looking.stamped(old);
    assert(t.no_doubles()) by {
        assert forall|other: WindowId| #[trigger] t.tally(other) <= 1 by {
            assert(old.tally(other) <= 1);
        }
    }
    a_tiled_window_is_found(t, c, k);
}

/// With the mouse following the focus, the cursor goes to the tile of the window
/// that gets it, and otherwise nowhere.
pub proof fn the_mouse_goes_to_the_tile(state: StateView, m: int, w: int, c: int, k: int)
    requires
        exists_at(state, m, w),
        at(state, m, w).no_doubles(),
        0 <= c < containers_at(state, m, w).len(),
        0 <= k < containers_at(state, m, w)[c].elements.len(),
        c < at(state, m, w).latest_layout.len(),
        state.locate(containers_at(state, m, w)[c].elements[k].id) == Some((m, w)),
    ensures
        ({
            let id = containers_at(state, m, w)[c].elements[k].id;
            state.focus_change(Some(id)).warp_mouse_to == if state.mouse_follows_focus {
                Some(at(state, m, w).latest_layout[c])
            } else {
                None::<Rect>
            }
        }),
{
    a_tiled_window_is_found(at(state, m, w), c, k);
}

} // verus!
