//! Which workspaces a command lays out again.

use vstd::prelude::*;

use crate::geometry::{Axis, Direction};
use crate::layout::Layout;
use crate::model::changes::{
    not_in, not_in_keeps, settled_changes_do_not_blink, ChangesView, WorkspaceRef,
};
use crate::model::merging::both_are_done;
use crate::model::ring::CycleDirection;
use crate::model::state::StateView;
use crate::model::window::{WindowId, WindowView};
use crate::ops::outcome::Outcome;
use crate::ops::steering::{at, is_ready, on_front};
use crate::ops::travel::{a_transfer_keeps_the_shape, exists_at, has_something_to_move};

verus! {

/// The tiles of a workspace are the ones that its containers have on its display now.
pub open spec fn is_fresh(state: StateView, m: int, w: int) -> bool {
    let workspace = at(state, m, w);
    workspace.latest_layout == workspace.laid_out(
        state.monitors.elements[m].area_for(w, state.work_area_offset),
        state.default_workspace_padding,
        state.default_container_padding,
        state.padding_scale(m),
    ).latest_layout
}

/// The changes ask for a workspace to be drawn again.
pub open spec fn marks(changes: ChangesView, m: int, w: int) -> bool {
    changes.retiled.contains(WorkspaceRef { monitor: m as usize, workspace: w as usize })
}

/// The command changed nothing, or it laid out the focused workspace again and says so.
pub open spec fn redraws(before: StateView, after: Outcome) -> bool {
    let (m, w) = (before.monitors.focused, on_front(before));
    after.1 is Ok && after.1->Ok_0 != ChangesView::none() ==> is_fresh(after.0, m, w) && marks(
        after.1->Ok_0,
        m,
        w,
    ) && after.1->Ok_0.retiled.len() == 1
}

proof fn laying_out_again_changes_nothing(state: StateView, m: int, w: int)
    requires
        exists_at(state, m, w),
    ensures
        exists_at(state.refreshed(m, w), m, w),
        is_fresh(state.refreshed(m, w), m, w),
        state.refreshed(m, w).monitors.focused == state.monitors.focused,
        state.refreshed(m, w).monitors.elements[m].workspaces.focused
            == state.monitors.elements[m].workspaces.focused,
{
    let after = state.refreshed(m, w);
    let (old, new) = (at(state, m, w), at(after, m, w));
    let len = old.containers.len();
    assert(new.containers == old.containers);
    let resize = crate::model::workspace::fitted(old.resize_dimensions, len);
    assert(crate::model::workspace::fitted(resize, len) =~= resize);
    let (a, b) = (state.monitors.elements[m], after.monitors.elements[m]);
    assert(a.area_for(w, state.work_area_offset) == b.area_for(w, state.work_area_offset));
}

proof fn every_edit_is_laid_out(state: StateView)
    requires
        is_ready(state),
    ensures
        forall|value: crate::model::workspace::WorkspaceView|
            is_fresh(
                #[trigger] state.with_workspace(
                    state.monitors.focused,
                    on_front(state),
                    value,
                ).refreshed(state.monitors.focused, on_front(state)),
                state.monitors.focused,
                on_front(state),
            ),
{
    let (m, w) = (state.monitors.focused, on_front(state));
    assert forall|value: crate::model::workspace::WorkspaceView| is_fresh(
        #[trigger] state.with_workspace(m, w, value).refreshed(m, w),
        m,
        w,
    ) by {
        laying_out_again_changes_nothing(state.with_workspace(m, w, value), m, w);
    }
}

/// Every command that rearranges the focused workspace lays it out again for the
/// display it is on, and asks for it and no other workspace to be drawn.
pub proof fn a_rearranged_workspace_is_redrawn(
    state: StateView,
    direction: Direction,
    cycle: CycleDirection,
    layout: Layout,
    axis: Axis,
)
    requires
        is_ready(state),
    ensures
        redraws(state, state.cycle_move(cycle)),
        redraws(state, state.promote()),
        redraws(state, state.stack(direction)),
        redraws(state, state.unstack()),
        redraws(state, state.stack_all()),
        redraws(state, state.unstack_all()),
        redraws(state, state.toggle_float()),
        redraws(state, state.toggle_monocle()),
        redraws(state, state.toggle_maximize()),
        redraws(state, state.minimize_focused_window()),
        redraws(state, state.change_layout(layout)),
        redraws(state, state.cycle_layout(cycle)),
        redraws(state, state.flip_layout(axis)),
        redraws(state, state.toggle_tiling()),
{
    every_edit_is_laid_out(state);
    one_workspace_is_marked(state.monitors.focused, on_front(state));
}

/// Marking one workspace marks that one alone, whatever is said of the focus.
proof fn one_workspace_is_marked(m: int, w: int)
    ensures
        ({
            let one = ChangesView::none().retile(m, w);
            &&& marks(one, m, w)
            &&& one.retiled.len() == 1
            &&& one.retiled == seq![
                WorkspaceRef { monitor: m as usize, workspace: w as usize },
            ]
        }),
        forall|more: ChangesView|
            more.retiled.len() == 0 ==> (#[trigger] ChangesView::none().retile(m, w).merge(
                more,
            )).retiled == ChangesView::none().retile(m, w).retiled,
{
    let one = ChangesView::none().retile(m, w);
    assert(one.retiled =~= seq![WorkspaceRef { monitor: m as usize, workspace: w as usize }]);
    assert(one.retiled[0] == WorkspaceRef { monitor: m as usize, workspace: w as usize });
}

/// A container that goes to another workspace has both laid out again, and both are
/// asked to be drawn.
pub proof fn a_move_redraws_both_workspaces(
    state: StateView,
    m: int,
    w: int,
    follow: bool,
    entering: Option<Direction>,
)
    requires
        has_something_to_move(state),
        exists_at(state, m, w),
        (m, w) != (state.monitors.focused, on_front(state)),
    ensures
        ({
            let (after, r) = state.move_container_to(m, w, follow, entering);
            let from = (state.monitors.focused, on_front(state));
            &&& r is Ok
            &&& is_fresh(after, m, w)
            &&& is_fresh(after, from.0, from.1)
            &&& marks(r->Ok_0, m, w)
            &&& marks(r->Ok_0, from.0, from.1)
        }),
{
    let from = (state.monitors.focused, on_front(state));
    let landed = state.transferred(from, (m, w), entering);
    a_transfer_keeps_the_shape(state, m, w, entering, m, w);
    a_transfer_keeps_the_shape(state, m, w, entering, from.0, from.1);
    two_are_laid_out(landed, from, (m, w));
    two_are_marked(from, (m, w));
    let tiled = landed.refreshed(from.0, from.1).refreshed(m, w);
    let after = state.move_container_to(m, w, follow, entering).0;
    assert(after == if follow {
        tiled.look_at(m, w)
    } else {
        tiled
    });
    looking_leaves_the_tiles(tiled, m, w, m, w);
    looking_leaves_the_tiles(tiled, m, w, from.0, from.1);
}

proof fn two_are_laid_out(state: StateView, a: (int, int), b: (int, int))
    requires
        exists_at(state, a.0, a.1),
        exists_at(state, b.0, b.1),
        a != b,
    ensures
        ({
            let after = state.refreshed(a.0, a.1).refreshed(b.0, b.1);
            &&& is_fresh(after, a.0, a.1)
            &&& is_fresh(after, b.0, b.1)
            &&& exists_at(after, a.0, a.1)
            &&& exists_at(after, b.0, b.1)
        }),
{
    let once = state.refreshed(a.0, a.1);
    let twice = once.refreshed(b.0, b.1);
    laying_out_again_changes_nothing(state, a.0, a.1);
    assert(exists_at(once, b.0, b.1));
    laying_out_again_changes_nothing(once, b.0, b.1);
    assert(at(twice, a.0, a.1) == at(once, a.0, a.1));
    assert(twice.monitors.elements[a.0].area_for(a.1, state.work_area_offset)
        == once.monitors.elements[a.0].area_for(a.1, state.work_area_offset));
}

proof fn looking_leaves_the_tiles(state: StateView, m: int, w: int, i: int, k: int)
    requires
        exists_at(state, m, w),
        exists_at(state, i, k),
        is_fresh(state, i, k),
    ensures
        is_fresh(state.look_at(m, w), i, k),
{
    let after = state.look_at(m, w);
    assert(at(after, i, k) == at(state, i, k));
    assert(after.monitors.elements[i].area_for(k, state.work_area_offset)
        == state.monitors.elements[i].area_for(k, state.work_area_offset));
}

proof fn two_are_marked(a: (int, int), b: (int, int))
    ensures
        forall|more: ChangesView|
            #![trigger ChangesView::none().retile(a.0, a.1).merge(
                ChangesView::none().retile(b.0, b.1),
            ).merge(more)]
            more.retiled.len() == 0 ==> {
                let both = ChangesView::none().retile(a.0, a.1).merge(
                    ChangesView::none().retile(b.0, b.1),
                ).merge(more);
                marks(both, a.0, a.1) && marks(both, b.0, b.1)
            },
{
    one_workspace_is_marked(a.0, a.1);
    one_workspace_is_marked(b.0, b.1);
    let (one, other) = (
        ChangesView::none().retile(a.0, a.1),
        ChangesView::none().retile(b.0, b.1),
    );
    both_are_done(
        one,
        other,
        WindowId(0),
        WorkspaceRef { monitor: a.0 as usize, workspace: a.1 as usize },
    );
    both_are_done(
        one,
        other,
        WindowId(0),
        WorkspaceRef { monitor: b.0 as usize, workspace: b.1 as usize },
    );
}

/// A new window on a workspace has it laid out again and drawn. The window gets the
/// keyboard where it can be seen, and is hidden where it cannot.
pub proof fn a_new_window_redraws_its_workspace(
    state: StateView,
    m: int,
    w: int,
    window: WindowView,
)
    requires
        !state.is_paused,
        exists_at(state, m, w),
        !(state.rules.decide(window.info()) is Ignore),
        !state.manages(window.id),
    ensures
        ({
            let (after, r) = state.add_window_to(m, w, window);
            &&& r is Ok
            &&& is_fresh(after, m, w)
            &&& marks(r->Ok_0, m, w)
            &&& r->Ok_0.retiled.len() == 1
            &&& after.visible().contains(window.id) ==> r->Ok_0.focus == Some(window.id)
            &&& !after.visible().contains(window.id) ==> r->Ok_0.focus is None
                && r->Ok_0.hide.contains(window.id)
        }),
{
    let decision = state.rules.decide(window.info());
    let edited = state.with_workspace(
        m,
        w,
        state.stamped(at(state, m, w)).welcome(
            window,
            decision is Float || state.float_override || at(state, m, w).float_override,
            state.window_container_behaviour is Append,
        ),
    );
    laying_out_again_changes_nothing(edited, m, w);
    one_workspace_is_marked(m, w);
    let after = state.add_window_to(m, w, window).0;
    assert(after == edited.refreshed(m, w));
    let id = window.id;
    let retiled = ChangesView::none().retile(m, w);
    if after.visible().contains(id) {
        assert(retiled.merge(after.focus_change(Some(id))).retiled == retiled.retiled);
    } else {
        let changes = ChangesView { hide: seq![id], ..retiled };
        let filled = ChangesView {
            show: changes.show + not_in(after.visible(), state.visible()),
            hide: changes.hide + not_in(state.visible(), after.visible()),
            ..changes
        };
        assert(filled.hide[0] == id);
        assert(filled.show =~= not_in(after.visible(), state.visible()));
        not_in_keeps(after.visible(), state.visible(), id);
        settled_changes_do_not_blink(filled, id);
    }
}

/// What appears while the manager is paused waits, once, and is forgotten again when it
/// goes before the pause is over. Nothing is drawn.
pub proof fn what_appears_during_a_pause_waits(state: StateView, window: WindowView)
    requires
        state.is_paused,
        state.focused_indices() is Ok,
        !(state.rules.decide(window.info()) is Ignore),
        !state.manages(window.id),
        forall|i: int|
            0 <= i < state.pending_windows.len() ==> (#[trigger] state.pending_windows[i]).id
                != window.id,
    ensures
        ({
            let (after, r) = state.add_window(window);
            let (again, _) = after.add_window(window);
            let (gone, _) = after.remove_window(window.id);
            &&& r is Ok
            &&& after.pending_windows == state.pending_windows.push(window)
            &&& after.monitors == state.monitors
            &&& r->Ok_0 == ChangesView::none()
            &&& again == after
            &&& gone.pending_windows == state.pending_windows
            &&& gone.monitors == state.monitors
        }),
{
    let p = crate::model::window::has_id(window.id);
    let waiting = state.pending_windows;
    assert forall|i: int| 0 <= i < waiting.len() implies !p(#[trigger] waiting[i]) by {}
    crate::seqs::first_is_none(waiting, p);
    let after = state.add_window(window).0;
    let longer = waiting.push(window);
    assert forall|i: int| 0 <= i < waiting.len() implies !p(#[trigger] longer[i]) by {
        assert(longer[i] == waiting[i]);
    }
    assert(p(longer[waiting.len() as int]));
    crate::seqs::first_is(longer, p, waiting.len() as int);
    assert(longer.remove(waiting.len() as int) =~= waiting);
}

} // verus!
