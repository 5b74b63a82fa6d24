//! What a display change does to the displays and what is on them.

use vstd::prelude::*;

use crate::model::changes::ChangesView;
use crate::model::container::{holds, ContainerView};
use crate::model::monitor::MonitorView;
use crate::model::state::StateView;
use crate::model::window::WindowView;
use crate::model::workspace::{append_keeps_the_rest, WorkspaceView};
use crate::ops::lifecycle::just;
use crate::ops::outcome::{
    arrived, claims, focus_after, is_claim, is_display, most_workspaces, reconciled,
    same_display, unclaimed,
};
use crate::ops::reconcile::{claims_come_in_order, every_display_claims};
use crate::ops::steering::at;
use crate::ops::travel::{a_refresh_keeps_the_containers, containers_at, exists_at};
use crate::seqs::{any, first_idx, first_is, first_is_none, first_when_any};

verus! {

/// Every display has a device id, and no two have the same.
pub open spec fn have_ids(displays: Seq<MonitorView>) -> bool {
    &&& forall|i: int| 0 <= i < displays.len() ==> (#[trigger] displays[i]).device_id.len() > 0
    &&& forall|i: int, j: int|
        0 <= i < j < displays.len() ==> (#[trigger] displays[i]).device_id != (
        #[trigger] displays[j]).device_id
}

/// The two are one and the same display.
pub open spec fn is_the_same(a: MonitorView, b: MonitorView) -> bool {
    a.device_id == b.device_id
}

/// There are displays before and after, and each is known by its own device id.
pub open spec fn is_display_change(state: StateView, reported: Seq<MonitorView>) -> bool {
    &&& reported.len() > 0
    &&& have_ids(state.monitors.elements)
    &&& have_ids(reported)
}

proof fn a_claim_is_one_display(known: Seq<MonitorView>, reported: Seq<MonitorView>, i: int)
    requires
        have_ids(known),
        have_ids(reported),
        0 <= i < reported.len(),
    ensures
        claims(known, reported).len() == reported.len(),
        claims(known, reported)[i] matches Some(k) ==> 0 <= k < known.len() && is_the_same(
            known[k],
            reported[i],
        ),
        forall|k: int|
            0 <= k < known.len() && is_the_same(#[trigger] known[k], reported[i]) ==> claims(
                known,
                reported,
            )[i] == Some(k),
    decreases i,
{
    let all = claims(known, reported);
    let before = claims(known, reported.take(i));
    every_display_claims(known, reported);
    every_display_claims(known, reported.take(i));
    claims_come_in_order(known, reported, i + 1);
    claims_come_in_order(known, reported, i);
    assert(reported.take(i + 1).drop_last() =~= reported.take(i));
    let slots = unclaimed(known, before);
    let p = is_display(reported[i]);
    assert(all.take(i + 1)[i] == all[i]);
    assert(all[i] == first_idx(slots, p));
    first_when_any(slots, p);
    assert forall|k: int| 0 <= k < known.len() && is_the_same(#[trigger] known[k], reported[i])
        implies all[i] == Some(k) by {
        if before.contains(Some(k)) {
            let j = choose|j: int| 0 <= j < before.len() && before[j] == Some(k);
            a_claim_is_one_display(known, reported, j);
            assert(all.take(i)[j] == all[j]);
            assert(reported[j].device_id == reported[i].device_id);
        }
        assert(p(slots[k]));
        let found = first_idx(slots, p)->0;
        assert(p(slots[found]));
        assert(known[found].device_id == known[k].device_id);
        if found != k {
            if found < k {
                assert(known[found].device_id != known[k].device_id);
            } else {
                assert(known[k].device_id != known[found].device_id);
            }
        }
    }
}

/// Laying out what is in front on every display leaves what is where alone.
proof fn a_retile_keeps_the_containers(
    state: StateView,
    n: int,
    changes: ChangesView,
    i: int,
    w: int,
)
    requires
        0 <= n <= state.monitors.elements.len(),
    ensures
        ({
            let after = state.retile_first(n, changes).0;
            &&& after.monitors.elements.len() == state.monitors.elements.len()
            &&& after.monitors.focused == state.monitors.focused
            &&& 0 <= i < state.monitors.elements.len() ==> {
                let (a, b) = (state.monitors.elements[i], after.monitors.elements[i]);
                &&& b.id == a.id
                &&& b.size == a.size
                &&& b.work_area == a.work_area
                &&& b.dpi == a.dpi
                &&& b.name == a.name
                &&& b.device_id == a.device_id
                &&& b.work_area_offset == a.work_area_offset
                &&& b.workspaces.elements.len() == a.workspaces.elements.len()
                &&& b.workspaces.focused == a.workspaces.focused
            }
            &&& exists_at(state, i, w) ==> {
                &&& at(after, i, w).containers == at(state, i, w).containers
                &&& at(after, i, w).floating_windows == at(state, i, w).floating_windows
                &&& at(after, i, w).monocle_container == at(state, i, w).monocle_container
                &&& at(after, i, w).maximized_window == at(state, i, w).maximized_window
            }
        }),
    decreases n,
{
    if n > 0 {
        a_retile_keeps_the_containers(state, n - 1, changes, i, w);
        let before = state.retile_first(n - 1, changes).0;
        let front = before.monitors.elements[n - 1].workspaces.focused;
        a_refresh_keeps_the_containers(before, n - 1, front, i, w);
    }
}

/// `part` is the beginning of `whole`.
pub open spec fn begins(whole: Seq<ContainerView>, part: Seq<ContainerView>) -> bool {
    part.len() <= whole.len() && whole.take(part.len() as int) == part
}

/// `part` stands in `whole`, one after the other.
pub open spec fn stands_in(whole: Seq<ContainerView>, part: Seq<ContainerView>) -> bool {
    exists|k: int|
        0 <= k <= whole.len() - part.len() && #[trigger] whole.subrange(k, k + part.len()) == part
}

proof fn what_stood_still_stands(
    whole: Seq<ContainerView>,
    longer: Seq<ContainerView>,
    part: Seq<ContainerView>,
)
    requires
        begins(longer, whole),
    ensures
        stands_in(whole, part) ==> stands_in(longer, part),
        begins(whole, part) ==> begins(longer, part),
{
    if stands_in(whole, part) {
        let k = choose|k: int|
            0 <= k <= whole.len() - part.len() && #[trigger] whole.subrange(k, k + part.len())
                == part;
        assert(longer.subrange(k, k + part.len()) =~= longer.take(whole.len() as int).subrange(
            k,
            k + part.len(),
        ));
    }
    if begins(whole, part) {
        assert(longer.take(part.len() as int) =~= longer.take(whole.len() as int).take(
            part.len() as int,
        ));
    }
}

proof fn an_absorbed_workspace_stands_behind(own: WorkspaceView, other: WorkspaceView)
    ensures
        begins(own.absorb(other).containers.elements, own.containers.elements),
        stands_in(own.absorb(other).containers.elements, other.containers.elements),
{
    let incoming = other.containers_to_hand_over();
    append_keeps_the_rest(own, incoming);
    let whole = own.absorb(other).containers.elements;
    assert(whole == own.containers.elements + incoming);
    assert(whole.take(own.containers.elements.len() as int) =~= own.containers.elements);
    let (k, n) = (own.containers.elements.len() as int, other.containers.elements.len() as int);
    assert(incoming.len() >= n && incoming.take(n) =~= other.containers.elements);
    assert(whole.subrange(k, k + n) =~= other.containers.elements);
}

/// The containers on the workspace at `w`, none when there is no such workspace.
pub open spec fn on_workspace(monitor: MonitorView, w: int) -> Seq<ContainerView> {
    if 0 <= w < monitor.workspaces.elements.len() {
        monitor.workspaces.elements[w].containers.elements
    } else {
        Seq::empty()
    }
}

proof fn taken_in_one_to_one(monitor: MonitorView, gone: Seq<WorkspaceView>, w: int)
    requires
        0 <= w,
    ensures
        begins(on_workspace(monitor.take_in(gone), w), on_workspace(monitor, w)),
        w < gone.len() ==> w < monitor.take_in(gone).workspaces.elements.len() && stands_in(
            on_workspace(monitor.take_in(gone), w),
            gone[w].containers.elements,
        ),
        monitor.take_in(gone).workspaces.elements.len() >= monitor.workspaces.elements.len(),
        monitor.take_in(gone).workspaces.focused == monitor.workspaces.focused,
        ({
            let after = monitor.take_in(gone);
            &&& after.id == monitor.id
            &&& after.size == monitor.size
            &&& after.work_area == monitor.work_area
            &&& after.dpi == monitor.dpi
            &&& after.name == monitor.name
            &&& after.device_id == monitor.device_id
            &&& after.work_area_offset == monitor.work_area_offset
        }),
    decreases gone.len(),
{
    if gone.len() == 0 {
        let own = on_workspace(monitor, w);
        assert(own.take(own.len() as int) =~= own);
    } else {
        let head = gone.drop_last();
        taken_in_one_to_one(monitor, head, w);
        let last = gone.len() - 1;
        let before = monitor.take_in(head).ensure_workspaces(last + 1);
        let middle = on_workspace(monitor.take_in(head), w);
        let own = on_workspace(before, w);
        assert(own == middle || (middle.len() == 0 && own.len() == 0));
        assert(own =~= middle);
        let after = monitor.take_in(gone);
        if w == last {
            let target = before.workspaces.elements[last];
            an_absorbed_workspace_stands_behind(target, gone[last]);
            assert(on_workspace(after, w) == target.absorb(gone[last]).containers.elements);
            what_stood_still_stands(own, on_workspace(after, w), on_workspace(monitor, w));
        } else {
            assert(on_workspace(after, w) == own);
            if w < last {
                assert(head[w] == gone[w]);
            }
        }
    }
}

proof fn all_taken_in_one_to_one(
    monitor: MonitorView,
    gone: Seq<Option<MonitorView>>,
    k: int,
    w: int,
)
    requires
        0 <= w,
        0 <= k < gone.len() ==> gone[k] is Some && w < gone[k]->0.workspaces.elements.len(),
    ensures
        begins(on_workspace(monitor.take_in_all(gone), w), on_workspace(monitor, w)),
        0 <= k < gone.len() ==> w < monitor.take_in_all(gone).workspaces.elements.len()
            && stands_in(
            on_workspace(monitor.take_in_all(gone), w),
            on_workspace(gone[k]->0, w),
        ),
        monitor.take_in_all(gone).workspaces.elements.len() >= monitor.workspaces.elements.len(),
        monitor.take_in_all(gone).workspaces.focused == monitor.workspaces.focused,
        ({
            let after = monitor.take_in_all(gone);
            &&& after.id == monitor.id
            &&& after.size == monitor.size
            &&& after.work_area == monitor.work_area
            &&& after.dpi == monitor.dpi
            &&& after.name == monitor.name
            &&& after.device_id == monitor.device_id
            &&& after.work_area_offset == monitor.work_area_offset
        }),
    decreases gone.len(),
{
    if gone.len() == 0 {
        let own = on_workspace(monitor, w);
        assert(own.take(own.len() as int) =~= own);
    } else {
        let head = gone.drop_last();
        all_taken_in_one_to_one(
            monitor,
            head,
            if 0 <= k < head.len() {
                k
            } else {
                -1
            },
            w,
        );
        let before = monitor.take_in_all(head);
        if let Some(m) = gone.last() {
            taken_in_one_to_one(before, m.workspaces.elements, w);
            let after = on_workspace(before.take_in(m.workspaces.elements), w);
            what_stood_still_stands(on_workspace(before, w), after, on_workspace(monitor, w));
            if 0 <= k < head.len() {
                assert(head[k] == gone[k]);
                what_stood_still_stands(
                    on_workspace(before, w),
                    after,
                    on_workspace(gone[k]->0, w),
                );
            }
        } else if 0 <= k < head.len() {
            assert(head[k] == gone[k]);
        }
    }
}

/// The displays after a change are the reported ones, in their order, each with the
/// handle, the rectangles and the density it is reported with.
pub proof fn the_displays_are_the_reported_ones(
    state: StateView,
    reported: Seq<MonitorView>,
    i: int,
)
    requires
        reported.len() > 0,
        0 <= i < reported.len(),
    ensures
        ({
            let after = state.reconcile_monitors(reported).0.monitors.elements;
            &&& after.len() == reported.len()
            &&& after[i].id == reported[i].id
            &&& after[i].size == reported[i].size
            &&& after[i].work_area == reported[i].work_area
            &&& after[i].dpi == reported[i].dpi
            &&& reported[i].name.len() > 0 ==> after[i].name == reported[i].name
            &&& reported[i].device_id.len() > 0 ==> after[i].device_id == reported[i].device_id
        }),
{
    let known = state.monitors.elements;
    let moved = moved_displays(state, reported);
    a_retile_keeps_the_containers(moved, moved.monitors.len(), ChangesView::none(), i, 0);
    let ring = arrived(known, reported);
    all_taken_in_one_to_one(ring[0], unclaimed(known, claims(known, reported)), -1, 0);
}

/// The state with the displays replaced, before anything is laid out.
spec fn moved_displays(state: StateView, reported: Seq<MonitorView>) -> StateView {
    let known = state.monitors.elements;
    StateView {
        monitors: crate::model::ring::RingView::over(reconciled(known, reported)).focus_clamped(
            focus_after(claims(known, reported), state.monitors.focused),
        ),
        ..state
    }
}

/// A display that is still there keeps its workspaces with what is tiled on them, the
/// one that is in front, and its own offset. The first one may get more, behind what
/// it has.
pub proof fn a_display_that_stays_keeps_its_workspaces(
    state: StateView,
    reported: Seq<MonitorView>,
    k: int,
    i: int,
    w: int,
)
    requires
        is_display_change(state, reported),
        0 <= i < reported.len(),
        exists_at(state, k, w),
        is_the_same(state.monitors.elements[k], reported[i]),
    ensures
        ({
            let after = state.reconcile_monitors(reported).0;
            let (old, new) = (state.monitors.elements[k], after.monitors.elements[i]);
            &&& exists_at(after, i, w)
            &&& begins(containers_at(after, i, w), containers_at(state, k, w))
            &&& i > 0 ==> containers_at(after, i, w) == containers_at(state, k, w)
            &&& i > 0 ==> new.workspaces.elements.len() == old.workspaces.elements.len()
            &&& new.workspaces.focused == old.workspaces.focused
            &&& new.work_area_offset == old.work_area_offset
        }),
{
    let known = state.monitors.elements;
    a_claim_is_one_display(known, reported, i);
    assert(is_the_same(known[k], reported[i]));
    let moved = moved_displays(state, reported);
    let ring = arrived(known, reported);
    all_taken_in_one_to_one(ring[0], unclaimed(known, claims(known, reported)), -1, w);
    a_retile_keeps_the_containers(moved, moved.monitors.len(), ChangesView::none(), i, w);
    let own = containers_at(state, k, w);
    assert(own.take(own.len() as int) =~= own);
    assert(on_workspace(ring[i], w) == own);
}

/// What was tiled on a workspace of a display that is gone is on the workspace of the
/// same number of the first display, in its order.
pub proof fn a_display_that_goes_hands_its_workspaces_over(
    state: StateView,
    reported: Seq<MonitorView>,
    k: int,
    w: int,
)
    requires
        is_display_change(state, reported),
        exists_at(state, k, w),
        forall|i: int|
            0 <= i < reported.len() ==> !is_the_same(
                state.monitors.elements[k],
                #[trigger] reported[i],
            ),
    ensures
        exists_at(state.reconcile_monitors(reported).0, 0, w),
        stands_in(
            containers_at(state.reconcile_monitors(reported).0, 0, w),
            containers_at(state, k, w),
        ),
{
    let known = state.monitors.elements;
    let all = claims(known, reported);
    let gone = unclaimed(known, all);
    every_display_claims(known, reported);
    if all.contains(Some(k)) {
        let i = choose|i: int| 0 <= i < all.len() && all[i] == Some(k);
        a_claim_is_one_display(known, reported, i);
        assert(!is_the_same(known[k], reported[i]));
    }
    let moved = moved_displays(state, reported);
    let ring = arrived(known, reported);
    all_taken_in_one_to_one(ring[0], gone, k, w);
    a_retile_keeps_the_containers(moved, moved.monitors.len(), ChangesView::none(), 0, w);
}

proof fn the_most_is_the_most(known: Seq<MonitorView>, k: int)
    requires
        0 <= k < known.len(),
    ensures
        most_workspaces(known) >= known[k].workspaces.elements.len(),
    decreases known.len(),
{
    if k < known.len() - 1 {
        the_most_is_the_most(known.drop_last(), k);
    }
}

/// A display that is new has at least as many workspaces as every other one had.
pub proof fn a_new_display_has_as_many_workspaces(
    state: StateView,
    reported: Seq<MonitorView>,
    i: int,
    k: int,
)
    requires
        is_display_change(state, reported),
        0 <= i < reported.len(),
        0 <= k < state.monitors.elements.len(),
        forall|j: int|
            0 <= j < state.monitors.elements.len() ==> !is_the_same(
                #[trigger] state.monitors.elements[j],
                reported[i],
            ),
    ensures
        state.reconcile_monitors(reported).0.monitors.elements[i].workspaces.elements.len()
            >= state.monitors.elements[k].workspaces.elements.len(),
        i > 0 ==> forall|w: int|
            0 <= w < reported[i].workspaces.elements.len() ==> #[trigger] containers_at(
                state.reconcile_monitors(reported).0,
                i,
                w,
            ) == reported[i].workspaces.elements[w].containers.elements,
{
    let known = state.monitors.elements;
    a_claim_is_one_display(known, reported, i);
    the_most_is_the_most(known, k);
    let moved = moved_displays(state, reported);
    let ring = arrived(known, reported);
    all_taken_in_one_to_one(ring[0], unclaimed(known, claims(known, reported)), -1, 0);
    let n = moved.monitors.len();
    a_retile_keeps_the_containers(moved, n, ChangesView::none(), i, 0);
    if i > 0 {
        assert forall|w: int| 0 <= w < reported[i].workspaces.elements.len() implies
            #[trigger] containers_at(state.reconcile_monitors(reported).0, i, w)
                == reported[i].workspaces.elements[w].containers.elements by {
            a_retile_keeps_the_containers(moved, n, ChangesView::none(), i, w);
        }
    }
}

/// The focus stays on the display it was on, wherever that is now, and goes to the
/// first one when that display is gone.
pub proof fn the_focus_stays_on_its_display(state: StateView, reported: Seq<MonitorView>, i: int)
    requires
        is_display_change(state, reported),
        0 <= i < reported.len(),
        0 <= state.monitors.focused < state.monitors.elements.len(),
    ensures
        ({
            let after = state.reconcile_monitors(reported).0;
            let focused = state.monitors.elements[state.monitors.focused];
            &&& is_the_same(focused, reported[i]) ==> after.monitors.focused == i
            &&& (forall|j: int|
                0 <= j < reported.len() ==> !is_the_same(focused, #[trigger] reported[j]))
                ==> after.monitors.focused == 0
        }),
{
    let known = state.monitors.elements;
    let f = state.monitors.focused;
    let focused = known[f];
    let all = claims(known, reported);
    let p = is_claim(f);
    every_display_claims(known, reported);
    a_claim_is_one_display(known, reported, i);
    let moved = moved_displays(state, reported);
    a_retile_keeps_the_containers(moved, moved.monitors.len(), ChangesView::none(), i, 0);
    if is_the_same(focused, reported[i]) {
        assert(p(all[i]));
        assert forall|j: int| 0 <= j < i implies !p(#[trigger] all[j]) by {
            a_claim_is_one_display(known, reported, j);
            assert(reported[j].device_id != reported[i].device_id);
        }
        first_is(all, p, i);
    }
    if forall|j: int| 0 <= j < reported.len() ==> !is_the_same(focused, #[trigger] reported[j]) {
        assert forall|j: int| 0 <= j < all.len() implies !p(#[trigger] all[j]) by {
            a_claim_is_one_display(known, reported, j);
            assert(!is_the_same(focused, reported[j]));
        }
        first_is_none(all, p);
    }
}

/// A moment without any display changes nothing.
pub proof fn no_display_changes_nothing(state: StateView)
    ensures
        state.reconcile_monitors(Seq::empty()) == (state, ChangesView::none()),
{
}

/// The better of two identities decides whether two reports are about one display: the
/// device ids where both have one, else the names where both have one, else the handles.
pub proof fn the_best_identity_decides(a: MonitorView, b: MonitorView)
    ensures
        same_display(a, a),
        same_display(a, b) == same_display(b, a),
        a.device_id.len() > 0 && b.device_id.len() > 0 ==> (same_display(a, b) <==> a.device_id
            == b.device_id),
        (a.device_id.len() == 0 || b.device_id.len() == 0) && a.name.len() > 0 && b.name.len() > 0
            ==> (same_display(a, b) <==> a.name == b.name),
        (a.device_id.len() == 0 || b.device_id.len() == 0) && (a.name.len() == 0 || b.name.len()
            == 0) ==> (same_display(a, b) <==> a.id == b.id),
{
}

/// A workspace that takes in another has its own containers first, then the other's, the
/// one that was in monocle mode there and the window that was maximized there, and the
/// floating windows of both in the same order. What has the focus keeps it.
pub proof fn a_workspace_takes_in_everything(own: WorkspaceView, other: WorkspaceView)
    requires
        other.maximized_window is None || !any(
            other.containers.elements,
            holds(other.maximized_window->0.id),
        ) && (other.monocle_container is Some ==> !holds(other.maximized_window->0.id)(
            other.monocle_container->0,
        )),
    ensures
        ({
            let after = own.absorb(other);
            let monocle = match other.monocle_container {
                Some(c) => seq![c],
                None => Seq::empty(),
            };
            let maximized = match other.maximized_window {
                Some(w) => seq![just(w)],
                None => Seq::empty(),
            };
            &&& after.containers.elements == own.containers.elements + other.containers.elements
                + monocle + maximized
            &&& after.floating_windows.elements == own.floating_windows.elements
                + other.floating_windows.elements
            &&& own.containers.elements.len() > 0 && own.containers.wf()
                ==> after.containers.focused == own.containers.focused
            &&& after.monocle_container == own.monocle_container
            &&& after.maximized_window == own.maximized_window
            &&& after.name == own.name
            &&& after.layout == own.layout
        }),
{
    let incoming = other.containers_to_hand_over();
    append_keeps_the_rest(own, incoming);
    let (x, y) = (own.containers.elements, other.containers.elements);
    let after = own.absorb(other).containers.elements;
    let tiled = match other.monocle_container {
        Some(c) => y.push(c),
        None => y,
    };
    if let Some(w) = other.maximized_window {
        let p = holds(w.id);
        assert forall|i: int| 0 <= i < tiled.len() implies !p(#[trigger] tiled[i]) by {
            if i < y.len() {
                assert(tiled[i] == y[i]);
            }
        }
        assert(!any(tiled, p));
        assert(crate::model::container::alone(w) == just(w));
    }
    let monocle = match other.monocle_container {
        Some(c) => seq![c],
        None => Seq::empty(),
    };
    let maximized = match other.maximized_window {
        Some(w) => seq![just(w)],
        None => Seq::empty(),
    };
    assert(incoming =~= y + monocle + maximized);
    assert(after =~= x + y + monocle + maximized);
}

/// Windows that waited are taken in one after the other, in the order they appeared.
pub proof fn waiting_windows_are_taken_in_in_order(
    state: StateView,
    m: int,
    w: int,
    first: Seq<WindowView>,
    then: Seq<WindowView>,
)
    ensures
        state.add_all(m, w, first + then).0 == state.add_all(m, w, first).0.add_all(m, w, then).0,
        first.len() == 1 ==> state.add_all(m, w, first).0 == state.add_window_to(m, w, first[0]).0,
    decreases then.len(),
{
    if then.len() == 0 {
        assert(first + then =~= first);
    } else {
        let whole = first + then;
        assert(whole.drop_last() =~= first + then.drop_last());
        assert(whole.last() == then.last());
        waiting_windows_are_taken_in_in_order(state, m, w, first, then.drop_last());
    }
    if first.len() == 1 {
        assert(first.drop_last() =~= Seq::<WindowView>::empty());
        assert(state.add_all(m, w, first.drop_last()).0 == state);
    }
}

} // verus!
