//! A display change loses no window.

use vstd::prelude::*;

use crate::model::census::{
    tally, tally_adds_up, tally_in, tally_of_one, tally_when_any, windows_in_both, windows_in_one,
};
use crate::model::container::alone;
use crate::model::monitor::{windows_on, MonitorView};
use crate::model::ring::RingView;
use crate::model::state::{windows_across, StateView};
use crate::model::window::WindowId;
use crate::model::workspace::{append_keeps_the_rest, tiled_when_held, windows_in, WorkspaceView};
use crate::ops::census::{tally_across, tally_of_changed_monitor, tally_of_changed_workspace, tally_on};
use crate::ops::outcome::{arrived, claims, is_display, reconciled, unclaimed};
use crate::ops::reconcile::{claims_come_in_order, every_display_claims, a_claim_takes_the_slot, no_claim_takes_no_slot};
use crate::seqs::{first_idx, first_when_any};

verus! {

impl WorkspaceView {
    /// A workspace that takes in another one has the windows of both.
    pub proof fn absorbing_adds_the_windows(self, other: WorkspaceView, id: WindowId)
        requires
            other.no_doubles(),
        ensures
            self.absorb(other).tally(id) == self.tally(id) + other.tally(id),
    {
        let incoming = other.containers_to_hand_over();
        let grown = self.append_containers(incoming);
        append_keeps_the_rest(self, incoming);
        self.tally_of_parts(id);
        other.tally_of_parts(id);
        self.absorb(other).tally_of_parts(id);
        windows_in_both(self.containers.elements, incoming);
        tally_adds_up(windows_in(self.containers.elements), windows_in(incoming), id);
        tally_adds_up(self.floating_windows.elements, other.floating_windows.elements, id);
        other.handing_over_keeps_the_windows(id);
    }

    /// What a workspace hands over is everything but its floating windows.
    proof fn handing_over_keeps_the_windows(self, id: WindowId)
        requires
            self.no_doubles(),
        ensures
            tally_in(self.containers_to_hand_over(), id) + tally(
                self.floating_windows.elements,
                id,
            ) == self.tally(id),
    {
        let containers = self.containers.elements;
        let tiled = match self.monocle_container {
            Some(c) => containers.push(c),
            None => containers,
        };
        self.tally_of_parts(id);
        if self.monocle_container is Some {
            let c = self.monocle_container->0;
            assert(tiled =~= containers + seq![c]);
            windows_in_both(containers, seq![c]);
            windows_in_one(c);
            tally_adds_up(windows_in(containers), c.elements, id);
            if self.maximized_window is Some {
                tally_adds_up(windows_in(containers), c.elements, self.maximized_window->0.id);
            }
        }
        if self.maximized_window is Some {
            let w = self.maximized_window->0;
            self.tally_of_parts(w.id);
            assert(self.tally(w.id) <= 1);
            tally_of_one(w, w.id);
            tally_of_one(w, id);
            tally_when_any(windows_in(tiled), w.id);
            tiled_when_held(tiled, w.id);
            assert(tiled.push(alone(w)) =~= tiled + seq![alone(w)]);
            windows_in_both(tiled, seq![alone(w)]);
            windows_in_one(alone(w));
            tally_adds_up(windows_in(tiled), seq![w], id);
        }
    }
}

/// Holds when no handle is on any of the workspaces twice.
pub open spec fn all_without_doubles(workspaces: Seq<WorkspaceView>) -> bool {
    forall|i: int| 0 <= i < workspaces.len() ==> (#[trigger] workspaces[i]).no_doubles()
}

impl MonitorView {
    /// A monitor that takes in workspaces takes in their windows.
    pub proof fn taking_in_adds_the_windows(self, workspaces: Seq<WorkspaceView>, id: WindowId)
        requires
            all_without_doubles(workspaces),
        ensures
            self.take_in(workspaces).tally(id) == self.tally(id) + tally_on(workspaces, id),
            self.take_in(workspaces).workspaces.len() >= workspaces.len(),
        decreases workspaces.len(),
    {
        if workspaces.len() > 0 {
            let idx = workspaces.len() - 1;
            let head = workspaces.drop_last();
            assert(all_without_doubles(head));
            self.taking_in_adds_the_windows(head, id);
            let almost = self.take_in(head);
            let before = almost.ensure_workspaces(idx + 1);
            almost.growing_keeps_the_windows(idx + 1, id);
            let target = before.workspaces.elements[idx];
            assert(workspaces[idx].no_doubles());
            target.absorbing_adds_the_windows(workspaces.last(), id);
            tally_of_changed_workspace(
                before.workspaces.elements,
                idx,
                target.absorb(workspaces.last()),
                id,
            );
            tally_adds_up(windows_on(head), workspaces.last().all_windows(), id);
        }
    }

    /// A monitor that takes in displays takes in their windows.
    pub proof fn taking_in_displays_adds_the_windows(
        self,
        gone: Seq<Option<MonitorView>>,
        id: WindowId,
    )
        requires
            forall|i: int|
                0 <= i < gone.len() && (#[trigger] gone[i]) is Some ==> all_without_doubles(
                    gone[i]->0.workspaces.elements,
                ),
        ensures
            self.take_in_all(gone).tally(id) == self.tally(id) + tally_in_slots(gone, id),
        decreases gone.len(),
    {
        if gone.len() > 0 {
            let head = gone.drop_last();
            assert forall|i: int|
                0 <= i < head.len() && (#[trigger] head[i]) is Some implies all_without_doubles(
                head[i]->0.workspaces.elements,
            ) by {
                assert(head[i] == gone[i]);
            }
            self.taking_in_displays_adds_the_windows(head, id);
            if gone.last() is Some {
                assert(gone[gone.len() - 1] is Some);
                self.take_in_all(head).taking_in_adds_the_windows(
                    gone.last()->0.workspaces.elements,
                    id,
                );
            }
        }
    }
}

/// How many times a handle is on the displays in the slots.
pub open spec fn tally_in_slots(slots: Seq<Option<MonitorView>>, id: WindowId) -> int
    decreases slots.len(),
{
    if slots.len() == 0 {
        0
    } else {
        tally_in_slots(slots.drop_last(), id) + match slots.last() {
            Some(m) => m.tally(id),
            None => 0,
        }
    }
}

proof fn tally_of_cleared_slot(slots: Seq<Option<MonitorView>>, at: int, id: WindowId)
    requires
        0 <= at < slots.len(),
        slots[at] is Some,
    ensures
        tally_in_slots(slots.update(at, None), id) == tally_in_slots(slots, id) - slots[at]->0.tally(
            id,
        ),
    decreases slots.len(),
{
    let after = slots.update(at, None);
    if at == slots.len() - 1 {
        assert(after.drop_last() =~= slots.drop_last());
    } else {
        tally_of_cleared_slot(slots.drop_last(), at, id);
        assert(after.drop_last() =~= slots.drop_last().update(at, None));
    }
}

proof fn tally_of_full_slots(known: Seq<MonitorView>, id: WindowId)
    ensures
        tally_in_slots(unclaimed(known, Seq::empty()), id) == tally_across(known, id),
    decreases known.len(),
{
    let slots = unclaimed(known, Seq::empty());
    if known.len() > 0 {
        tally_of_full_slots(known.drop_last(), id);
        assert(slots.drop_last() =~= unclaimed(known.drop_last(), Seq::empty()));
        tally_adds_up(windows_across(known.drop_last()), known.last().all_windows(), id);
    }
}

/// The displays that were claimed and those that were not together have every
/// window.
proof fn claimed_and_unclaimed(
    known: Seq<MonitorView>,
    reported: Seq<MonitorView>,
    n: int,
    id: WindowId,
)
    requires
        0 <= n <= reported.len(),
        forall|i: int| 0 <= i < reported.len() ==> (#[trigger] reported[i]).tally(id) == 0,
    ensures
        tally_across(arrived(known, reported).take(n), id) + tally_in_slots(
            unclaimed(known, claims(known, reported.take(n))),
            id,
        ) == tally_across(known, id),
    decreases n,
{
    let ring = arrived(known, reported);
    if n == 0 {
        assert(reported.take(0) =~= Seq::<MonitorView>::empty());
        tally_of_full_slots(known, id);
        assert(ring.take(0) =~= Seq::<MonitorView>::empty());
    } else {
        claimed_and_unclaimed(known, reported, n - 1, id);
        let before = claims(known, reported.take(n - 1));
        every_display_claims(known, reported);
        every_display_claims(known, reported.take(n - 1));
        claims_come_in_order(known, reported, n);
        assert(reported.take(n).drop_last() =~= reported.take(n - 1));
        let slots = unclaimed(known, before);
        let claim = first_idx(slots, is_display(reported[n - 1]));
        assert(claims(known, reported.take(n)) == before.push(claim));
        assert(claims(known, reported).take(n)[n - 1] == claims(known, reported)[n - 1]);
        assert(claims(known, reported)[n - 1] == claim);
        assert(ring.take(n).drop_last() =~= ring.take(n - 1));
        tally_adds_up(windows_across(ring.take(n - 1)), ring[n - 1].all_windows(), id);
        first_when_any(slots, is_display(reported[n - 1]));
        if claim is Some {
            let idx = claim->0;
            assert(slots[idx] == Some(known[idx]));
            a_claim_takes_the_slot(known, before, idx);
            tally_of_cleared_slot(slots, idx, id);
            assert(ring[n - 1].all_windows() == known[idx].all_windows());
        } else {
            no_claim_takes_no_slot(known, before);
            reported[n - 1].growing_keeps_the_windows(
                crate::ops::outcome::most_workspaces(known),
                id,
            );
            assert(reported[n - 1].tally(id) == 0);
        }
    }
}

impl StateView {
    /// However the displays change, every window is managed exactly as often as
    /// before: a display that is gone loses none of its windows.
    pub proof fn a_display_change_keeps_the_windows(self, reported: Seq<MonitorView>, id: WindowId)
        requires
            self.no_doubles(),
            forall|i: int, any: WindowId|
                0 <= i < reported.len() ==> #[trigger] reported[i].tally(any) == 0,
        ensures
            self.reconcile_monitors(reported).0.tally(id) == self.tally(id),
    {
        if reported.len() > 0 {
            let known = self.monitors.elements;
            let ring = arrived(known, reported);
            let gone = unclaimed(known, claims(known, reported));
            assert forall|i: int| 0 <= i < reported.len() implies (#[trigger] reported[i]).tally(id)
                == 0 by {}
            claimed_and_unclaimed(known, reported, reported.len() as int, id);
            assert(reported.take(reported.len() as int) =~= reported);
            assert(ring.take(reported.len() as int) =~= ring);
            assert forall|i: int|
                0 <= i < gone.len() && (#[trigger] gone[i]) is Some implies all_without_doubles(
                gone[i]->0.workspaces.elements,
            ) by {
                assert(gone[i]->0 == known[i]);
                self.a_known_display_has_no_doubles(i);
            }
            ring[0].taking_in_displays_adds_the_windows(gone, id);
            tally_of_changed_monitor(ring, 0, ring[0].take_in_all(gone), id);
            let moved = StateView {
                monitors: RingView::over(reconciled(known, reported)).focus_clamped(
                    crate::ops::outcome::focus_after(
                        claims(known, reported),
                        self.monitors.focused,
                    ),
                ),
                ..self
            };
            assert(moved.tally(id) == self.tally(id));
            moved.retiling_keeps_the_windows(
                moved.monitors.len(),
                crate::model::changes::ChangesView::none(),
                id,
            );
        }
    }

    proof fn a_known_display_has_no_doubles(self, m: int)
        requires
            self.no_doubles(),
            0 <= m < self.monitors.len(),
        ensures
            all_without_doubles(self.monitors.elements[m].workspaces.elements),
    {
        let workspaces = self.monitors.elements[m].workspaces.elements;
        assert forall|w: int| 0 <= w < workspaces.len() implies (
        #[trigger] workspaces[w]).no_doubles() by {
            assert forall|id: WindowId| #[trigger] workspaces[w].tally(id) <= 1 by {
                self.tally_of_workspace(m, w, id);
                assert(self.tally(id) <= 1);
            }
        }
    }

    /// Laying the visible workspaces out again keeps every window.
    pub proof fn retiling_keeps_the_windows(
        self,
        n: int,
        changes: crate::model::changes::ChangesView,
        id: WindowId,
    )
        ensures
            self.retile_first(n, changes).0.tally(id) == self.tally(id),
        decreases n,
    {
        if n > 0 {
            self.retiling_keeps_the_windows(n - 1, changes, id);
            let before = self.retile_first(n - 1, changes).0;
            before.refreshing_keeps_the_windows(
                n - 1,
                before.monitors.elements[n - 1].workspaces.focused,
                id,
            );
        }
    }
}

} // verus!
