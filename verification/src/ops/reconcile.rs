//! Display changes: the monitor ring is rebuilt from what the platform reports.

use vstd::prelude::*;

use crate::model::changes::Changes;
use crate::model::monitor::{index_opt, Monitor, MonitorView};
use crate::model::ring::Ring;
use crate::model::state::State;
use crate::model::workspace::{opt, Workspace, WorkspaceView};
use crate::ops::outcome::{
    arrived, claims, focus_after, is_claim, is_display, most_workspaces, reconciled, unclaimed,
    updated,
};
use crate::ops::{is_blank, is_same_display};
use crate::seqs::{first_idx, first_is, first_is_none};

verus! {

/// The views of some monitors.
pub open spec fn monitor_views(monitors: Seq<Monitor>) -> Seq<MonitorView> {
    monitors.map_values(|m: Monitor| m@)
}

/// The views of some slots.
pub open spec fn slot_views(slots: Seq<Option<Monitor>>) -> Seq<Option<MonitorView>> {
    slots.map_values(|slot: Option<Monitor>| opt(slot))
}

/// The values of some claims.
pub open spec fn claim_views(claims: Seq<Option<usize>>) -> Seq<Option<int>> {
    claims.map_values(|claim: Option<usize>| index_opt(claim))
}

/// One claim per reported display.
pub proof fn every_display_claims(known: Seq<MonitorView>, reported: Seq<MonitorView>)
    ensures
        claims(known, reported).len() == reported.len(),
    decreases reported.len(),
{
    if reported.len() > 0 {
        every_display_claims(known, reported.drop_last());
    }
}

/// Whoever is reported later does not change what was claimed before.
pub proof fn claims_come_in_order(known: Seq<MonitorView>, reported: Seq<MonitorView>, n: int)
    requires
        0 <= n <= reported.len(),
    ensures
        claims(known, reported.take(n)) == claims(known, reported).take(n),
    decreases reported.len(),
{
    every_display_claims(known, reported);
    if n == reported.len() {
        assert(reported.take(n) =~= reported);
        assert(claims(known, reported).take(n) =~= claims(known, reported));
    } else {
        let head = reported.drop_last();
        every_display_claims(known, head);
        claims_come_in_order(known, head, n);
        assert(head.take(n) =~= reported.take(n));
        assert(claims(known, reported).take(n) =~= claims(known, head).take(n));
    }
}

/// Claiming a display takes it out of the unclaimed ones.
pub proof fn a_claim_takes_the_slot(known: Seq<MonitorView>, before: Seq<Option<int>>, idx: int)
    requires
        0 <= idx < known.len(),
    ensures
        unclaimed(known, before.push(Some(idx))) == unclaimed(known, before).update(idx, None),
{
    let after = before.push(Some(idx));
    assert(after[before.len() as int] == Some(idx));
    assert forall|i: int| 0 <= i < known.len() implies #[trigger] unclaimed(known, after)[i]
        == unclaimed(known, before).update(idx, None)[i] by {
        if before.contains(Some(i)) {
            let k = choose|k: int| 0 <= k < before.len() && before[k] == Some(i);
            assert(after[k] == Some(i));
        }
        if after.contains(Some(i)) && i != idx {
            let k = choose|k: int| 0 <= k < after.len() && after[k] == Some(i);
            assert(before[k] == Some(i));
        }
    }
    assert(unclaimed(known, after) =~= unclaimed(known, before).update(idx, None));
}

/// A display that is not known leaves the unclaimed ones alone.
pub proof fn no_claim_takes_no_slot(known: Seq<MonitorView>, before: Seq<Option<int>>)
    ensures
        unclaimed(known, before.push(None)) == unclaimed(known, before),
{
    let after = before.push(None);
    assert forall|i: int| 0 <= i < known.len() implies #[trigger] unclaimed(known, after)[i]
        == unclaimed(known, before)[i] by {
        if before.contains(Some(i)) {
            let k = choose|k: int| 0 <= k < before.len() && before[k] == Some(i);
            assert(after[k] == Some(i));
        }
        if after.contains(Some(i)) {
            let k = choose|k: int| 0 <= k < after.len() && after[k] == Some(i);
            assert(before[k] == Some(i));
        }
    }
    assert(unclaimed(known, after) =~= unclaimed(known, before));
}

/// Every monitor in a slot of its own.
fn slots_of(monitors: Vec<Monitor>) -> (r: Vec<Option<Monitor>>)
    ensures
        slot_views(r@) == unclaimed(monitor_views(monitors@), Seq::empty()),
{
    let ghost known = monitor_views(monitors@);
    let mut rest = monitors;
    let mut slots: Vec<Option<Monitor>> = Vec::new();
    let ghost mut done: int = 0;
    assert(known.skip(0) =~= known);
    while rest.len() > 0
        invariant
            0 <= done <= known.len(),
            monitor_views(rest@) == known.skip(done),
            slot_views(slots@) == unclaimed(known, Seq::empty()).take(done),
        decreases rest@.len(),
    {
        let ghost before = monitor_views(rest@);
        let monitor = rest.remove(0);
        assert(monitor@ == before[0]);
        assert(monitor_views(rest@) =~= before.skip(1));
        let ghost filled = slot_views(slots@);
        slots.push(Some(monitor));
        proof {
            assert(known.skip(done)[0] == known[done]);
            assert(known.skip(done).skip(1) =~= known.skip(done + 1));
            assert(slot_views(slots@) =~= filled.push(Some(monitor@)));
            assert(filled.push(Some(known[done])) =~= unclaimed(known, Seq::empty()).take(
                done + 1,
            ));
            done = done + 1;
        }
    }
    assert(known.skip(done).len() == 0);
    assert(unclaimed(known, Seq::empty()).take(done) =~= unclaimed(known, Seq::empty()));
    slots
}

/// The most workspaces one of the monitors has, and at least one.
fn count_workspaces(monitors: &Vec<Monitor>) -> (r: usize)
    ensures
        r == most_workspaces(monitor_views(monitors@)),
{
    let ghost known = monitor_views(monitors@);
    let mut most: usize = 1;
    for i in 0..monitors.len()
        invariant
            known == monitor_views(monitors@),
            most == most_workspaces(known.take(i as int)),
    {
        assert(known[i as int] == monitors@[i as int]@);
        assert(known.take(i + 1).drop_last() =~= known.take(i as int));
        let count = monitors[i].workspaces.len();
        if count > most {
            most = count;
        }
    }
    assert(known.take(monitors@.len() as int) =~= known);
    most
}

/// The first slot with the same display as `monitor` in it.
fn find_display(slots: &Vec<Option<Monitor>>, monitor: &Monitor) -> (r: Option<usize>)
    ensures
        index_opt(r) == first_idx(slot_views(slots@), is_display(monitor@)),
        r matches Some(idx) ==> idx < slots@.len() && slots@[idx as int] is Some,
{
    let ghost views = slot_views(slots@);
    for idx in 0..slots.len()
        invariant
            views == slot_views(slots@),
            forall|j: int| 0 <= j < idx ==> !is_display(monitor@)(#[trigger] views[j]),
    {
        assert(views[idx as int] == opt(slots@[idx as int]));
        if let Some(known) = &slots[idx] {
            if is_same_display(known, monitor) {
                proof {
                    first_is(views, is_display(monitor@), idx as int);
                }
                return Some(idx);
            }
        }
    }
    proof {
        first_is_none(views, is_display(monitor@));
    }
    None
}

/// A display that is still there, with what the platform reports about it now.
fn update(kept: Monitor, now: Monitor) -> (r: Monitor)
    ensures
        r@ == updated(kept@, now@),
{
    let mut kept = kept;
    kept.id = now.id;
    kept.size = now.size;
    kept.work_area = now.work_area;
    kept.dpi = now.dpi;
    if !is_blank(now.name.as_str()) {
        kept.name = now.name;
    }
    if !is_blank(now.device.as_str()) {
        kept.device = now.device;
    }
    if !is_blank(now.device_id.as_str()) {
        kept.device_id = now.device_id;
    }
    kept
}

impl Monitor {
    /// Takes in the workspaces of a display that is gone, one to one.
    fn take_in(&mut self, workspaces: Ring<Workspace>)
        ensures
            final(self)@ == old(self)@.take_in(workspaces@.elements),
    {
        let ghost all = workspaces@.elements;
        let mut rest = workspaces.into_vec();
        let total = rest.len();
        let mut idx: usize = 0;
        assert(all.skip(0) =~= all);
        assert(all.take(0) =~= Seq::<WorkspaceView>::empty());
        while rest.len() > 0
            invariant
                idx + rest@.len() == all.len(),
                all.len() == total,
                rest@.map_values(|w: Workspace| w@) == all.skip(idx as int),
                self@ == old(self)@.take_in(all.take(idx as int)),
            decreases rest@.len(),
        {
            let ghost before = rest@.map_values(|w: Workspace| w@);
            let workspace = rest.remove(0);
            assert(workspace@ == before[0]);
            assert(rest@.map_values(|w: Workspace| w@) =~= before.skip(1));
            self.ensure_workspaces(idx + 1);
            if let Some(target) = self.workspaces.get_mut(idx) {
                target.absorb(workspace);
            }
            proof {
                assert(all.skip(idx as int)[0] == all[idx as int]);
                assert(all.skip(idx as int).skip(1) =~= all.skip(idx + 1));
                assert(all.take(idx + 1).drop_last() =~= all.take(idx as int));
            }
            idx = idx + 1;
        }
        assert(all.take(idx as int) =~= all);
    }

    /// Takes in the workspaces of every display that is gone.
    fn take_in_all(&mut self, gone: Vec<Option<Monitor>>)
        ensures
            final(self)@ == old(self)@.take_in_all(slot_views(gone@)),
    {
        let ghost all = slot_views(gone@);
        let mut rest = gone;
        let ghost mut done: int = 0;
        assert(all.skip(0) =~= all);
        assert(all.take(0) =~= Seq::<Option<MonitorView>>::empty());
        while rest.len() > 0
            invariant
                0 <= done <= all.len(),
                slot_views(rest@) == all.skip(done),
                self@ == old(self)@.take_in_all(all.take(done)),
            decreases rest@.len(),
        {
            let ghost before = slot_views(rest@);
            let slot = rest.remove(0);
            assert(opt(slot) == before[0]);
            assert(slot_views(rest@) =~= before.skip(1));
            if let Some(monitor) = slot {
                self.take_in(monitor.workspaces);
            }
            proof {
                assert(all.skip(done)[0] == all[done]);
                assert(all.skip(done).skip(1) =~= all.skip(done + 1));
                assert(all.take(done + 1).drop_last() =~= all.take(done));
                done = done + 1;
            }
        }
        assert(all.skip(done).len() == 0);
        assert(all.take(done) =~= all);
    }
}

/// The monitors after a display change, and which known one each of them was.
fn rebuild(known: Vec<Monitor>, reported: Vec<Monitor>) -> (r: (Vec<Monitor>, Vec<Option<usize>>))
    requires
        reported@.len() > 0,
    ensures
        monitor_views(r.0@) == reconciled(monitor_views(known@), monitor_views(reported@)),
        claim_views(r.1@) == claims(monitor_views(known@), monitor_views(reported@)),
{
    let ghost were = monitor_views(known@);
    let ghost all = monitor_views(reported@);
    let count = count_workspaces(&known);
    let mut slots = slots_of(known);
    let mut rest = reported;
    let mut ring: Vec<Monitor> = Vec::new();
    let mut consumed: Vec<Option<usize>> = Vec::new();
    let ghost mut done: int = 0;
    assert(all.skip(0) =~= all);
    assert(all.take(0) =~= Seq::<MonitorView>::empty());
    assert(claim_views(consumed@) =~= Seq::<Option<int>>::empty());
    while rest.len() > 0
        invariant
            0 <= done <= all.len(),
            count == most_workspaces(were),
            monitor_views(rest@) == all.skip(done),
            claim_views(consumed@) == claims(were, all.take(done)),
            slot_views(slots@) == unclaimed(were, claim_views(consumed@)),
            monitor_views(ring@) == arrived(were, all).take(done),
        decreases rest@.len(),
    {
        let ghost before = monitor_views(rest@);
        let ghost taken = claim_views(consumed@);
        let ghost placed = monitor_views(ring@);
        let mut monitor = rest.remove(0);
        assert(monitor@ == before[0]);
        assert(monitor_views(rest@) =~= before.skip(1));
        proof {
            assert(all.skip(done)[0] == all[done]);
            assert(all.skip(done).skip(1) =~= all.skip(done + 1));
            assert(all.take(done + 1).drop_last() =~= all.take(done));
            every_display_claims(were, all);
            claims_come_in_order(were, all, done + 1);
            every_display_claims(were, all.take(done));
            assert(claims(were, all.take(done + 1))[done] == claims(were, all)[done]);
            assert(claims(were, all.take(done + 1)) == taken.push(
                first_idx(unclaimed(were, taken), is_display(monitor@)),
            ));
        }
        let ghost now = monitor@;
        match find_display(&slots, &monitor) {
            Some(idx) => {
                let ghost was = slot_views(slots@);
                assert(was[idx as int] == Some(were[idx as int]));
                let slot = slots.remove(idx);
                slots.insert(idx, None);
                assert(slot_views(slots@) =~= was.update(idx as int, None));
                if let Some(kept) = slot {
                    ring.push(update(kept, monitor));
                }
                consumed.push(Some(idx));
                proof {
                    a_claim_takes_the_slot(were, taken, idx as int);
                }
            },
            None => {
                monitor.ensure_workspaces(count);
                ring.push(monitor);
                consumed.push(None);
                proof {
                    no_claim_takes_no_slot(were, taken);
                }
            },
        }
        proof {
            assert(claim_views(consumed@) =~= claims(were, all.take(done + 1)));
            assert(monitor_views(ring@) =~= placed.push(arrived(were, all)[done]));
            assert(placed.push(arrived(were, all)[done]) =~= arrived(were, all).take(done + 1));
            done = done + 1;
        }
    }
    assert(all.skip(done).len() == 0);
    assert(all.take(done) =~= all);
    assert(arrived(were, all).take(done) =~= arrived(were, all));
    let ghost placed = monitor_views(ring@);
    // Whatever nobody claimed is unplugged. Its windows move onto the
    // first monitor that is left, workspace by workspace.
    let mut survivor = ring.remove(0);
    survivor.take_in_all(slots);
    ring.insert(0, survivor);
    assert(monitor_views(ring@) =~= placed.update(0, survivor@));
    (ring, consumed)
}

/// Where the display that had the focus is now, or the first one.
fn place_focus(consumed: &Vec<Option<usize>>, focused: usize) -> (r: usize)
    ensures
        r == focus_after(claim_views(consumed@), focused as int),
{
    let ghost views = claim_views(consumed@);
    for idx in 0..consumed.len()
        invariant
            views == claim_views(consumed@),
            forall|j: int| 0 <= j < idx ==> !is_claim(focused as int)(#[trigger] views[j]),
    {
        assert(views[idx as int] == index_opt(consumed@[idx as int]));
        if let Some(was) = consumed[idx] {
            if was == focused {
                proof {
                    first_is(views, is_claim(focused as int), idx as int);
                }
                return idx;
            }
        }
    }
    proof {
        first_is_none(views, is_claim(focused as int));
    }
    0
}

impl State {
    /// Rebuilds the monitor ring from the displays the platform reports now.
    ///
    /// The daemon calls this once per display change event, with the monitors
    /// it just enumerated, and applies the returned [`Changes`] in one go:
    /// they carry the hide and show lists as well as the retiles, because a
    /// display going away moves whole workspaces around.
    ///
    /// - A display that is still there keeps its workspaces, its windows, its
    ///   focus and its own offsets; only the geometry, the DPI, the platform
    ///   handle and the identity strings are refreshed from the new value.
    /// - A display that is gone hands its workspaces to the first remaining
    ///   monitor: workspace one to workspace one, workspace two to workspace
    ///   two, created when the survivor does not have that many. Floating
    ///   windows follow their workspace, so nothing is ever lost.
    /// - A display that is new arrives with as many empty workspaces as the
    ///   monitors that were already there have, or one.
    /// - The ring ends up in the order the platform gave, and the focus stays
    ///   on the same physical display when it survived, otherwise it falls
    ///   back to the first one.
    ///
    /// An empty list is ignored: a moment without any display, which happens
    /// while a machine wakes up, is no reason to throw the model away.
    pub fn reconcile_monitors(&mut self, reported: Vec<Monitor>) -> (r: Changes)
        ensures
            (final(self)@, r@) == old(self)@.reconcile_monitors(monitor_views(reported@)),
    {
        if reported.len() == 0 {
            return Changes::none();
        }
        let before = self.visible_window_ids();
        let focused = self.focused_monitor_idx();
        let mut known: Ring<Monitor> = Ring::new();
        std::mem::swap(&mut known, &mut self.monitors);
        let (ring, consumed) = rebuild(known.into_vec(), reported);
        self.monitors = Ring::from_vec(ring);
        let focus = place_focus(&consumed, focused);
        self.monitors.focus_clamped(focus);
        let mut changes = Changes::none();
        self.retile_visible(&mut changes);
        changes.focused_monitor_changed = true;
        self.visibility_delta(before.as_slice(), &mut changes);
        let mut visible = self.visible_window_ids();
        changes.show.append(&mut visible);
        changes.settle();
        changes
    }
}

} // verus!
