//! What applying a configuration leaves alone, the first time and every time.

use vstd::prelude::*;

use crate::config::assign::{is_free, is_pinned_to};
use crate::config::{monitors_configured, workspaces_configured, Config, MonitorConfig, WorkspaceConfig};
use crate::model::monitor::MonitorView;
use crate::model::ring::RingView;
use crate::model::state::StateView;
use crate::model::workspace::WorkspaceView;
use crate::ops::outcome::unclaimed;
use crate::seqs::{first_idx, first_is, first_is_none, first_when_any};

verus! {

/// The monitors are the same displays in the same order.
pub open spec fn same_displays(a: Seq<MonitorView>, b: Seq<MonitorView>) -> bool {
    &&& a.len() == b.len()
    &&& forall|i: int|
        #![trigger a[i]]
        #![trigger b[i]]
        0 <= i < a.len() ==> {
            &&& a[i].device_id == b[i].device_id
            &&& a[i].name == b[i].name
            &&& a[i].device == b[i].device
            &&& a[i].size == b[i].size
        }
}

/// The two workspaces hold the same windows in the same places.
pub open spec fn same_windows(a: WorkspaceView, b: WorkspaceView) -> bool {
    &&& a.containers == b.containers
    &&& a.floating_windows == b.floating_windows
    &&& a.focus_is_floating == b.focus_is_floating
    &&& a.monocle_container == b.monocle_container
    &&& a.monocle_restore == b.monocle_restore
    &&& a.maximized_window == b.maximized_window
    &&& a.maximized_restore == b.maximized_restore
    &&& a.resize_dimensions == b.resize_dimensions
    &&& a.latest_layout == b.latest_layout
}

/// `after` is the display `before` with every window where it was, and perhaps with
/// more workspaces that hold nothing.
pub open spec fn only_grown(before: MonitorView, after: MonitorView) -> bool {
    let (old_ring, new_ring) = (before.workspaces, after.workspaces);
    &&& after.id == before.id
    &&& after.size == before.size
    &&& after.work_area == before.work_area
    &&& after.dpi == before.dpi
    &&& after.last_focused_workspace == before.last_focused_workspace
    &&& old_ring.focused == new_ring.focused
    &&& old_ring.len() <= new_ring.len()
    &&& forall|w: int|
        0 <= w < old_ring.len() ==> same_windows(
            old_ring.elements[w],
            #[trigger] new_ring.elements[w],
        )
    &&& forall|w: int|
        old_ring.len() <= w < new_ring.len() ==> (#[trigger] new_ring.elements[w]).holds_nothing()
}

proof fn first_of_alike<V>(a: Seq<V>, b: Seq<V>, p: spec_fn(V) -> bool)
    requires
        a.len() == b.len(),
        forall|i: int| 0 <= i < a.len() ==> p(#[trigger] a[i]) == p(b[i]),
    ensures
        first_idx(a, p) == first_idx(b, p),
{
    first_when_any(a, p);
    if let Some(i) = first_idx(a, p) {
        assert forall|j: int| 0 <= j < i implies !p(#[trigger] b[j]) by {
            assert(p(a[j]) == p(b[j]));
        }
        first_is(b, p, i);
    } else {
        assert forall|j: int| 0 <= j < b.len() implies !p(#[trigger] b[j]) by {
            assert(p(a[j]) == p(b[j]));
        }
        first_is_none(b, p);
    }
}

impl WorkspaceConfig {
    /// Configuring a workspace a second time changes nothing.
    pub proof fn configuring_again_changes_nothing(&self, workspace: WorkspaceView)
        ensures
            self.configured(self.configured(workspace)) == self.configured(workspace),
            same_windows(workspace, self.configured(workspace)),
    {
    }
}

impl MonitorConfig {
    /// Configuring a monitor a second time changes nothing.
    pub proof fn configuring_again_changes_nothing(&self, monitor: MonitorView)
        ensures
            self.configured(self.configured(monitor)) == self.configured(monitor),
            only_grown(monitor, self.configured(monitor)),
    {
        let entries = self.workspaces@;
        let n = entries.len() as int;
        let once = self.configured(monitor);
        let twice = self.configured(once);
        let room = monitor.ensure_workspaces(n).workspaces.elements;
        assert(once.workspaces.elements == workspaces_configured(entries, room, n));
        assert(once.ensure_workspaces(n).workspaces.elements == once.workspaces.elements);
        assert forall|w: int| 0 <= w < room.len() implies twice.workspaces.elements[w]
            == #[trigger] once.workspaces.elements[w] by {
            if w < n {
                entries[w].configuring_again_changes_nothing(room[w]);
            }
        }
        assert(twice.workspaces.elements =~= once.workspaces.elements);
        assert forall|w: int| 0 <= w < monitor.workspaces.len() implies same_windows(
            monitor.workspaces.elements[w],
            #[trigger] once.workspaces.elements[w],
        ) by {
            assert(room[w] == monitor.workspaces.elements[w]);
        }
        assert forall|w: int|
            monitor.workspaces.len() <= w < once.workspaces.len() implies (
        #[trigger] once.workspaces.elements[w]).holds_nothing() by {
            assert(room[w] == WorkspaceView::fresh());
        }
    }
}

impl Config {
    proof fn same_pins(&self, a: Seq<MonitorView>, b: Seq<MonitorView>, n: int)
        requires
            same_displays(a, b),
        ensures
            self.pinned(a, n) == self.pinned(b, n),
        decreases n,
    {
        if n > 0 {
            self.same_pins(a, b, n - 1);
            let before = self.pinned(a, n - 1);
            let (x, y) = (unclaimed(a, before), unclaimed(b, before));
            let p = is_pinned_to(self.pin(n - 1));
            assert forall|i: int| 0 <= i < x.len() implies p(#[trigger] x[i]) == p(y[i]) by {
                assert(a[i].size == b[i].size);
            }
            first_of_alike(x, y, p);
        }
    }

    proof fn same_slots(&self, a: Seq<MonitorView>, b: Seq<MonitorView>, n: int)
        requires
            same_displays(a, b),
        ensures
            self.assigned(a, n) == self.assigned(b, n),
        decreases n,
    {
        if n > 0 {
            self.same_slots(a, b, n - 1);
            self.same_pins(a, b, self.entries().len() as int);
            let taken = self.pinned(a, self.entries().len() as int) + self.assigned(a, n - 1);
            let (x, y) = (unclaimed(a, taken), unclaimed(b, taken));
            first_of_alike(x, y, is_free());
            assert(n - 1 < x.len() ==> x[n - 1] is Some == y[n - 1] is Some);
        }
    }

    /// Which entry configures which monitor depends on nothing but the displays.
    pub proof fn the_displays_decide(&self, a: Seq<MonitorView>, b: Seq<MonitorView>)
        requires
            same_displays(a, b),
        ensures
            self.assignments(a) == self.assignments(b),
    {
        self.same_slots(a, b, self.entries().len() as int);
    }

    /// Every monitor is what it was, or what an entry assigned to it makes of it.
    pub proof fn each_monitor_is_grown(&self, monitors: RingView<MonitorView>, n: int)
        requires
            0 <= n <= self.entries().len(),
        ensures
            ({
                let after = monitors_configured(
                    self.entries(),
                    self.assignments(monitors.elements),
                    monitors,
                    n,
                );
                &&& after.focused == monitors.focused
                &&& same_displays(monitors.elements, after.elements)
                &&& forall|m: int|
                    0 <= m < monitors.len() ==> {
                        ||| #[trigger] after.elements[m] == monitors.elements[m]
                        ||| exists|e: int|
                            0 <= e < n && self.assignments(monitors.elements)[e] == Some(m)
                                && after.elements[m] == #[trigger] self.entries()[e].configured(
                                monitors.elements[m],
                            )
                    }
            }),
        decreases n,
    {
        if n > 0 {
            let slots = self.assignments(monitors.elements);
            self.one_slot_per_entry(monitors.elements);
            self.each_monitor_is_grown(monitors, n - 1);
            let before = monitors_configured(self.entries(), slots, monitors, n - 1);
            let after = monitors_configured(self.entries(), slots, monitors, n);
            if let Some(at) = slots[n - 1] {
                assert forall|e: int| 0 <= e < n - 1 implies #[trigger] slots[e] != Some(at) by {
                    if slots[e] is Some {
                        self.no_monitor_is_assigned_twice(monitors.elements, e, n - 1);
                    }
                }
                assert(before.elements[at] == monitors.elements[at]);
                assert(after.elements[at] == self.entries()[n - 1].configured(
                    monitors.elements[at],
                ));
                assert forall|m: int| 0 <= m < monitors.len() && m != at implies
                    #[trigger] after.elements[m] == before.elements[m] by {}
            }
        }
    }

    /// A monitor is what the entry assigned to it makes of it.
    pub proof fn an_entry_shapes_its_monitor(
        &self,
        monitors: RingView<MonitorView>,
        entry: int,
        n: int,
    )
        requires
            0 <= entry < n <= self.entries().len(),
            self.assignments(monitors.elements)[entry] is Some,
        ensures
            ({
                let slots = self.assignments(monitors.elements);
                let at = slots[entry]->0;
                monitors_configured(self.entries(), slots, monitors, n).elements[at]
                    == self.entries()[entry].configured(monitors.elements[at])
            }),
        decreases n,
    {
        let slots = self.assignments(monitors.elements);
        let at = slots[entry]->0;
        self.one_slot_per_entry(monitors.elements);
        self.each_monitor_is_grown(monitors, n - 1);
        let before = monitors_configured(self.entries(), slots, monitors, n - 1);
        if entry < n - 1 {
            self.an_entry_shapes_its_monitor(monitors, entry, n - 1);
            self.no_monitor_is_assigned_twice(monitors.elements, entry, n - 1);
        } else {
            assert forall|e: int| 0 <= e < n - 1 implies #[trigger] slots[e] != Some(at) by {
                if slots[e] is Some {
                    self.no_monitor_is_assigned_twice(monitors.elements, e, n - 1);
                }
            }
            assert(before.elements[at] == monitors.elements[at]);
        }
    }

    proof fn the_monitors_stay(&self, monitors: RingView<MonitorView>, n: int)
        requires
            0 <= n <= self.entries().len(),
        ensures
            ({
                let slots = self.assignments(monitors.elements);
                let all = self.entries().len() as int;
                let once = monitors_configured(self.entries(), slots, monitors, all);
                monitors_configured(self.entries(), slots, once, n) == once
            }),
        decreases n,
    {
        if n > 0 {
            let slots = self.assignments(monitors.elements);
            let all = self.entries().len() as int;
            let once = monitors_configured(self.entries(), slots, monitors, all);
            self.one_slot_per_entry(monitors.elements);
            self.each_monitor_is_grown(monitors, all);
            self.the_monitors_stay(monitors, n - 1);
            if let Some(at) = slots[n - 1] {
                self.an_entry_shapes_its_monitor(monitors, n - 1, all);
                self.entries()[n - 1].configuring_again_changes_nothing(monitors.elements[at]);
                assert(once.elements.update(at, once.elements[at]) =~= once.elements);
            }
        }
    }

    /// Applying a configuration a second time changes nothing.
    pub proof fn applying_again_changes_nothing(&self, state: StateView)
        ensures
            self.configured(self.configured(state)) == self.configured(state),
    {
        let all = self.entries().len() as int;
        let once = self.configured(state);
        self.each_monitor_is_grown(state.monitors, all);
        self.the_displays_decide(state.monitors.elements, once.monitors.elements);
        self.the_monitors_stay(state.monitors, all);
    }

    /// Applying a configuration moves no window: no monitor comes or goes, every
    /// window stays where it is, and a workspace that is new holds nothing.
    pub proof fn applying_moves_no_window(&self, state: StateView)
        ensures
            self.configured(state).monitors.focused == state.monitors.focused,
            same_displays(state.monitors.elements, self.configured(state).monitors.elements),
            forall|m: int|
                0 <= m < state.monitors.len() ==> only_grown(
                    state.monitors.elements[m],
                    #[trigger] self.configured(state).monitors.elements[m],
                ),
            self.configured(state).pending_windows == state.pending_windows,
    {
        let all = self.entries().len() as int;
        self.each_monitor_is_grown(state.monitors, all);
        let slots = self.assignments(state.monitors.elements);
        let after = self.configured(state).monitors;
        assert forall|m: int| 0 <= m < state.monitors.len() implies only_grown(
            state.monitors.elements[m],
            #[trigger] after.elements[m],
        ) by {
            if after.elements[m] != state.monitors.elements[m] {
                let e = choose|e: int|
                    0 <= e < all && slots[e] == Some(m) && after.elements[m]
                        == #[trigger] self.entries()[e].configured(state.monitors.elements[m]);
                self.entries()[e].configuring_again_changes_nothing(state.monitors.elements[m]);
            }
        }
    }

    /// A setting the file does not name keeps the value it had, and the rules are
    /// the ones the file gathers.
    pub proof fn an_unset_key_keeps_its_value(&self, state: StateView)
        ensures
            ({
                let after = self.configured(state);
                &&& self.window_hiding_behaviour is None ==> after.window_hiding_behaviour
                    == state.window_hiding_behaviour
                &&& self.cross_monitor_move_behaviour is None
                    ==> after.cross_monitor_move_behaviour == state.cross_monitor_move_behaviour
                &&& self.unmanaged_window_operation_behaviour is None
                    ==> after.unmanaged_window_operation_behaviour
                    == state.unmanaged_window_operation_behaviour
                &&& self.window_container_behaviour is None ==> after.window_container_behaviour
                    == state.window_container_behaviour
                &&& self.focus_follows_mouse is None ==> after.focus_follows_mouse
                    == state.focus_follows_mouse
                &&& self.mouse_follows_focus is None ==> after.mouse_follows_focus
                    == state.mouse_follows_focus
                &&& self.float_override is None ==> after.float_override == state.float_override
                &&& self.resize_delta is None ==> after.resize_delta == state.resize_delta
                &&& self.minimum_window_width is None ==> after.minimum_window_width
                    == state.minimum_window_width
                &&& self.minimum_window_height is None ==> after.minimum_window_height
                    == state.minimum_window_height
                &&& self.default_workspace_padding is None ==> after.default_workspace_padding
                    == state.default_workspace_padding
                &&& self.default_container_padding is None ==> after.default_container_padding
                    == state.default_container_padding
                &&& self.work_area_offset is None && self.global_work_area_offset is None
                    ==> after.work_area_offset == state.work_area_offset
                &&& after.rules == self.rules()
            }),
    {
    }
}

} // verus!
