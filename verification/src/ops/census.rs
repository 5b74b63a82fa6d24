//! No command loses a window or doubles one.

use vstd::prelude::*;

use crate::geometry::{Axis, Direction};
use crate::layout::{Layout, Sizing};
use crate::model::census::{
    tally, tally_adds_up, tally_of_changed_container, tally_of_one, tally_when_any,
};
use crate::model::container::{alone, holds, stacked};
use crate::model::monitor::{grown, houses, windows_on, Monitor, MonitorView};
use crate::model::ring::{a_step_back_undoes_a_step, CycleDirection};
use crate::model::state::{covers, shows, windows_across, State, StateView};
use crate::model::window::{has_id, WindowId, WindowView};
use crate::model::workspace::{any_in_either, WorkspaceView};
use crate::ops::outcome::{arrived, has_named};
use crate::rules::RuleDecision;
use crate::seqs::{any, first_idx, first_when_any};

verus! {

/// How many times a handle is on the workspaces.
pub open spec fn tally_on(workspaces: Seq<WorkspaceView>, id: WindowId) -> int {
    tally(windows_on(workspaces), id)
}

/// How many times a handle is on the monitors.
pub open spec fn tally_across(monitors: Seq<MonitorView>, id: WindowId) -> int {
    tally(windows_across(monitors), id)
}

proof fn windows_on_both(a: Seq<WorkspaceView>, b: Seq<WorkspaceView>, id: WindowId)
    ensures
        tally_on(a + b, id) == tally_on(a, id) + tally_on(b, id),
    decreases b.len(),
{
    if b.len() == 0 {
        assert(a + b =~= a);
    } else {
        windows_on_both(a, b.drop_last(), id);
        assert((a + b).drop_last() =~= a + b.drop_last());
        assert((a + b).last() == b.last());
        tally_adds_up(windows_on(a + b.drop_last()), b.last().all_windows(), id);
        tally_adds_up(windows_on(b.drop_last()), b.last().all_windows(), id);
    }
}

proof fn windows_on_one(workspace: WorkspaceView, id: WindowId)
    ensures
        tally_on(seq![workspace], id) == workspace.tally(id),
{
    assert(seq![workspace].drop_last() =~= Seq::<WorkspaceView>::empty());
    assert(windows_on(seq![workspace].drop_last()) =~= Seq::<WindowView>::empty());
    assert(windows_on(seq![workspace]) =~= workspace.all_windows());
}

/// Replacing a workspace replaces its windows in the count.
pub proof fn tally_of_changed_workspace(
    workspaces: Seq<WorkspaceView>,
    at: int,
    workspace: WorkspaceView,
    id: WindowId,
)
    requires
        0 <= at < workspaces.len(),
    ensures
        tally_on(workspaces.update(at, workspace), id) + workspaces[at].tally(id) == tally_on(
            workspaces,
            id,
        ) + workspace.tally(id),
{
    let head = workspaces.take(at);
    let tail = workspaces.skip(at + 1);
    assert(workspaces.update(at, workspace) =~= head + seq![workspace] + tail);
    assert(workspaces =~= head + seq![workspaces[at]] + tail);
    windows_on_both(head + seq![workspace], tail, id);
    windows_on_both(head, seq![workspace], id);
    windows_on_both(head + seq![workspaces[at]], tail, id);
    windows_on_both(head, seq![workspaces[at]], id);
    windows_on_one(workspace, id);
    windows_on_one(workspaces[at], id);
}

proof fn windows_across_both(a: Seq<MonitorView>, b: Seq<MonitorView>, id: WindowId)
    ensures
        tally_across(a + b, id) == tally_across(a, id) + tally_across(b, id),
    decreases b.len(),
{
    if b.len() == 0 {
        assert(a + b =~= a);
    } else {
        windows_across_both(a, b.drop_last(), id);
        assert((a + b).drop_last() =~= a + b.drop_last());
        assert((a + b).last() == b.last());
        tally_adds_up(windows_across(a + b.drop_last()), b.last().all_windows(), id);
        tally_adds_up(windows_across(b.drop_last()), b.last().all_windows(), id);
    }
}

proof fn windows_across_one(monitor: MonitorView, id: WindowId)
    ensures
        tally_across(seq![monitor], id) == monitor.tally(id),
{
    assert(seq![monitor].drop_last() =~= Seq::<MonitorView>::empty());
    assert(windows_across(seq![monitor].drop_last()) =~= Seq::<WindowView>::empty());
    assert(windows_across(seq![monitor]) =~= monitor.all_windows());
}

/// Replacing a monitor replaces its windows in the count.
pub proof fn tally_of_changed_monitor(
    monitors: Seq<MonitorView>,
    at: int,
    monitor: MonitorView,
    id: WindowId,
)
    requires
        0 <= at < monitors.len(),
    ensures
        tally_across(monitors.update(at, monitor), id) + monitors[at].tally(id) == tally_across(
            monitors,
            id,
        ) + monitor.tally(id),
{
    let head = monitors.take(at);
    let tail = monitors.skip(at + 1);
    assert(monitors.update(at, monitor) =~= head + seq![monitor] + tail);
    assert(monitors =~= head + seq![monitors[at]] + tail);
    windows_across_both(head + seq![monitor], tail, id);
    windows_across_both(head, seq![monitor], id);
    windows_across_both(head + seq![monitors[at]], tail, id);
    windows_across_both(head, seq![monitors[at]], id);
    windows_across_one(monitor, id);
    windows_across_one(monitors[at], id);
}

impl MonitorView {
    /// How many times a handle is on the monitor.
    pub open spec fn tally(self, id: WindowId) -> int {
        tally(self.all_windows(), id)
    }

    /// Creating workspaces creates no windows.
    pub proof fn growing_keeps_the_windows(self, count: int, id: WindowId)
        ensures
            self.ensure_workspaces(count).tally(id) == self.tally(id),
        decreases count,
    {
        let before = self.workspaces.elements;
        let after = grown(self.workspaces, count).elements;
        if count > before.len() {
            self.growing_keeps_the_windows(count - 1, id);
            let almost = grown(self.workspaces, count - 1).elements;
            assert(after =~= almost + seq![WorkspaceView::fresh()]);
            windows_on_both(almost, seq![WorkspaceView::fresh()], id);
            windows_on_one(WorkspaceView::fresh(), id);
            assert(WorkspaceView::fresh().all_windows() =~= Seq::<WindowView>::empty());
        }
    }
}

impl StateView {
    /// How many times a handle is managed.
    pub open spec fn tally(self, id: WindowId) -> int {
        tally(self.all_windows(), id)
    }

    /// `true` when no handle is managed twice.
    pub open spec fn no_doubles(self) -> bool {
        forall|id: WindowId| #[trigger] self.tally(id) <= 1
    }

    /// Every focus is on something, or at the start of nothing.
    pub open spec fn wf(self) -> bool {
        &&& self.monitors.wf()
        &&& forall|m: int| 0 <= m < self.monitors.len() ==> (#[trigger] self.monitors.elements[m]).wf()
    }

    /// A workspace holds some of the windows.
    pub proof fn tally_of_workspace(self, monitor: int, workspace: int, id: WindowId)
        requires
            self.workspace(monitor, workspace) is Ok,
        ensures
            0 <= self.workspace(monitor, workspace)->Ok_0.tally(id) <= self.tally(id),
    {
        let m = self.monitors.elements[monitor];
        let w = m.workspaces.elements[workspace];
        let blank = WorkspaceView::fresh();
        assert(blank.all_windows() =~= Seq::<WindowView>::empty());
        tally_of_changed_workspace(m.workspaces.elements, workspace, blank, id);
        let rest = MonitorView { workspaces: m.workspaces.with(workspace, blank), ..m };
        tally_of_changed_monitor(self.monitors.elements, monitor, rest, id);
        tally_when_any(windows_on(rest.workspaces.elements), id);
        tally_when_any(windows_across(self.monitors.elements.update(monitor, rest)), id);
        tally_when_any(w.all_windows(), id);
    }

    /// A workspace that is edited changes the count by what it changed itself.
    pub proof fn tally_of_edit(self, monitor: int, workspace: int, value: WorkspaceView, id: WindowId)
        requires
            self.workspace(monitor, workspace) is Ok,
        ensures
            self.with_workspace(monitor, workspace, value).tally(id) == self.tally(id) + value.tally(
                id,
            ) - self.workspace(monitor, workspace)->Ok_0.tally(id),
    {
        let m = self.monitors.elements[monitor];
        tally_of_changed_workspace(m.workspaces.elements, workspace, value, id);
        tally_of_changed_monitor(
            self.monitors.elements,
            monitor,
            MonitorView { workspaces: m.workspaces.with(workspace, value), ..m },
            id,
        );
    }

    /// Stamping the minimum tile size on a workspace keeps its windows.
    pub proof fn stamping_keeps_the_windows(self, workspace: WorkspaceView, id: WindowId)
        ensures
            self.stamped(workspace).tally(id) == workspace.tally(id),
            self.stamped(workspace).all_windows() == workspace.all_windows(),
    {
    }

    /// Laying a workspace out again keeps every window.
    pub proof fn refreshing_keeps_the_windows(self, monitor: int, workspace: int, id: WindowId)
        ensures
            self.refreshed(monitor, workspace).tally(id) == self.tally(id),
    {
        if self.workspace(monitor, workspace) is Ok {
            let target = self.workspace(monitor, workspace)->Ok_0;
            let laid = self.stamped(target).laid_out(
                self.area_for(monitor, workspace)->0,
                self.default_workspace_padding,
                self.default_container_padding,
                self.padding_scale(monitor),
            );
            assert(laid.all_windows() =~= target.all_windows());
            self.tally_of_edit(monitor, workspace, laid, id);
        }
    }

    /// A workspace that keeps its own windows keeps those of the state.
    pub proof fn editing_keeps_the_windows(
        self,
        monitor: int,
        workspace: int,
        value: WorkspaceView,
        id: WindowId,
    )
        requires
            self.workspace(monitor, workspace) is Ok,
            value.tally(id) == self.workspace(monitor, workspace)->Ok_0.tally(id),
        ensures
            self.with_workspace(monitor, workspace, value).tally(id) == self.tally(id),
            self.with_workspace(monitor, workspace, value).refreshed(monitor, workspace).tally(id)
                == self.tally(id),
    {
        self.tally_of_edit(monitor, workspace, value, id);
        self.with_workspace(monitor, workspace, value).refreshing_keeps_the_windows(
            monitor,
            workspace,
            id,
        );
    }

    /// What is true of every workspace of a valid state without doubles.
    pub proof fn a_workspace_is_sound(self, monitor: int, workspace: int)
        requires
            self.wf(),
            self.no_doubles(),
            self.workspace(monitor, workspace) is Ok,
        ensures
            self.workspace(monitor, workspace)->Ok_0.wf(),
            self.workspace(monitor, workspace)->Ok_0.no_doubles(),
            self.stamped(self.workspace(monitor, workspace)->Ok_0).wf(),
            self.stamped(self.workspace(monitor, workspace)->Ok_0).no_doubles(),
    {
        let w = self.workspace(monitor, workspace)->Ok_0;
        assert(self.monitors.elements[monitor].wf());
        assert(w == self.monitors.elements[monitor].workspaces.elements[workspace]);
        assert forall|id: WindowId| #[trigger] w.tally(id) <= 1 by {
            self.tally_of_workspace(monitor, workspace, id);
            assert(self.tally(id) <= 1);
        }
        assert forall|id: WindowId| #[trigger] self.stamped(w).tally(id) <= 1 by {
            self.stamping_keeps_the_windows(w, id);
            assert(w.tally(id) <= 1);
        }
    }

    /// Looking at another workspace keeps every window.
    pub proof fn looking_keeps_the_windows(self, monitor: int, workspace: int, id: WindowId)
        requires
            0 <= monitor < self.monitors.len(),
        ensures
            self.look_at(monitor, workspace).tally(id) == self.tally(id),
    {
        tally_of_changed_monitor(
            self.monitors.elements,
            monitor,
            self.monitors.elements[monitor].focus_workspace(workspace),
            id,
        );
    }

    /// A handle is managed exactly when it counts.
    pub proof fn managed_when_counted(self, id: WindowId)
        ensures
            self.tally(id) >= 0,
            self.manages(id) <==> self.tally(id) > 0,
            self.manages(id) <==> self.locate(id) is Some,
            self.locate(id) matches Some((m, w)) ==> self.workspace(m, w) is Ok && self.workspace(
                m,
                w,
            )->Ok_0.has_window(id),
    {
        managed_across(self.monitors.elements, id);
        first_when_any(self.monitors.elements, shows(id));
        if self.locate(id) is Some {
            let (m, _) = self.locate(id)->0;
            first_when_any(self.monitors.elements[m].workspaces.elements, houses(id));
        }
    }
}

proof fn managed_on(workspaces: Seq<WorkspaceView>, id: WindowId)
    ensures
        tally_on(workspaces, id) >= 0,
        tally_on(workspaces, id) > 0 <==> any(workspaces, houses(id)),
    decreases workspaces.len(),
{
    if workspaces.len() > 0 {
        let head = workspaces.drop_last();
        let last = workspaces.last();
        managed_on(head, id);
        tally_adds_up(windows_on(head), last.all_windows(), id);
        tally_when_any(last.all_windows(), id);
        any_in_either(head, seq![last], houses(id));
        assert(head + seq![last] =~= workspaces);
        assert(any(seq![last], houses(id)) <==> last.has_window(id)) by {
            if last.has_window(id) {
                assert(houses(id)(seq![last][0]));
            }
        }
    }
}

proof fn managed_across(monitors: Seq<MonitorView>, id: WindowId)
    ensures
        tally_across(monitors, id) >= 0,
        tally_across(monitors, id) > 0 <==> any(monitors, shows(id)),
    decreases monitors.len(),
{
    if monitors.len() > 0 {
        let head = monitors.drop_last();
        let last = monitors.last();
        managed_across(head, id);
        managed_on(last.workspaces.elements, id);
        tally_adds_up(windows_across(head), last.all_windows(), id);
        any_in_either(head, seq![last], shows(id));
        assert(head + seq![last] =~= monitors);
        assert(any(seq![last], shows(id)) <==> last.has_window(id)) by {
            if last.has_window(id) {
                assert(shows(id)(seq![last][0]));
            }
        }
    }
}

impl MonitorView {
    /// Every focus on the monitor is on something, or at the start of nothing.
    pub open spec fn wf(self) -> bool {
        &&& self.workspaces.wf()
        &&& forall|w: int|
            0 <= w < self.workspaces.len() ==> (#[trigger] self.workspaces.elements[w]).wf()
    }
}

// -- the commands -----------------------------------------------------------

impl StateView {
    /// The commands that only rearrange the focused workspace keep every window.
    pub proof fn rearranging_keeps_the_windows(
        self,
        direction: Direction,
        cycle: CycleDirection,
        axis: Axis,
        layout: Layout,
        sizing: Sizing,
        id: WindowId,
    )
        requires
            self.wf(),
            self.no_doubles(),
        ensures
            self.toggle_tiling().0.tally(id) == self.tally(id),
            self.cycle_focus(cycle).0.tally(id) == self.tally(id),
            self.cycle_stack(cycle).0.tally(id) == self.tally(id),
            self.cycle_move(cycle).0.tally(id) == self.tally(id),
            self.promote().0.tally(id) == self.tally(id),
            self.promote_focus().0.tally(id) == self.tally(id),
            self.stack(direction).0.tally(id) == self.tally(id),
            self.unstack().0.tally(id) == self.tally(id),
            self.stack_all().0.tally(id) == self.tally(id),
            self.unstack_all().0.tally(id) == self.tally(id),
            self.toggle_float().0.tally(id) == self.tally(id),
            self.toggle_monocle().0.tally(id) == self.tally(id),
            self.toggle_maximize().0.tally(id) == self.tally(id),
            self.close_focused_window().0.tally(id) == self.tally(id),
            self.change_layout(layout).0.tally(id) == self.tally(id),
            self.cycle_layout(cycle).0.tally(id) == self.tally(id),
            self.flip_layout(axis).0.tally(id) == self.tally(id),
            self.resize_axis(axis, sizing).0.tally(id) == self.tally(id),
            self.resize_edge(direction, sizing).0.tally(id) == self.tally(id),
    {
        if !self.is_paused && self.target() is Ok {
            let (m, w, t) = self.target()->Ok_0;
            let target = self.workspace(m, w)->Ok_0;
            self.a_workspace_is_sound(m, w);
            self.stamping_keeps_the_windows(target, id);
            self.editing_keeps_the_windows(m, w, t, id);
            self.plain_edits_keep_the_windows(cycle, axis, layout, id);
            let near = crate::geometry::nearest(t.latest_layout, t.containers.focused, direction);
            if near is Some {
                t.stack_keeps_the_windows(near->0, id);
                self.editing_keeps_the_windows(m, w, t.stack_into(near->0), id);
            }
            t.promote_keeps_the_windows(id);
            self.editing_keeps_the_windows(m, w, t.promote(), id);
            t.unstack_keeps_the_windows(id);
            self.editing_keeps_the_windows(m, w, t.unstack(), id);
            t.stack_all_keeps_the_windows(id);
            self.editing_keeps_the_windows(m, w, t.stack_all(), id);
            t.unstack_all_keeps_the_windows(id);
            self.editing_keeps_the_windows(m, w, t.unstack_all(), id);
            t.float_keeps_the_windows(id);
            self.editing_keeps_the_windows(m, w, t.toggle_float(), id);
            t.monocle_keeps_the_windows(id);
            self.editing_keeps_the_windows(m, w, t.toggle_monocle(), id);
            t.maximize_keeps_the_windows(id);
            self.editing_keeps_the_windows(m, w, t.toggle_maximize(), id);
            self.resizing_keeps_the_windows(direction, axis, sizing, id);
        }
    }

    proof fn plain_edits_keep_the_windows(
        self,
        cycle: CycleDirection,
        axis: Axis,
        layout: Layout,
        id: WindowId,
    )
        requires
            self.wf(),
            self.no_doubles(),
            self.target() is Ok,
        ensures
            self.toggle_tiling().0.tally(id) == self.tally(id),
            self.cycle_focus(cycle).0.tally(id) == self.tally(id),
            self.cycle_stack(cycle).0.tally(id) == self.tally(id),
            self.cycle_move(cycle).0.tally(id) == self.tally(id),
            self.promote_focus().0.tally(id) == self.tally(id),
            forall|any_layout: Layout| #[trigger]
                self.change_layout(any_layout).0.tally(id) == self.tally(id),
            self.flip_layout(axis).0.tally(id) == self.tally(id),
    {
        let (m, w, t) = self.target()->Ok_0;
        let target = self.workspace(m, w)->Ok_0;
        self.a_workspace_is_sound(m, w);
        self.stamping_keeps_the_windows(target, id);
        self.editing_keeps_the_windows(m, w, t, id);
        let tiled = WorkspaceView { tile: !t.tile, ..t };
        assert(tiled.all_windows() =~= t.all_windows());
        self.editing_keeps_the_windows(m, w, tiled, id);
        let cycled = WorkspaceView {
            containers: t.containers.cycle_focus(cycle),
            focus_is_floating: false,
            ..t
        };
        assert(cycled.all_windows() =~= t.all_windows());
        self.editing_keeps_the_windows(m, w, cycled, id);
        t.cycle_keeps_the_windows(cycle, id);
        self.editing_keeps_the_windows(
            m,
            w,
            WorkspaceView {
                containers: t.containers.move_focused(cycle),
                focus_is_floating: false,
                ..t
            },
            id,
        );
        let first = t.focus_container(0);
        assert(first.all_windows() =~= t.all_windows());
        self.editing_keeps_the_windows(m, w, first, id);
        assert forall|any_layout: Layout| #[trigger]
            self.change_layout(any_layout).0.tally(id) == self.tally(id) by {
            let changed = WorkspaceView { layout: any_layout, layout_rules: Map::empty(), ..t };
            assert(changed.all_windows() =~= t.all_windows());
            self.editing_keeps_the_windows(m, w, changed, id);
        }
        let flipped = WorkspaceView { layout_flip: t.layout_flip.toggled(axis), ..t };
        assert(flipped.all_windows() =~= t.all_windows());
        self.editing_keeps_the_windows(m, w, flipped, id);
        if t.containers.len() > 0 {
            let at = t.containers.focused;
            let turned = t.containers.elements[at].cycle_focus(cycle);
            let stack = WorkspaceView { containers: t.containers.with(at, turned), ..t };
            t.tally_of_parts(id);
            stack.tally_of_parts(id);
            tally_of_changed_container(t.containers.elements, at, turned, id);
            self.editing_keeps_the_windows(m, w, stack, id);
        }
    }

    proof fn resizing_keeps_the_windows(
        self,
        direction: Direction,
        axis: Axis,
        sizing: Sizing,
        id: WindowId,
    )
        requires
            self.wf(),
            self.no_doubles(),
            self.target() is Ok,
        ensures
            self.resize_axis(axis, sizing).0.tally(id) == self.tally(id),
            self.resize_edge(direction, sizing).0.tally(id) == self.tally(id),
    {
        let (m, w, t) = self.target()->Ok_0;
        self.a_workspace_is_sound(m, w);
        self.stamping_keeps_the_windows(self.workspace(m, w)->Ok_0, id);
        self.editing_keeps_the_windows(m, w, t, id);
        let bench = self.bench(m, w, t);
        assert(bench.workspace.all_windows() =~= t.all_windows());
        self.editing_keeps_the_windows(m, w, bench.workspace, id);
        let by = sizing.signed(self.resize_delta) as int;
        assert forall|a: Axis, far: bool|
            (#[trigger] bench.attempt(a, far, by)).tally(id) == t.tally(id) by {
            assert(bench.attempt(a, far, by).all_windows() =~= t.all_windows());
        }
        self.editing_keeps_the_windows(m, w, bench.attempt(axis, true, by), id);
        self.editing_keeps_the_windows(m, w, bench.attempt(axis, false, by), id);
        let (a, far) = crate::ops::outcome::edge_of(direction);
        self.editing_keeps_the_windows(m, w, bench.attempt(a, far, by), id);
    }

    /// Focusing something else keeps every window.
    pub proof fn focusing_keeps_the_windows(
        self,
        direction: Direction,
        cycle: CycleDirection,
        idx: int,
        name: Seq<char>,
        focused: WindowId,
        id: WindowId,
    )
        requires
            self.wf(),
            self.no_doubles(),
            0 <= idx,
        ensures
            self.focus_direction(direction).0.tally(id) == self.tally(id),
            self.focus_window(focused).0.tally(id) == self.tally(id),
            self.focus_workspace(idx).0.tally(id) == self.tally(id),
            self.cycle_workspace(cycle).0.tally(id) == self.tally(id),
            self.focus_monitor(idx).0.tally(id) == self.tally(id),
            self.cycle_monitor(cycle).0.tally(id) == self.tally(id),
            self.focus_named_workspace(name).0.tally(id) == self.tally(id),
    {
        if !self.is_paused {
            self.switching_keeps_the_windows(idx, id);
            if self.target() is Ok {
                let (m, w, t) = self.target()->Ok_0;
                let target = self.workspace(m, w)->Ok_0;
                self.stamping_keeps_the_windows(target, id);
                let near = crate::geometry::nearest(
                    t.latest_layout,
                    t.containers.focused,
                    direction,
                );
                if near is Some {
                    let there = t.focus_container(near->0);
                    assert(there.all_windows() =~= t.all_windows());
                    self.editing_keeps_the_windows(m, w, there, id);
                }
            }
            self.focusing_a_window_keeps_the_windows(focused, id);
            if self.monitors.len() > 0 {
                let monitor = self.monitors.elements[self.monitors.focused];
                if monitor.workspaces.len() > 0 {
                    a_step_back_undoes_a_step(
                        cycle,
                        monitor.workspaces.focused,
                        monitor.workspaces.len(),
                    );
                    self.switching_keeps_the_windows(monitor.workspaces.next_idx(cycle)->0, id);
                }
            }
            if self.named_workspace(name) is Some {
                let (m, w) = self.named_workspace(name)->0;
                self.a_named_workspace_is_there(name);
                let looking = self.focus_monitor(m).0;
                looking.switching_keeps_the_windows(w, id);
            }
        }
    }

    /// A workspace that is found by its name exists.
    pub proof fn a_named_workspace_is_there(self, name: Seq<char>)
        requires
            self.named_workspace(name) is Some,
        ensures
            ({
                let (m, w) = self.named_workspace(name)->0;
                &&& self.workspace(m, w) is Ok
                &&& crate::ops::outcome::is_named(name)(self.workspace(m, w)->Ok_0)
            }),
    {
        first_when_any(self.from_focus_on(), has_named(name));
        let step = first_idx(self.from_focus_on(), has_named(name))->0;
        let monitor = self.from_focus_on()[step];
        first_when_any(monitor.workspaces.elements, crate::ops::outcome::is_named(name));
        let count = self.monitors.len();
        assert(0 <= (self.monitors.focused + step) % count < count) by (nonlinear_arith)
            requires
                count > 0,
        ;
    }

    proof fn focusing_a_window_keeps_the_windows(self, focused: WindowId, id: WindowId)
        requires
            self.wf(),
        ensures
            self.focus_window(focused).0.tally(id) == self.tally(id),
    {
        self.managed_when_counted(focused);
        if !self.is_paused && self.locate(focused) is Some {
            let (m, w) = self.locate(focused)->0;
            let looking = self.look_at(m, w);
            self.looking_keeps_the_windows(m, w, id);
            let target = looking.workspace(m, w)->Ok_0;
            looking.stamping_keeps_the_windows(target, id);
            let there = looking.stamped(target).focus_window(focused);
            looking.stamped(target).focusing_keeps_the_tally(focused, id);
            looking.editing_keeps_the_windows(m, w, there, id);
        }
    }

    proof fn switching_keeps_the_windows(self, idx: int, id: WindowId)
        requires
            0 <= idx,
        ensures
            self.focus_workspace(idx).0.tally(id) == self.tally(id),
    {
        if self.monitors.current() is Some {
            let m = self.monitors.focused;
            let monitor = self.monitors.elements[m];
            monitor.growing_keeps_the_windows(idx + 1, id);
            let after = monitor.ensure_workspaces(idx + 1).focus_workspace(idx);
            assert(after.all_windows() == monitor.ensure_workspaces(idx + 1).all_windows());
            tally_of_changed_monitor(self.monitors.elements, m, after, id);
            self.with_monitor(m, after).refreshing_keeps_the_windows(m, idx, id);
        }
    }

    /// Moving a container to another workspace keeps every window.
    pub proof fn moving_keeps_the_windows(
        self,
        to_monitor: int,
        to_workspace: int,
        follow: bool,
        entering_from: Option<Direction>,
        id: WindowId,
    )
        requires
            self.wf(),
        ensures
            self.move_container_to(to_monitor, to_workspace, follow, entering_from).0.tally(id)
                == self.tally(id),
    {
        if !self.is_paused && self.focused_indices() is Ok {
            let (m, w) = self.focused_indices()->Ok_0;
            if (m, w) != (to_monitor, to_workspace) && self.workspace(m, w) is Ok && self.workspace(
                to_monitor,
                to_workspace,
            ) is Ok {
                let source = self.workspace(m, w)->Ok_0;
                self.stamping_keeps_the_windows(source, id);
                self.editing_keeps_the_windows(m, w, self.stamped(source), id);
                if source.containers.len() > 0 {
                    assert(self.monitors.elements[m].wf());
                    assert(source.wf());
                    assert(self.monitors.elements[to_monitor].wf());
                    assert(self.workspace(to_monitor, to_workspace)->Ok_0.wf());
                    self.transferring_keeps_the_windows(
                        (m, w),
                        (to_monitor, to_workspace),
                        entering_from,
                        id,
                    );
                    let there = self.transferred(
                        (m, w),
                        (to_monitor, to_workspace),
                        entering_from,
                    );
                    there.refreshing_keeps_the_windows(m, w, id);
                    let tiled = there.refreshed(m, w);
                    tiled.refreshing_keeps_the_windows(to_monitor, to_workspace, id);
                    tiled.refreshed(to_monitor, to_workspace).looking_keeps_the_windows(
                        to_monitor,
                        to_workspace,
                        id,
                    );
                }
            }
        }
    }

    proof fn transferring_keeps_the_windows(
        self,
        from: (int, int),
        to: (int, int),
        entering_from: Option<Direction>,
        id: WindowId,
    )
        requires
            from != to,
            self.workspace(from.0, from.1) is Ok,
            self.workspace(to.0, to.1) is Ok,
            self.workspace(from.0, from.1)->Ok_0.containers.len() > 0,
            self.workspace(from.0, from.1)->Ok_0.wf(),
            self.workspace(to.0, to.1)->Ok_0.wf(),
        ensures
            self.transferred(from, to, entering_from).tally(id) == self.tally(id),
    {
        let plain = self.workspace(from.0, from.1)->Ok_0;
        let source = self.stamped(plain);
        self.stamping_keeps_the_windows(plain, id);
        let at = source.containers.focused;
        let container = source.containers.elements[at];
        source.tally_of_remove_container(at, id);
        let left = source.remove_container(at);
        self.tally_of_edit(from.0, from.1, left, id);
        let taken = self.with_workspace(from.0, from.1, left);
        let there = taken.workspace(to.0, to.1)->Ok_0;
        assert(there == self.workspace(to.0, to.1)->Ok_0);
        let destination = taken.stamped(there);
        taken.stamping_keeps_the_windows(there, id);
        let swapping = self.swaps(from.0, to.0);
        let cleared = if swapping {
            destination.remove_container(destination.containers.focused)
        } else {
            destination
        };
        let slot = StateView::landing(destination, swapping, entering_from);
        cleared.tally_of_insert_container(slot, container, id);
        let arrived = cleared.insert_container(slot, container);
        taken.tally_of_edit(to.0, to.1, arrived, id);
        let landed = taken.with_workspace(to.0, to.1, arrived);
        if swapping && destination.containers.len() > 0 {
            destination.tally_of_remove_container(destination.containers.focused, id);
            let back = destination.containers.elements[destination.containers.focused];
            let home = landed.workspace(from.0, from.1)->Ok_0;
            assert(home == left);
            landed.stamping_keeps_the_windows(home, id);
            landed.stamped(home).tally_of_insert_container(at, back, id);
            landed.tally_of_edit(from.0, from.1, landed.stamped(home).insert_container(at, back), id);
        }
    }

    /// The commands that move the focused container keep every window.
    pub proof fn moves_keep_the_windows(
        self,
        direction: Direction,
        idx: int,
        name: Seq<char>,
        follow: bool,
        id: WindowId,
    )
        requires
            self.wf(),
            self.no_doubles(),
            0 <= idx,
        ensures
            self.move_direction(direction).0.tally(id) == self.tally(id),
            self.move_to_workspace(idx, follow).0.tally(id) == self.tally(id),
            self.move_to_named_workspace(name, follow).0.tally(id) == self.tally(id),
            self.move_to_monitor(idx, follow).0.tally(id) == self.tally(id),
    {
        if !self.is_paused {
            if self.target() is Ok {
                let (m, w, t) = self.target()->Ok_0;
                let target = self.workspace(m, w)->Ok_0;
                self.a_workspace_is_sound(m, w);
                self.stamping_keeps_the_windows(target, id);
                let near = crate::geometry::nearest(
                    t.latest_layout,
                    t.containers.focused,
                    direction,
                );
                if near is Some {
                    t.swap_keeps_the_windows(near->0, id);
                    self.editing_keeps_the_windows(m, w, t.swap_focused(near->0), id);
                }
                let screen = crate::geometry::nearest(
                    self.screens(),
                    self.monitors.focused,
                    direction,
                );
                if screen is Some {
                    self.moving_keeps_the_windows(
                        screen->0,
                        self.monitors.elements[screen->0].workspaces.focused,
                        true,
                        Some(direction),
                        id,
                    );
                }
            }
            if self.monitors.current() is Some {
                let m = self.monitors.focused;
                let monitor = self.monitors.elements[m];
                monitor.growing_keeps_the_windows(idx + 1, id);
                let bigger = monitor.ensure_workspaces(idx + 1);
                tally_of_changed_monitor(self.monitors.elements, m, bigger, id);
                let room = self.with_monitor(m, bigger);
                assert(monitor.wf());
                assert(bigger.wf()) by {
                    assert forall|k: int| 0 <= k < bigger.workspaces.len() implies (
                    #[trigger] bigger.workspaces.elements[k]).wf() by {
                        if k < monitor.workspaces.len() {
                            assert(monitor.workspaces.elements[k].wf());
                        }
                    }
                }
                assert(room.wf()) by {
                    assert forall|k: int| 0 <= k < room.monitors.len() implies (
                    #[trigger] room.monitors.elements[k]).wf() by {
                        if k != m {
                            assert(self.monitors.elements[k].wf());
                        }
                    }
                }
                room.moving_keeps_the_windows(m, idx, follow, None, id);
            }
            if self.named_workspace(name) is Some {
                let (m, w) = self.named_workspace(name)->0;
                self.moving_keeps_the_windows(m, w, follow, None, id);
            }
            if idx < self.monitors.len() {
                self.moving_keeps_the_windows(
                    idx,
                    self.monitors.elements[idx].workspaces.focused,
                    follow,
                    None,
                    id,
                );
            }
        }
    }

    /// Floating a window by its handle keeps every window.
    pub proof fn floating_keeps_the_windows(self, moved: WindowId, id: WindowId)
        requires
            self.wf(),
            self.no_doubles(),
        ensures
            self.float_window(moved).0.tally(id) == self.tally(id),
    {
        self.managed_when_counted(moved);
        if !self.is_paused && self.locate(moved) is Some {
            let (m, w) = self.locate(moved)->0;
            let target = self.workspace(m, w)->Ok_0;
            self.a_workspace_is_sound(m, w);
            self.stamping_keeps_the_windows(target, id);
            self.stamped(target).float_window_keeps_the_windows(moved, id);
            self.editing_keeps_the_windows(m, w, self.stamped(target).float_window(moved), id);
        }
    }

    /// Dropping a window somewhere keeps every window, as long as every monitor
    /// has a workspace to drop it on.
    pub proof fn dropping_keeps_the_windows(self, window: WindowId, x: i32, y: i32, id: WindowId)
        requires
            self.wf(),
            self.no_doubles(),
            forall|m: int|
                0 <= m < self.monitors.len() ==> (#[trigger] self.monitors.elements[m]).workspaces.len()
                    > 0,
        ensures
            self.swap_window_at_point(window, x, y).0.tally(id) == self.tally(id),
    {
        self.managed_when_counted(window);
        if !self.is_paused && self.locate(window) is Some {
            let (m, w) = self.locate(window)->0;
            let plain = self.workspace(m, w)->Ok_0;
            first_when_any(plain.containers.elements, holds(window));
            if plain.container_idx(window) is Some {
                let from = plain.container_idx(window)->0;
                let home = self.refreshed(m, w);
                self.refreshing_keeps_the_windows(m, w, id);
                let laid = home.workspace(m, w)->Ok_0;
                self.a_workspace_is_sound(m, w);
                assert(laid.containers == plain.containers);
                assert(laid.wf());
                home.stamping_keeps_the_windows(laid, id);
                first_when_any(home.monitors.elements, covers(x, y));
                if home.monitor_at(x, y) is Some {
                    let to = home.monitor_at(x, y)->0;
                    let hit = home.container_at_point(to, x, y);
                    if to == m {
                        if hit is Some {
                            let picked = home.stamped(laid).focus_container(from);
                            assert(picked.all_windows() =~= laid.all_windows());
                            assert(picked.wf());
                            picked.swap_keeps_the_windows(hit->0, id);
                            home.editing_keeps_the_windows(m, w, picked.swap_focused(hit->0), id);
                        }
                    } else {
                        assert(self.monitors.elements[to].wf());
                        assert(home.monitors.elements[to] == self.monitors.elements[to]);
                        home.carrying_keeps_the_windows((m, w), from, to, hit, id);
                    }
                }
            }
        }
    }

    proof fn carrying_keeps_the_windows(
        self,
        from: (int, int),
        container: int,
        to: int,
        hit: Option<int>,
        id: WindowId,
    )
        requires
            self.workspace(from.0, from.1) is Ok,
            0 <= container < self.workspace(from.0, from.1)->Ok_0.containers.len(),
            0 <= to < self.monitors.len(),
            to != from.0,
            self.monitors.elements[to].wf(),
            self.monitors.elements[to].workspaces.len() > 0,
            hit matches Some(idx) ==> 0 <= idx,
        ensures
            self.dropped_on(from, container, to, hit).0.tally(id) == self.tally(id),
    {
        let (m, w) = from;
        let to_workspace = self.monitors.elements[to].workspaces.focused;
        let plain = self.workspace(m, w)->Ok_0;
        let source = self.stamped(plain).focus_container(container);
        assert(source.all_windows() =~= plain.all_windows());
        source.tally_of_remove_container(container, id);
        let left = source.remove_container(container);
        self.tally_of_edit(m, w, left, id);
        let taken = self.with_workspace(m, w, left);
        assert(taken.monitors.elements[to] == self.monitors.elements[to]);
        let there = taken.workspace(to, to_workspace)->Ok_0;
        taken.stamping_keeps_the_windows(there, id);
        let at = match hit {
            Some(idx) => if idx < there.containers.len() {
                idx
            } else {
                there.containers.len()
            },
            None => there.containers.len(),
        };
        taken.stamped(there).tally_of_insert_container(
            at,
            source.containers.elements[container],
            id,
        );
        let arrived = taken.stamped(there).insert_container(
            at,
            source.containers.elements[container],
        );
        taken.tally_of_edit(to, to_workspace, arrived, id);
        let landed = taken.with_workspace(to, to_workspace, arrived);
        landed.refreshing_keeps_the_windows(m, w, id);
        landed.refreshed(m, w).refreshing_keeps_the_windows(to, to_workspace, id);
    }

    /// A window that is removed is gone, and every other one stays.
    pub proof fn removing_takes_only_that_window(self, gone: WindowId, id: WindowId)
        requires
            self.wf(),
            self.no_doubles(),
        ensures
            id != gone ==> self.remove_window(gone).0.tally(id) == self.tally(id),
            !any(self.pending_windows, has_id(gone)) ==> !self.remove_window(gone).0.manages(gone),
    {
        first_when_any(self.pending_windows, has_id(gone));
        self.managed_when_counted(gone);
        if !any(self.pending_windows, has_id(gone)) && self.locate(gone) is Some {
            let (m, w) = self.locate(gone)->0;
            let target = self.workspace(m, w)->Ok_0;
            self.taking_from_a_workspace(m, w, gone, id);
            self.taking_from_a_workspace(m, w, gone, gone);
            assert(self.tally(gone) <= 1);
            target.tally_of_parts(gone);
        }
        self.remove_window(gone).0.managed_when_counted(gone);
    }

    proof fn taking_from_a_workspace(self, m: int, w: int, gone: WindowId, id: WindowId)
        requires
            self.workspace(m, w) is Ok,
        ensures
            ({
                let target = self.workspace(m, w)->Ok_0;
                let taken = self.with_workspace(m, w, self.stamped(target).remove_window(gone).0);
                let less = if gone == id && target.has_window(gone) {
                    1int
                } else {
                    0
                };
                taken.tally(id) == self.tally(id) - less && taken.refreshed(m, w).tally(id)
                    == self.tally(id) - less
            }),
    {
        let target = self.workspace(m, w)->Ok_0;
        let after = self.stamped(target).remove_window(gone).0;
        self.stamping_keeps_the_windows(target, id);
        self.stamped(target).taking_a_window_takes_one(gone, id);
        assert(self.stamped(target).has_window(gone) == target.has_window(gone));
        self.tally_of_edit(m, w, after, id);
        self.with_workspace(m, w, after).refreshing_keeps_the_windows(m, w, id);
    }

    /// Minimizing takes the focused window out of the model, and no other.
    pub proof fn minimizing_takes_only_the_focused_window(self, id: WindowId)
        requires
            self.wf(),
            self.no_doubles(),
        ensures
            self.minimize_focused_window().0.tally(id) == self.tally(id) || (self.target() is Ok
                && self.target()->Ok_0.2.focused_id() == Some(id)
                && self.minimize_focused_window().0.tally(id) == 0),
    {
        if !self.is_paused && self.target() is Ok {
            let (m, w, t) = self.target()->Ok_0;
            let target = self.workspace(m, w)->Ok_0;
            self.stamping_keeps_the_windows(target, id);
            self.editing_keeps_the_windows(m, w, t, id);
            if t.focused_id() is Some {
                self.taking_from_a_workspace(m, w, t.focused_id()->0, id);
                self.tally_of_workspace(m, w, id);
                target.tally_of_parts(id);
                assert(self.tally(id) <= 1);
            }
        }
    }

    /// A window no rule ignores is managed once after it was added, and every
    /// other window stays.
    pub proof fn an_added_window_is_managed_once(
        self,
        monitor: int,
        workspace: int,
        window: WindowView,
        id: WindowId,
    )
        requires
            self.wf(),
            self.no_doubles(),
            !self.is_paused,
            self.workspace(monitor, workspace) is Ok,
            self.rules.decide(window.info()) != RuleDecision::Ignore,
        ensures
            self.add_window_to(monitor, workspace, window).0.tally(window.id) == 1,
            id != window.id ==> self.add_window_to(monitor, workspace, window).0.tally(id)
                == self.tally(id),
    {
        self.managed_when_counted(window.id);
        if self.manages(window.id) {
            self.focusing_a_window_keeps_the_windows(window.id, id);
            self.focusing_a_window_keeps_the_windows(window.id, window.id);
            assert(self.tally(window.id) <= 1);
        } else {
            self.welcoming_adds_one(monitor, workspace, window, id);
            self.welcoming_adds_one(monitor, workspace, window, window.id);
            tally_of_one(window, id);
            tally_of_one(window, window.id);
        }
    }

    proof fn welcoming_adds_one(
        self,
        monitor: int,
        workspace: int,
        window: WindowView,
        id: WindowId,
    )
        requires
            self.wf(),
            self.no_doubles(),
            !self.is_paused,
            self.workspace(monitor, workspace) is Ok,
            self.rules.decide(window.info()) != RuleDecision::Ignore,
            !self.manages(window.id),
        ensures
            self.add_window_to(monitor, workspace, window).0.tally(id) == self.tally(id) + tally(
                seq![window],
                id,
            ),
    {
        let plain = self.workspace(monitor, workspace)->Ok_0;
        let target = self.stamped(plain);
        self.managed_when_counted(window.id);
        self.tally_of_workspace(monitor, workspace, window.id);
        self.stamping_keeps_the_windows(plain, id);
        self.stamping_keeps_the_windows(plain, window.id);
        self.a_workspace_is_sound(monitor, workspace);
        target.a_stranger_is_nowhere(window.id);
        let float = self.rules.decide(window.info()) == RuleDecision::Float || self.float_override
            || plain.float_override;
        let stack = self.window_container_behaviour
            == crate::model::state::WindowContainerBehaviour::Append;
        let after = target.welcome(window, float, stack);
        if float {
            target.floating_a_window_adds_one(window, id);
        } else if stack && target.containers.len() > 0 {
            let at = target.containers.focused;
            let onto = target.containers.elements[at];
            assert(onto.elements.push(window) =~= onto.elements + seq![window]);
            tally_adds_up(onto.elements, seq![window], id);
            tally_of_changed_container(target.containers.elements, at, stacked(onto, window), id);
            target.tally_of_parts(id);
            after.tally_of_parts(id);
        } else {
            target.tally_of_insert_container(
                if target.containers.len() == 0 {
                    0
                } else {
                    target.containers.focused + 1
                },
                alone(window),
                id,
            );
        }
        self.tally_of_edit(monitor, workspace, after, id);
        self.with_workspace(monitor, workspace, after).refreshing_keeps_the_windows(
            monitor,
            workspace,
            id,
        );
    }
}

impl Monitor {
    /// Every focus on a monitor is on something, or at the start of nothing.
    pub proof fn view_is_wf(&self)
        ensures
            self@.wf(),
    {
        self.workspaces.view_of_items();
        assert forall|w: int| 0 <= w < self@.workspaces.len() implies (
        #[trigger] self@.workspaces.elements[w]).wf() by {
            self.workspaces.items()[w].view_is_wf();
        }
    }
}

impl State {
    /// In every state there is, every focus is on something, or at the start of
    /// nothing.
    pub proof fn view_is_wf(&self)
        ensures
            self@.wf(),
    {
        self.monitors.view_of_items();
        assert forall|m: int| 0 <= m < self@.monitors.len() implies (
        #[trigger] self@.monitors.elements[m]).wf() by {
            self.monitors.items()[m].view_is_wf();
        }
    }
}

} // verus!
