//! What every command does to the state, and what it reports.
//!
//! A command takes a state to its outcome: the state afterwards together with
//! the changes the daemon has to make, or the error.

use vstd::prelude::*;

use crate::error::ErrorView;
use crate::geometry::{nearest, sat, Axis, Direction, Rect};
use crate::layout::{Layout, Sizing};
use crate::model::changes::{not_in, Changes, ChangesView};
use crate::model::container::{stacked, top_of};
use crate::model::monitor::MonitorView;
use crate::model::ring::{CycleDirection, RingView};
use crate::model::state::{covers, MoveBehaviour, StateView, WindowContainerBehaviour};
use crate::model::window::{has_id, WindowId, WindowView};
use crate::model::workspace::WorkspaceView;
use crate::rules::RuleDecision;
use crate::seqs::{any, first_idx};
use crate::text::lower;

verus! {

/// The state after a command, and what it reports.
pub type Outcome = (StateView, std::result::Result<ChangesView, ErrorView>);

/// The outcome of a command that left the state at `after` and returned `r`.
pub open spec fn outcome(after: StateView, r: crate::error::Result<Changes>) -> Outcome {
    (
        after,
        match r {
            Ok(changes) => Ok(changes@),
            Err(e) => Err(e@),
        },
    )
}

/// The outcome of a command that reports `changes`.
pub open spec fn done(after: StateView, changes: ChangesView) -> Outcome {
    (after, Ok(changes))
}

/// The outcome of a command that fails.
pub open spec fn refused(after: StateView, e: ErrorView) -> Outcome {
    (after, Err(e))
}

/// One resize delta with `by` pixels added to the edge the command is working
/// on. The near edge counts the other way round, because pulling it back is what
/// makes the container grow.
pub open spec fn nudge(delta: Rect, axis: Axis, far_edge: bool, by: int) -> Rect {
    match axis {
        Axis::Horizontal => if far_edge {
            Rect { right: sat(delta.right + by), ..delta }
        } else {
            Rect { left: sat(delta.left - by), ..delta }
        },
        Axis::Vertical => if far_edge {
            Rect { bottom: sat(delta.bottom + by), ..delta }
        } else {
            Rect { top: sat(delta.top - by), ..delta }
        },
    }
}

/// The delta, or none at all.
pub open spec fn delta_or_zero(delta: Option<Rect>) -> Rect {
    match delta {
        Some(delta) => delta,
        None => Rect::new(0, 0, 0, 0),
    }
}

/// The edge a direction points at: its axis, and whether it is the far one.
pub open spec fn edge_of(direction: Direction) -> (Axis, bool) {
    match direction {
        Direction::Left => (Axis::Horizontal, false),
        Direction::Right => (Axis::Horizontal, true),
        Direction::Up => (Axis::Vertical, false),
        Direction::Down => (Axis::Vertical, true),
    }
}

impl WorkspaceView {
    /// `true` when the focused window is not in the container ring.
    pub open spec fn focus_outside_the_ring(self) -> bool {
        self.maximized_window is Some || self.monocle_container is Some || self.floating_focus()
    }

    /// The workspace with a new window: floating, on top of the focused stack,
    /// or in a container of its own right behind the focused one.
    pub open spec fn welcome(self, window: WindowView, float: bool, stack: bool) -> Self {
        if float {
            self.add_floating(window)
        } else if stack && self.containers.len() > 0 {
            WorkspaceView {
                containers: self.containers.with(
                    self.containers.focused,
                    stacked(self.containers.current()->0, window),
                ),
                ..self
            }
        } else {
            self.insert_window(
                if self.containers.len() == 0 {
                    0
                } else {
                    self.containers.focused + 1
                },
                window,
            )
        }
    }
}

/// Where a resize works: the workspace, already laid out, and how it is laid out.
pub ghost struct Bench {
    /// The workspace, laid out.
    pub workspace: WorkspaceView,
    /// The work area.
    pub work_area: Rect,
    /// The default workspace padding.
    pub workspace_padding: i32,
    /// The default container padding.
    pub container_padding: i32,
    /// The scale of the monitor.
    pub scale: crate::model::scale::Scale,
}

impl Bench {
    /// The workspace laid out again.
    pub open spec fn lay(self, workspace: WorkspaceView) -> WorkspaceView {
        workspace.laid_out(
            self.work_area,
            self.workspace_padding,
            self.container_padding,
            self.scale,
        )
    }

    /// The container the resize is about.
    pub open spec fn idx(self) -> int {
        self.workspace.containers.focused
    }

    /// The workspace with an edge of the focused container nudged.
    pub open spec fn attempt(self, axis: Axis, far_edge: bool, by: int) -> WorkspaceView {
        self.lay(
            self.workspace.with_delta(
                self.idx(),
                Some(nudge(delta_or_zero(self.workspace.delta(self.idx())), axis, far_edge, by)),
            ),
        )
    }

    /// `true` when nudging that edge makes a difference to the focused container.
    pub open spec fn moves(self, axis: Axis, far_edge: bool, by: int) -> bool {
        self.attempt(axis, far_edge, by).rect(self.idx()) != self.workspace.rect(self.idx())
    }

    /// The workspace after a resize along an axis, if it does anything. The near
    /// edge only gets its turn when the far one is no boundary in either
    /// direction.
    pub open spec fn resize_axis(self, axis: Axis, by: int) -> Option<WorkspaceView> {
        if self.moves(axis, true, by) {
            Some(self.attempt(axis, true, by))
        } else if self.moves(axis, true, -by) {
            None
        } else if self.moves(axis, false, by) {
            Some(self.attempt(axis, false, by))
        } else {
            None
        }
    }

    /// The workspace after a resize of one edge, if it does anything.
    pub open spec fn resize_edge(self, direction: Direction, by: int) -> Option<WorkspaceView> {
        let (axis, far_edge) = edge_of(direction);
        if self.moves(axis, far_edge, by) {
            Some(self.attempt(axis, far_edge, by))
        } else {
            None
        }
    }
}

/// Holds of a rectangle with the point in it.
pub open spec fn is_under(x: i32, y: i32) -> spec_fn(Rect) -> bool {
    |r: Rect| r.contains(x, y)
}

/// Holds of a workspace with that name, in any case.
pub open spec fn is_named(name: Seq<char>) -> spec_fn(WorkspaceView) -> bool {
    |w: WorkspaceView| w.name is Some && lower(w.name->0) == lower(name)
}

/// The index of the workspace with that name.
pub open spec fn named_on(monitor: MonitorView, name: Seq<char>) -> Option<int> {
    first_idx(monitor.workspaces.elements, is_named(name))
}

/// Holds of a monitor with a workspace of that name.
pub open spec fn has_named(name: Seq<char>) -> spec_fn(MonitorView) -> bool {
    |m: MonitorView| named_on(m, name) is Some
}

/// `true` when two monitors are the same display: by device id when both have
/// one, by name when both have one, and by platform handle otherwise.
pub open spec fn same_display(a: MonitorView, b: MonitorView) -> bool {
    if a.device_id.len() > 0 && b.device_id.len() > 0 {
        a.device_id == b.device_id
    } else if a.name.len() > 0 && b.name.len() > 0 {
        a.name == b.name
    } else {
        a.id == b.id
    }
}

/// `new` when it says anything, `old` otherwise.
pub open spec fn unless_empty(new: Seq<char>, old: Seq<char>) -> Seq<char> {
    if new.len() > 0 {
        new
    } else {
        old
    }
}

/// A display that is still there, with what the platform reports about it now.
pub open spec fn updated(kept: MonitorView, now: MonitorView) -> MonitorView {
    MonitorView {
        id: now.id,
        size: now.size,
        work_area: now.work_area,
        dpi: now.dpi,
        name: unless_empty(now.name, kept.name),
        device: unless_empty(now.device, kept.device),
        device_id: unless_empty(now.device_id, kept.device_id),
        ..kept
    }
}

/// The displays nobody has claimed yet.
pub open spec fn unclaimed(known: Seq<MonitorView>, claims: Seq<Option<int>>) -> Seq<
    Option<MonitorView>,
> {
    Seq::new(
        known.len(),
        |i: int|
            if claims.contains(Some(i)) {
                None
            } else {
                Some(known[i])
            },
    )
}

/// Holds of an unclaimed display that is the same as `now`.
pub open spec fn is_display(now: MonitorView) -> spec_fn(Option<MonitorView>) -> bool {
    |slot: Option<MonitorView>| slot is Some && same_display(slot->0, now)
}

/// Which known display each reported one is, in order: the first one nobody
/// claimed before it.
pub open spec fn claims(known: Seq<MonitorView>, reported: Seq<MonitorView>) -> Seq<Option<int>>
    decreases reported.len(),
{
    if reported.len() == 0 {
        Seq::empty()
    } else {
        let before = claims(known, reported.drop_last());
        before.push(first_idx(unclaimed(known, before), is_display(reported.last())))
    }
}

/// The most workspaces a known display has, and at least one.
pub open spec fn most_workspaces(known: Seq<MonitorView>) -> int
    decreases known.len(),
{
    if known.len() == 0 {
        1
    } else {
        let before = most_workspaces(known.drop_last());
        if known.last().workspaces.len() > before {
            known.last().workspaces.len()
        } else {
            before
        }
    }
}

/// The reported displays: those that are known keep what they hold, those that
/// are new get empty workspaces.
pub open spec fn arrived(known: Seq<MonitorView>, reported: Seq<MonitorView>) -> Seq<MonitorView> {
    let claims = claims(known, reported);
    let count = most_workspaces(known);
    Seq::new(
        reported.len(),
        |i: int|
            match claims[i] {
                Some(idx) => updated(known[idx], reported[i]),
                None => reported[i].ensure_workspaces(count),
            },
    )
}

impl MonitorView {
    /// The monitor with the workspaces of another one taken in, one to one.
    pub open spec fn take_in(self, workspaces: Seq<WorkspaceView>) -> Self
        decreases workspaces.len(),
    {
        if workspaces.len() == 0 {
            self
        } else {
            let idx = workspaces.len() - 1;
            let before = self.take_in(workspaces.drop_last()).ensure_workspaces(idx + 1);
            MonitorView {
                workspaces: before.workspaces.with(
                    idx,
                    before.workspaces.elements[idx].absorb(workspaces.last()),
                ),
                ..before
            }
        }
    }

    /// The monitor with the workspaces of every display that is gone taken in.
    pub open spec fn take_in_all(self, gone: Seq<Option<MonitorView>>) -> Self
        decreases gone.len(),
    {
        if gone.len() == 0 {
            self
        } else {
            let before = self.take_in_all(gone.drop_last());
            match gone.last() {
                Some(m) => before.take_in(m.workspaces.elements),
                None => before,
            }
        }
    }
}

/// The displays after a display change: the reported ones in that order, with
/// the windows of those that are gone on the first of them.
pub open spec fn reconciled(known: Seq<MonitorView>, reported: Seq<MonitorView>) -> Seq<
    MonitorView,
> {
    let ring = arrived(known, reported);
    ring.update(0, ring[0].take_in_all(unclaimed(known, claims(known, reported))))
}

/// Holds of the claim on that display.
pub open spec fn is_claim(idx: int) -> spec_fn(Option<int>) -> bool {
    |claim: Option<int>| claim == Some(idx)
}

/// Where the focus goes: to the same display when it is still there, and to the
/// first one otherwise.
pub open spec fn focus_after(claims: Seq<Option<int>>, focused: int) -> int {
    match first_idx(claims, is_claim(focused)) {
        Some(idx) => idx,
        None => 0,
    }
}

impl StateView {
    // -- internal helpers ---------------------------------------------------

    /// The focused monitor and workspace index, and that workspace as it is
    /// handed out for editing.
    pub open spec fn target(self) -> std::result::Result<(int, int, WorkspaceView), ErrorView> {
        match self.focused_indices() {
            Ok((m, w)) => match self.workspace(m, w) {
                Ok(workspace) => Ok((m, w, self.stamped(workspace))),
                Err(e) => Err(e),
            },
            Err(e) => Err(e),
        }
    }

    /// The state with the layout of one workspace recomputed.
    pub open spec fn refreshed(self, monitor: int, workspace: int) -> Self {
        match self.workspace(monitor, workspace) {
            Ok(target) => self.with_workspace(
                monitor,
                workspace,
                self.stamped(target).laid_out(
                    self.area_for(monitor, workspace)->0,
                    self.default_workspace_padding,
                    self.default_container_padding,
                    self.padding_scale(monitor),
                ),
            ),
            Err(_) => self,
        }
    }

    /// The focus part of a change set, with the mouse warp when it is on.
    pub open spec fn focus_change(self, id: Option<WindowId>) -> ChangesView {
        ChangesView {
            focus: id,
            warp_mouse_to: match id {
                Some(id) => if self.mouse_follows_focus {
                    self.rect_of(id)
                } else {
                    None
                },
                None => None,
            },
            ..ChangesView::none()
        }
    }

    /// The changes with what came on and went off screen since `before`.
    pub open spec fn visibility_delta(
        self,
        before: Seq<WindowId>,
        changes: ChangesView,
    ) -> ChangesView {
        let after = self.visible();
        (ChangesView {
            show: changes.show + not_in(after, before),
            hide: changes.hide + not_in(before, after),
            ..changes
        }).settle()
    }

    /// A workspace was edited: it is laid out again and `id` takes the focus.
    pub open spec fn rearranged(self, monitor: int, workspace: int, id: Option<WindowId>) -> (
        Self,
        ChangesView,
    ) {
        let after = self.refreshed(monitor, workspace);
        (
            after,
            ChangesView::none().retile(monitor, workspace).merge(after.focus_change(id)),
        )
    }

    /// A workspace was edited: it is laid out again, its focused window takes
    /// the focus, and what came on or went off screen is reported.
    pub open spec fn reshown(
        self,
        monitor: int,
        workspace: int,
        id: Option<WindowId>,
        before: Seq<WindowId>,
    ) -> Outcome {
        let (after, changes) = self.rearranged(monitor, workspace, id);
        done(after, after.visibility_delta(before, changes))
    }

    /// Every window of `windows` added to one workspace, and the changes of all
    /// that succeeded.
    pub open spec fn add_all(self, monitor: int, workspace: int, windows: Seq<WindowView>) -> (
        Self,
        ChangesView,
    )
        decreases windows.len(),
    {
        if windows.len() == 0 {
            (self, ChangesView::none())
        } else {
            let (before, changes) = self.add_all(monitor, workspace, windows.drop_last());
            let (after, added) = before.add_window_to(monitor, workspace, windows.last());
            match added {
                Ok(more) => (after, changes.merge(more)),
                Err(_) => (after, changes),
            }
        }
    }

    /// The windows that appeared while the manager was paused added to the
    /// focused workspace.
    pub open spec fn take_pending(self) -> (Self, ChangesView) {
        match self.focused_indices() {
            Ok((m, w)) => (StateView { pending_windows: Seq::empty(), ..self }).add_all(
                m,
                w,
                self.pending_windows,
            ),
            Err(_) => (self, ChangesView::none()),
        }
    }

    /// The focused workspaces of the first `n` monitors laid out again.
    pub open spec fn retile_first(self, n: int, changes: ChangesView) -> (Self, ChangesView)
        decreases n,
    {
        if n <= 0 {
            (self, changes)
        } else {
            let (before, changes) = self.retile_first(n - 1, changes);
            let workspace = before.monitors.elements[n - 1].workspaces.focused;
            (
                before.refreshed(n - 1, workspace),
                changes.merge(ChangesView::none().retile(n - 1, workspace)),
            )
        }
    }

    // -- pause --------------------------------------------------------------

    /// Pauses, or goes on and retiles.
    pub open spec fn toggle_pause(self) -> Outcome {
        let after = StateView { is_paused: !self.is_paused, ..self };
        if after.is_paused {
            done(after, ChangesView::none())
        } else {
            after.retile()
        }
    }

    /// The pending windows are taken in, and every visible workspace is laid out
    /// again and shown.
    pub open spec fn retile(self) -> Outcome {
        if self.is_paused {
            done(self, ChangesView::none())
        } else {
            let (taken, pending) = self.take_pending();
            let (after, changes) = taken.retile_first(
                taken.monitors.len(),
                ChangesView::none().merge(pending),
            );
            done(
                after,
                (ChangesView { show: changes.show + after.visible(), ..changes }).settle(),
            )
        }
    }

    /// The focused workspace is edited and laid out again.
    pub open spec fn edited(self, monitor: int, workspace: int, value: WorkspaceView) -> Outcome {
        done(
            self.with_workspace(monitor, workspace, value).refreshed(monitor, workspace),
            ChangesView::none().retile(monitor, workspace),
        )
    }

    /// Tiling of the focused workspace goes off or on.
    pub open spec fn toggle_tiling(self) -> Outcome {
        if self.is_paused {
            done(self, ChangesView::none())
        } else {
            match self.target() {
                Ok((m, w, t)) => self.edited(m, w, WorkspaceView { tile: !t.tile, ..t }),
                Err(e) => refused(self, e),
            }
        }
    }

    // -- focus --------------------------------------------------------------

    /// The focus of the focused workspace moves.
    pub open spec fn refocused(self, monitor: int, workspace: int, value: WorkspaceView) -> Outcome {
        let after = self.with_workspace(monitor, workspace, value);
        done(after, after.focus_change(value.focused_id()))
    }

    /// The container in `direction` is focused, or the monitor there.
    pub open spec fn focus_direction(self, direction: Direction) -> Outcome {
        if self.is_paused {
            done(self, ChangesView::none())
        } else {
            match self.target() {
                Ok((m, w, t)) => match nearest(t.latest_layout, t.containers.focused, direction) {
                    Some(idx) => self.refocused(m, w, t.focus_container(idx)),
                    None => match nearest(self.screens(), self.monitors.focused, direction) {
                        Some(screen) => self.focus_monitor(screen),
                        None => done(self, ChangesView::none()),
                    },
                },
                Err(e) => refused(self, e),
            }
        }
    }

    /// The focus moves one container along the ring.
    pub open spec fn cycle_focus(self, direction: CycleDirection) -> Outcome {
        if self.is_paused {
            done(self, ChangesView::none())
        } else {
            match self.target() {
                Ok((m, w, t)) => self.refocused(
                    m,
                    w,
                    WorkspaceView {
                        containers: t.containers.cycle_focus(direction),
                        focus_is_floating: false,
                        ..t
                    },
                ),
                Err(e) => refused(self, e),
            }
        }
    }

    /// The focus moves through the windows of the focused stack.
    pub open spec fn cycle_stack(self, direction: CycleDirection) -> Outcome {
        if self.is_paused {
            done(self, ChangesView::none())
        } else {
            match self.target() {
                Ok((m, w, t)) => match t.containers.current() {
                    Some(container) => {
                        let turned = container.cycle_focus(direction);
                        let after = self.with_workspace(
                            m,
                            w,
                            WorkspaceView {
                                containers: t.containers.with(t.containers.focused, turned),
                                ..t
                            },
                        );
                        if top_of(turned) is Some {
                            after.reshown(m, w, top_of(turned), self.visible())
                        } else {
                            done(after, ChangesView::none())
                        }
                    },
                    None => done(self.with_workspace(m, w, t), ChangesView::none()),
                },
                Err(e) => refused(self, e),
            }
        }
    }

    /// The state with the focus on one workspace of one monitor.
    pub open spec fn look_at(self, monitor: int, workspace: int) -> Self {
        StateView {
            monitors: self.monitors.focus(monitor).with(
                monitor,
                self.monitors.elements[monitor].focus_workspace(workspace),
            ),
            ..self
        }
    }

    /// A window takes the focus, with the monitor and the workspace it is on.
    pub open spec fn focus_window(self, id: WindowId) -> Outcome {
        if self.is_paused {
            done(self, ChangesView::none())
        } else {
            match self.locate(id) {
                Some((m, w)) => {
                    let looking = self.look_at(m, w);
                    let after = looking.with_workspace(
                        m,
                        w,
                        looking.stamped(looking.workspace(m, w)->Ok_0).focus_window(id),
                    );
                    done(
                        after,
                        after.visibility_delta(
                            self.visible(),
                            ChangesView { focus: Some(id), ..ChangesView::none() },
                        ),
                    )
                },
                None => refused(self, ErrorView::WindowNotFound(id)),
            }
        }
    }

    // -- moving containers around -------------------------------------------

    /// The focused container swaps with the one in `direction`, or moves to the
    /// monitor there.
    pub open spec fn move_direction(self, direction: Direction) -> Outcome {
        if self.is_paused {
            done(self, ChangesView::none())
        } else {
            match self.target() {
                Ok((m, w, t)) => if t.focus_outside_the_ring() {
                    done(self, ChangesView::none())
                } else {
                    match nearest(t.latest_layout, t.containers.focused, direction) {
                        Some(idx) => {
                            let swapped = t.swap_focused(idx);
                            let (after, changes) = self.with_workspace(m, w, swapped).rearranged(
                                m,
                                w,
                                swapped.focused_id(),
                            );
                            done(after, changes)
                        },
                        None => match nearest(self.screens(), self.monitors.focused, direction) {
                            Some(screen) => if self.cross_monitor_move_behaviour
                                == MoveBehaviour::NoOp {
                                done(self, ChangesView::none())
                            } else {
                                self.move_container_to(
                                    screen,
                                    self.monitors.elements[screen].workspaces.focused,
                                    true,
                                    Some(direction),
                                )
                            },
                            None => done(self, ChangesView::none()),
                        },
                    }
                },
                Err(e) => refused(self, e),
            }
        }
    }

    /// The focused container swaps with its neighbour in the ring.
    pub open spec fn cycle_move(self, direction: CycleDirection) -> Outcome {
        if self.is_paused {
            done(self, ChangesView::none())
        } else {
            match self.target() {
                Ok((m, w, t)) => if t.focus_outside_the_ring() {
                    done(self, ChangesView::none())
                } else {
                    let moved = WorkspaceView {
                        containers: t.containers.move_focused(direction),
                        focus_is_floating: false,
                        ..t
                    };
                    let (after, changes) = self.with_workspace(m, w, moved).rearranged(
                        m,
                        w,
                        moved.focused_id(),
                    );
                    done(after, changes)
                },
                Err(e) => refused(self, e),
            }
        }
    }

    /// The focused container moves to the front of the ring.
    pub open spec fn promote(self) -> Outcome {
        if self.is_paused {
            done(self, ChangesView::none())
        } else {
            match self.target() {
                Ok((m, w, t)) => if t.focus_outside_the_ring() {
                    done(self, ChangesView::none())
                } else if t.can_promote() {
                    let (after, changes) = self.with_workspace(m, w, t.promote()).rearranged(
                        m,
                        w,
                        t.promote().focused_id(),
                    );
                    done(after, changes)
                } else {
                    done(self.with_workspace(m, w, t), ChangesView::none())
                },
                Err(e) => refused(self, e),
            }
        }
    }

    /// The container at the front of the ring takes the focus.
    pub open spec fn promote_focus(self) -> Outcome {
        if self.is_paused {
            done(self, ChangesView::none())
        } else {
            match self.target() {
                Ok((m, w, t)) => if t.containers.len() > 0 {
                    self.refocused(m, w, t.focus_container(0))
                } else {
                    done(self.with_workspace(m, w, t), ChangesView::none())
                },
                Err(e) => refused(self, e),
            }
        }
    }

    // -- stacking -----------------------------------------------------------

    /// The workspace is replaced, laid out again and shown, when the edit did
    /// anything at all.
    pub open spec fn reshaped(
        self,
        monitor: int,
        workspace: int,
        value: WorkspaceView,
        changed: bool,
    ) -> Outcome {
        let after = self.with_workspace(monitor, workspace, value);
        if changed {
            after.reshown(monitor, workspace, value.focused_id(), self.visible())
        } else {
            done(after, ChangesView::none())
        }
    }

    /// The focused window goes onto the container in `direction`.
    pub open spec fn stack(self, direction: Direction) -> Outcome {
        if self.is_paused {
            done(self, ChangesView::none())
        } else {
            match self.target() {
                Ok((m, w, t)) => if t.focus_outside_the_ring() {
                    done(self, ChangesView::none())
                } else {
                    match nearest(t.latest_layout, t.containers.focused, direction) {
                        Some(idx) => self.reshaped(m, w, t.stack_into(idx), t.can_stack_into(idx)),
                        None => done(self, ChangesView::none()),
                    }
                },
                Err(e) => refused(self, e),
            }
        }
    }

    /// The focused window leaves its stack.
    pub open spec fn unstack(self) -> Outcome {
        if self.is_paused {
            done(self, ChangesView::none())
        } else {
            match self.target() {
                Ok((m, w, t)) => if t.focus_outside_the_ring() {
                    done(self, ChangesView::none())
                } else {
                    self.reshaped(m, w, t.unstack(), t.can_unstack())
                },
                Err(e) => refused(self, e),
            }
        }
    }

    /// Every container of the focused workspace goes into one stack.
    pub open spec fn stack_all(self) -> Outcome {
        if self.is_paused {
            done(self, ChangesView::none())
        } else {
            match self.target() {
                Ok((m, w, t)) => self.reshaped(m, w, t.stack_all(), t.containers.len() >= 2),
                Err(e) => refused(self, e),
            }
        }
    }

    /// Every window of the focused workspace gets its own container.
    pub open spec fn unstack_all(self) -> Outcome {
        if self.is_paused {
            done(self, ChangesView::none())
        } else {
            match self.target() {
                Ok((m, w, t)) => self.reshaped(m, w, t.unstack_all(), t.has_stack()),
                Err(e) => refused(self, e),
            }
        }
    }

    // -- window states ------------------------------------------------------

    /// The focused window goes from the tiles to the floating list or back.
    pub open spec fn toggle_float(self) -> Outcome {
        if self.is_paused {
            done(self, ChangesView::none())
        } else {
            match self.target() {
                Ok((m, w, t)) => self.reshaped(m, w, t.toggle_float(), true),
                Err(e) => refused(self, e),
            }
        }
    }

    /// The focused container fills the workspace, or goes back.
    pub open spec fn toggle_monocle(self) -> Outcome {
        if self.is_paused {
            done(self, ChangesView::none())
        } else {
            match self.target() {
                Ok((m, w, t)) => self.reshaped(m, w, t.toggle_monocle(), true),
                Err(e) => refused(self, e),
            }
        }
    }

    /// The focused window is maximized, or restored.
    pub open spec fn toggle_maximize(self) -> Outcome {
        if self.is_paused {
            done(self, ChangesView::none())
        } else {
            match self.target() {
                Ok((m, w, t)) => {
                    let toggled = t.toggle_maximize();
                    let edited = self.with_workspace(m, w, toggled);
                    let id = toggled.focused_id();
                    if (toggled.maximized_window is Some) == (t.maximized_window is Some) {
                        done(edited, ChangesView::none())
                    } else {
                        let after = edited.refreshed(m, w);
                        let retiled = ChangesView::none().retile(m, w);
                        let changes = if toggled.maximized_window is Some {
                            ChangesView { maximize: id, ..retiled }
                        } else {
                            ChangesView {
                                restore: match id {
                                    Some(id) => seq![id],
                                    None => Seq::empty(),
                                },
                                ..retiled
                            }
                        };
                        done(
                            after,
                            after.visibility_delta(
                                self.visible(),
                                changes.merge(after.focus_change(id)),
                            ),
                        )
                    }
                },
                Err(e) => refused(self, e),
            }
        }
    }

    /// The focused window is minimized and leaves the workspace.
    pub open spec fn minimize_focused_window(self) -> Outcome {
        if self.is_paused {
            done(self, ChangesView::none())
        } else {
            match self.target() {
                Ok((m, w, t)) => match t.focused_id() {
                    Some(id) => {
                        let after = self.with_workspace(m, w, t.remove_window(id).0).refreshed(
                            m,
                            w,
                        );
                        let changes = ChangesView {
                            restore: if t.maximized_window is Some {
                                seq![id]
                            } else {
                                Seq::empty()
                            },
                            minimize: seq![id],
                            ..ChangesView::none().retile(m, w)
                        };
                        done(
                            after,
                            after.visibility_delta(
                                self.visible(),
                                changes.merge(after.focus_change(after.focused_id())),
                            ),
                        )
                    },
                    None => done(self.with_workspace(m, w, t), ChangesView::none()),
                },
                Err(e) => refused(self, e),
            }
        }
    }

    /// The focused window is asked to close.
    pub open spec fn close_focused_window(self) -> Outcome {
        if self.is_paused {
            done(self, ChangesView::none())
        } else {
            match self.focused_workspace() {
                Ok(w) => done(self, ChangesView { close: w.focused_id(), ..ChangesView::none() }),
                Err(e) => refused(self, e),
            }
        }
    }

    // -- layouts ------------------------------------------------------------

    /// The focused workspace gets a layout, and its layout rules go.
    pub open spec fn change_layout(self, layout: Layout) -> Outcome {
        if self.is_paused {
            done(self, ChangesView::none())
        } else {
            match self.target() {
                Ok((m, w, t)) => self.edited(
                    m,
                    w,
                    WorkspaceView { layout, layout_rules: Map::empty(), ..t },
                ),
                Err(e) => refused(self, e),
            }
        }
    }

    /// The focused workspace gets the next or previous layout.
    pub open spec fn cycle_layout(self, direction: CycleDirection) -> Outcome {
        match self.focused_workspace() {
            Ok(w) => self.change_layout(w.layout.cycle(direction)),
            Err(e) => refused(self, e),
        }
    }

    /// The layout of the focused workspace is mirrored on `axis`.
    pub open spec fn flip_layout(self, axis: Axis) -> Outcome {
        if self.is_paused {
            done(self, ChangesView::none())
        } else {
            match self.target() {
                Ok((m, w, t)) => self.edited(
                    m,
                    w,
                    WorkspaceView { layout_flip: t.layout_flip.toggled(axis), ..t },
                ),
                Err(e) => refused(self, e),
            }
        }
    }

    /// The workspace a resize works on, laid out.
    pub open spec fn bench(self, monitor: int, workspace: int, target: WorkspaceView) -> Bench {
        let blank = Bench {
            workspace: target,
            work_area: self.area_for(monitor, workspace)->0,
            workspace_padding: self.default_workspace_padding,
            container_padding: self.default_container_padding,
            scale: self.padding_scale(monitor),
        };
        Bench { workspace: blank.lay(target), ..blank }
    }

    /// A resize came to `resized`, or to nothing.
    pub open spec fn resized(
        self,
        monitor: int,
        workspace: int,
        bench: Bench,
        resized: Option<WorkspaceView>,
    ) -> Outcome {
        match resized {
            Some(value) => done(
                self.with_workspace(monitor, workspace, value),
                ChangesView::none().retile(monitor, workspace),
            ),
            None => done(
                self.with_workspace(monitor, workspace, bench.workspace),
                ChangesView::none(),
            ),
        }
    }

    /// The focused container grows or shrinks along `axis`.
    pub open spec fn resize_axis(self, axis: Axis, sizing: Sizing) -> Outcome {
        if self.is_paused {
            done(self, ChangesView::none())
        } else {
            match self.target() {
                Ok((m, w, t)) => if t.focus_outside_the_ring() {
                    done(self, ChangesView::none())
                } else if t.containers.len() == 0 {
                    refused(self.with_workspace(m, w, t), ErrorView::NoFocusedContainer)
                } else {
                    let bench = self.bench(m, w, t);
                    self.resized(
                        m,
                        w,
                        bench,
                        bench.resize_axis(axis, sizing.signed(self.resize_delta) as int),
                    )
                },
                Err(e) => refused(self, e),
            }
        }
    }

    /// The focused container grows or shrinks at the edge in `direction`.
    pub open spec fn resize_edge(self, direction: Direction, sizing: Sizing) -> Outcome {
        if self.is_paused {
            done(self, ChangesView::none())
        } else {
            match self.target() {
                Ok((m, w, t)) => if t.focus_outside_the_ring() {
                    done(self, ChangesView::none())
                } else if t.containers.len() == 0 {
                    refused(self.with_workspace(m, w, t), ErrorView::NoFocusedContainer)
                } else {
                    let bench = self.bench(m, w, t);
                    self.resized(
                        m,
                        w,
                        bench,
                        bench.resize_edge(direction, sizing.signed(self.resize_delta) as int),
                    )
                },
                Err(e) => refused(self, e),
            }
        }
    }

    // -- workspaces ---------------------------------------------------------

    /// The state with one monitor replaced.
    pub open spec fn with_monitor(self, idx: int, monitor: MonitorView) -> Self {
        StateView { monitors: self.monitors.with(idx, monitor), ..self }
    }

    /// A workspace of the focused monitor takes the focus, created if needed.
    pub open spec fn focus_workspace(self, idx: int) -> Outcome {
        if self.is_paused {
            done(self, ChangesView::none())
        } else if !self.allows_workspace(self.monitors.focused, idx) {
            refused(self, ErrorView::WorkspaceIndexOutOfRange(idx))
        } else {
            match self.monitors.current() {
                Some(monitor) => {
                    let m = self.monitors.focused;
                    let after = self.with_monitor(
                        m,
                        monitor.ensure_workspaces(idx + 1).focus_workspace(idx),
                    ).refreshed(m, idx);
                    done(
                        after,
                        after.visibility_delta(
                            self.visible(),
                            ChangesView::none().retile(m, idx),
                        ).merge(after.focus_change(after.focused_id())),
                    )
                },
                None => refused(self, ErrorView::NoFocusedMonitor),
            }
        }
    }

    /// The workspace that was focused before takes the focus.
    pub open spec fn focus_last_workspace(self) -> Outcome {
        if self.is_paused {
            done(self, ChangesView::none())
        } else {
            match self.monitors.current() {
                Some(monitor) => match monitor.last_focused_workspace {
                    Some(last) => self.focus_workspace(last),
                    None => done(self, ChangesView::none()),
                },
                None => refused(self, ErrorView::NoFocusedMonitor),
            }
        }
    }

    /// The next or previous workspace of the focused monitor takes the focus.
    pub open spec fn cycle_workspace(self, direction: CycleDirection) -> Outcome {
        if self.is_paused {
            done(self, ChangesView::none())
        } else {
            match self.monitors.current() {
                Some(monitor) => match monitor.workspaces.next_idx(direction) {
                    Some(idx) => self.focus_workspace(idx),
                    None => done(self, ChangesView::none()),
                },
                None => refused(self, ErrorView::NoFocusedMonitor),
            }
        }
    }

    /// The focused container moves to another workspace of the same monitor.
    pub open spec fn move_to_workspace(self, idx: int, follow: bool) -> Outcome {
        if self.is_paused {
            done(self, ChangesView::none())
        } else if !self.allows_workspace(self.monitors.focused, idx) {
            refused(self, ErrorView::WorkspaceIndexOutOfRange(idx))
        } else {
            match self.monitors.current() {
                Some(monitor) => self.with_monitor(
                    self.monitors.focused,
                    monitor.ensure_workspaces(idx + 1),
                ).move_container_to(self.monitors.focused, idx, follow, None),
                None => refused(self, ErrorView::NoFocusedMonitor),
            }
        }
    }

    /// The monitors in the order a name is searched for: from the focused one
    /// on, wrapping.
    pub open spec fn from_focus_on(self) -> Seq<MonitorView> {
        Seq::new(
            self.monitors.elements.len(),
            |step: int|
                self.monitors.elements[(self.monitors.focused + step) % self.monitors.len()],
        )
    }

    /// Where the workspace with this name is.
    pub open spec fn named_workspace(self, name: Seq<char>) -> Option<(int, int)> {
        match first_idx(self.from_focus_on(), has_named(name)) {
            Some(step) => Some(
                (
                    (self.monitors.focused + step) % self.monitors.len(),
                    named_on(self.from_focus_on()[step], name)->0,
                ),
            ),
            None => None,
        }
    }

    /// The workspace with this name takes the focus.
    pub open spec fn focus_named_workspace(self, name: Seq<char>) -> Outcome {
        if self.is_paused {
            done(self, ChangesView::none())
        } else {
            match self.named_workspace(name) {
                Some((m, w)) => {
                    let (looking, changes) = self.focus_monitor(m);
                    let (after, more) = looking.focus_workspace(w);
                    match (changes, more) {
                        (Ok(changes), Ok(more)) => done(after, changes.merge(more)),
                        (Err(e), _) => refused(looking, e),
                        (_, Err(e)) => refused(after, e),
                    }
                },
                None => refused(self, ErrorView::WorkspaceNameNotFound(name)),
            }
        }
    }

    /// The focused container moves to the workspace with this name.
    pub open spec fn move_to_named_workspace(self, name: Seq<char>, follow: bool) -> Outcome {
        if self.is_paused {
            done(self, ChangesView::none())
        } else {
            match self.named_workspace(name) {
                Some((m, w)) => self.move_container_to(m, w, follow, None),
                None => refused(self, ErrorView::WorkspaceNameNotFound(name)),
            }
        }
    }

    // -- monitors -----------------------------------------------------------

    /// Another monitor takes the focus.
    pub open spec fn focus_monitor(self, idx: int) -> Outcome {
        if self.is_paused {
            done(self, ChangesView::none())
        } else if idx >= self.monitors.len() {
            refused(self, ErrorView::MonitorNotFound(idx))
        } else {
            let after = StateView { monitors: self.monitors.focus(idx), ..self };
            done(
                after,
                ChangesView {
                    focused_monitor_changed: self.monitors.focused != idx,
                    ..after.focus_change(after.focused_id())
                },
            )
        }
    }

    /// The next or previous monitor takes the focus.
    pub open spec fn cycle_monitor(self, direction: CycleDirection) -> Outcome {
        if self.is_paused {
            done(self, ChangesView::none())
        } else {
            match self.monitors.next_idx(direction) {
                Some(idx) => self.focus_monitor(idx),
                None => refused(self, ErrorView::NoFocusedMonitor),
            }
        }
    }

    /// The focused container moves to the focused workspace of another monitor.
    pub open spec fn move_to_monitor(self, idx: int, follow: bool) -> Outcome {
        if self.is_paused {
            done(self, ChangesView::none())
        } else {
            match self.monitors.at(idx) {
                Some(m) => self.move_container_to(idx, m.workspaces.focused, follow, None),
                None => refused(self, ErrorView::MonitorNotFound(idx)),
            }
        }
    }

    /// `true` when a move between these monitors trades places.
    pub open spec fn swaps(self, from_monitor: int, to_monitor: int) -> bool {
        self.cross_monitor_move_behaviour == MoveBehaviour::Swap && to_monitor != from_monitor
    }

    /// The slot a container goes into at its destination.
    pub open spec fn landing(
        destination: WorkspaceView,
        swapping: bool,
        entering_from: Option<Direction>,
    ) -> int {
        match entering_from {
            Some(direction) => if swapping {
                destination.containers.focused
            } else if direction.is_forward() {
                0
            } else {
                destination.containers.len()
            },
            None => destination.containers.focused,
        }
    }

    /// The state with the focused container of one workspace in another one, and
    /// the focused container there in its place when the two swap.
    pub open spec fn transferred(
        self,
        from: (int, int),
        to: (int, int),
        entering_from: Option<Direction>,
    ) -> Self {
        let source = self.stamped(self.workspace(from.0, from.1)->Ok_0);
        let taken = self.with_workspace(
            from.0,
            from.1,
            source.remove_container(source.containers.focused),
        );
        let swapping = self.swaps(from.0, to.0);
        let destination = taken.stamped(taken.workspace(to.0, to.1)->Ok_0);
        let cleared = if swapping {
            destination.remove_container(destination.containers.focused)
        } else {
            destination
        };
        let landed = taken.with_workspace(
            to.0,
            to.1,
            cleared.insert_container(
                StateView::landing(destination, swapping, entering_from),
                source.containers.current()->0,
            ),
        );
        match destination.containers.current() {
            Some(back) => if swapping {
                landed.with_workspace(
                    from.0,
                    from.1,
                    landed.stamped(landed.workspace(from.0, from.1)->Ok_0).insert_container(
                        source.containers.focused,
                        back,
                    ),
                )
            } else {
                landed
            },
            None => landed,
        }
    }

    /// The focused container moves to any workspace on any monitor.
    pub open spec fn move_container_to(
        self,
        to_monitor: int,
        to_workspace: int,
        follow: bool,
        entering_from: Option<Direction>,
    ) -> Outcome {
        if self.is_paused {
            done(self, ChangesView::none())
        } else {
            match self.focused_indices() {
                Err(e) => refused(self, e),
                Ok((m, w)) => if (m, w) == (to_monitor, to_workspace) || (self.workspace(
                    m,
                    w,
                ) is Ok && self.workspace(m, w)->Ok_0.focus_outside_the_ring()) {
                    done(self, ChangesView::none())
                } else {
                    match (self.workspace(to_monitor, to_workspace), self.workspace(m, w)) {
                        (Err(e), _) => refused(self, e),
                        (_, Err(e)) => refused(self, e),
                        (Ok(_), Ok(source)) => if source.containers.len() == 0 {
                            done(
                                self.with_workspace(m, w, self.stamped(source)),
                                ChangesView::none(),
                            )
                        } else {
                            let tiled = self.transferred(
                                (m, w),
                                (to_monitor, to_workspace),
                                entering_from,
                            ).refreshed(m, w).refreshed(to_monitor, to_workspace);
                            let changes = ChangesView::none().retile(m, w).merge(
                                ChangesView::none().retile(to_monitor, to_workspace),
                            );
                            let after = if follow {
                                tiled.look_at(to_monitor, to_workspace)
                            } else {
                                tiled
                            };
                            done(
                                after,
                                after.visibility_delta(
                                    self.visible(),
                                    ChangesView {
                                        focused_monitor_changed: follow && m != to_monitor,
                                        ..changes.merge(after.focus_change(after.focused_id()))
                                    },
                                ),
                            )
                        },
                    }
                },
            }
        }
    }

    // -- window lifecycle ---------------------------------------------------

    /// A new window joins the focused workspace, obeying the rules.
    pub open spec fn add_window(self, window: WindowView) -> Outcome {
        match self.focused_indices() {
            Ok((m, w)) => self.add_window_to(m, w, window),
            Err(e) => refused(self, e),
        }
    }

    /// A new window joins a workspace, obeying the rules.
    pub open spec fn add_window_to(self, monitor: int, workspace: int, window: WindowView) -> Outcome {
        let decision = self.rules.decide(window.info());
        if decision == RuleDecision::Ignore {
            done(self, ChangesView::none())
        } else if self.is_paused {
            if self.manages(window.id) || any(self.pending_windows, has_id(window.id)) {
                done(self, ChangesView::none())
            } else {
                done(
                    StateView { pending_windows: self.pending_windows.push(window), ..self },
                    ChangesView::none(),
                )
            }
        } else if self.manages(window.id) {
            self.focus_window(window.id)
        } else {
            match self.workspace(monitor, workspace) {
                Err(e) => refused(self, e),
                Ok(target) => {
                    let after = self.with_workspace(
                        monitor,
                        workspace,
                        self.stamped(target).welcome(
                            window,
                            decision == RuleDecision::Float || self.float_override
                                || target.float_override,
                            self.window_container_behaviour == WindowContainerBehaviour::Append,
                        ),
                    ).refreshed(monitor, workspace);
                    let retiled = ChangesView::none().retile(monitor, workspace);
                    let changes = if after.visible().contains(window.id) {
                        retiled.merge(after.focus_change(Some(window.id)))
                    } else {
                        ChangesView { hide: seq![window.id], ..retiled }
                    };
                    done(after, after.visibility_delta(self.visible(), changes))
                },
            }
        }
    }

    /// A window that is gone leaves the model.
    pub open spec fn remove_window(self, id: WindowId) -> Outcome {
        match first_idx(self.pending_windows, has_id(id)) {
            Some(idx) => done(
                StateView { pending_windows: self.pending_windows.remove(idx), ..self },
                ChangesView::none(),
            ),
            None => match self.locate(id) {
                None => refused(self, ErrorView::WindowNotFound(id)),
                Some((m, w)) => {
                    let taken = self.with_workspace(
                        m,
                        w,
                        self.stamped(self.workspace(m, w)->Ok_0).remove_window(id).0,
                    );
                    if self.is_paused {
                        done(taken, ChangesView::none())
                    } else {
                        let after = taken.refreshed(m, w);
                        let retiled = ChangesView::none().retile(m, w);
                        let changes = if after.focused_indices() == Ok::<(int, int), ErrorView>(
                            (m, w),
                        ) {
                            retiled.merge(after.focus_change(after.focused_id()))
                        } else {
                            retiled
                        };
                        done(after, after.visibility_delta(self.visible(), changes))
                    }
                },
            },
        }
    }

    /// A managed window goes into the floating list of its workspace.
    pub open spec fn float_window(self, id: WindowId) -> Outcome {
        if self.is_paused {
            done(self, ChangesView::none())
        } else {
            match self.locate(id) {
                None => refused(self, ErrorView::WindowNotFound(id)),
                Some((m, w)) => {
                    let target = self.stamped(self.workspace(m, w)->Ok_0);
                    let edited = self.with_workspace(m, w, target.float_window(id));
                    if first_idx(target.floating_windows.elements, has_id(id)) is Some {
                        done(edited, ChangesView::none())
                    } else {
                        let after = edited.refreshed(m, w);
                        let changes = ChangesView {
                            restore: if target.maximized_window is Some
                                && target.maximized_window->0.id == id {
                                seq![id]
                            } else {
                                Seq::empty()
                            },
                            ..ChangesView::none().retile(m, w)
                        };
                        done(after, after.visibility_delta(self.visible(), changes))
                    }
                },
            }
        }
    }

    /// The container of the focused workspace of a monitor under a point.
    pub open spec fn container_at_point(self, monitor: int, x: i32, y: i32) -> Option<int> {
        match self.monitors.at(monitor) {
            Some(m) => match m.workspaces.current() {
                Some(w) => first_idx(w.latest_layout, is_under(x, y)),
                None => None,
            },
            None => None,
        }
    }

    /// The monitor under a point.
    pub open spec fn monitor_at(self, x: i32, y: i32) -> Option<int> {
        first_idx(self.monitors.elements, covers(x, y))
    }

    /// A tiled window is dropped at a point.
    pub open spec fn swap_window_at_point(self, window: WindowId, x: i32, y: i32) -> Outcome {
        if self.is_paused {
            done(self, ChangesView::none())
        } else {
            match self.locate(window) {
                None => refused(self, ErrorView::WindowNotFound(window)),
                Some((m, w)) => match self.workspace(m, w)->Ok_0.container_idx(window) {
                    None => done(self, ChangesView::none()),
                    Some(from) => {
                        let home = self.refreshed(m, w);
                        match home.monitor_at(x, y) {
                            None => done(home, ChangesView::none().retile(m, w)),
                            Some(to) => if to == m {
                                home.swapped_on(m, w, from, home.container_at_point(m, x, y))
                            } else {
                                home.dropped_on(
                                    (m, w),
                                    from,
                                    to,
                                    home.container_at_point(to, x, y),
                                )
                            },
                        }
                    },
                },
            }
        }
    }

    /// A container is dropped on the monitor it is on.
    pub open spec fn swapped_on(self, m: int, w: int, from: int, hit: Option<int>) -> Outcome {
        let snap_back = ChangesView::none().retile(m, w);
        match hit {
            None => done(self, snap_back),
            Some(target) => if self.monitors.elements[m].workspaces.focused != w || target == from {
                done(self, snap_back)
            } else {
                let swapped = self.with_workspace(
                    m,
                    w,
                    self.stamped(self.workspace(m, w)->Ok_0).focus_container(from).swap_focused(
                        target,
                    ),
                );
                if target < self.workspace(m, w)->Ok_0.containers.len() {
                    done(swapped.refreshed(m, w), snap_back)
                } else {
                    done(swapped, snap_back)
                }
            },
        }
    }

    /// A container is dropped on another monitor.
    pub open spec fn dropped_on(
        self,
        from: (int, int),
        container: int,
        to: int,
        hit: Option<int>,
    ) -> Outcome {
        let (m, w) = from;
        let to_workspace = self.monitors.elements[to].workspaces.focused;
        let source = self.stamped(self.workspace(m, w)->Ok_0).focus_container(container);
        let taken = self.with_workspace(m, w, source.remove_container(container));
        match taken.workspace(to, to_workspace) {
            Err(e) => refused(taken, e),
            Ok(destination) => {
                let at = match hit {
                    Some(idx) => if idx < destination.containers.len() {
                        idx
                    } else {
                        destination.containers.len()
                    },
                    None => destination.containers.len(),
                };
                let tiled = taken.with_workspace(
                    to,
                    to_workspace,
                    taken.stamped(destination).insert_container(at, source.containers.current()->0),
                ).refreshed(m, w).refreshed(to, to_workspace);
                let after = StateView { monitors: tiled.monitors.focus(to), ..tiled };
                done(
                    after,
                    after.visibility_delta(
                        self.visible(),
                        ChangesView {
                            focused_monitor_changed: true,
                            ..ChangesView::none().retile(m, w).merge(
                                ChangesView::none().retile(to, to_workspace),
                            )
                        },
                    ),
                )
            },
        }
    }

    /// The displays are replaced by the ones the platform reports now.
    pub open spec fn reconcile_monitors(self, reported: Seq<MonitorView>) -> (Self, ChangesView) {
        if reported.len() == 0 {
            (self, ChangesView::none())
        } else {
            let known = self.monitors.elements;
            let moved = StateView {
                monitors: RingView::over(reconciled(known, reported)).focus_clamped(
                    focus_after(claims(known, reported), self.monitors.focused),
                ),
                ..self
            };
            let (after, retiled) = moved.retile_first(moved.monitors.len(), ChangesView::none());
            let changes = after.visibility_delta(
                self.visible(),
                ChangesView { focused_monitor_changed: true, ..retiled },
            );
            (
                after,
                (ChangesView { show: changes.show + after.visible(), ..changes }).settle(),
            )
        }
    }
}

} // verus!
