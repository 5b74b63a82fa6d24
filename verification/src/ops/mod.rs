//! Every command the daemon and the CLI can run, as methods on [`State`].
//!
//! All of them return a [`Changes`] describing what the daemon has to do to
//! the real windows. Nothing here talks to Win32.
//!
//! While [`State::is_paused`] is set, every command except
//! [`State::toggle_pause`] and [`State::remove_window`] is a no-op, so the game
//! mode hotkey really does stop the window manager dead.

use vstd::prelude::*;

use crate::error::{Error, ErrorView, Result};
use crate::geometry::{saturate, Axis, Direction, Rect};
use crate::layout::{Layout, Sizing};
use crate::model::changes::{extend_without, has_handle, Changes, ChangesView};
use crate::model::container::Container;
use crate::model::monitor::{index_opt, Monitor};
use crate::model::ring::CycleDirection;
use crate::model::scale::Scale;
use crate::model::state::{
    window_views, MoveBehaviour, State, StateView, WindowContainerBehaviour,
};
use crate::model::window::{has_id, Window, WindowId, WindowView};
use crate::model::workspace::{fitted, Workspace, WorkspaceView};
use crate::ops::outcome::{
    has_named, is_named, is_under, named_on, nudge, outcome, same_display, Bench,
};
use crate::rules::RuleDecision;
use crate::seqs::{any, first_idx, first_is, first_is_none};
use crate::text::{owned, same, same_ignoring_case};

pub mod arranging;
pub mod census;
pub mod displays;
pub mod dropping;
pub mod growing;
pub mod laws;
pub mod lifecycle;
pub mod outcome;
pub mod reconcile;
pub mod redrawing;
pub mod refusing;
pub mod rescue;
pub mod resizing;
pub mod sight;
pub mod steering;
pub mod travel;

verus! {

/// Adds `by` pixels to the edge of a resize delta the command is working on.
fn nudged(delta: Rect, axis: Axis, far_edge: bool, by: i64) -> (r: Rect)
    requires
        -0x8000_0000 <= by <= 0x8000_0000,
    ensures
        r == nudge(delta, axis, far_edge, by as int),
{
    let mut delta = delta;
    match axis {
        Axis::Horizontal => {
            if far_edge {
                delta.right = saturate(delta.right as i64 + by);
            } else {
                delta.left = saturate(delta.left as i64 - by);
            }
        },
        Axis::Vertical => {
            if far_edge {
                delta.bottom = saturate(delta.bottom as i64 + by);
            } else {
                delta.top = saturate(delta.top as i64 - by);
            }
        },
    }
    delta
}

/// How a workspace is laid out while it is being resized.
struct Frame {
    work_area: Rect,
    workspace_padding: i32,
    container_padding: i32,
    scale: Scale,
}

impl Frame {
    spec fn bench(&self, workspace: WorkspaceView) -> Bench {
        Bench {
            workspace,
            work_area: self.work_area,
            workspace_padding: self.workspace_padding,
            container_padding: self.container_padding,
            scale: self.scale,
        }
    }

    fn lay(&self, target: &mut Workspace)
        ensures
            final(target)@ == self.bench(old(target)@).lay(old(target)@),
    {
        target.update_layout_scaled(
            self.work_area,
            self.workspace_padding,
            self.container_padding,
            self.scale,
        );
    }

    fn lay_with(&self, target: &mut Workspace, idx: usize, delta: Option<Rect>)
        ensures
            final(target)@ == self.bench(old(target)@).lay(
                old(target)@.with_delta(idx as int, delta),
            ),
    {
        target.set_resize_dimension(idx, delta);
        self.lay(target);
    }
}

/// Laying out a workspace that is laid out already changes nothing, and of two
/// deltas set one after the other only the second counts.
proof fn only_the_last_delta_counts(bench: Bench, first: Option<Rect>, second: Option<Rect>)
    requires
        bench.workspace == bench.lay(bench.workspace),
        0 <= bench.idx() < bench.workspace.containers.len(),
    ensures
        bench.lay(
            bench.lay(bench.workspace.with_delta(bench.idx(), first)).with_delta(
                bench.idx(),
                second,
            ),
        ) == bench.lay(bench.workspace.with_delta(bench.idx(), second)),
        bench.lay(bench.workspace.with_delta(bench.idx(), bench.workspace.delta(bench.idx())))
            == bench.workspace,
{
    let start = bench.workspace;
    let len = start.containers.len();
    let idx = bench.idx();
    assert(start.resize_dimensions.len() == len);
    let once = bench.lay(start.with_delta(idx, first));
    assert(once.resize_dimensions =~= start.resize_dimensions.update(idx, first));
    let twice = once.with_delta(idx, second);
    assert(twice.resize_dimensions =~= start.with_delta(idx, second).resize_dimensions);
    assert(start.with_delta(idx, start.delta(idx)).resize_dimensions
        =~= start.resize_dimensions);
}

/// Laying out a workspace that is laid out already changes nothing.
proof fn laying_out_twice_is_once(bench: Bench)
    ensures
        bench.lay(bench.lay(bench.workspace)) == bench.lay(bench.workspace),
{
    let len = bench.workspace.containers.len();
    if len >= 0 {
        assert(fitted(fitted(bench.workspace.resize_dimensions, len), len) =~= fitted(
            bench.workspace.resize_dimensions,
            len,
        ));
    }
}

/// `true` when two monitors are the same display.
///
/// The device id is the only identifier that survives a reboot, a cable
/// swap or a resolution change, so it decides when both sides have one.
/// The friendly name is the fallback, and the platform handle the last
/// resort for a monitor that was built without either.
pub(crate) fn is_same_display(a: &Monitor, b: &Monitor) -> (r: bool)
    ensures
        r == same_display(a@, b@),
{
    if !is_blank(a.device_id.as_str()) && !is_blank(b.device_id.as_str()) {
        return same(a.device_id.as_str(), b.device_id.as_str());
    }
    if !is_blank(a.name.as_str()) && !is_blank(b.name.as_str()) {
        return same(a.name.as_str(), b.name.as_str());
    }
    a.id == b.id
}

pub(crate) fn is_blank(text: &str) -> (r: bool)
    ensures
        r == (text@.len() == 0),
{
    let r = same(text, "");
    proof {
        reveal_strlit("");
        assert(""@ =~= Seq::<char>::empty());
        if text@.len() == 0 {
            assert(text@ =~= ""@);
        }
    }
    r
}

impl State {
    // -- internal helpers ---------------------------------------------------

    /// Recomputes the layout of one workspace.
    fn refresh(&mut self, monitor: usize, workspace: usize)
        ensures
            final(self)@ == old(self)@.refreshed(monitor as int, workspace as int),
    {
        let work_area = match self.work_area_for(monitor, workspace) {
            Some(work_area) => work_area,
            None => return ,
        };
        let workspace_padding = self.default_workspace_padding;
        let container_padding = self.default_container_padding;
        let scale = self.padding_scale(monitor);
        if let Ok(target) = self.workspace_mut(monitor, workspace) {
            target.update_layout_scaled(work_area, workspace_padding, container_padding, scale);
        }
    }

    /// Recomputes one workspace and reports it as needing a redraw.
    fn retiled(&mut self, monitor: usize, workspace: usize) -> (r: Changes)
        ensures
            final(self)@ == old(self)@.refreshed(monitor as int, workspace as int),
            r@ == ChangesView::none().retile(monitor as int, workspace as int),
    {
        self.refresh(monitor, workspace);
        Changes::none().retile(monitor, workspace)
    }

    /// The focus part of a change set, including the mouse warp when it is on.
    fn focus_changes(&self, id: Option<WindowId>) -> (r: Changes)
        ensures
            r@ == self@.focus_change(id),
    {
        let mut changes = Changes::none();
        changes.focus = id;
        if self.mouse_follows_focus {
            if let Some(id) = id {
                changes.warp_mouse_to = self.rect_for_window(id);
            }
        }
        changes
    }

    /// Fills in `show` and `hide` from what changed since `before`.
    pub(crate) fn visibility_delta(&self, before: &[WindowId], changes: &mut Changes)
        ensures
            final(changes)@ == self@.visibility_delta(before@, old(changes)@),
    {
        let after = self.visible_window_ids();
        extend_without(&mut changes.show, after.as_slice(), before);
        extend_without(&mut changes.hide, before, after.as_slice());
        changes.settle();
    }

    /// `true` when the focused window of that workspace is not in its
    /// container ring.
    ///
    /// [`Workspace::focused_window_id`] resolves a maximized, monocled or
    /// floating window before it ever looks at the ring, and all three have
    /// been lifted out of it. Every op that rearranges containers works
    /// through the ring's focus index instead, so with one of those focused it
    /// would take hold of a completely different window.
    ///
    /// The ops refuse in that case rather than moving the focused window.
    /// Doing nothing is the only outcome that can never touch a window the user
    /// did not point at. The modes are one keystroke away from being off, and
    /// then the move does exactly what it says.
    fn focus_outside_the_ring(&self, monitor: usize, workspace: usize) -> (r: bool)
        ensures
            r == (self@.workspace(monitor as int, workspace as int) is Ok && self@.workspace(
                monitor as int,
                workspace as int,
            )->Ok_0.focus_outside_the_ring()),
    {
        match self.workspace(monitor, workspace) {
            Ok(target) => target.is_maximized() || target.is_monocle()
                || target.focus_is_floating(),
            Err(_) => false,
        }
    }

    /// The monitor and workspace a command about the focused workspace works on.
    fn target_indices(&self) -> (r: Result<(usize, usize)>)
        ensures
            match r {
                Ok((m, w)) => self@.workspace(m as int, w as int) is Ok && self@.target() == Ok::<
                    (int, int, WorkspaceView),
                    ErrorView,
                >(
                    (m as int, w as int, self@.stamped(self@.workspace(m as int, w as int)->Ok_0)),
                ) && self@.area_for(m as int, w as int) is Some && self@.focused_indices() == Ok::<
                    (int, int),
                    ErrorView,
                >((m as int, w as int)),
                Err(e) => self@.target() == Err::<(int, int, WorkspaceView), ErrorView>(e@),
            },
    {
        let (monitor, workspace) = match self.focused_indices() {
            Ok(indices) => indices,
            Err(e) => return Err(e),
        };
        match self.workspace(monitor, workspace) {
            Ok(_) => Ok((monitor, workspace)),
            Err(e) => Err(e),
        }
    }

    /// Lays an edited workspace out again and gives `id` the focus.
    fn rearrange(&mut self, monitor: usize, workspace: usize, id: Option<WindowId>) -> (r: Changes)
        ensures
            (final(self)@, r@) == old(self)@.rearranged(monitor as int, workspace as int, id),
    {
        let mut changes = self.retiled(monitor, workspace);
        changes.merge(self.focus_changes(id));
        changes
    }

    /// Lays an edited workspace out again, gives `id` the focus, and reports
    /// what came on and went off screen since `before`.
    fn reshow(
        &mut self,
        monitor: usize,
        workspace: usize,
        id: Option<WindowId>,
        before: &[WindowId],
    ) -> (r: Result<Changes>)
        ensures
            outcome(final(self)@, r) == old(self)@.reshown(
                monitor as int,
                workspace as int,
                id,
                before@,
            ),
    {
        let mut changes = self.rearrange(monitor, workspace, id);
        self.visibility_delta(before, &mut changes);
        Ok(changes)
    }

    /// Lays the focused workspace of every monitor out again.
    pub(crate) fn retile_visible(&mut self, changes: &mut Changes)
        ensures
            (final(self)@, final(changes)@) == old(self)@.retile_first(
                old(self)@.monitors.len(),
                old(changes)@,
            ),
    {
        let count = self.monitors.len();
        for monitor in 0..count
            invariant
                count == self@.monitors.len(),
                (self@, changes@) == old(self)@.retile_first(monitor as int, old(changes)@),
        {
            let workspace = match self.monitors.get(monitor) {
                Some(m) => m.focused_workspace_idx(),
                None => 0,
            };
            let retiled = self.retiled(monitor, workspace);
            changes.merge(retiled);
        }
    }

    /// Adds the windows that appeared while the manager was paused.
    ///
    /// They go to the focused workspace through [`State::add_window_to`], so
    /// the ignore, float and workspace rules still get their say.
    fn take_pending_windows(&mut self) -> (r: Changes)
        ensures
            (final(self)@, r@) == old(self)@.take_pending(),
    {
        let mut changes = Changes::none();
        let (monitor, workspace) = match self.focused_indices() {
            Ok(indices) => indices,
            Err(_) => return changes,
        };
        let mut rest: Vec<Window> = Vec::new();
        std::mem::swap(&mut rest, &mut self.pending_windows);
        let ghost all = old(self)@.pending_windows;
        let ghost start = self@;
        assert(start =~= StateView { pending_windows: Seq::empty(), ..old(self)@ });
        assert(window_views(rest@) =~= all.skip(0));
        assert(all.take(0) =~= Seq::<WindowView>::empty());
        let ghost mut taken: int = 0;
        while rest.len() > 0
            invariant
                0 <= taken <= all.len(),
                window_views(rest@) == all.skip(taken),
                (self@, changes@) == start.add_all(
                    monitor as int,
                    workspace as int,
                    all.take(taken),
                ),
            decreases rest@.len(),
        {
            let ghost before = window_views(rest@);
            let window = rest.remove(0);
            assert(window@ == before[0]);
            assert(window_views(rest@) =~= before.skip(1));
            if let Ok(added) = self.add_window_to(monitor, workspace, window) {
                changes.merge(added);
            }
            proof {
                assert(all.skip(taken)[0] == all[taken]);
                assert(all.take(taken + 1).drop_last() =~= all.take(taken));
                assert(all.skip(taken).skip(1) =~= all.skip(taken + 1));
                taken = taken + 1;
            }
        }
        assert(all.skip(taken).len() == 0);
        assert(all.take(taken) =~= all);
        changes
    }

    // -- pause --------------------------------------------------------------

    /// Turns the window manager off and on again without unmanaging anything.
    ///
    /// Unpausing retiles every visible workspace, so whatever the user did to
    /// their windows while paused is undone in one go.
    ///
    /// # Errors
    ///
    /// Never fails today; the result is there so the command surface is uniform.
    pub fn toggle_pause(&mut self) -> (r: Result<Changes>)
        ensures
            outcome(final(self)@, r) == old(self)@.toggle_pause(),
            r is Ok,
    {
        self.is_paused = !self.is_paused;
        if self.is_paused {
            return Ok(Changes::none());
        }
        self.retile()
    }

    /// Recomputes and reapplies the layout of every visible workspace.
    ///
    /// # Errors
    ///
    /// Never fails today; the result is there so the command surface is uniform.
    pub fn retile(&mut self) -> (r: Result<Changes>)
        ensures
            outcome(final(self)@, r) == old(self)@.retile(),
            r is Ok,
    {
        let mut changes = Changes::none();
        if self.is_paused {
            return Ok(changes);
        }
        let pending = self.take_pending_windows();
        changes.merge(pending);
        self.retile_visible(&mut changes);
        let mut visible = self.visible_window_ids();
        changes.show.append(&mut visible);
        changes.settle();
        Ok(changes)
    }

    /// Turns tiling off and on for the focused workspace.
    ///
    /// # Errors
    ///
    /// Returns an error when there is no focused workspace.
    pub fn toggle_tiling(&mut self) -> (r: Result<Changes>)
        ensures
            outcome(final(self)@, r) == old(self)@.toggle_tiling(),
    {
        if self.is_paused {
            return Ok(Changes::none());
        }
        let (monitor, workspace) = match self.target_indices() {
            Ok(indices) => indices,
            Err(e) => return Err(e),
        };
        let target = match self.workspace_mut(monitor, workspace) {
            Ok(target) => target,
            Err(e) => return Err(e),
        };
        target.tile = !target.tile;
        Ok(self.retiled(monitor, workspace))
    }

    // -- focus --------------------------------------------------------------

    /// Focuses the container in `direction`, crossing to the adjacent monitor
    /// when the focused container is already at the edge.
    ///
    /// # Errors
    ///
    /// Returns an error when there is no focused workspace.
    pub fn focus_direction(&mut self, direction: Direction) -> (r: Result<Changes>)
        ensures
            outcome(final(self)@, r) == old(self)@.focus_direction(direction),
    {
        if self.is_paused {
            return Ok(Changes::none());
        }
        let (monitor, workspace) = match self.target_indices() {
            Ok(indices) => indices,
            Err(e) => return Err(e),
        };
        let neighbour = match self.workspace(monitor, workspace) {
            Ok(target) => target.container_idx_in_direction(direction),
            Err(e) => return Err(e),
        };
        if let Some(idx) = neighbour {
            let target = match self.workspace_mut(monitor, workspace) {
                Ok(target) => target,
                Err(e) => return Err(e),
            };
            target.focus_container(idx);
            let id = target.focused_window_id();
            return Ok(self.focus_changes(id));
        }
        match self.monitor_idx_in_direction(direction) {
            Some(target) => self.focus_monitor(target),
            None => Ok(Changes::none()),
        }
    }

    /// Moves the focus one container along the ring, wrapping.
    ///
    /// # Errors
    ///
    /// Returns an error when there is no focused workspace.
    pub fn cycle_focus(&mut self, direction: CycleDirection) -> (r: Result<Changes>)
        ensures
            outcome(final(self)@, r) == old(self)@.cycle_focus(direction),
    {
        if self.is_paused {
            return Ok(Changes::none());
        }
        let (monitor, workspace) = match self.target_indices() {
            Ok(indices) => indices,
            Err(e) => return Err(e),
        };
        let target = match self.workspace_mut(monitor, workspace) {
            Ok(target) => target,
            Err(e) => return Err(e),
        };
        target.cycle_container_focus(direction);
        let id = target.focused_window_id();
        Ok(self.focus_changes(id))
    }

    /// Moves the focus through the windows of the focused stack, wrapping.
    ///
    /// # Errors
    ///
    /// Returns an error when there is no focused workspace.
    pub fn cycle_stack(&mut self, direction: CycleDirection) -> (r: Result<Changes>)
        ensures
            outcome(final(self)@, r) == old(self)@.cycle_stack(direction),
    {
        if self.is_paused {
            return Ok(Changes::none());
        }
        let (monitor, workspace) = match self.target_indices() {
            Ok(indices) => indices,
            Err(e) => return Err(e),
        };
        let before = self.visible_window_ids();
        let target = match self.workspace_mut(monitor, workspace) {
            Ok(target) => target,
            Err(e) => return Err(e),
        };
        let turned = match target.focused_container_mut() {
            Some(container) => container.cycle_focus(direction),
            None => None,
        };
        match turned {
            // The window the container now shows has been sitting wherever the
            // layout last left it, which for a freshly stacked window is its old
            // tile. Without the retile it comes forward in the wrong place.
            Some(id) => self.reshow(monitor, workspace, Some(id), before.as_slice()),
            None => Ok(Changes::none()),
        }
    }

    /// Points the focus at a workspace of a monitor.
    fn look_at(&mut self, monitor: usize, workspace: usize)
        requires
            monitor < old(self)@.monitors.len(),
        ensures
            final(self)@ == old(self)@.look_at(monitor as int, workspace as int),
    {
        self.monitors.focus(monitor);
        if let Some(target) = self.monitors.get_mut(monitor) {
            target.focus_workspace(workspace);
        }
    }

    /// Focuses a window the daemon saw take the foreground.
    ///
    /// A no-op while paused, like every other mutating command: this one moves
    /// the focused monitor and workspace of the model, and the retile that
    /// unpausing does would then be aimed at whichever workspace the user
    /// happened to click on in the meantime.
    ///
    /// # Errors
    ///
    /// Returns [`Error::WindowNotFound`] when the window is not managed.
    pub fn focus_window(&mut self, id: WindowId) -> (r: Result<Changes>)
        ensures
            outcome(final(self)@, r) == old(self)@.focus_window(id),
    {
        if self.is_paused {
            return Ok(Changes::none());
        }
        let (monitor, workspace) = match self.locate_window(id) {
            Some(place) => place,
            None => return Err(Error::WindowNotFound(id)),
        };
        let before = self.visible_window_ids();
        self.look_at(monitor, workspace);
        match self.workspace_mut(monitor, workspace) {
            Ok(target) => {
                target.focus_window(id);
            },
            Err(e) => return Err(e),
        }
        let mut changes = Changes::none().focus(Some(id));
        self.visibility_delta(before.as_slice(), &mut changes);
        Ok(changes)
    }

    // -- moving containers around -------------------------------------------

    /// Swaps the focused container with the one in `direction`, or moves it to
    /// the adjacent monitor when it is already at the edge.
    ///
    /// What happens at the edge is decided by
    /// [`State::cross_monitor_move_behaviour`].
    ///
    /// Does nothing when the focused window is outside the container ring; see
    /// `focus_outside_the_ring`.
    ///
    /// # Errors
    ///
    /// Returns an error when there is no focused workspace.
    pub fn move_direction(&mut self, direction: Direction) -> (r: Result<Changes>)
        ensures
            outcome(final(self)@, r) == old(self)@.move_direction(direction),
    {
        if self.is_paused {
            return Ok(Changes::none());
        }
        let (monitor, workspace) = match self.target_indices() {
            Ok(indices) => indices,
            Err(e) => return Err(e),
        };
        if self.focus_outside_the_ring(monitor, workspace) {
            return Ok(Changes::none());
        }
        let neighbour = match self.workspace(monitor, workspace) {
            Ok(target) => target.container_idx_in_direction(direction),
            Err(e) => return Err(e),
        };
        if let Some(idx) = neighbour {
            let target = match self.workspace_mut(monitor, workspace) {
                Ok(target) => target,
                Err(e) => return Err(e),
            };
            target.swap_focused_container(idx);
            let id = target.focused_window_id();
            return Ok(self.rearrange(monitor, workspace, id));
        }
        if self.cross_monitor_move_behaviour == MoveBehaviour::NoOp {
            return Ok(Changes::none());
        }
        let target = match self.monitor_idx_in_direction(direction) {
            Some(target) => target,
            None => return Ok(Changes::none()),
        };
        let target_workspace = match self.monitors.get(target) {
            Some(m) => m.focused_workspace_idx(),
            None => 0,
        };
        self.move_container_to(target, target_workspace, true, Some(direction))
    }

    /// Swaps the focused container with its neighbour in the ring, wrapping.
    ///
    /// # Errors
    ///
    /// Returns an error when there is no focused workspace.
    pub fn cycle_move(&mut self, direction: CycleDirection) -> (r: Result<Changes>)
        ensures
            outcome(final(self)@, r) == old(self)@.cycle_move(direction),
    {
        if self.is_paused {
            return Ok(Changes::none());
        }
        let (monitor, workspace) = match self.target_indices() {
            Ok(indices) => indices,
            Err(e) => return Err(e),
        };
        if self.focus_outside_the_ring(monitor, workspace) {
            return Ok(Changes::none());
        }
        let target = match self.workspace_mut(monitor, workspace) {
            Ok(target) => target,
            Err(e) => return Err(e),
        };
        target.cycle_container_move(direction);
        let id = target.focused_window_id();
        Ok(self.rearrange(monitor, workspace, id))
    }

    /// Moves the focused container to the front of the ring, where most
    /// layouts give it the biggest tile.
    ///
    /// # Errors
    ///
    /// Returns an error when there is no focused workspace.
    pub fn promote(&mut self) -> (r: Result<Changes>)
        ensures
            outcome(final(self)@, r) == old(self)@.promote(),
    {
        if self.is_paused {
            return Ok(Changes::none());
        }
        let (monitor, workspace) = match self.target_indices() {
            Ok(indices) => indices,
            Err(e) => return Err(e),
        };
        if self.focus_outside_the_ring(monitor, workspace) {
            return Ok(Changes::none());
        }
        let target = match self.workspace_mut(monitor, workspace) {
            Ok(target) => target,
            Err(e) => return Err(e),
        };
        if !target.promote_focused_container() {
            return Ok(Changes::none());
        }
        let id = target.focused_window_id();
        Ok(self.rearrange(monitor, workspace, id))
    }

    /// Focuses the container at the front of the ring.
    ///
    /// # Errors
    ///
    /// Returns an error when there is no focused workspace.
    pub fn promote_focus(&mut self) -> (r: Result<Changes>)
        ensures
            outcome(final(self)@, r) == old(self)@.promote_focus(),
    {
        if self.is_paused {
            return Ok(Changes::none());
        }
        let (monitor, workspace) = match self.target_indices() {
            Ok(indices) => indices,
            Err(e) => return Err(e),
        };
        let target = match self.workspace_mut(monitor, workspace) {
            Ok(target) => target,
            Err(e) => return Err(e),
        };
        if !target.focus_container(0) {
            return Ok(Changes::none());
        }
        let id = target.focused_window_id();
        Ok(self.focus_changes(id))
    }

    // -- stacking -----------------------------------------------------------

    /// Stacks the focused window onto the container in `direction`.
    ///
    /// # Errors
    ///
    /// Returns an error when there is no focused workspace.
    pub fn stack(&mut self, direction: Direction) -> (r: Result<Changes>)
        ensures
            outcome(final(self)@, r) == old(self)@.stack(direction),
    {
        if self.is_paused {
            return Ok(Changes::none());
        }
        let (monitor, workspace) = match self.target_indices() {
            Ok(indices) => indices,
            Err(e) => return Err(e),
        };
        if self.focus_outside_the_ring(monitor, workspace) {
            return Ok(Changes::none());
        }
        let neighbour = match self.workspace(monitor, workspace) {
            Ok(target) => target.container_idx_in_direction(direction),
            Err(e) => return Err(e),
        };
        let idx = match neighbour {
            Some(idx) => idx,
            None => return Ok(Changes::none()),
        };
        let before = self.visible_window_ids();
        let target = match self.workspace_mut(monitor, workspace) {
            Ok(target) => target,
            Err(e) => return Err(e),
        };
        if !target.stack_focused_window_into(idx) {
            return Ok(Changes::none());
        }
        let id = target.focused_window_id();
        self.reshow(monitor, workspace, id, before.as_slice())
    }

    /// Takes the focused window out of its stack into a container of its own.
    ///
    /// # Errors
    ///
    /// Returns an error when there is no focused workspace.
    pub fn unstack(&mut self) -> (r: Result<Changes>)
        ensures
            outcome(final(self)@, r) == old(self)@.unstack(),
    {
        if self.is_paused {
            return Ok(Changes::none());
        }
        let (monitor, workspace) = match self.target_indices() {
            Ok(indices) => indices,
            Err(e) => return Err(e),
        };
        if self.focus_outside_the_ring(monitor, workspace) {
            return Ok(Changes::none());
        }
        let before = self.visible_window_ids();
        let target = match self.workspace_mut(monitor, workspace) {
            Ok(target) => target,
            Err(e) => return Err(e),
        };
        if !target.unstack_focused_window() {
            return Ok(Changes::none());
        }
        let id = target.focused_window_id();
        self.reshow(monitor, workspace, id, before.as_slice())
    }

    /// Collapses every container in the focused workspace into one stack.
    ///
    /// # Errors
    ///
    /// Returns an error when there is no focused workspace.
    pub fn stack_all(&mut self) -> (r: Result<Changes>)
        ensures
            outcome(final(self)@, r) == old(self)@.stack_all(),
    {
        if self.is_paused {
            return Ok(Changes::none());
        }
        let (monitor, workspace) = match self.target_indices() {
            Ok(indices) => indices,
            Err(e) => return Err(e),
        };
        let before = self.visible_window_ids();
        let target = match self.workspace_mut(monitor, workspace) {
            Ok(target) => target,
            Err(e) => return Err(e),
        };
        if !target.stack_all() {
            return Ok(Changes::none());
        }
        let id = target.focused_window_id();
        self.reshow(monitor, workspace, id, before.as_slice())
    }

    /// Gives every stacked window in the focused workspace its own container.
    ///
    /// # Errors
    ///
    /// Returns an error when there is no focused workspace.
    pub fn unstack_all(&mut self) -> (r: Result<Changes>)
        ensures
            outcome(final(self)@, r) == old(self)@.unstack_all(),
    {
        if self.is_paused {
            return Ok(Changes::none());
        }
        let (monitor, workspace) = match self.target_indices() {
            Ok(indices) => indices,
            Err(e) => return Err(e),
        };
        let before = self.visible_window_ids();
        let target = match self.workspace_mut(monitor, workspace) {
            Ok(target) => target,
            Err(e) => return Err(e),
        };
        if !target.unstack_all() {
            return Ok(Changes::none());
        }
        let id = target.focused_window_id();
        self.reshow(monitor, workspace, id, before.as_slice())
    }

    // -- window states ------------------------------------------------------

    /// Moves the focused window between the tiled containers and the floating
    /// list.
    ///
    /// # Errors
    ///
    /// Returns an error when there is no focused workspace.
    pub fn toggle_float(&mut self) -> (r: Result<Changes>)
        ensures
            outcome(final(self)@, r) == old(self)@.toggle_float(),
    {
        if self.is_paused {
            return Ok(Changes::none());
        }
        let (monitor, workspace) = match self.target_indices() {
            Ok(indices) => indices,
            Err(e) => return Err(e),
        };
        let before = self.visible_window_ids();
        let target = match self.workspace_mut(monitor, workspace) {
            Ok(target) => target,
            Err(e) => return Err(e),
        };
        target.toggle_float();
        let id = target.focused_window_id();
        self.reshow(monitor, workspace, id, before.as_slice())
    }

    /// Blows the focused container up to fill the workspace, or puts it back.
    ///
    /// # Errors
    ///
    /// Returns an error when there is no focused workspace.
    pub fn toggle_monocle(&mut self) -> (r: Result<Changes>)
        ensures
            outcome(final(self)@, r) == old(self)@.toggle_monocle(),
    {
        if self.is_paused {
            return Ok(Changes::none());
        }
        let (monitor, workspace) = match self.target_indices() {
            Ok(indices) => indices,
            Err(e) => return Err(e),
        };
        let before = self.visible_window_ids();
        let target = match self.workspace_mut(monitor, workspace) {
            Ok(target) => target,
            Err(e) => return Err(e),
        };
        target.toggle_monocle();
        let id = target.focused_window_id();
        self.reshow(monitor, workspace, id, before.as_slice())
    }

    /// Maximizes the focused window, or restores it.
    ///
    /// Does nothing while monocle mode is on: the two modes both fill the
    /// workspace and are exclusive.
    ///
    /// # Errors
    ///
    /// Returns an error when there is no focused workspace.
    pub fn toggle_maximize(&mut self) -> (r: Result<Changes>)
        ensures
            outcome(final(self)@, r) == old(self)@.toggle_maximize(),
    {
        if self.is_paused {
            return Ok(Changes::none());
        }
        let (monitor, workspace) = match self.target_indices() {
            Ok(indices) => indices,
            Err(e) => return Err(e),
        };
        let before = self.visible_window_ids();
        let target = match self.workspace_mut(monitor, workspace) {
            Ok(target) => target,
            Err(e) => return Err(e),
        };
        let was_maximized = target.is_maximized();
        let maximized = target.toggle_maximize();
        if maximized == was_maximized {
            // Nothing happened: monocle mode refuses the maximize, and an
            // empty workspace has nothing to maximize. Falling through would
            // tell the daemon to restore a window that was never maximized.
            return Ok(Changes::none());
        }
        let id = target.focused_window_id();
        let mut changes = self.retiled(monitor, workspace);
        if maximized {
            changes.maximize = id;
        } else if let Some(id) = id {
            changes.restore.push(id);
            assert(changes@.restore =~= seq![id]);
        }
        changes.merge(self.focus_changes(id));
        self.visibility_delta(before.as_slice(), &mut changes);
        Ok(changes)
    }

    /// Minimizes the focused window and drops it from the workspace.
    ///
    /// The daemon adds it back when Windows says it was restored.
    ///
    /// # Errors
    ///
    /// Returns an error when there is no focused workspace.
    pub fn minimize_focused_window(&mut self) -> (r: Result<Changes>)
        ensures
            outcome(final(self)@, r) == old(self)@.minimize_focused_window(),
    {
        if self.is_paused {
            return Ok(Changes::none());
        }
        let (monitor, workspace) = match self.target_indices() {
            Ok(indices) => indices,
            Err(e) => return Err(e),
        };
        let before = self.visible_window_ids();
        let target = match self.workspace_mut(monitor, workspace) {
            Ok(target) => target,
            Err(e) => return Err(e),
        };
        let id = match target.focused_window_id() {
            Some(id) => id,
            None => return Ok(Changes::none()),
        };
        let was_maximized = target.is_maximized();
        target.remove_window(id);
        let mut changes = self.retiled(monitor, workspace);
        if was_maximized {
            // The model forgets the window was maximized, but Windows does
            // not: without this the user un-minimizes it and it comes back
            // filling the screen with nothing in the model saying so. The
            // daemon restores before it minimizes, so the order works out.
            changes.restore.push(id);
            assert(changes@.restore =~= seq![id]);
        }
        changes.minimize.push(id);
        assert(changes@.minimize =~= seq![id]);
        // Minimizing the visible window of a stack leaves the one underneath
        // cloaked while it holds the tile, and in monocle mode it blanks the
        // whole workspace. The delta is what brings the replacement back.
        changes.merge(self.focus_changes(self.focused_window_id()));
        self.visibility_delta(before.as_slice(), &mut changes);
        Ok(changes)
    }

    /// Asks the daemon to close the focused window.
    ///
    /// The window stays in the model until the daemon reports that it is gone.
    ///
    /// # Errors
    ///
    /// Returns an error when there is no focused workspace.
    pub fn close_focused_window(&mut self) -> (r: Result<Changes>)
        ensures
            outcome(final(self)@, r) == old(self)@.close_focused_window(),
    {
        if self.is_paused {
            return Ok(Changes::none());
        }
        let mut changes = Changes::none();
        changes.close = match self.focused_workspace() {
            Ok(workspace) => workspace.focused_window_id(),
            Err(e) => return Err(e),
        };
        Ok(changes)
    }

    // -- layouts ------------------------------------------------------------

    /// Sets the layout of the focused workspace.
    ///
    /// # Errors
    ///
    /// Returns an error when there is no focused workspace.
    pub fn change_layout(&mut self, layout: Layout) -> (r: Result<Changes>)
        ensures
            outcome(final(self)@, r) == old(self)@.change_layout(layout),
    {
        if self.is_paused {
            return Ok(Changes::none());
        }
        let (monitor, workspace) = match self.target_indices() {
            Ok(indices) => indices,
            Err(e) => return Err(e),
        };
        let target = match self.workspace_mut(monitor, workspace) {
            Ok(target) => target,
            Err(e) => return Err(e),
        };
        target.layout = layout;
        target.layout_rules.clear();
        Ok(self.retiled(monitor, workspace))
    }

    /// Moves the focused workspace to the next or previous layout.
    ///
    /// # Errors
    ///
    /// Returns an error when there is no focused workspace.
    pub fn cycle_layout(&mut self, direction: CycleDirection) -> (r: Result<Changes>)
        ensures
            outcome(final(self)@, r) == old(self)@.cycle_layout(direction),
    {
        let next = match self.focused_workspace() {
            Ok(workspace) => workspace.layout.cycle(direction),
            Err(e) => return Err(e),
        };
        self.change_layout(next)
    }

    /// Mirrors the focused workspace's layout on `axis`.
    ///
    /// # Errors
    ///
    /// Returns an error when there is no focused workspace.
    pub fn flip_layout(&mut self, axis: Axis) -> (r: Result<Changes>)
        ensures
            outcome(final(self)@, r) == old(self)@.flip_layout(axis),
    {
        if self.is_paused {
            return Ok(Changes::none());
        }
        let (monitor, workspace) = match self.target_indices() {
            Ok(indices) => indices,
            Err(e) => return Err(e),
        };
        let target = match self.workspace_mut(monitor, workspace) {
            Ok(target) => target,
            Err(e) => return Err(e),
        };
        target.layout_flip = target.layout_flip.toggled(axis);
        Ok(self.retiled(monitor, workspace))
    }
    /// Grows or shrinks the focused container along `axis`.
    ///
    /// Tries the container's far edge first and its near edge second, so the
    /// command does something sensible whichever side of the layout the
    /// container happens to sit on. The near edge is only for a container with
    /// no boundary on its far side: a far edge the clamp refuses stays the one
    /// the command works on, so the same number of presses back always lands
    /// on the layout it started from. A resize that the clamps refuse leaves
    /// the layout untouched.
    ///
    /// # Errors
    ///
    /// Returns an error when there is no focused workspace or no container.
    pub fn resize_axis(&mut self, axis: Axis, sizing: Sizing) -> (r: Result<Changes>)
        ensures
            outcome(final(self)@, r) == old(self)@.resize_axis(axis, sizing),
    {
        if self.is_paused {
            return Ok(Changes::none());
        }
        let (monitor, workspace) = match self.target_indices() {
            Ok(indices) => indices,
            Err(e) => return Err(e),
        };
        if self.focus_outside_the_ring(monitor, workspace) {
            return Ok(Changes::none());
        }
        let delta: i64 = sizing.signed(self.resize_delta) as i64;
        let work_area = match self.work_area_for(monitor, workspace) {
            Some(work_area) => work_area,
            None => return Err(Error::MonitorNotFound(monitor)),
        };
        let frame = Frame {
            work_area,
            workspace_padding: self.default_workspace_padding,
            container_padding: self.default_container_padding,
            scale: self.padding_scale(monitor),
        };
        let target = match self.workspace_mut(monitor, workspace) {
            Ok(target) => target,
            Err(e) => return Err(e),
        };
        if target.containers().is_empty() {
            return Err(Error::NoFocusedContainer);
        }
        let idx = target.focused_container_idx();
        let ghost handed = target@;
        frame.lay(target);
        let ghost bench = frame.bench(target@);
        let original = target.resize_dimension(idx);
        let before = target.rect_of_container(idx);
        let start = match original {
            Some(delta) => delta,
            None => Rect::new(0, 0, 0, 0),
        };
        proof {
            laying_out_twice_is_once(frame.bench(handed));
            assert(bench == old(self)@.bench(monitor as int, workspace as int, handed));
        }
        let far = nudged(start, axis, true, delta);
        frame.lay_with(target, idx, Some(far));
        if target.rect_of_container(idx) != before {
            // The step is stored the size it was asked for, even when the
            // clamp could only grant part of it. Storing what the boundary
            // really did instead throws the rest of the step away, and
            // then the same number of presses back lands short of where
            // the layout started: leaning on the key drifts. The stored
            // delta still cannot run away, because a press that moves
            // nothing at all is not stored at all, so it stays within one
            // delta of what the clamp allows.
            return Ok(Changes::none().retile(monitor, workspace));
        }
        // Nothing moved. Either this edge is no boundary at all and the
        // container sits at that side of the layout, or the clamp refuses
        // this direction. Pushing the other way tells the two apart, and
        // only the first is worth falling back to the near edge for: a
        // container grown from both sides cannot be shrunk back by the
        // same number of presses, because every one of them comes off
        // whichever edge is tried first.
        let probe = nudged(start, axis, true, -delta);
        proof {
            only_the_last_delta_counts(bench, Some(far), Some(probe));
            only_the_last_delta_counts(bench, Some(probe), original);
        }
        frame.lay_with(target, idx, Some(probe));
        if target.rect_of_container(idx) == before {
            let near = nudged(start, axis, false, delta);
            proof {
                only_the_last_delta_counts(bench, Some(probe), Some(near));
                only_the_last_delta_counts(bench, Some(near), original);
            }
            frame.lay_with(target, idx, Some(near));
            if target.rect_of_container(idx) != before {
                return Ok(Changes::none().retile(monitor, workspace));
            }
        }
        frame.lay_with(target, idx, original);
        Ok(Changes::none())
    }

    /// Grows or shrinks the focused container by moving the edge it names.
    ///
    /// [`State::resize_axis`] picks the edge itself, which is the right thing
    /// on a layout where only one of the two is a boundary. This one moves the
    /// edge it was given and nothing else, so a binding per edge does what the
    /// key it sits under looks like it does. A resize that the clamps refuse
    /// leaves the layout untouched, exactly as on the axis command.
    ///
    /// # Errors
    ///
    /// Returns an error when there is no focused workspace or no container.
    pub fn resize_edge(&mut self, direction: Direction, sizing: Sizing) -> (r: Result<Changes>)
        ensures
            outcome(final(self)@, r) == old(self)@.resize_edge(direction, sizing),
    {
        if self.is_paused {
            return Ok(Changes::none());
        }
        let (monitor, workspace) = match self.target_indices() {
            Ok(indices) => indices,
            Err(e) => return Err(e),
        };
        if self.focus_outside_the_ring(monitor, workspace) {
            return Ok(Changes::none());
        }
        let delta: i64 = sizing.signed(self.resize_delta) as i64;
        let work_area = match self.work_area_for(monitor, workspace) {
            Some(work_area) => work_area,
            None => return Err(Error::MonitorNotFound(monitor)),
        };
        let frame = Frame {
            work_area,
            workspace_padding: self.default_workspace_padding,
            container_padding: self.default_container_padding,
            scale: self.padding_scale(monitor),
        };
        let target = match self.workspace_mut(monitor, workspace) {
            Ok(target) => target,
            Err(e) => return Err(e),
        };
        if target.containers().is_empty() {
            return Err(Error::NoFocusedContainer);
        }
        let idx = target.focused_container_idx();
        let ghost handed = target@;
        frame.lay(target);
        let ghost bench = frame.bench(target@);
        let original = target.resize_dimension(idx);
        let before = target.rect_of_container(idx);
        let start = match original {
            Some(delta) => delta,
            None => Rect::new(0, 0, 0, 0),
        };
        proof {
            laying_out_twice_is_once(frame.bench(handed));
            assert(bench == old(self)@.bench(monitor as int, workspace as int, handed));
        }
        // Right and down are the far edges of their axis; left and up are the
        // near ones, which `nudged` already counts the other way round so that
        // `increase` always grows the container.
        let (axis, far_edge) = match direction {
            Direction::Left => (Axis::Horizontal, false),
            Direction::Right => (Axis::Horizontal, true),
            Direction::Up => (Axis::Vertical, false),
            Direction::Down => (Axis::Vertical, true),
        };
        let next = nudged(start, axis, far_edge, delta);
        proof {
            only_the_last_delta_counts(bench, Some(next), original);
        }
        frame.lay_with(target, idx, Some(next));
        if target.rect_of_container(idx) != before {
            // Stored as asked for rather than as granted, for the reason
            // `resize_axis` spells out: anything else drifts under a held key.
            return Ok(Changes::none().retile(monitor, workspace));
        }
        // That edge is no boundary, or the clamp refused. Either way there is
        // no second edge to fall back to: this command was given one.
        frame.lay_with(target, idx, original);
        Ok(Changes::none())
    }

    // -- workspaces ---------------------------------------------------------

    /// Focuses a workspace on the focused monitor, creating it if needed.
    ///
    /// # Errors
    ///
    /// Returns [`Error::WorkspaceIndexOutOfRange`] past
    /// [`crate::MAX_WORKSPACES`], or an error when there is no monitor.
    pub fn focus_workspace(&mut self, idx: usize) -> (r: Result<Changes>)
        ensures
            outcome(final(self)@, r) == old(self)@.focus_workspace(idx as int),
    {
        if self.is_paused {
            return Ok(Changes::none());
        }
        let monitor = self.focused_monitor_idx();
        if let Err(e) = self.check_workspace_idx_on(monitor, idx) {
            return Err(e);
        }
        let before = self.visible_window_ids();
        match self.focused_monitor_mut() {
            Ok(target) => {
                target.ensure_workspaces(idx + 1);
                target.focus_workspace(idx);
            },
            Err(e) => return Err(e),
        }
        let mut changes = self.retiled(monitor, idx);
        self.visibility_delta(before.as_slice(), &mut changes);
        changes.merge(self.focus_changes(self.focused_window_id()));
        Ok(changes)
    }

    /// Goes back to the workspace that was focused before this one.
    ///
    /// # Errors
    ///
    /// Returns an error when there is no monitor.
    pub fn focus_last_workspace(&mut self) -> (r: Result<Changes>)
        ensures
            outcome(final(self)@, r) == old(self)@.focus_last_workspace(),
    {
        if self.is_paused {
            return Ok(Changes::none());
        }
        let last = match self.focused_monitor() {
            Ok(monitor) => monitor.last_focused_workspace,
            Err(e) => return Err(e),
        };
        match last {
            Some(last) => self.focus_workspace(last),
            None => Ok(Changes::none()),
        }
    }

    /// Focuses the next or previous workspace on the focused monitor.
    ///
    /// # Errors
    ///
    /// Returns an error when there is no monitor.
    pub fn cycle_workspace(&mut self, direction: CycleDirection) -> (r: Result<Changes>)
        ensures
            outcome(final(self)@, r) == old(self)@.cycle_workspace(direction),
    {
        if self.is_paused {
            return Ok(Changes::none());
        }
        let next = match self.focused_monitor() {
            Ok(monitor) => monitor.workspaces.next_idx(direction),
            Err(e) => return Err(e),
        };
        match next {
            Some(idx) => self.focus_workspace(idx),
            None => Ok(Changes::none()),
        }
    }

    /// Moves the focused container to another workspace on the same monitor.
    ///
    /// # Errors
    ///
    /// Returns [`Error::WorkspaceIndexOutOfRange`] past
    /// [`crate::MAX_WORKSPACES`], or an error when there is no workspace.
    pub fn move_to_workspace(&mut self, idx: usize, follow: bool) -> (r: Result<Changes>)
        ensures
            outcome(final(self)@, r) == old(self)@.move_to_workspace(idx as int, follow),
    {
        if self.is_paused {
            return Ok(Changes::none());
        }
        let monitor = self.focused_monitor_idx();
        if let Err(e) = self.check_workspace_idx_on(monitor, idx) {
            return Err(e);
        }
        match self.focused_monitor_mut() {
            Ok(target) => {
                target.ensure_workspaces(idx + 1);
            },
            Err(e) => return Err(e),
        }
        self.move_focused_container(monitor, idx, follow)
    }

    /// Where the workspace with this name is, searching every monitor.
    ///
    /// The search starts at the focused monitor so that a name used on more
    /// than one screen resolves to the one in front of you, which is the one
    /// you meant. Names are compared case insensitively: a name is typed at a
    /// keyboard, not parsed.
    #[must_use]
    pub fn named_workspace(&self, name: &str) -> (r: Option<(usize, usize)>)
        ensures
            match r {
                Some((m, w)) => self@.named_workspace(name@) == Some((m as int, w as int)),
                None => self@.named_workspace(name@) is None,
            },
    {
        let count = self.monitors.len();
        let first = self.monitors.focused_idx();
        let ghost order = self@.from_focus_on();
        for step in 0..count
            invariant
                count == self@.monitors.len(),
                count > 0 ==> first < count,
                first == self@.monitors.focused,
                order == self@.from_focus_on(),
                forall|j: int| 0 <= j < step ==> !has_named(name@)(#[trigger] order[j]),
        {
            let monitor = wrapped(first, step, count);
            if let Some(m) = self.monitors.get(monitor) {
                assert(order[step as int] == m@);
                if let Some(idx) = named_workspace_on(m, name) {
                    proof {
                        first_is(order, has_named(name@), step as int);
                    }
                    return Some((monitor, idx));
                }
            }
        }
        proof {
            first_is_none(order, has_named(name@));
        }
        None
    }

    /// Focuses the workspace with this name, wherever it is.
    ///
    /// # Errors
    ///
    /// Returns [`Error::WorkspaceNameNotFound`] when no workspace carries it.
    pub fn focus_named_workspace(&mut self, name: &str) -> (r: Result<Changes>)
        ensures
            outcome(final(self)@, r) == old(self)@.focus_named_workspace(name@),
    {
        if self.is_paused {
            return Ok(Changes::none());
        }
        let (monitor, workspace) = match self.named_workspace(name) {
            Some(place) => place,
            None => return Err(Error::WorkspaceNameNotFound(owned(name))),
        };
        let mut changes = match self.focus_monitor(monitor) {
            Ok(changes) => changes,
            Err(e) => return Err(e),
        };
        match self.focus_workspace(workspace) {
            Ok(more) => changes.merge(more),
            Err(e) => return Err(e),
        }
        Ok(changes)
    }

    /// Moves the focused container to the workspace with this name.
    ///
    /// # Errors
    ///
    /// Returns [`Error::WorkspaceNameNotFound`] when no workspace carries it.
    pub fn move_to_named_workspace(&mut self, name: &str, follow: bool) -> (r: Result<Changes>)
        ensures
            outcome(final(self)@, r) == old(self)@.move_to_named_workspace(name@, follow),
    {
        if self.is_paused {
            return Ok(Changes::none());
        }
        match self.named_workspace(name) {
            Some((monitor, workspace)) => self.move_focused_container(monitor, workspace, follow),
            None => Err(Error::WorkspaceNameNotFound(owned(name))),
        }
    }

    // -- monitors -----------------------------------------------------------

    /// Focuses another monitor.
    ///
    /// # Errors
    ///
    /// Returns [`Error::MonitorNotFound`] for an index that does not exist.
    pub fn focus_monitor(&mut self, idx: usize) -> (r: Result<Changes>)
        ensures
            outcome(final(self)@, r) == old(self)@.focus_monitor(idx as int),
    {
        if self.is_paused {
            return Ok(Changes::none());
        }
        if idx >= self.monitors.len() {
            return Err(Error::MonitorNotFound(idx));
        }
        let previous = self.focused_monitor_idx();
        self.monitors.focus(idx);
        let mut changes = self.focus_changes(self.focused_window_id());
        changes.focused_monitor_changed = previous != idx;
        Ok(changes)
    }

    /// Focuses the next or previous monitor.
    ///
    /// # Errors
    ///
    /// Returns [`Error::NoFocusedMonitor`] when there is no monitor.
    pub fn cycle_monitor(&mut self, direction: CycleDirection) -> (r: Result<Changes>)
        ensures
            outcome(final(self)@, r) == old(self)@.cycle_monitor(direction),
    {
        if self.is_paused {
            return Ok(Changes::none());
        }
        match self.monitors.next_idx(direction) {
            Some(idx) => self.focus_monitor(idx),
            None => Err(Error::NoFocusedMonitor),
        }
    }

    /// Moves the focused container to the focused workspace of another monitor.
    ///
    /// # Errors
    ///
    /// Returns [`Error::MonitorNotFound`] for an index that does not exist.
    pub fn move_to_monitor(&mut self, idx: usize, follow: bool) -> (r: Result<Changes>)
        ensures
            outcome(final(self)@, r) == old(self)@.move_to_monitor(idx as int, follow),
    {
        if self.is_paused {
            return Ok(Changes::none());
        }
        let workspace = match self.monitors.get(idx) {
            Some(monitor) => monitor.focused_workspace_idx(),
            None => return Err(Error::MonitorNotFound(idx)),
        };
        self.move_focused_container(idx, workspace, follow)
    }

    /// Moves the focused container to any workspace on any monitor.
    ///
    /// Honours [`State::cross_monitor_move_behaviour`] when the destination is
    /// on another monitor: `Swap` trades places with whatever is focused at the
    /// destination, `Insert` slots the container in next to it. A move to
    /// another workspace of the same monitor never swaps, whatever the setting
    /// says, because the setting is about monitor edges.
    ///
    /// Does nothing when the focused window is outside the container ring; see
    /// `focus_outside_the_ring`.
    ///
    /// # Errors
    ///
    /// Returns an error when either end does not exist.
    pub fn move_focused_container(
        &mut self,
        to_monitor: usize,
        to_workspace: usize,
        follow: bool,
    ) -> (r: Result<Changes>)
        ensures
            outcome(final(self)@, r) == old(self)@.move_container_to(
                to_monitor as int,
                to_workspace as int,
                follow,
                None,
            ),
    {
        self.move_container_to(to_monitor, to_workspace, follow, None)
    }

    /// Takes the focused container out of one workspace and puts it into
    /// another, which may hand its own focused container back.
    fn transfer(
        &mut self,
        from: (usize, usize),
        to: (usize, usize),
        entering_from: Option<Direction>,
    ) -> (r: bool)
        requires
            from != to,
            old(self)@.workspace(from.0 as int, from.1 as int) is Ok,
            old(self)@.workspace(to.0 as int, to.1 as int) is Ok,
        ensures
            r == (old(self)@.workspace(from.0 as int, from.1 as int)->Ok_0.containers.len() > 0),
            !r ==> final(self)@ == old(self)@.with_workspace(
                from.0 as int,
                from.1 as int,
                old(self)@.stamped(old(self)@.workspace(from.0 as int, from.1 as int)->Ok_0),
            ),
            r ==> final(self)@ == old(self)@.transferred(
                (from.0 as int, from.1 as int),
                (to.0 as int, to.1 as int),
                entering_from,
            ),
    {
        let swapping = self.cross_monitor_move_behaviour == MoveBehaviour::Swap && to.0 != from.0;
        let source = match self.workspace_mut(from.0, from.1) {
            Ok(source) => source,
            Err(_) => return false,
        };
        let source_idx = source.focused_container_idx();
        let ghost before = source@;
        let container = match source.remove_focused_container() {
            Some(container) => container,
            None => {
                assert(before.remove_container(before.containers.focused) == before);
                return false;
            },
        };
        let destination = match self.workspace_mut(to.0, to.1) {
            Ok(destination) => destination,
            Err(_) => return false,
        };
        // The slot the container is going into has to be read before the
        // container that may be swapped out of it is removed, or the moved
        // container lands one place short of where it should.
        let at = match entering_from {
            Some(direction) => {
                if swapping {
                    destination.focused_container_idx()
                } else if direction.is_forward() {
                    0
                } else {
                    destination.containers().len()
                }
            },
            None => destination.focused_container_idx(),
        };
        let swap_back = if swapping {
            destination.remove_focused_container()
        } else {
            None
        };
        destination.insert_container(at, container);
        if let Some(container) = swap_back {
            if let Ok(source) = self.workspace_mut(from.0, from.1) {
                source.insert_container(source_idx, container);
            }
        }
        true
    }

    /// The body of [`State::move_focused_container`].
    ///
    /// `entering_from` is the direction the container is travelling in when the
    /// move came from [`State::move_direction`] crossing a monitor edge. It
    /// decides which end of the destination ring an inserted container joins:
    /// a container travelling right or down enters through the near edge of
    /// the next monitor and goes to the front, one travelling left or up
    /// enters through the far edge and goes to the back. Without a direction
    /// the container lands next to whatever is focused at the destination.
    fn move_container_to(
        &mut self,
        to_monitor: usize,
        to_workspace: usize,
        follow: bool,
        entering_from: Option<Direction>,
    ) -> (r: Result<Changes>)
        ensures
            outcome(final(self)@, r) == old(self)@.move_container_to(
                to_monitor as int,
                to_workspace as int,
                follow,
                entering_from,
            ),
    {
        if self.is_paused {
            return Ok(Changes::none());
        }
        let (from_monitor, from_workspace) = match self.focused_indices() {
            Ok(indices) => indices,
            Err(e) => return Err(e),
        };
        if from_monitor == to_monitor && from_workspace == to_workspace {
            return Ok(Changes::none());
        }
        if self.focus_outside_the_ring(from_monitor, from_workspace) {
            return Ok(Changes::none());
        }
        // Make sure the destination exists before anything is taken apart.
        if let Err(e) = self.workspace(to_monitor, to_workspace) {
            return Err(e);
        }
        if let Err(e) = self.workspace(from_monitor, from_workspace) {
            return Err(e);
        }
        let before = self.visible_window_ids();
        if !self.transfer(
            (from_monitor, from_workspace),
            (to_monitor, to_workspace),
            entering_from,
        ) {
            return Ok(Changes::none());
        }
        let mut changes = self.retiled(from_monitor, from_workspace);
        let retiled = self.retiled(to_monitor, to_workspace);
        changes.merge(retiled);
        if follow {
            self.look_at(to_monitor, to_workspace);
        }
        // The window that has the focus now, which is not the moved one when
        // the destination keeps a maximized or monocled window in front of it.
        changes.merge(self.focus_changes(self.focused_window_id()));
        changes.focused_monitor_changed = follow && from_monitor != to_monitor;
        self.visibility_delta(before.as_slice(), &mut changes);
        Ok(changes)
    }

    // -- window lifecycle ---------------------------------------------------

    /// Adds a new window to the focused workspace, obeying the rules.
    ///
    /// Returns an empty change set for a window an ignore rule matches. The
    /// daemon routes a window to a specific workspace with
    /// [`State::add_window_to`] instead.
    ///
    /// # Errors
    ///
    /// Returns an error when there is no focused workspace.
    pub fn add_window(&mut self, window: Window) -> (r: Result<Changes>)
        ensures
            outcome(final(self)@, r) == old(self)@.add_window(window@),
    {
        match self.focused_indices() {
            Ok((monitor, workspace)) => self.add_window_to(monitor, workspace, window),
            Err(e) => Err(e),
        }
    }

    /// The position of a window among the pending ones.
    fn pending_idx(&self, id: WindowId) -> (r: Option<usize>)
        ensures
            index_opt(r) == first_idx(self@.pending_windows, has_id(id)),
            r is Some == any(self@.pending_windows, has_id(id)),
            r matches Some(idx) ==> idx < self.pending_windows@.len(),
    {
        for idx in 0..self.pending_windows.len()
            invariant
                forall|j: int| 0 <= j < idx ==> !has_id(id)(#[trigger] self@.pending_windows[j]),
        {
            assert(self@.pending_windows[idx as int] == self.pending_windows@[idx as int]@);
            if self.pending_windows[idx].id == id {
                proof {
                    first_is(self@.pending_windows, has_id(id), idx as int);
                }
                return Some(idx);
            }
        }
        proof {
            first_is_none(self@.pending_windows, has_id(id));
        }
        None
    }

    /// Adds a new window to a specific workspace, obeying the rules.
    ///
    /// # Errors
    ///
    /// Returns an error when the workspace does not exist.
    pub fn add_window_to(&mut self, monitor: usize, workspace: usize, window: Window) -> (r: Result<
        Changes,
    >)
        ensures
            outcome(final(self)@, r) == old(self)@.add_window_to(
                monitor as int,
                workspace as int,
                window@,
            ),
    {
        let decision = self.rules.decide(&window.info());
        if decision == RuleDecision::Ignore {
            return Ok(Changes::none());
        }
        let id = window.id;
        if self.is_paused {
            // Nothing may move while the manager is paused, but a window that
            // is forgotten here would never be tiled at all, so it waits.
            if !self.is_managed(id) && self.pending_idx(id).is_none() {
                self.pending_windows.push(window);
                assert(self@.pending_windows =~= old(self)@.pending_windows.push(window@));
            }
            return Ok(Changes::none());
        }
        if self.is_managed(id) {
            return self.focus_window(id);
        }
        let before = self.visible_window_ids();
        let stack_it = self.window_container_behaviour == WindowContainerBehaviour::Append;
        let float_override = self.float_override;
        let target = match self.workspace_mut(monitor, workspace) {
            Ok(target) => target,
            Err(e) => return Err(e),
        };
        if decision == RuleDecision::Float || float_override || target.float_override {
            target.add_floating_window(window);
        } else if stack_it && !target.containers().is_empty() {
            if let Some(container) = target.focused_container_mut() {
                container.add_window(window);
            }
        } else {
            let at = if target.containers().is_empty() {
                0
            } else {
                target.focused_container_idx() + 1
            };
            target.insert_window(at, window);
        }
        let mut changes = self.retiled(monitor, workspace);
        // A window that opens on a workspace nobody is looking at, or behind a
        // monocle, has to be taken off screen: it is on screen right now
        // because Windows just created it, and it is not in `before`, so the
        // visibility delta alone would leave it there. It does not get the
        // foreground either, for the same reason.
        let visible = self.visible_window_ids();
        if has_handle(visible.as_slice(), id) {
            changes.merge(self.focus_changes(Some(id)));
        } else {
            changes.hide.push(id);
            assert(changes@.hide =~= seq![id]);
        }
        self.visibility_delta(before.as_slice(), &mut changes);
        Ok(changes)
    }

    /// Drops a window that is gone from wherever it was.
    ///
    /// Works while paused, because a destroyed window must never stay in the
    /// model.
    ///
    /// # Errors
    ///
    /// Returns [`Error::WindowNotFound`] when the window was not managed.
    pub fn remove_window(&mut self, id: WindowId) -> (r: Result<Changes>)
        ensures
            outcome(final(self)@, r) == old(self)@.remove_window(id),
    {
        if let Some(idx) = self.pending_idx(id) {
            self.pending_windows.remove(idx);
            assert(self@.pending_windows =~= old(self)@.pending_windows.remove(idx as int));
            return Ok(Changes::none());
        }
        let (monitor, workspace) = match self.locate_window(id) {
            Some(place) => place,
            None => return Err(Error::WindowNotFound(id)),
        };
        let before = self.visible_window_ids();
        match self.workspace_mut(monitor, workspace) {
            Ok(target) => {
                target.remove_window(id);
            },
            Err(e) => return Err(e),
        }
        if self.is_paused {
            return Ok(Changes::none());
        }
        let mut changes = self.retiled(monitor, workspace);
        proof {
            self.monitors.view_of_items();
        }
        match self.focused_indices() {
            Ok((m, w)) => {
                if m == monitor && w == workspace {
                    changes.merge(self.focus_changes(self.focused_window_id()));
                }
            },
            Err(e) => return Err(e),
        }
        self.visibility_delta(before.as_slice(), &mut changes);
        Ok(changes)
    }

    /// Moves a managed window into the floating list of its workspace.
    ///
    /// # Errors
    ///
    /// Returns [`Error::WindowNotFound`] when the window is not managed.
    pub fn float_window(&mut self, id: WindowId) -> (r: Result<Changes>)
        ensures
            outcome(final(self)@, r) == old(self)@.float_window(id),
    {
        if self.is_paused {
            return Ok(Changes::none());
        }
        let (monitor, workspace) = match self.locate_window(id) {
            Some(place) => place,
            None => return Err(Error::WindowNotFound(id)),
        };
        let before = self.visible_window_ids();
        let target = match self.workspace_mut(monitor, workspace) {
            Ok(target) => target,
            Err(e) => return Err(e),
        };
        let was_maximized = match target.maximized_window() {
            Some(window) => window.id == id,
            None => false,
        };
        proof {
            target@.window_is_somewhere(id);
            old(self)@.workspace(monitor as int, workspace as int)->Ok_0.window_is_somewhere(id);
            target@.a_held_window_can_be_taken(id);
        }
        if !target.float_window(id) {
            return Ok(Changes::none());
        }
        let mut changes = self.retiled(monitor, workspace);
        if was_maximized {
            // Floating drops the maximized state from the model; the real
            // window stays SW_SHOWMAXIMIZED unless it is restored here, and a
            // maximized window ignores the rectangle the layout gives it.
            changes.restore.push(id);
            assert(changes@.restore =~= seq![id]);
        }
        self.visibility_delta(before.as_slice(), &mut changes);
        Ok(changes)
    }

    /// The container of the focused workspace of a monitor whose tile is under
    /// a point on the virtual desktop.
    #[must_use]
    pub fn container_at_point(&self, monitor: usize, x: i32, y: i32) -> (r: Option<usize>)
        ensures
            index_opt(r) == self@.container_at_point(monitor as int, x, y),
    {
        let workspace = match self.monitors.get(monitor) {
            Some(m) => match m.focused_workspace() {
                Some(workspace) => workspace,
                None => return None,
            },
            None => return None,
        };
        let rects = workspace.latest_layout();
        for idx in 0..rects.len()
            invariant
                self@.container_at_point(monitor as int, x, y) == first_idx(
                    rects@,
                    is_under(x, y),
                ),
                forall|j: int| 0 <= j < idx ==> !is_under(x, y)(#[trigger] rects@[j]),
        {
            if rects[idx].contains(x, y) {
                proof {
                    first_is(rects@, is_under(x, y), idx as int);
                }
                return Some(idx);
            }
        }
        proof {
            first_is_none(rects@, is_under(x, y));
        }
        None
    }

    /// Drops a tiled window at a point on the virtual desktop.
    ///
    /// This is the model half of drag and drop: the daemon notices the user
    /// let go of a managed window, hands the cursor position over, and applies
    /// the returned [`Changes`]. The retile in them is what snaps the dragged
    /// window back into a tile, so a drop that lands nowhere useful still
    /// returns one.
    ///
    /// - Dropped on another container of the same monitor, the two containers
    ///   swap places and the dragged one keeps the focus.
    /// - Dropped on its own tile, or on nothing at all, only the retile comes
    ///   back and the window snaps home.
    /// - Dropped on another monitor, the container moves to the focused
    ///   workspace of that monitor and is inserted at the container it landed
    ///   on, or appended when it landed on free space. The destination monitor
    ///   and its new container take the focus, since that is where the cursor
    ///   now is.
    /// - A floating window is left where the user dropped it: nothing moves
    ///   and the change set is empty.
    ///
    /// # Errors
    ///
    /// Returns [`Error::WindowNotFound`] when the window is not managed.
    pub fn swap_window_at_point(&mut self, window: WindowId, x: i32, y: i32) -> (r: Result<Changes>)
        ensures
            outcome(final(self)@, r) == old(self)@.swap_window_at_point(window, x, y),
    {
        if self.is_paused {
            return Ok(Changes::none());
        }
        let (monitor, workspace) = match self.locate_window(window) {
            Some(place) => place,
            None => return Err(Error::WindowNotFound(window)),
        };
        let from = match self.workspace(monitor, workspace) {
            Ok(target) => match target.container_idx_for_window(window) {
                Some(from) => from,
                // A floating window was never in a tile, so there is nothing to
                // swap it with and nothing to snap it back to.
                None => return Ok(Changes::none()),
            },
            Err(e) => return Err(e),
        };
        let snap_back = self.retiled(monitor, workspace);
        let to = match self.monitor_idx_at(x, y) {
            Some(to) => to,
            None => return Ok(snap_back),
        };
        let hit = self.container_at_point(to, x, y);
        if to == monitor {
            self.swap_on(monitor, workspace, from, hit)
        } else {
            self.drop_on(monitor, workspace, from, to, hit)
        }
    }

    /// Drops a container on the monitor it is on.
    fn swap_on(&mut self, monitor: usize, workspace: usize, from: usize, hit: Option<usize>) -> (r:
        Result<Changes>)
        requires
            old(self)@.workspace(monitor as int, workspace as int) is Ok,
            from < old(self)@.workspace(monitor as int, workspace as int)->Ok_0.containers.len(),
        ensures
            outcome(final(self)@, r) == old(self)@.swapped_on(
                monitor as int,
                workspace as int,
                from as int,
                index_opt(hit),
            ),
    {
        let snap_back = Changes::none().retile(monitor, workspace);
        // Only a drop on the workspace the window is on can swap: the
        // hit test ran against the focused workspace of this monitor.
        let focused = match self.monitors.get(monitor) {
            Some(m) => m.focused_workspace_idx(),
            None => workspace,
        };
        let target = match hit {
            Some(target) => target,
            None => return Ok(snap_back),
        };
        if focused != workspace || target == from {
            return Ok(snap_back);
        }
        let swapped = match self.workspace_mut(monitor, workspace) {
            Ok(edited) => {
                edited.focus_container(from);
                edited.swap_focused_container(target)
            },
            Err(e) => return Err(e),
        };
        if !swapped {
            return Ok(snap_back);
        }
        Ok(self.retiled(monitor, workspace))
    }

    /// Drops a container on another monitor.
    fn drop_on(
        &mut self,
        monitor: usize,
        workspace: usize,
        from: usize,
        to: usize,
        hit: Option<usize>,
    ) -> (r: Result<Changes>)
        requires
            old(self)@.workspace(monitor as int, workspace as int) is Ok,
            from < old(self)@.workspace(monitor as int, workspace as int)->Ok_0.containers.len(),
            to < old(self)@.monitors.len(),
            to != monitor,
        ensures
            outcome(final(self)@, r) == old(self)@.dropped_on(
                (monitor as int, workspace as int),
                from as int,
                to as int,
                index_opt(hit),
            ),
    {
        let to_workspace = match self.monitors.get(to) {
            Some(m) => m.focused_workspace_idx(),
            None => return Err(Error::MonitorNotFound(to)),
        };
        let before = self.visible_window_ids();
        let source = match self.workspace_mut(monitor, workspace) {
            Ok(source) => source,
            Err(e) => return Err(e),
        };
        source.focus_container(from);
        let container = match source.remove_focused_container() {
            Some(container) => container,
            None => return Ok(Changes::none().retile(monitor, workspace)),
        };
        let destination = match self.workspace_mut(to, to_workspace) {
            Ok(destination) => destination,
            Err(e) => return Err(e),
        };
        let len = destination.containers().len();
        let at = match hit {
            Some(idx) => if idx < len {
                idx
            } else {
                len
            },
            None => len,
        };
        destination.insert_container(at, container);
        let mut changes = self.retiled(monitor, workspace);
        let retiled = self.retiled(to, to_workspace);
        changes.merge(retiled);
        self.monitors.focus(to);
        changes.focused_monitor_changed = true;
        self.visibility_delta(before.as_slice(), &mut changes);
        Ok(changes)
    }

    /// The container the focused window sits in, as a value the daemon can
    /// hand to a stackbar.
    #[must_use]
    pub fn focused_container(&self) -> (r: Option<&Container>)
        ensures
            match r {
                Some(c) => self@.focused_workspace() is Ok
                    && self@.focused_workspace()->Ok_0.containers.current() == Some(c@),
                None => self@.focused_workspace() is Err
                    || self@.focused_workspace()->Ok_0.containers.current() is None,
            },
    {
        match self.focused_workspace() {
            Ok(workspace) => workspace.focused_container(),
            Err(_) => None,
        }
    }
}

/// The index `step` places from `first`, wrapping.
fn wrapped(first: usize, step: usize, count: usize) -> (r: usize)
    requires
        first < count,
        step < count,
    ensures
        r == (first + step) % count as int,
        r < count,
{
    if step < count - first {
        assert((first + step) % count as int == first + step) by (nonlinear_arith)
            requires
                0 <= first + step < count,
        ;
        first + step
    } else {
        let r = step - (count - first);
        assert((first + step) % count as int == r) by (nonlinear_arith)
            requires
                first + step == r + count,
                0 <= r < count,
        ;
        r
    }
}

/// The index of the workspace with that name on one monitor.
fn named_workspace_on(monitor: &Monitor, name: &str) -> (r: Option<usize>)
    ensures
        index_opt(r) == named_on(monitor@, name@),
{
    let elements = monitor.workspaces.elements();
    proof {
        monitor.workspaces.view_of_items();
    }
    for idx in 0..elements.len()
        invariant
            elements@.map_values(|t: Workspace| t@) == monitor@.workspaces.elements,
            elements@.len() == monitor@.workspaces.elements.len(),
            forall|j: int|
                0 <= j < idx ==> !is_named(name@)(#[trigger] monitor@.workspaces.elements[j]),
    {
        assert(monitor@.workspaces.elements[idx as int] == elements@[idx as int]@);
        if let Some(candidate) = &elements[idx].name {
            if same_ignoring_case(candidate.as_str(), name) {
                proof {
                    first_is(monitor@.workspaces.elements, is_named(name@), idx as int);
                }
                return Some(idx);
            }
        }
    }
    proof {
        first_is_none(monitor@.workspaces.elements, is_named(name@));
    }
    None
}

} // verus!
