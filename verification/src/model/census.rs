//! No window is ever lost and none is ever doubled.
//!
//! The windows are counted by handle. Every edit of a workspace keeps the count
//! of every handle, unless it is there to take a window in or out.

use vstd::prelude::*;

use crate::model::container::{
    alone, focused_on, holds, idx_of, inserted, stacked, without, ContainerView,
};
use crate::model::ring::{stepped, CycleDirection, a_step_back_undoes_a_step};
use crate::model::window::{has_id, WindowId, WindowView};
use crate::model::workspace::{all_alone, any_in_either, stack_of, windows_in, Workspace, WorkspaceView};
use crate::seqs::{any, first_when_any};

verus! {

/// How many of the windows have that handle.
pub open spec fn tally(windows: Seq<WindowView>, id: WindowId) -> int
    decreases windows.len(),
{
    if windows.len() == 0 {
        0
    } else {
        tally(windows.drop_last(), id) + if windows.last().id == id {
            1int
        } else {
            0
        }
    }
}

/// Two lots of windows are counted one after the other.
pub proof fn tally_adds_up(a: Seq<WindowView>, b: Seq<WindowView>, id: WindowId)
    ensures
        tally(a + b, id) == tally(a, id) + tally(b, id),
    decreases b.len(),
{
    if b.len() == 0 {
        assert(a + b =~= a);
    } else {
        tally_adds_up(a, b.drop_last(), id);
        assert((a + b).drop_last() =~= a + b.drop_last());
        assert((a + b).last() == b.last());
    }
}

/// One window counts for itself.
pub proof fn tally_of_one(window: WindowView, id: WindowId)
    ensures
        tally(seq![window], id) == if window.id == id {
            1int
        } else {
            0
        },
{
    assert(seq![window].drop_last() =~= Seq::<WindowView>::empty());
    assert(tally(seq![window].drop_last(), id) == 0);
}

/// A handle counts exactly when a window has it.
pub proof fn tally_when_any(windows: Seq<WindowView>, id: WindowId)
    ensures
        tally(windows, id) >= 0,
        tally(windows, id) > 0 <==> any(windows, has_id(id)),
    decreases windows.len(),
{
    if windows.len() > 0 {
        let head = windows.drop_last();
        tally_when_any(head, id);
        any_in_either(head, seq![windows.last()], has_id(id));
        assert(head + seq![windows.last()] =~= windows);
        assert(any(seq![windows.last()], has_id(id)) <==> windows.last().id == id) by {
            if windows.last().id == id {
                assert(has_id(id)(seq![windows.last()][0]));
            }
        }
    }
}

/// Putting a window in counts it.
pub proof fn tally_of_insert(windows: Seq<WindowView>, at: int, window: WindowView, id: WindowId)
    requires
        0 <= at <= windows.len(),
    ensures
        tally(windows.insert(at, window), id) == tally(windows, id) + tally(seq![window], id),
{
    assert(windows.insert(at, window) =~= windows.take(at) + seq![window] + windows.skip(at));
    assert(windows =~= windows.take(at) + windows.skip(at));
    tally_adds_up(windows.take(at) + seq![window], windows.skip(at), id);
    tally_adds_up(windows.take(at), seq![window], id);
    tally_adds_up(windows.take(at), windows.skip(at), id);
}

/// Taking a window out uncounts it.
pub proof fn tally_of_remove(windows: Seq<WindowView>, at: int, id: WindowId)
    requires
        0 <= at < windows.len(),
    ensures
        tally(windows.remove(at), id) + tally(seq![windows[at]], id) == tally(windows, id),
{
    assert(windows.remove(at).insert(at, windows[at]) =~= windows);
    tally_of_insert(windows.remove(at), at, windows[at], id);
}

/// How many of the windows in the containers have that handle.
pub open spec fn tally_in(containers: Seq<ContainerView>, id: WindowId) -> int {
    tally(windows_in(containers), id)
}

/// Two lots of containers hold the windows of the first and then of the second.
pub proof fn windows_in_both(a: Seq<ContainerView>, b: Seq<ContainerView>)
    ensures
        windows_in(a + b) == windows_in(a) + windows_in(b),
    decreases b.len(),
{
    if b.len() == 0 {
        assert(a + b =~= a);
        assert(windows_in(a) + windows_in(b) =~= windows_in(a));
    } else {
        windows_in_both(a, b.drop_last());
        assert((a + b).drop_last() =~= a + b.drop_last());
        assert((a + b).last() == b.last());
        assert(windows_in(a) + windows_in(b.drop_last()) + b.last().elements =~= windows_in(a) + (
        windows_in(b.drop_last()) + b.last().elements));
    }
}

/// One container holds its windows.
pub proof fn windows_in_one(container: ContainerView)
    ensures
        windows_in(seq![container]) == container.elements,
{
    assert(seq![container].drop_last() =~= Seq::<ContainerView>::empty());
    assert(windows_in(seq![container].drop_last()) =~= Seq::<WindowView>::empty());
    assert(windows_in(seq![container]) =~= container.elements);
}

/// Putting a container in counts its windows.
pub proof fn tally_of_new_container(
    containers: Seq<ContainerView>,
    at: int,
    container: ContainerView,
    id: WindowId,
)
    requires
        0 <= at <= containers.len(),
    ensures
        tally_in(containers.insert(at, container), id) == tally_in(containers, id) + tally(
            container.elements,
            id,
        ),
{
    let head = containers.take(at);
    let tail = containers.skip(at);
    assert(containers.insert(at, container) =~= head + seq![container] + tail);
    assert(containers =~= head + tail);
    windows_in_both(head + seq![container], tail);
    windows_in_both(head, seq![container]);
    windows_in_both(head, tail);
    windows_in_one(container);
    tally_adds_up(windows_in(head) + container.elements, windows_in(tail), id);
    tally_adds_up(windows_in(head), container.elements, id);
    tally_adds_up(windows_in(head), windows_in(tail), id);
}

/// Taking a container out uncounts its windows.
pub proof fn tally_of_lost_container(containers: Seq<ContainerView>, at: int, id: WindowId)
    requires
        0 <= at < containers.len(),
    ensures
        tally_in(containers.remove(at), id) + tally(containers[at].elements, id) == tally_in(
            containers,
            id,
        ),
{
    assert(containers.remove(at).insert(at, containers[at]) =~= containers);
    tally_of_new_container(containers.remove(at), at, containers[at], id);
}

/// Replacing a container replaces its windows in the count.
pub proof fn tally_of_changed_container(
    containers: Seq<ContainerView>,
    at: int,
    container: ContainerView,
    id: WindowId,
)
    requires
        0 <= at < containers.len(),
    ensures
        tally_in(containers.update(at, container), id) + tally(containers[at].elements, id)
            == tally_in(containers, id) + tally(container.elements, id),
{
    assert(containers.update(at, container) =~= containers.remove(at).insert(at, container));
    tally_of_new_container(containers.remove(at), at, container, id);
    tally_of_lost_container(containers, at, id);
}

/// How many times a handle is in the monocled container, the maximized window
/// and the floating list.
pub open spec fn tally_outside(workspace: WorkspaceView, id: WindowId) -> int {
    (match workspace.monocle_container {
        Some(c) => tally(c.elements, id),
        None => 0,
    }) + (match workspace.maximized_window {
        Some(w) => tally(seq![w], id),
        None => 0,
    }) + tally(workspace.floating_windows.elements, id)
}

impl WorkspaceView {
    /// How many times a handle is on the workspace.
    pub open spec fn tally(self, id: WindowId) -> int {
        tally(self.all_windows(), id)
    }

    /// `true` when no handle is on the workspace twice.
    pub open spec fn no_doubles(self) -> bool {
        forall|id: WindowId| #[trigger] self.tally(id) <= 1
    }

    /// Every focus of the workspace is on something, or at the start of nothing.
    pub open spec fn wf(self) -> bool {
        &&& self.containers.wf()
        &&& self.floating_windows.wf()
        &&& forall|i: int| 0 <= i < self.containers.len() ==> (#[trigger] self.containers.elements[i]).wf()
        &&& self.monocle_container is Some ==> self.monocle_container->0.wf()
    }

    /// The windows of a workspace are the tiled ones and the others.
    pub proof fn tally_of_parts(self, id: WindowId)
        ensures
            self.tally(id) == tally_in(self.containers.elements, id) + tally_outside(self, id),
            tally_in(self.containers.elements, id) >= 0,
            tally_outside(self, id) >= 0,
            tally(self.floating_windows.elements, id) >= 0,
            self.has_window(id) <==> self.tally(id) > 0,
    {
        let lifted = match self.monocle_container {
            Some(c) => c.elements,
            None => Seq::empty(),
        };
        let big = match self.maximized_window {
            Some(w) => seq![w],
            None => Seq::empty(),
        };
        let floating = self.floating_windows.elements;
        tally_adds_up(windows_in(self.containers.elements), self.windows_outside(), id);
        tally_adds_up(lifted + big, floating, id);
        tally_adds_up(lifted, big, id);
        tally_when_any(self.all_windows(), id);
        tally_when_any(windows_in(self.containers.elements), id);
        tally_when_any(lifted, id);
        tally_when_any(big, id);
        tally_when_any(floating, id);
    }

    /// A container that goes in brings its windows.
    pub proof fn tally_of_insert_container(self, at: int, container: ContainerView, id: WindowId)
        requires
            0 <= at,
        ensures
            self.insert_container(at, container).tally(id) == self.tally(id) + tally(
                container.elements,
                id,
            ),
    {
        self.tally_of_parts(id);
        self.insert_container(at, container).tally_of_parts(id);
        tally_of_new_container(
            self.containers.elements,
            self.containers.slot(at),
            container,
            id,
        );
    }

    /// A container that goes away takes its windows along.
    pub proof fn tally_of_remove_container(self, at: int, id: WindowId)
        requires
            0 <= at < self.containers.len(),
        ensures
            self.remove_container(at).tally(id) + tally(self.containers.elements[at].elements, id)
                == self.tally(id),
    {
        self.tally_of_parts(id);
        self.remove_container(at).tally_of_parts(id);
        tally_of_lost_container(self.containers.elements, at, id);
    }

    /// A container that lost windows, or went away because it lost them all.
    pub proof fn tally_of_take_from(self, at: int, rest: ContainerView, id: WindowId)
        requires
            0 <= at < self.containers.len(),
        ensures
            self.take_from(at, rest).tally(id) + tally(self.containers.elements[at].elements, id)
                == self.tally(id) + tally(rest.elements, id),
    {
        if rest.len() == 0 {
            self.tally_of_remove_container(at, id);
        } else {
            self.tally_of_parts(id);
            self.take_from(at, rest).tally_of_parts(id);
            tally_of_changed_container(self.containers.elements, at, rest, id);
        }
    }

    /// A floating window that goes away is one less.
    pub proof fn tally_of_remove_floating(self, at: int, id: WindowId)
        requires
            0 <= at < self.floating_windows.len(),
        ensures
            self.remove_floating(at).tally(id) + tally(
                seq![self.floating_windows.elements[at]],
                id,
            ) == self.tally(id),
    {
        self.tally_of_parts(id);
        self.remove_floating(at).tally_of_parts(id);
        tally_of_remove(self.floating_windows.elements, at, id);
    }

    /// Taking a window out takes out exactly one with that handle, and nothing
    /// else.
    pub proof fn taking_a_window_takes_one(self, taken: WindowId, id: WindowId)
        ensures
            self.remove_window(taken).0.tally(id) == self.tally(id) - if taken == id
                && self.has_window(taken) {
                1int
            } else {
                0
            },
    {
        self.window_is_somewhere(taken);
        self.tally_of_parts(id);
        let after = self.remove_window(taken).0;
        after.tally_of_parts(id);
        if self.maximized_window is Some && self.maximized_window->0.id == taken {
            tally_of_one(self.maximized_window->0, id);
        } else if self.monocle_container is Some && holds(taken)(self.monocle_container->0) {
            let container = self.monocle_container->0;
            first_when_any(container.elements, has_id(taken));
            let idx = idx_of(container.elements, taken)->0;
            tally_of_remove(container.elements, idx, id);
            tally_of_one(container.elements[idx], id);
            if without(container, taken).len() == 0 {
                assert(without(container, taken).elements =~= Seq::<WindowView>::empty());
            }
        } else if idx_of(self.floating_windows.elements, taken) is Some {
            first_when_any(self.floating_windows.elements, has_id(taken));
            let idx = idx_of(self.floating_windows.elements, taken)->0;
            self.tally_of_remove_floating(idx, id);
            tally_of_one(self.floating_windows.elements[idx], id);
        } else if self.container_idx(taken) is Some {
            first_when_any(self.containers.elements, holds(taken));
            let at = self.container_idx(taken)->0;
            let container = self.containers.elements[at];
            first_when_any(container.elements, has_id(taken));
            let idx = idx_of(container.elements, taken)->0;
            tally_of_remove(container.elements, idx, id);
            tally_of_one(container.elements[idx], id);
            self.tally_of_take_from(at, without(container, taken), id);
        }
    }

    /// A window that joins the floating list is one more, unless it was in it.
    pub proof fn floating_a_window_adds_one(self, window: WindowView, id: WindowId)
        requires
            idx_of(self.floating_windows.elements, window.id) is None,
        ensures
            self.add_floating(window).tally(id) == self.tally(id) + tally(seq![window], id),
    {
        self.tally_of_parts(id);
        self.add_floating(window).tally_of_parts(id);
        let floating = self.floating_windows.elements;
        assert(floating.push(window) =~= floating + seq![window]);
        tally_adds_up(floating, seq![window], id);
    }

    /// A window that is not on the workspace is not in its floating list, nor in
    /// any of its containers.
    pub proof fn a_stranger_is_nowhere(self, id: WindowId)
        requires
            self.tally(id) == 0,
        ensures
            idx_of(self.floating_windows.elements, id) is None,
            self.container_idx(id) is None,
            forall|i: int|
                0 <= i < self.containers.len() ==> idx_of(
                    (#[trigger] self.containers.elements[i]).elements,
                    id,
                ) is None,
    {
        self.tally_of_parts(id);
        self.window_is_somewhere(id);
        first_when_any(self.containers.elements, holds(id));
        assert forall|i: int| 0 <= i < self.containers.len() implies idx_of(
            (#[trigger] self.containers.elements[i]).elements,
            id,
        ) is None by {
            first_when_any(self.containers.elements[i].elements, has_id(id));
            if idx_of(self.containers.elements[i].elements, id) is Some {
                assert(holds(id)(self.containers.elements[i]));
            }
        }
    }

    // -- the edits ----------------------------------------------------------

    /// Toggling monocle mode keeps every window.
    pub proof fn monocle_keeps_the_windows(self, id: WindowId)
        requires
            self.wf(),
        ensures
            self.toggle_monocle().tally(id) == self.tally(id),
    {
        self.tally_of_parts(id);
        match self.monocle_container {
            Some(container) => {
                let off = WorkspaceView {
                    monocle_container: None,
                    monocle_restore: None,
                    ..self
                };
                off.tally_of_parts(id);
                first_when_any(off.containers.elements, holds(self.monocle_restore->0));
                off.tally_of_insert_container(
                    off.slot_behind(self.monocle_restore),
                    container,
                    id,
                );
            },
            None => {
                if self.maximized_window is None && self.containers.len() > 0 {
                    self.tally_of_remove_container(self.containers.focused, id);
                    self.remove_container(self.containers.focused).tally_of_parts(id);
                    self.toggle_monocle().tally_of_parts(id);
                }
            },
        }
    }

    /// Toggling maximize keeps every window.
    pub proof fn maximize_keeps_the_windows(self, id: WindowId)
        requires
            self.wf(),
            self.no_doubles(),
        ensures
            self.toggle_maximize().tally(id) == self.tally(id),
    {
        self.tally_of_parts(id);
        if self.maximized_window is Some {
            let window = self.maximized_window->0;
            let off = WorkspaceView { maximized_window: None, maximized_restore: None, ..self };
            off.tally_of_parts(id);
            off.tally_of_parts(window.id);
            self.tally_of_parts(window.id);
            tally_of_one(window, id);
            tally_of_one(window, window.id);
            assert(self.tally(window.id) <= 1);
            off.a_stranger_is_nowhere(window.id);
            tally_of_one(window, id);
            let pushed = off.containers.elements.push(alone(window));
            assert(pushed =~= off.containers.elements.insert(
                off.containers.len(),
                alone(window),
            ));
            tally_of_new_container(
                off.containers.elements,
                off.containers.len(),
                alone(window),
                id,
            );
            off.add_window(window).tally_of_parts(id);
            match self.maximized_restore {
                None => {},
                Some(restore) => {
                    if restore.floating {
                        let at = off.floating_windows.slot(restore.window as int);
                        tally_of_insert(off.floating_windows.elements, at, window, id);
                        self.unmaximize().tally_of_parts(id);
                    } else if restore.own_container {
                        first_when_any(off.containers.elements, holds(restore.anchor->0));
                        off.tally_of_insert_container(
                            off.slot_behind(restore.anchor),
                            alone(window),
                            id,
                        );
                    } else if restore.anchor is Some {
                        first_when_any(off.containers.elements, holds(restore.anchor->0));
                        if off.container_idx(restore.anchor->0) is Some {
                            let idx = off.container_idx(restore.anchor->0)->0;
                            let container = off.containers.elements[idx];
                            let at = container.slot(restore.window as int);
                            tally_of_insert(container.elements, at, window, id);
                            tally_of_changed_container(
                                off.containers.elements,
                                idx,
                                inserted(container, restore.window as int, window),
                                id,
                            );
                            self.unmaximize().tally_of_parts(id);
                        }
                    }
                },
            }
        } else if self.monocle_container is None {
            let after = self.maximize();
            if self.floating_focus() {
                self.tally_of_remove_floating(self.floating_windows.focused, id);
                self.remove_floating(self.floating_windows.focused).tally_of_parts(id);
                after.tally_of_parts(id);
            } else if self.containers.len() > 0 {
                let idx = self.containers.focused;
                let container = self.containers.elements[idx];
                if container.len() > 0 {
                    let rest = container.remove(container.focused);
                    tally_of_remove(container.elements, container.focused, id);
                    self.tally_of_take_from(idx, rest, id);
                    self.take_from(idx, rest).tally_of_parts(id);
                    after.tally_of_parts(id);
                }
            }
        }
    }

    /// Toggling a window between tiled and floating keeps every window.
    pub proof fn float_keeps_the_windows(self, id: WindowId)
        requires
            self.wf(),
            self.no_doubles(),
        ensures
            self.toggle_float().tally(id) == self.tally(id),
    {
        if self.floating_focus() {
            let at = self.floating_windows.focused;
            let off = self.remove_floating(at);
            self.tally_of_remove_floating(at, id);
            off.tally_of_insert_container(
                if off.containers.len() == 0 {
                    0
                } else {
                    off.containers.focused + 1
                },
                alone(self.floating_windows.current()->0),
                id,
            );
        } else if self.focused_id() is Some {
            self.refloating_keeps_the_windows(self.focused_id()->0, id);
        }
    }

    /// Taking a window out and putting it into the floating list keeps every
    /// window.
    proof fn refloating_keeps_the_windows(self, moved: WindowId, id: WindowId)
        requires
            self.no_doubles(),
        ensures
            ({
                let (rest, window) = self.remove_window(moved);
                window is Some ==> rest.add_floating(window->0).tally(id) == self.tally(id)
                    && window->0.id == moved
            }),
            self.remove_window(moved).1 is None ==> self.remove_window(moved).0 == self,
    {
        let (rest, window) = self.remove_window(moved);
        self.window_is_somewhere(moved);
        self.tally_of_parts(moved);
        if self.has_window(moved) {
            self.a_held_window_can_be_taken(moved);
            self.taking_a_window_takes_one(moved, id);
            self.taking_a_window_takes_one(moved, moved);
            assert(self.tally(moved) <= 1);
            rest.tally_of_parts(moved);
            rest.a_stranger_is_nowhere(moved);
            rest.floating_a_window_adds_one(window->0, id);
            tally_of_one(window->0, id);
        }
    }

    /// Moving a window into the floating list keeps every window.
    pub proof fn float_window_keeps_the_windows(self, moved: WindowId, id: WindowId)
        requires
            self.no_doubles(),
        ensures
            self.float_window(moved).tally(id) == self.tally(id),
    {
        self.refloating_keeps_the_windows(moved, id);
    }

    /// Swapping two containers keeps every window.
    pub proof fn swap_keeps_the_windows(self, idx: int, id: WindowId)
        requires
            self.wf(),
        ensures
            self.swap_focused(idx).tally(id) == self.tally(id),
    {
        self.tally_of_parts(id);
        self.swap_focused(idx).tally_of_parts(id);
        if idx != self.containers.focused && 0 <= idx < self.containers.len() {
            swapping_keeps_the_tally(self.containers.elements, self.containers.focused, idx, id);
        }
    }

    /// Moving the focused container along the ring keeps every window.
    pub proof fn cycle_keeps_the_windows(self, direction: CycleDirection, id: WindowId)
        requires
            self.wf(),
        ensures
            (WorkspaceView {
                containers: self.containers.move_focused(direction),
                focus_is_floating: false,
                ..self
            }).tally(id) == self.tally(id),
    {
        let moved = WorkspaceView {
            containers: self.containers.move_focused(direction),
            focus_is_floating: false,
            ..self
        };
        self.tally_of_parts(id);
        moved.tally_of_parts(id);
        if self.containers.len() > 0 {
            a_step_back_undoes_a_step(direction, self.containers.focused, self.containers.len());
            swapping_keeps_the_tally(
                self.containers.elements,
                self.containers.focused,
                stepped(direction, self.containers.focused, self.containers.len()),
                id,
            );
        }
    }

    /// Focusing a window keeps every window.
    pub proof fn focusing_keeps_the_tally(self, focused: WindowId, id: WindowId)
        ensures
            self.focus_window(focused).tally(id) == self.tally(id),
    {
        let after = self.focus_window(focused);
        self.tally_of_parts(id);
        after.tally_of_parts(id);
        first_when_any(self.containers.elements, holds(focused));
        if self.container_idx(focused) is Some {
            let idx = self.container_idx(focused)->0;
            tally_of_changed_container(
                self.containers.elements,
                idx,
                focused_on(self.containers.elements[idx], focused),
                id,
            );
        }
    }

    /// Promoting a container keeps every window.
    pub proof fn promote_keeps_the_windows(self, id: WindowId)
        requires
            self.wf(),
        ensures
            self.promote().tally(id) == self.tally(id),
    {
        if self.can_promote() {
            self.tally_of_parts(id);
            self.promote().tally_of_parts(id);
            let from = self.containers.focused;
            tally_of_lost_container(self.containers.elements, from, id);
            tally_of_new_container(
                self.containers.elements.remove(from),
                0,
                self.containers.elements[from],
                id,
            );
        }
    }

    /// Taking a window out of its stack keeps every window.
    pub proof fn unstack_keeps_the_windows(self, id: WindowId)
        requires
            self.wf(),
        ensures
            self.unstack().tally(id) == self.tally(id),
    {
        if self.can_unstack() {
            let idx = self.containers.focused;
            let container = self.containers.elements[idx];
            let left = container.remove(container.focused);
            let rest = WorkspaceView { containers: self.containers.with(idx, left), ..self };
            self.tally_of_parts(id);
            rest.tally_of_parts(id);
            tally_of_remove(container.elements, container.focused, id);
            tally_of_changed_container(self.containers.elements, idx, left, id);
            rest.tally_of_insert_container(idx + 1, alone(container.current()->0), id);
        }
    }

    /// Stacking a window onto another container keeps every window.
    pub proof fn stack_keeps_the_windows(self, target: int, id: WindowId)
        requires
            self.wf(),
            self.no_doubles(),
        ensures
            self.stack_into(target).tally(id) == self.tally(id),
    {
        if self.can_stack_into(target) {
            let from = self.containers.focused;
            let container = self.containers.elements[from];
            let window = container.elements[container.focused];
            let rest = container.remove(container.focused);
            let taken = self.take_from(from, rest);
            let at = if rest.len() == 0 && target > from {
                target - 1
            } else {
                target
            };
            tally_of_remove(container.elements, container.focused, id);
            tally_of_remove(container.elements, container.focused, window.id);
            self.tally_of_take_from(from, rest, id);
            self.tally_of_take_from(from, rest, window.id);
            tally_of_one(window, window.id);
            assert(self.tally(window.id) <= 1);
            taken.tally_of_parts(window.id);
            taken.a_stranger_is_nowhere(window.id);
            let onto = taken.containers.elements[at];
            assert(onto.elements.push(window) =~= onto.elements + seq![window]);
            tally_adds_up(onto.elements, seq![window], id);
            tally_of_changed_container(taken.containers.elements, at, stacked(onto, window), id);
            taken.tally_of_parts(id);
            self.stack_into(target).tally_of_parts(id);
        }
    }

    /// Stacking the whole workspace keeps every window.
    pub proof fn stack_all_keeps_the_windows(self, id: WindowId)
        requires
            self.wf(),
            self.no_doubles(),
        ensures
            self.stack_all().tally(id) == self.tally(id),
    {
        if self.containers.len() >= 2 {
            let windows = windows_in(self.containers.elements);
            assert forall|other: WindowId| #[trigger] tally(windows, other) <= 1 by {
                self.tally_of_parts(other);
                assert(self.tally(other) <= 1);
            }
            a_stack_of_strangers_holds_them_all(windows);
            let after = self.stack_all();
            windows_in_one(after.containers.elements[0]);
            assert(after.containers.elements =~= seq![after.containers.elements[0]]);
            self.tally_of_parts(id);
            after.tally_of_parts(id);
        }
    }

    /// Taking every stack apart keeps every window.
    pub proof fn unstack_all_keeps_the_windows(self, id: WindowId)
        ensures
            self.unstack_all().tally(id) == self.tally(id),
    {
        if self.has_stack() {
            windows_that_are_alone(windows_in(self.containers.elements));
            self.tally_of_parts(id);
            self.unstack_all().tally_of_parts(id);
        }
    }
}

/// Swapping two containers keeps the count of every handle.
proof fn swapping_keeps_the_tally(containers: Seq<ContainerView>, a: int, b: int, id: WindowId)
    requires
        0 <= a < containers.len(),
        0 <= b < containers.len(),
    ensures
        tally_in(containers.update(a, containers[b]).update(b, containers[a]), id) == tally_in(
            containers,
            id,
        ),
{
    let once = containers.update(a, containers[b]);
    tally_of_changed_container(containers, a, containers[b], id);
    tally_of_changed_container(once, b, containers[a], id);
}

/// Windows with different handles stack up to all of them, in order.
pub proof fn a_stack_of_strangers_holds_them_all(windows: Seq<WindowView>)
    requires
        forall|id: WindowId| #[trigger] tally(windows, id) <= 1,
    ensures
        stack_of(windows).elements == windows,
    decreases windows.len(),
{
    if windows.len() > 0 {
        let head = windows.drop_last();
        let last = windows.last();
        assert(windows =~= head + seq![last]);
        assert forall|id: WindowId| #[trigger] tally(head, id) <= 1 by {
            tally_adds_up(head, seq![last], id);
            tally_when_any(seq![last], id);
            assert(tally(windows, id) <= 1);
        }
        a_stack_of_strangers_holds_them_all(head);
        tally_adds_up(head, seq![last], last.id);
        tally_of_one(last, last.id);
        assert(tally(windows, last.id) <= 1);
        tally_when_any(head, last.id);
        first_when_any(head, has_id(last.id));
        assert(head.push(last) =~= windows);
    } else {
        assert(stack_of(windows).elements =~= windows);
    }
}

/// Windows in containers of their own are all there, in order.
pub proof fn windows_that_are_alone(windows: Seq<WindowView>)
    ensures
        windows_in(all_alone(windows)) == windows,
    decreases windows.len(),
{
    if windows.len() > 0 {
        let head = windows.drop_last();
        windows_that_are_alone(head);
        assert(all_alone(windows).drop_last() =~= all_alone(head));
        assert(windows =~= head + seq![windows.last()]);
    } else {
        assert(windows_in(all_alone(windows)) =~= windows);
    }
}

impl Workspace {
    /// Every focus of a workspace is on something, or at the start of nothing.
    pub proof fn view_is_wf(&self)
        ensures
            self@.wf(),
    {
        self.containers.view_of_items();
        self.floating_windows.view_of_items();
        assert forall|i: int| 0 <= i < self@.containers.len() implies (
        #[trigger] self@.containers.elements[i]).wf() by {
            self.containers.items()[i].view_is_wf();
        }
        if self.monocle_container is Some {
            self.monocle_container->0.view_is_wf();
        }
    }
}

} // verus!
