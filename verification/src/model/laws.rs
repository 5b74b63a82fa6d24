//! What the edits of a workspace keep and what they undo.

use vstd::prelude::*;

use crate::layout::Flip;
use crate::geometry::Axis;
use crate::model::census::{
    a_stack_of_strangers_holds_them_all, tally, tally_in, tally_of_lost_container, tally_of_one,
    tally_of_remove, tally_when_any, windows_in_one, windows_that_are_alone,
};
use crate::model::changes::lemma_push_contains;
use crate::model::container::{
    alone, holds, idx_of, inserted, stacked, top_of, without, ContainerView,
};
use crate::model::window::{has_id, ids_of, WindowId, WindowView};
use crate::model::workspace::{all_alone, append_keeps_the_rest, tops, windows_in, WorkspaceView};
use crate::seqs::{first_idx, first_is, first_when_any};

verus! {

/// The visible window of every container is among the visible ones.
pub proof fn every_top_is_listed(containers: Seq<ContainerView>, at: int)
    requires
        0 <= at < containers.len(),
        top_of(containers[at]) is Some,
    ensures
        tops(containers).contains(top_of(containers[at])->0),
    decreases containers.len(),
{
    let id = top_of(containers[at])->0;
    if at == containers.len() - 1 {
        lemma_push_contains(tops(containers.drop_last()), id, id);
    } else {
        every_top_is_listed(containers.drop_last(), at);
        if top_of(containers.last()) is Some {
            lemma_push_contains(
                tops(containers.drop_last()),
                top_of(containers.last())->0,
                id,
            );
        }
    }
}

/// Two containers with the same window hold it twice.
pub proof fn two_containers_hold_it_twice(
    containers: Seq<ContainerView>,
    a: int,
    b: int,
    id: WindowId,
)
    requires
        0 <= a < b < containers.len(),
        holds(id)(containers[a]),
        holds(id)(containers[b]),
    ensures
        tally_in(containers, id) >= 2,
{
    tally_of_lost_container(containers, b, id);
    let rest = containers.remove(b);
    assert(rest[a] == containers[a]);
    tally_of_lost_container(rest, a, id);
    tally_when_any(containers[a].elements, id);
    tally_when_any(containers[b].elements, id);
    tally_when_any(windows_in(rest.remove(a)), id);
}

impl WorkspaceView {
    /// The focused window is always one of the visible ones: the keyboard never
    /// goes to a window that is off screen.
    pub proof fn the_focused_window_is_visible(self)
        requires
            self.wf(),
        ensures
            self.focused_id() matches Some(id) ==> self.visible().contains(id),
    {
        if self.focused_id() is Some {
            let id = self.focused_id()->0;
            let floating = ids_of(self.floating_windows.elements);
            match (self.maximized_window, self.monocle_container) {
                (Some(w), _) => {
                    assert(self.visible()[0] == id);
                },
                (None, Some(c)) => {
                    assert(self.visible()[0] == id);
                },
                (None, None) => {
                    let listed = tops(self.containers.elements);
                    if self.floating_focus() {
                        let at = self.floating_windows.focused;
                        assert(floating[at] == id);
                        assert((listed + floating)[listed.len() + at] == id);
                    } else {
                        every_top_is_listed(self.containers.elements, self.containers.focused);
                        let k = choose|k: int| 0 <= k < listed.len() && listed[k] == id;
                        assert((listed + floating)[k] == id);
                    }
                },
            }
        }
    }

    /// `true` when the workspace has no container without windows.
    pub open spec fn no_empty_containers(self) -> bool {
        &&& forall|i: int|
            0 <= i < self.containers.len() ==> (#[trigger] self.containers.elements[i]).len() > 0
        &&& self.monocle_container is Some ==> self.monocle_container->0.len() > 0
    }

    proof fn a_container_goes_in(self, at: int, container: ContainerView)
        requires
            self.no_empty_containers(),
            container.len() > 0,
            0 <= at,
        ensures
            self.insert_container(at, container).no_empty_containers(),
    {
        let after = self.insert_container(at, container);
        let slot = self.containers.slot(at);
        assert forall|i: int| 0 <= i < after.containers.len() implies (
        #[trigger] after.containers.elements[i]).len() > 0 by {
            if i < slot {
                assert(after.containers.elements[i] == self.containers.elements[i]);
            } else if i > slot {
                assert(after.containers.elements[i] == self.containers.elements[i - 1]);
            }
        }
    }

    proof fn a_container_goes_out(self, at: int)
        requires
            self.no_empty_containers(),
        ensures
            self.remove_container(at).no_empty_containers(),
    {
        let after = self.remove_container(at);
        assert forall|i: int| 0 <= i < after.containers.len() implies (
        #[trigger] after.containers.elements[i]).len() > 0 by {
            if 0 <= at < self.containers.len() && i >= at {
                assert(after.containers.elements[i] == self.containers.elements[i + 1]);
            } else {
                assert(after.containers.elements[i] == self.containers.elements[i]);
            }
        }
    }

    proof fn a_container_loses_a_window(self, at: int, rest: ContainerView)
        requires
            self.no_empty_containers(),
            0 <= at < self.containers.len(),
        ensures
            self.take_from(at, rest).no_empty_containers(),
    {
        if rest.len() == 0 {
            self.a_container_goes_out(at);
        } else {
            let after = self.take_from(at, rest);
            assert forall|i: int| 0 <= i < after.containers.len() implies (
            #[trigger] after.containers.elements[i]).len() > 0 by {
                if i != at {
                    assert(after.containers.elements[i] == self.containers.elements[i]);
                }
            }
        }
    }

    /// Taking a window out leaves no container without windows behind.
    pub proof fn taking_leaves_no_empty_container(self, id: WindowId)
        requires
            self.no_empty_containers(),
        ensures
            self.remove_window(id).0.no_empty_containers(),
    {
        first_when_any(self.containers.elements, holds(id));
        if self.container_idx(id) is Some {
            let at = self.container_idx(id)->0;
            self.a_container_loses_a_window(at, without(self.containers.elements[at], id));
        }
        assert forall|i: int| 0 <= i < self.containers.len() implies (
        #[trigger] self.containers.elements[i]).len() > 0 by {}
    }

    /// Toggling a mode or floating a window leaves no container without windows
    /// behind.
    pub proof fn toggling_leaves_no_empty_container(self, id: WindowId)
        requires
            self.wf(),
            self.no_empty_containers(),
        ensures
            self.toggle_monocle().no_empty_containers(),
            self.toggle_maximize().no_empty_containers(),
            self.toggle_float().no_empty_containers(),
            self.float_window(id).no_empty_containers(),
    {
        self.monocle_leaves_no_empty_container();
        self.maximizing_leaves_no_empty_container();
        self.taking_leaves_no_empty_container(id);
        if self.floating_focus() {
            let off = self.remove_floating(self.floating_windows.focused);
            off.a_container_goes_in(
                if off.containers.len() == 0 {
                    0
                } else {
                    off.containers.focused + 1
                },
                alone(self.floating_windows.current()->0),
            );
        } else if self.focused_id() is Some {
            self.taking_leaves_no_empty_container(self.focused_id()->0);
        }
    }

    proof fn monocle_leaves_no_empty_container(self)
        requires
            self.wf(),
            self.no_empty_containers(),
        ensures
            self.toggle_monocle().no_empty_containers(),
    {
        if self.monocle_container is Some {
            let off = WorkspaceView { monocle_container: None, monocle_restore: None, ..self };
            if self.monocle_restore is Some {
                first_when_any(off.containers.elements, holds(self.monocle_restore->0));
            }
            off.a_container_goes_in(
                off.slot_behind(self.monocle_restore),
                self.monocle_container->0,
            );
        } else {
            self.a_container_goes_out(self.containers.focused);
        }
    }

    proof fn maximizing_leaves_no_empty_container(self)
        requires
            self.wf(),
            self.no_empty_containers(),
        ensures
            self.toggle_maximize().no_empty_containers(),
    {
        if self.maximized_window is Some {
            let window = self.maximized_window->0;
            let off = WorkspaceView { maximized_window: None, maximized_restore: None, ..self };
            off.adding_leaves_no_empty_container(0, window);
            if self.maximized_restore is Some {
                let restore = self.maximized_restore->0;
                if restore.anchor is Some {
                    first_when_any(off.containers.elements, holds(restore.anchor->0));
                    if off.container_idx(restore.anchor->0) is Some {
                        let idx = off.container_idx(restore.anchor->0)->0;
                        off.a_container_loses_a_window(
                            idx,
                            inserted(off.containers.elements[idx], restore.window as int, window),
                        );
                    }
                }
                off.a_container_goes_in(off.slot_behind(restore.anchor), alone(window));
            }
        } else if self.containers.len() > 0 {
            let idx = self.containers.focused;
            let container = self.containers.elements[idx];
            self.a_container_loses_a_window(idx, container.remove(container.focused));
        }
    }

    /// Adding a window leaves no container without windows behind.
    pub proof fn adding_leaves_no_empty_container(self, idx: int, window: WindowView)
        requires
            self.no_empty_containers(),
            0 <= idx,
        ensures
            self.add_window(window).no_empty_containers(),
            self.insert_window(idx, window).no_empty_containers(),
            self.add_floating(window).no_empty_containers(),
    {
        self.a_container_goes_in(idx, alone(window));
        self.a_container_goes_in(self.containers.len(), alone(window));
        let pushed = self.containers.push_focused(alone(window));
        assert(pushed.elements =~= self.containers.elements.insert(
            self.containers.len(),
            alone(window),
        ));
        assert(self.add_window(window).containers.elements == self.containers.elements
            || self.add_window(window).containers.elements == self.insert_container(
            self.containers.len(),
            alone(window),
        ).containers.elements);
    }

    /// Rearranging the containers leaves none without windows behind.
    pub proof fn rearranging_leaves_no_empty_container(self, idx: int)
        requires
            self.wf(),
            self.no_empty_containers(),
            0 <= idx,
        ensures
            self.promote().no_empty_containers(),
            self.swap_focused(idx).no_empty_containers(),
            self.unstack().no_empty_containers(),
            self.stack_into(idx).no_empty_containers(),
            self.unstack_all().no_empty_containers(),
    {
        if self.can_promote() {
            let at = self.containers.focused;
            self.a_container_goes_out(at);
            let out = self.remove_container(at);
            out.a_container_goes_in(0, self.containers.elements[at]);
            assert(self.promote().containers.elements == out.insert_container(
                0,
                self.containers.elements[at],
            ).containers.elements);
        }
        if self.can_unstack() {
            let at = self.containers.focused;
            let container = self.containers.elements[at];
            let rest = container.remove(container.focused);
            self.a_container_loses_a_window(at, rest);
            self.take_from(at, rest).a_container_goes_in(at + 1, alone(container.current()->0));
        }
        if self.can_stack_into(idx) {
            let from = self.containers.focused;
            let container = self.containers.elements[from];
            let rest = container.remove(container.focused);
            let taken = self.take_from(from, rest);
            self.a_container_loses_a_window(from, rest);
            let at = if rest.len() == 0 && idx > from {
                idx - 1
            } else {
                idx
            };
            let onto = taken.containers.elements[at];
            taken.a_container_loses_a_window(at, stacked(onto, container.current()->0));
        }
        if self.has_stack() {
            let apart = all_alone(windows_in(self.containers.elements));
            assert forall|i: int| 0 <= i < apart.len() implies (#[trigger] apart[i]).len() > 0 by {}
        }
    }

    /// Monocle and maximize are never on at the same time.
    pub open spec fn one_mode_at_most(self) -> bool {
        !(self.monocle_container is Some && self.maximized_window is Some)
    }

    /// Neither toggle turns its mode on while the other one is on.
    pub proof fn the_modes_exclude_each_other(self)
        requires
            self.one_mode_at_most(),
        ensures
            self.toggle_monocle().one_mode_at_most(),
            self.toggle_maximize().one_mode_at_most(),
            self.monocle_container is Some ==> self.toggle_maximize() == self,
            self.maximized_window is Some ==> self.toggle_monocle() == self,
    {
    }

    /// The container in front of a spot is found again by its visible window.
    proof fn the_anchor_holds_the_spot(self, idx: int)
        requires
            self.no_doubles(),
            self.no_empty_containers(),
            forall|i: int|
                0 <= i < self.containers.len() ==> (#[trigger] self.containers.elements[i]).wf(),
            0 <= idx <= self.containers.len(),
        ensures
            self.slot_behind(self.anchor_before(idx)) == idx,
    {
        if idx > 0 {
            let before = self.containers.elements[idx - 1];
            let id = top_of(before)->0;
            assert(has_id(id)(before.elements[before.focused]));
            assert(holds(id)(before));
            assert forall|j: int| 0 <= j < idx - 1 implies !holds(id)(
                #[trigger] self.containers.elements[j],
            ) by {
                if holds(id)(self.containers.elements[j]) {
                    two_containers_hold_it_twice(self.containers.elements, j, idx - 1, id);
                    self.tally_of_parts(id);
                    assert(self.tally(id) <= 1);
                }
            }
            first_is(self.containers.elements, holds(id), idx - 1);
        }
    }

    /// Turning monocle mode on and off again puts the container back where it
    /// was, with the focus on it.
    pub proof fn monocle_twice_is_nothing(self)
        requires
            self.wf(),
            self.no_doubles(),
            self.no_empty_containers(),
            self.monocle_container is None,
            self.maximized_window is None,
            self.containers.len() > 0,
        ensures
            self.toggle_monocle().monocle_container == self.containers.current(),
            self.toggle_monocle().toggle_monocle().containers == self.containers,
            self.toggle_monocle().toggle_monocle().floating_windows == self.floating_windows,
            self.toggle_monocle().toggle_monocle().monocle_container is None,
    {
        let idx = self.containers.focused;
        let on = self.toggle_monocle();
        let off = WorkspaceView { monocle_container: None, monocle_restore: None, ..on };
        self.lifting_keeps_the_anchor(idx, off);
        off.the_anchor_holds_the_spot(idx);
        assert(off.anchor_before(idx) == self.anchor_before(idx));
        assert(off.containers.elements.insert(idx, self.containers.elements[idx])
            =~= self.containers.elements);
    }

    /// A workspace without one of its containers is as sound as it was.
    proof fn lifting_keeps_the_anchor(self, idx: int, rest: WorkspaceView)
        requires
            self.wf(),
            self.no_doubles(),
            self.no_empty_containers(),
            0 <= idx < self.containers.len(),
            rest.containers.elements == self.containers.elements.remove(idx),
            rest.monocle_container == self.monocle_container,
            rest.maximized_window == self.maximized_window,
            rest.floating_windows == self.floating_windows,
        ensures
            rest.no_doubles(),
            rest.no_empty_containers(),
            forall|i: int|
                0 <= i < rest.containers.len() ==> (#[trigger] rest.containers.elements[i]).wf(),
    {
        assert forall|id: WindowId| #[trigger] rest.tally(id) <= 1 by {
            self.tally_of_parts(id);
            rest.tally_of_parts(id);
            tally_of_lost_container(self.containers.elements, idx, id);
            tally_when_any(self.containers.elements[idx].elements, id);
            assert(self.tally(id) <= 1);
        }
        assert forall|i: int| 0 <= i < rest.containers.len() implies (
        #[trigger] rest.containers.elements[i]).wf() && rest.containers.elements[i].len() > 0 by {
            let from = if i < idx {
                i
            } else {
                i + 1
            };
            assert(rest.containers.elements[i] == self.containers.elements[from]);
        }
    }

    /// Maximizing a window and restoring it puts it back where it was, with the
    /// focus on it.
    pub proof fn maximize_twice_is_nothing(self)
        requires
            self.wf(),
            self.no_doubles(),
            self.no_empty_containers(),
            self.monocle_container is None,
            self.maximized_window is None,
            self.floating_windows.len() <= usize::MAX,
            forall|i: int|
                0 <= i < self.containers.len() ==> (#[trigger] self.containers.elements[i]).len()
                    <= usize::MAX,
        ensures
            self.toggle_maximize().toggle_maximize().containers == self.containers,
            self.toggle_maximize().toggle_maximize().floating_windows == self.floating_windows,
            self.toggle_maximize().toggle_maximize().maximized_window is None,
    {
        let on = self.toggle_maximize();
        let off = WorkspaceView { maximized_window: None, maximized_restore: None, ..on };
        if self.floating_focus() {
            let at = self.floating_windows.focused;
            assert(off.floating_windows.elements.insert(at, self.floating_windows.elements[at])
                =~= self.floating_windows.elements);
        } else if self.containers.len() > 0 {
            let idx = self.containers.focused;
            let container = self.containers.elements[idx];
            let window = container.elements[container.focused];
            let rest = container.remove(container.focused);
            assert(rest.elements.insert(container.focused, window) =~= container.elements);
            if rest.len() == 0 {
                self.lifting_keeps_the_anchor(idx, off);
                off.the_anchor_holds_the_spot(idx);
                assert(container.elements =~= seq![window]);
                assert(alone(window) =~= container);
                assert(off.containers.elements.insert(idx, container)
                    =~= self.containers.elements);
            } else {
                self.the_stack_is_found_again(off, idx);
                assert(off.containers.elements.update(idx, container)
                    =~= self.containers.elements);
            }
        }
    }

    /// The stack a window was taken out of is found by its new visible window,
    /// and does not hold the window any more.
    proof fn the_stack_is_found_again(self, rest: WorkspaceView, idx: int)
        requires
            self.wf(),
            self.no_doubles(),
            0 <= idx < self.containers.len(),
            self.containers.elements[idx].len() > 1,
            rest.containers.elements == self.containers.elements.update(
                idx,
                self.containers.elements[idx].remove(self.containers.elements[idx].focused),
            ),
            rest.monocle_container == self.monocle_container,
            rest.maximized_window == self.maximized_window,
            rest.floating_windows == self.floating_windows,
        ensures
            ({
                let left = rest.containers.elements[idx];
                let window = self.containers.elements[idx].elements[self.containers.elements[idx].focused];
                rest.container_idx(top_of(left)->0) == Some(idx) && top_of(left) is Some && idx_of(
                    left.elements,
                    window.id,
                ) is None
            }),
    {
        let container = self.containers.elements[idx];
        let window = container.elements[container.focused];
        let left = container.remove(container.focused);
        let id = top_of(left)->0;
        assert(has_id(id)(left.elements[left.focused]));
        assert(holds(id)(left));
        let from = if left.focused < container.focused {
            left.focused
        } else {
            left.focused + 1
        };
        assert(left.elements[left.focused] == container.elements[from]);
        assert(has_id(id)(container.elements[from]));
        assert forall|j: int| 0 <= j < idx implies !holds(id)(
            #[trigger] rest.containers.elements[j],
        ) by {
            assert(rest.containers.elements[j] == self.containers.elements[j]);
            if holds(id)(self.containers.elements[j]) {
                assert(holds(id)(self.containers.elements[idx]));
                two_containers_hold_it_twice(self.containers.elements, j, idx, id);
                self.tally_of_parts(id);
                assert(self.tally(id) <= 1);
            }
        }
        first_is(rest.containers.elements, holds(id), idx);
        tally_of_remove(container.elements, container.focused, window.id);
        tally_of_one(window, window.id);
        tally_of_lost_container(self.containers.elements, idx, window.id);
        tally_when_any(windows_in(self.containers.elements.remove(idx)), window.id);
        self.tally_of_parts(window.id);
        assert(self.tally(window.id) <= 1);
        tally_when_any(left.elements, window.id);
        first_when_any(left.elements, has_id(window.id));
    }

    /// Stacking everything and taking everything apart again both keep the order
    /// of the windows.
    pub proof fn stacking_keeps_the_order(self)
        requires
            self.no_doubles(),
        ensures
            windows_in(self.stack_all().containers.elements) == windows_in(
                self.containers.elements,
            ),
            windows_in(self.unstack_all().containers.elements) == windows_in(
                self.containers.elements,
            ),
    {
        let windows = windows_in(self.containers.elements);
        if self.containers.len() >= 2 {
            assert forall|id: WindowId| #[trigger] tally(windows, id) <= 1 by {
                self.tally_of_parts(id);
                assert(self.tally(id) <= 1);
            }
            a_stack_of_strangers_holds_them_all(windows);
            let after = self.stack_all();
            windows_in_one(after.containers.elements[0]);
            assert(after.containers.elements =~= seq![after.containers.elements[0]]);
        }
        windows_that_are_alone(windows);
    }

    /// Stacking everything and taking everything apart again both keep the
    /// window you were looking at.
    pub proof fn stacking_keeps_the_focused_window(self)
        requires
            self.wf(),
            self.no_doubles(),
            self.no_empty_containers(),
        ensures
            self.stack_all().focused_id() == self.focused_id(),
            self.unstack_all().focused_id() == self.focused_id(),
    {
        if self.containers.len() > 0 && !self.focus_outside_the_ring() {
            let windows = windows_in(self.containers.elements);
            let container = self.containers.elements[self.containers.focused];
            let id = top_of(container)->0;
            assert(has_id(id)(container.elements[container.focused]));
            assert(holds(id)(self.containers.elements[self.containers.focused]));
            crate::model::workspace::tiled_when_held(self.containers.elements, id);
            first_when_any(windows, has_id(id));
            if self.containers.len() >= 2 {
                assert forall|other: WindowId| #[trigger] tally(windows, other) <= 1 by {
                    self.tally_of_parts(other);
                    assert(self.tally(other) <= 1);
                }
                a_stack_of_strangers_holds_them_all(windows);
            }
            if self.has_stack() {
                let apart = all_alone(windows);
                let at = idx_of(windows, id)->0;
                assert(apart[at] == alone(windows[at]));
                assert(has_id(id)(apart[at].elements[0]));
                assert(holds(id)(apart[at]));
                first_when_any(apart, holds(id));
                let found = first_idx(apart, holds(id))->0;
                assert(apart[found] == alone(windows[found]));
            }
        }
    }
}

impl WorkspaceView {
    /// Focusing a window that is here focuses it, unless a maximized window or a
    /// monocle it is not part of covers it.
    pub proof fn focusing_a_window_focuses_it(self, id: WindowId)
        requires
            self.has_window(id),
            self.maximized_window is Some ==> self.maximized_window->0.id == id,
            self.monocle_container is Some && self.maximized_window is None ==> holds(id)(
                self.monocle_container->0,
            ),
        ensures
            self.focus_window(id).focused_id() == Some(id),
    {
        self.window_is_somewhere(id);
        first_when_any(self.floating_windows.elements, has_id(id));
        first_when_any(self.containers.elements, holds(id));
        if self.monocle_container is Some {
            first_when_any(self.monocle_container->0.elements, has_id(id));
        }
        if let Some(idx) = self.container_idx(id) {
            first_when_any(self.containers.elements[idx].elements, has_id(id));
        }
    }

    /// Taking in everything another workspace holds does not steal the focus.
    pub proof fn absorbing_keeps_the_focus(self, other: WorkspaceView)
        requires
            self.wf(),
        ensures
            self.focused_id() is Some ==> self.absorb(other).focused_id() == self.focused_id(),
    {
        let incoming = other.containers_to_hand_over();
        append_keeps_the_rest(self, incoming);
        if self.containers.len() > 0 {
            let grown = self.append_containers(incoming).containers;
            let at = self.containers.focused;
            assert(grown.elements[at] == self.containers.elements[at]);
        }
    }
}

/// Mirroring a layout twice on the same axis is nothing.
pub proof fn flipping_twice_is_nothing(flip: Flip, axis: Axis)
    ensures
        flip.toggled(axis).toggled(axis) == flip,
{
}

} // verus!
