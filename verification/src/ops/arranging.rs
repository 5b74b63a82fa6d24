//! What becomes of the windows of a workspace when they are arranged anew.

use vstd::prelude::*;

use crate::geometry::{Axis, Direction};
use crate::layout::Layout;
use crate::model::census::{
    tally, tally_of_lost_container, tally_of_one, tally_of_remove, tally_when_any,
};
use crate::model::changes::ChangesView;
use crate::model::container::{holds, idx_of, ContainerView};
use crate::model::laws::two_containers_hold_it_twice;
use crate::model::ring::CycleDirection;
use crate::model::state::StateView;
use crate::model::window::{has_id, WindowId, WindowView};
use crate::model::workspace::WorkspaceView;
use crate::neighbours::{is_neighbour, leads_somewhere, the_neighbour_is_picked};
use crate::ops::growing::focused_workspace_of;
use crate::ops::steering::{at, has_tiles, is_ready, on_front, only_touches, shown, stays};
use crate::ops::travel::{containers_at, exists_at, has_something_to_move};
use crate::seqs::{any, first_is, first_when_any};

verus! {

/// A tiled window is found where it is: in no other container, at no other place of
/// its container, and nowhere outside the tiles.
pub proof fn a_tiled_window_is_found(workspace: WorkspaceView, c: int, k: int)
    requires
        workspace.no_doubles(),
        0 <= c < workspace.containers.elements.len(),
        0 <= k < workspace.containers.elements[c].elements.len(),
    ensures
        ({
            let id = workspace.containers.elements[c].elements[k].id;
            &&& workspace.container_idx(id) == Some(c)
            &&& idx_of(workspace.containers.elements[c].elements, id) == Some(k)
            &&& idx_of(workspace.floating_windows.elements, id) is None
            &&& forall|i: int|
                0 <= i < workspace.containers.elements.len() && i != c ==> idx_of(
                    (#[trigger] workspace.containers.elements[i]).elements,
                    id,
                ) is None
            &&& idx_of(workspace.containers.elements[c].elements.remove(k), id) is None
            &&& workspace.maximized_window is Some ==> workspace.maximized_window->0.id != id
            &&& workspace.monocle_container is Some ==> !holds(id)(workspace.monocle_container->0)
        }),
{
    let containers = workspace.containers.elements;
    let container = containers[c];
    let id = container.elements[k].id;
    assert(has_id(id)(container.elements[k]));
    assert(holds(id)(containers[c]));
    workspace.tally_of_parts(id);
    assert(workspace.tally(id) <= 1);
    assert forall|i: int| 0 <= i < containers.len() && i != c implies !holds(id)(
        #[trigger] containers[i],
    ) by {
        if holds(id)(containers[i]) {
            if i < c {
                two_containers_hold_it_twice(containers, i, c, id);
            } else {
                two_containers_hold_it_twice(containers, c, i, id);
            }
        }
    }
    first_is(containers, holds(id), c);
    assert forall|i: int| 0 <= i < containers.len() && i != c implies idx_of(
        (#[trigger] containers[i]).elements,
        id,
    ) is None by {
        first_when_any(containers[i].elements, has_id(id));
        assert(!holds(id)(containers[i]));
    }
    tally_of_remove(container.elements, k, id);
    tally_of_one(container.elements[k], id);
    tally_of_lost_container(containers, c, id);
    tally_when_any(crate::model::workspace::windows_in(containers.remove(c)), id);
    tally_when_any(container.elements.remove(k), id);
    first_when_any(container.elements.remove(k), has_id(id));
    assert forall|j: int| 0 <= j < k implies !has_id(id)(#[trigger] container.elements[j]) by {
        if has_id(id)(container.elements[j]) {
            assert(has_id(id)(container.elements.remove(k)[j]));
        }
    }
    first_is(container.elements, has_id(id), k);
    // Outside the tiles there is no other one.

    tally_when_any(container.elements, id);
    let floating = workspace.floating_windows.elements;
    tally_when_any(floating, id);
    if workspace.monocle_container is Some {
        tally_when_any(workspace.monocle_container->0.elements, id);
    }
    if workspace.maximized_window is Some {
        let maximized = seq![workspace.maximized_window->0];
        tally_when_any(maximized, id);
        if workspace.maximized_window->0.id == id {
            assert(has_id(id)(maximized[0]));
        }
    }
    first_when_any(floating, has_id(id));
}

/// The containers without the window at `k` of the container at `c`, which goes too
/// when that window was alone in it.
pub open spec fn taken_out(containers: Seq<ContainerView>, c: int, k: int) -> Seq<
    Seq<WindowView>,
> {
    let windows = Seq::new(containers.len(), |i: int| containers[i].elements);
    if containers[c].elements.len() == 1 {
        windows.remove(c)
    } else {
        windows.update(c, containers[c].elements.remove(k))
    }
}

/// The windows of each container.
pub open spec fn stacks(containers: Seq<ContainerView>) -> Seq<Seq<WindowView>> {
    Seq::new(containers.len(), |i: int| containers[i].elements)
}

/// Floating the focused tile takes its window out of the tiles and to the end of
/// the floating list, with the focus.
pub proof fn a_tiled_window_goes_to_the_floating_ones(state: StateView)
    requires
        has_something_to_move(state),
        focused_workspace_of(state).wf(),
        focused_workspace_of(state).no_doubles(),
        ({
            let c = focused_workspace_of(state).containers;
            c.elements[c.focused].elements.len() > 0
        }),
    ensures
        ({
            let (after, r) = state.toggle_float();
            let old = focused_workspace_of(state);
            let now = focused_workspace_of(after);
            let c = old.containers.focused;
            let k = old.containers.elements[c].focused;
            let window = old.containers.elements[c].elements[k];
            &&& r is Ok
            &&& stays(state, after)
            &&& only_touches(state, after, state.monitors.focused, on_front(state))
            &&& stacks(now.containers.elements) == taken_out(old.containers.elements, c, k)
            &&& now.floating_windows.elements == old.floating_windows.elements.push(window)
            &&& now.floating_windows.focused == old.floating_windows.elements.len()
            &&& now.focus_is_floating
            &&& r->Ok_0.focus == Some(window.id)
        }),
{
    let old = focused_workspace_of(state);
    let c = old.containers.focused;
    let k = old.containers.elements[c].focused;
    assert(old.containers.elements[c].wf());
    let t = state.stamped(old);
    assert(t.no_doubles()) by {
        assert forall|id: WindowId| #[trigger] t.tally(id) <= 1 by {
            assert(old.tally(id) <= 1);
        }
    }
    a_tiled_window_is_found(t, c, k);
    let window = old.containers.elements[c].elements[k];
    let after = state.toggle_float().0;
    let now = focused_workspace_of(after);
    assert(t.focused_id() == Some(window.id));
    assert(now.containers == t.remove_window(window.id).0.containers);
    assert(stacks(now.containers.elements) =~= taken_out(old.containers.elements, c, k));
}

/// A window that is gone leaves the tiles, with its container when it was alone in
/// it, and no other window moves to another container.
pub proof fn a_window_that_is_gone_leaves_its_container(
    state: StateView,
    m: int,
    w: int,
    c: int,
    k: int,
)
    requires
        state.monitors.wf(),
        exists_at(state, m, w),
        at(state, m, w).no_doubles(),
        0 <= c < containers_at(state, m, w).len(),
        0 <= k < containers_at(state, m, w)[c].elements.len(),
        ({
            let id = containers_at(state, m, w)[c].elements[k].id;
            &&& state.locate(id) == Some((m, w))
            &&& !any(state.pending_windows, has_id(id))
        }),
    ensures
        ({
            let id = containers_at(state, m, w)[c].elements[k].id;
            let (after, r) = state.remove_window(id);
            &&& r is Ok
            &&& stays(state, after)
            &&& only_touches(state, after, m, w)
            &&& stacks(containers_at(after, m, w)) == taken_out(containers_at(state, m, w), c, k)
            &&& at(after, m, w).floating_windows == at(state, m, w).floating_windows
            &&& at(after, m, w).monocle_container == at(state, m, w).monocle_container
            &&& at(after, m, w).maximized_window == at(state, m, w).maximized_window
            &&& after.pending_windows == state.pending_windows
        }),
{
    let id = containers_at(state, m, w)[c].elements[k].id;
    let old = at(state, m, w);
    let t = state.stamped(old);
    assert(t.no_doubles()) by {
        assert forall|other: WindowId| #[trigger] t.tally(other) <= 1 by {
            assert(old.tally(other) <= 1);
        }
    }
    a_tiled_window_is_found(t, c, k);
    first_when_any(state.pending_windows, has_id(id));
    let after = state.remove_window(id).0;
    assert(stacks(containers_at(after, m, w)) =~= taken_out(old.containers.elements, c, k));
}

/// When a tiled window is gone, the focus stays on the container it was on. When the
/// container with the focus goes with the window, the focus goes to the one that moves up,
/// or to the last one when there is none. A stack that stays shows the window it showed,
/// or the one that moves up when that one is gone.
pub proof fn what_is_left_keeps_the_focus(workspace: WorkspaceView, c: int, k: int)
    requires
        workspace.no_doubles(),
        0 <= c < workspace.containers.elements.len(),
        0 <= k < workspace.containers.elements[c].elements.len(),
        0 <= workspace.containers.focused < workspace.containers.elements.len(),
        0 <= workspace.containers.elements[c].focused
            < workspace.containers.elements[c].elements.len(),
    ensures
        ({
            let old = workspace.containers;
            let stack = old.elements[c];
            let id = stack.elements[k].id;
            let (after, window) = workspace.remove_window(id);
            let (new, f) = (after.containers, old.focused);
            let last = old.elements.len() - 1;
            &&& window == Some(stack.elements[k])
            &&& stack.elements.len() == 1 ==> {
                &&& new.elements == old.elements.remove(c)
                &&& c < f ==> new.focused == f - 1
                &&& c > f ==> new.focused == f
                &&& c == f && f < last ==> new.focused == f
                &&& c == f && f == last && last > 0 ==> new.focused == last - 1
            }
            &&& stack.elements.len() > 1 ==> {
                &&& new.focused == f
                &&& new.elements[c].elements == stack.elements.remove(k)
                &&& k != stack.focused ==> shown(new.elements[c]) == shown(stack)
                &&& k == stack.focused && k + 1 < stack.elements.len() ==> shown(new.elements[c])
                    == Some(stack.elements[k + 1].id)
                &&& k == stack.focused && k + 1 == stack.elements.len() ==> shown(new.elements[c])
                    == Some(stack.elements[k - 1].id)
            }
        }),
{
    a_tiled_window_is_found(workspace, c, k);
}

/// Stacking in a direction puts the focused window on top of the neighbour of the
/// focused tile there and the focus on it, and takes it out of its own container.
pub proof fn stacking_goes_onto_the_neighbour(state: StateView, direction: Direction)
    requires
        has_something_to_move(state),
        has_tiles(focused_workspace_of(state)),
        focused_workspace_of(state).wf(),
        focused_workspace_of(state).no_doubles(),
        ({
            let workspace = focused_workspace_of(state);
            let c = workspace.containers;
            &&& c.elements[c.focused].elements.len() > 0
            &&& leads_somewhere(workspace.latest_layout, c.focused, direction)
        }),
    ensures
        ({
            let (after, r) = state.stack(direction);
            let old = focused_workspace_of(state);
            let now = focused_workspace_of(after);
            let c = old.containers.focused;
            let k = old.containers.elements[c].focused;
            let window = old.containers.elements[c].elements[k];
            let alone = old.containers.elements[c].elements.len() == 1;
            let target = if alone && now.containers.focused >= c {
                now.containers.focused + 1
            } else {
                now.containers.focused
            };
            let onto = now.containers.elements[now.containers.focused];
            &&& r is Ok
            &&& stays(state, after)
            &&& only_touches(state, after, state.monitors.focused, on_front(state))
            &&& is_neighbour(old.latest_layout, c, direction, target)
            &&& onto.elements == old.containers.elements[target].elements.push(window)
            &&& shown(onto) == Some(window.id)
            &&& stacks(now.containers.elements).update(
                now.containers.focused,
                old.containers.elements[target].elements,
            ) == taken_out(old.containers.elements, c, k)
            &&& r->Ok_0.focus == Some(window.id)
        }),
{
    let old = focused_workspace_of(state);
    let c = old.containers.focused;
    let container = old.containers.elements[c];
    let k = container.focused;
    assert(container.wf());
    the_neighbour_is_picked(old.latest_layout, c, direction);
    let target = crate::geometry::nearest(old.latest_layout, c, direction)->0;
    let t = state.stamped(old);
    assert(t.no_doubles()) by {
        assert forall|id: WindowId| #[trigger] t.tally(id) <= 1 by {
            assert(old.tally(id) <= 1);
        }
    }
    a_tiled_window_is_found(t, c, k);
    let window = container.elements[k];
    assert(idx_of(t.containers.elements[target].elements, window.id) is None);
    let value = t.stack_into(target);
    let now = focused_workspace_of(state.stack(direction).0);
    assert(now.containers == value.containers);
    let f = value.containers.focused;
    let alone = container.elements.len() == 1;
    assert(f == if alone && target > c {
        target - 1
    } else {
        target
    });
    assert(value.focused_id() == Some(window.id));
    assert(stacks(now.containers.elements).update(f, old.containers.elements[target].elements)
        =~= taken_out(old.containers.elements, c, k));
}

/// Unstacking takes the visible window of the focused container out of it and puts
/// it in a container of its own right behind, with the focus. A window that is
/// alone stays where it is.
pub proof fn unstacking_goes_right_behind(state: StateView)
    requires
        has_something_to_move(state),
        focused_workspace_of(state).wf(),
        ({
            let c = focused_workspace_of(state).containers;
            c.elements[c.focused].elements.len() > 0
        }),
    ensures
        ({
            let (after, r) = state.unstack();
            let old = focused_workspace_of(state).containers;
            let now = focused_workspace_of(after).containers;
            let c = old.focused;
            let container = old.elements[c];
            let window = container.elements[container.focused];
            &&& r is Ok
            &&& stays(state, after)
            &&& only_touches(state, after, state.monitors.focused, on_front(state))
            &&& container.elements.len() == 1 ==> now == old && r->Ok_0 == ChangesView::none()
            &&& container.elements.len() > 1 ==> {
                &&& stacks(now.elements) == stacks(old.elements).take(c) + seq![
                    container.elements.remove(container.focused),
                    seq![window],
                ] + stacks(old.elements).skip(c + 1)
                &&& now.focused == c + 1
                &&& r->Ok_0.focus == Some(window.id)
            }
        }),
{
    let workspace = focused_workspace_of(state);
    let old = workspace.containers;
    let c = old.focused;
    let container = old.elements[c];
    assert(container.wf());
    let window = container.elements[container.focused];
    if container.elements.len() > 1 {
        let now = focused_workspace_of(state.unstack().0).containers;
        let t = state.stamped(workspace);
        assert(now == t.unstack().containers);
        assert(t.unstack().focused_id() == Some(window.id));
        assert(stacks(now.elements) =~= stacks(old.elements).take(c) + seq![
            container.elements.remove(container.focused),
            seq![window],
        ] + stacks(old.elements).skip(c + 1));
    }
}

/// Stacking everything leaves one container, and taking everything apart leaves
/// none with more than one window.
pub proof fn stacking_all_leaves_one_and_unstacking_all_leaves_singles(state: StateView)
    requires
        is_ready(state),
        focused_workspace_of(state).wf(),
    ensures
        ({
            let old = focused_workspace_of(state).containers;
            let one = focused_workspace_of(state.stack_all().0).containers;
            let apart = focused_workspace_of(state.unstack_all().0).containers;
            &&& state.stack_all().1 is Ok
            &&& old.elements.len() >= 1 ==> one.elements.len() == 1
            &&& state.unstack_all().1 is Ok
            &&& forall|i: int|
                0 <= i < apart.elements.len() ==> (#[trigger] apart.elements[i]).elements.len() <= 1
        }),
{
    let workspace = focused_workspace_of(state);
    let old = workspace.containers;
    let t = state.stamped(workspace);
    let apart = focused_workspace_of(state.unstack_all().0).containers;
    if !t.has_stack() {
        assert forall|i: int| 0 <= i < apart.elements.len() implies (
        #[trigger] apart.elements[i]).elements.len() <= 1 by {
            let p = |c: ContainerView| c.len() > 1;
            assert(!p(old.elements[i]));
        }
    }
}

/// Only the layout of the focused workspace changes: the windows stay where they
/// are in their containers, and the workspace is laid out again.
pub open spec fn only_lays_out(state: StateView, after: StateView) -> bool {
    &&& stays(state, after)
    &&& only_touches(state, after, state.monitors.focused, on_front(state))
    &&& focused_workspace_of(after).containers == focused_workspace_of(state).containers
    &&& focused_workspace_of(after).floating_windows == focused_workspace_of(state).floating_windows
}

/// Changing the layout gives the focused workspace that layout whatever its layout
/// rules say, flipping it mirrors it on that axis and no other, and toggling tiling
/// turns it off and on. Each of them lays the workspace out again and moves no
/// window to another container.
pub proof fn a_layout_is_what_it_is_set_to(state: StateView, layout: Layout, axis: Axis, len: int)
    requires
        is_ready(state),
    ensures
        ({
            let old = focused_workspace_of(state);
            let changed = focused_workspace_of(state.change_layout(layout).0);
            let flipped = focused_workspace_of(state.flip_layout(axis).0);
            let toggled = focused_workspace_of(state.toggle_tiling().0);
            &&& state.change_layout(layout).1 is Ok
            &&& only_lays_out(state, state.change_layout(layout).0)
            &&& changed.layout == layout
            &&& changed.resolved(len) == layout
            &&& changed.layout_flip == old.layout_flip
            &&& changed.tile == old.tile
            &&& state.change_layout(layout).1->Ok_0.retiled.len() == 1
            &&& state.flip_layout(axis).1 is Ok
            &&& only_lays_out(state, state.flip_layout(axis).0)
            &&& flipped.layout == old.layout
            &&& flipped.layout_rules == old.layout_rules
            &&& flipped.layout_flip.horizontal == if axis is Horizontal {
                !old.layout_flip.horizontal
            } else {
                old.layout_flip.horizontal
            }
            &&& flipped.layout_flip.vertical == if axis is Vertical {
                !old.layout_flip.vertical
            } else {
                old.layout_flip.vertical
            }
            &&& flipped.tile == old.tile
            &&& state.toggle_tiling().1 is Ok
            &&& only_lays_out(state, state.toggle_tiling().0)
            &&& toggled.tile == !old.tile
            &&& toggled.layout == old.layout
            &&& toggled.layout_flip == old.layout_flip
        }),
{
    let changed = focused_workspace_of(state.change_layout(layout).0);
    assert(changed.layout_rules == Map::<usize, Layout>::empty());
    assert(!exists|key: usize|
        crate::model::workspace::is_highest_rule(changed.layout_rules, len, key));
}

/// The layout a step goes to: they come in one order, and round again.
pub open spec fn layout_after(layout: Layout) -> Layout {
    match layout {
        Layout::Bsp => Layout::Columns,
        Layout::Columns => Layout::Rows,
        Layout::Rows => Layout::VerticalStack,
        Layout::VerticalStack => Layout::HorizontalStack,
        Layout::HorizontalStack => Layout::UltrawideVerticalStack,
        Layout::UltrawideVerticalStack => Layout::Grid,
        Layout::Grid => Layout::Bsp,
    }
}

/// Cycling the layout on goes to the next one, and cycling it back to the one before.
pub proof fn cycling_the_layout_goes_to_the_next(state: StateView, direction: CycleDirection)
    requires
        is_ready(state),
    ensures
        ({
            let (after, r) = state.cycle_layout(direction);
            let (old, new) = (
                focused_workspace_of(state).layout,
                focused_workspace_of(after).layout,
            );
            &&& r is Ok
            &&& only_lays_out(state, after)
            &&& direction is Next ==> new == layout_after(old)
            &&& direction is Previous ==> layout_after(new) == old
        }),
{
    let layout = focused_workspace_of(state).layout;
    a_layout_is_what_it_is_set_to(state, layout.cycle(direction), Axis::Horizontal, 0);
}

/// A layout rule is in force from its number of containers on, until the next rule,
/// and the layout of the workspace is in force below the first of them.
pub proof fn a_layout_rule_holds_until_the_next_one(workspace: WorkspaceView, key: usize, len: int)
    ensures
        workspace.layout_rules.contains_key(key) && key <= len && (forall|other: usize|
            key < other && other <= len ==> !#[trigger] workspace.layout_rules.contains_key(other))
            ==> workspace.resolved(len) == workspace.layout_rules[key],
        (forall|other: usize| other <= len ==> !#[trigger] workspace.layout_rules.contains_key(
            other,
        )) ==> workspace.resolved(len) == workspace.layout,
{
    let rules = workspace.layout_rules;
    if rules.contains_key(key) && key <= len && (forall|other: usize|
        key < other && other <= len ==> !#[trigger] workspace.layout_rules.contains_key(other)) {
        assert(crate::model::workspace::is_highest_rule(rules, len, key));
        let found = choose|k: usize| crate::model::workspace::is_highest_rule(rules, len, k);
        assert(rules.dom().contains(found) && rules.dom().contains(key));
        assert(found == key);
    }
    if forall|other: usize| other <= len ==> !#[trigger] workspace.layout_rules.contains_key(other) {
        assert forall|k: usize| !crate::model::workspace::is_highest_rule(rules, len, k) by {
            if rules.dom().contains(k) {
                assert(rules.contains_key(k));
            }
        }
    }
}

} // verus!
