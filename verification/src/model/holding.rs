//! What a container holds and shows, and what goes with it on its workspace.

use vstd::prelude::*;

use crate::geometry::Rect;
use crate::layout::tiling::tile_count;
use crate::model::container::{
    behind_the_top, focused_on, idx_of, inserted, stacked, without, ContainerView,
};
use crate::model::window::{has_id, WindowId, WindowView};
use crate::model::workspace::WorkspaceView;
use crate::seqs::{first_is, first_is_none};

verus! {

/// No window of the container has that handle.
pub open spec fn is_stranger(container: ContainerView, id: WindowId) -> bool {
    forall|i: int| 0 <= i < container.elements.len() ==> (#[trigger] container.elements[i]).id != id
}

proof fn a_stranger_is_not_found(container: ContainerView, id: WindowId)
    requires
        is_stranger(container, id),
    ensures
        idx_of(container.elements, id) is None,
{
    assert forall|i: int| 0 <= i < container.elements.len() implies !has_id(id)(
        #[trigger] container.elements[i],
    ) by {}
    first_is_none(container.elements, has_id(id));
}

/// A new window goes on top of a stack, behind all the others, and is the one to see.
/// Put in at an index it stands there, and is the one to see as well.
pub proof fn a_new_window_goes_on_top(container: ContainerView, window: WindowView, idx: int)
    requires
        is_stranger(container, window.id),
        0 <= idx <= container.elements.len(),
    ensures
        stacked(container, window).elements == container.elements + seq![window],
        stacked(container, window).focused == container.elements.len(),
        inserted(container, idx, window).elements == container.elements.take(idx) + seq![window]
            + container.elements.skip(idx),
        inserted(container, idx, window).focused == idx,
{
    a_stranger_is_not_found(container, window.id);
    assert(container.elements.insert(idx, window) =~= container.elements.take(idx) + seq![window]
        + container.elements.skip(idx));
}

/// A window that is in the container comes to the front of it where it is, and taken
/// out it is the only one to go.
pub proof fn a_window_is_found_in_its_container(container: ContainerView, k: int)
    requires
        0 <= k < container.elements.len(),
        forall|i: int|
            0 <= i < k ==> (#[trigger] container.elements[i]).id != container.elements[k].id,
    ensures
        ({
            let window = container.elements[k];
            let found = focused_on(container, window.id);
            &&& found.elements == container.elements
            &&& found.focused == k
            &&& stacked(container, window) == found
            &&& inserted(container, 0, window) == found
            &&& without(container, window.id).elements == container.elements.take(k)
                + container.elements.skip(k + 1)
        }),
{
    let id = container.elements[k].id;
    assert forall|i: int| 0 <= i < k implies !has_id(id)(#[trigger] container.elements[i]) by {}
    first_is(container.elements, has_id(id), k);
    assert(container.elements.remove(k) =~= container.elements.take(k) + container.elements.skip(
        k + 1,
    ));
}

/// A window that is not in the container changes nothing when it is looked for or
/// taken out.
pub proof fn a_stranger_changes_nothing(container: ContainerView, id: WindowId)
    requires
        is_stranger(container, id),
    ensures
        focused_on(container, id) == container,
        without(container, id) == container,
{
    a_stranger_is_not_found(container, id);
}

/// What a container hides is everything in it but the window with the focus.
pub proof fn everything_but_the_top_is_hidden(container: ContainerView, n: int, id: WindowId)
    requires
        0 <= n <= container.elements.len(),
    ensures
        behind_the_top(container, n).contains(id) <==> exists|i: int|
            0 <= i < n && i != container.focused && (#[trigger] container.elements[i]).id == id,
        behind_the_top(container, n).len() == n - if 0 <= container.focused < n {
            1int
        } else {
            0int
        },
    decreases n,
{
    if n > 0 {
        everything_but_the_top_is_hidden(container, n - 1, id);
        let (before, after) = (behind_the_top(container, n - 1), behind_the_top(container, n));
        if n - 1 != container.focused {
            let last = container.elements[n - 1].id;
            assert(after == before.push(last));
            crate::model::changes::lemma_push_contains(before, last, id);
        }
        if exists|i: int|
            0 <= i < n && i != container.focused && (#[trigger] container.elements[i]).id == id {
            let i = choose|i: int|
                0 <= i < n && i != container.focused && (#[trigger] container.elements[i]).id == id;
            assert(i < n - 1 || i == n - 1);
        }
    }
}

/// How much the tile of a container was resized by hand.
pub open spec fn resized(workspace: WorkspaceView, c: int) -> Option<Rect> {
    if 0 <= c < workspace.resize_dimensions.len() {
        workspace.resize_dimensions[c]
    } else {
        None
    }
}

/// A container that comes in takes no size with it, and every other one keeps what it
/// was resized by.
pub proof fn a_new_container_leaves_the_sizes_alone(
    workspace: WorkspaceView,
    idx: int,
    container: ContainerView,
    c: int,
)
    requires
        workspace.resize_dimensions.len() == workspace.containers.elements.len(),
        0 <= idx <= workspace.containers.elements.len(),
        0 <= c < workspace.containers.elements.len(),
    ensures
        ({
            let after = workspace.insert_container(idx, container);
            &&& after.containers.elements[idx] == container
            &&& resized(after, idx) is None
            &&& c < idx ==> after.containers.elements[c] == workspace.containers.elements[c]
                && resized(after, c) == resized(workspace, c)
            &&& c >= idx ==> after.containers.elements[c + 1] == workspace.containers.elements[c]
                && resized(after, c + 1) == resized(workspace, c)
            &&& after.containers.focused == idx
            &&& !after.focus_is_floating
        }),
{
}

/// A container that goes takes its size with it, and every other one keeps what it was
/// resized by.
pub proof fn a_lost_container_leaves_the_sizes_alone(workspace: WorkspaceView, idx: int, c: int)
    requires
        workspace.resize_dimensions.len() == workspace.containers.elements.len(),
        0 <= idx < workspace.containers.elements.len(),
        0 <= c < workspace.containers.elements.len(),
    ensures
        ({
            let after = workspace.remove_container(idx);
            &&& c < idx ==> after.containers.elements[c] == workspace.containers.elements[c]
                && resized(after, c) == resized(workspace, c)
            &&& c > idx ==> after.containers.elements[c - 1] == workspace.containers.elements[c]
                && resized(after, c - 1) == resized(workspace, c)
            &&& after.resize_dimensions.len() == workspace.resize_dimensions.len() - 1
        }),
{
}

/// A workspace that does not tile has no tiles, and one that does has one for every
/// container.
pub proof fn tiles_are_there_while_tiling(workspace: WorkspaceView, area: Rect, a: i32, b: i32)
    ensures
        ({
            let after = workspace.laid_out(area, a, b, crate::model::scale::Scale::one());
            &&& !workspace.tile ==> after.latest_layout.len() == 0
            &&& workspace.tile ==> after.latest_layout.len() == workspace.containers.elements.len()
            &&& after.containers == workspace.containers
            &&& after.resize_dimensions.len() == workspace.containers.elements.len()
            &&& forall|c: int|
                0 <= c < workspace.containers.elements.len() ==> #[trigger] resized(after, c)
                    == resized(workspace, c)
        }),
{
    if workspace.tile && workspace.containers.len() > 0 {
        let scale = crate::model::scale::Scale::one();
        let len = workspace.containers.len();
        tile_count(
            workspace.resolved(len),
            workspace.area(area, a, scale),
            len,
            crate::model::workspace::fitted(workspace.resize_dimensions, len),
            workspace.min_tile(scale).at_least_zero(),
        );
    }
}

/// A size belongs to a place: when containers trade places, or one comes to the front,
/// every place keeps what it was resized by.
pub proof fn a_place_keeps_its_size(
    workspace: WorkspaceView,
    idx: int,
    place: int,
)
    requires
        workspace.resize_dimensions.len() == workspace.containers.elements.len(),
        0 <= place < workspace.containers.elements.len(),
    ensures
        resized(workspace.swap_focused(idx), place) == resized(workspace, place),
        resized(workspace.promote(), place) == resized(workspace, place),
        resized(workspace.focus_container(idx), place) == resized(workspace, place),
{
}

/// Collapsing everything into one stack, and taking every stack apart, starts over with
/// no sizes at all.
pub proof fn a_new_arrangement_has_no_sizes(workspace: WorkspaceView, place: int)
    ensures
        workspace.containers.elements.len() >= 2 ==> resized(workspace.stack_all(), place) is None,
        (exists|c: int|
            0 <= c < workspace.containers.elements.len() && (
            #[trigger] workspace.containers.elements[c]).elements.len() > 1) ==> resized(
            workspace.unstack_all(),
            place,
        ) is None,
{
    if exists|c: int|
        0 <= c < workspace.containers.elements.len() && (
        #[trigger] workspace.containers.elements[c]).elements.len() > 1 {
        let c = choose|c: int|
            0 <= c < workspace.containers.elements.len() && (
            #[trigger] workspace.containers.elements[c]).elements.len() > 1;
        assert((|x: ContainerView| x.len() > 1)(workspace.containers.elements[c]));
        assert(workspace.has_stack());
    }
}

/// A container that leaves monocle mode goes behind the one it was behind, wherever that
/// is now, to the front when it was in front, and to the end when the other is gone.
pub proof fn leaving_monocle_mode_goes_behind_the_same_container(workspace: WorkspaceView)
    requires
        workspace.monocle_container is Some,
    ensures
        ({
            let after = workspace.toggle_monocle();
            let (old, c) = (workspace.containers.elements, workspace.monocle_container->0);
            &&& after.monocle_container is None
            &&& workspace.monocle_restore is None ==> after.containers.elements == seq![c] + old
                && after.containers.focused == 0
            &&& workspace.monocle_restore matches Some(id) ==> (match workspace.container_idx(id) {
                Some(k) => 0 <= k < old.len() ==> after.containers.elements == old.take(k + 1)
                    + seq![c] + old.skip(k + 1) && after.containers.focused == k + 1,
                None => after.containers.elements == old + seq![c] && after.containers.focused
                    == old.len(),
            })
        }),
{
    let (old, c) = (workspace.containers.elements, workspace.monocle_container->0);
    let after = workspace.toggle_monocle();
    if let Some(id) = workspace.monocle_restore {
        match workspace.container_idx(id) {
            Some(k) => {
                if 0 <= k < old.len() {
                    assert(old.insert(k + 1, c) =~= old.take(k + 1) + seq![c] + old.skip(k + 1));
                }
            },
            None => {
                assert(old.insert(old.len() as int, c) =~= old + seq![c]);
            },
        }
    } else {
        assert(old.insert(0, c) =~= seq![c] + old);
    }
}

/// A window that is no longer maximized goes back to where it came from: among the
/// floating windows to its place, with a container of its own behind the container it was
/// behind, or to the end when that is gone, and into the stack it came out of, or to the
/// end when that is gone.
pub proof fn a_window_that_was_maximized_goes_back(workspace: WorkspaceView)
    requires
        workspace.maximized_window is Some,
        workspace.maximized_restore is Some,
    ensures
        ({
            let after = workspace.toggle_maximize();
            let window = workspace.maximized_window->0;
            let restore = workspace.maximized_restore->0;
            let old = workspace.containers.elements;
            let floating = workspace.floating_windows.elements;
            let found = match restore.anchor {
                Some(id) => workspace.container_idx(id),
                None => None,
            };
            let alone = crate::model::ring::RingView { elements: seq![window], focused: 0 };
            &&& after.maximized_window is None
            &&& restore.floating ==> after.containers == workspace.containers
                && after.focus_is_floating && (restore.window <= floating.len()
                ==> after.floating_windows.elements == floating.take(restore.window as int) + seq![
                window,
            ] + floating.skip(restore.window as int) && after.floating_windows.focused
                == restore.window)
            &&& !restore.floating ==> after.floating_windows == workspace.floating_windows
                && !after.focus_is_floating
            &&& !restore.floating && restore.own_container && restore.anchor is None
                ==> after.containers.elements == seq![alone] + old
            &&& !restore.floating && restore.own_container && restore.anchor is Some && found is None
                ==> after.containers.elements == old + seq![alone]
            &&& !restore.floating && restore.own_container && found is Some && 0 <= found->0
                < old.len() ==> after.containers.elements == old.take(found->0 + 1) + seq![alone]
                + old.skip(found->0 + 1)
            &&& !restore.floating && !restore.own_container && found is None
                && workspace.container_idx(window.id) is None ==> after.containers.elements == old
                + seq![alone]
            &&& !restore.floating && !restore.own_container && found is Some && 0 <= found->0
                < old.len() && is_stranger(old[found->0], window.id) && restore.window
                <= old[found->0].elements.len() ==> {
                let stack = old[found->0].elements;
                &&& after.containers.focused == found->0
                &&& after.containers.elements[found->0].elements == stack.take(
                    restore.window as int,
                ) + seq![window] + stack.skip(restore.window as int)
                &&& after.containers.elements[found->0].focused == restore.window
            }
        }),
{
    let window = workspace.maximized_window->0;
    let restore = workspace.maximized_restore->0;
    let old = workspace.containers.elements;
    let floating = workspace.floating_windows.elements;
    let off = WorkspaceView { maximized_window: None, maximized_restore: None, ..workspace };
    let alone = crate::model::container::alone(window);
    if restore.floating {
        if restore.window <= floating.len() {
            assert(floating.insert(restore.window as int, window) =~= floating.take(
                restore.window as int,
            ) + seq![window] + floating.skip(restore.window as int));
        }
    } else if restore.own_container {
        match restore.anchor {
            None => {
                assert(old.insert(0, alone) =~= seq![alone] + old);
            },
            Some(id) => match off.container_idx(id) {
                Some(k) => {
                    if 0 <= k < old.len() {
                        assert(old.insert(k + 1, alone) =~= old.take(k + 1) + seq![alone]
                            + old.skip(k + 1));
                    }
                },
                None => {
                    assert(old.insert(old.len() as int, alone) =~= old + seq![alone]);
                },
            },
        }
    } else if let Some(id) = restore.anchor {
        if let Some(k) = off.container_idx(id) {
            if 0 <= k < old.len() && is_stranger(old[k], window.id) && restore.window
                <= old[k].elements.len() {
                a_new_window_goes_on_top(old[k], window, restore.window as int);
            }
        }
        assert(old.push(alone) =~= old + seq![alone]);
    } else {
        assert(old.push(alone) =~= old + seq![alone]);
    }
}

} // verus!
