//! What becomes of a container that is dragged somewhere and dropped.

use vstd::prelude::*;

use crate::error::ErrorView;
use crate::geometry::Rect;
use crate::model::changes::{ChangesView, WorkspaceRef};
use crate::model::state::{covers, StateView};
use crate::model::window::WindowId;
use crate::ops::arranging::a_tiled_window_is_found;
use crate::ops::outcome::is_under;
use crate::ops::steering::at;
use crate::ops::travel::{
    a_refresh_keeps_the_containers, containers_at, exists_at, others_keep_theirs,
};
use crate::seqs::{first_idx, first_is, first_is_none};

verus! {

/// The point lies on the rectangle.
pub open spec fn is_on(r: Rect, x: i32, y: i32) -> bool {
    r.left <= x < r.right && r.top <= y < r.bottom
}

/// The first of the rectangles with the point on it.
pub open spec fn is_first_hit(rects: Seq<Rect>, x: i32, y: i32, k: int) -> bool {
    &&& 0 <= k < rects.len()
    &&& is_on(rects[k], x, y)
    &&& forall|i: int| 0 <= i < k ==> !is_on(#[trigger] rects[i], x, y)
}

/// The point is on the display at `m`, and on none before it.
pub open spec fn is_dropped_on(state: StateView, x: i32, y: i32, m: int) -> bool {
    &&& 0 <= m < state.monitors.elements.len()
    &&& is_on(state.monitors.elements[m].size, x, y)
    &&& forall|i: int|
        0 <= i < m ==> !is_on((#[trigger] state.monitors.elements[i]).size, x, y)
}

/// The window is the one at `k` in the container at `c` of the workspace at `w` on the
/// monitor at `m`, and nowhere else.
pub open spec fn is_tiled_at(state: StateView, m: int, w: int, c: int, k: int) -> bool {
    &&& !state.is_paused
    &&& exists_at(state, m, w)
    &&& at(state, m, w).no_doubles()
    &&& 0 <= c < containers_at(state, m, w).len()
    &&& 0 <= k < containers_at(state, m, w)[c].elements.len()
    &&& state.locate(containers_at(state, m, w)[c].elements[k].id) == Some((m, w))
}

proof fn a_hit_is_found(rects: Seq<Rect>, x: i32, y: i32, k: int)
    requires
        is_first_hit(rects, x, y, k),
    ensures
        first_idx(rects, is_under(x, y)) == Some(k),
{
    assert forall|i: int| 0 <= i < k implies !is_under(x, y)(#[trigger] rects[i]) by {}
    first_is(rects, is_under(x, y), k);
}

proof fn the_display_is_found(state: StateView, x: i32, y: i32, m: int)
    requires
        is_dropped_on(state, x, y, m),
    ensures
        state.monitor_at(x, y) == Some(m),
{
    let all = state.monitors.elements;
    assert forall|i: int| 0 <= i < m implies !covers(x, y)(#[trigger] all[i]) by {}
    first_is(all, covers(x, y), m);
}

/// A window dropped on another tile of its workspace trades places with it: the two
/// containers are swapped, the dropped one has the focus, and nothing else moves.
/// Dropped back on its own tile it stays where it was.
pub proof fn a_dropped_container_trades_places(
    state: StateView,
    m: int,
    w: int,
    c: int,
    k: int,
    x: i32,
    y: i32,
    hit: int,
)
    requires
        is_tiled_at(state, m, w, c, k),
        is_dropped_on(state, x, y, m),
        state.monitors.elements[m].workspaces.focused == w,
        is_first_hit(at(state.refreshed(m, w), m, w).latest_layout, x, y, hit),
        hit < containers_at(state, m, w).len(),
    ensures
        ({
            let id = containers_at(state, m, w)[c].elements[k].id;
            let (after, r) = state.swap_window_at_point(id, x, y);
            let (old, new) = (containers_at(state, m, w), containers_at(after, m, w));
            &&& r is Ok
            &&& r->Ok_0.retiled == seq![WorkspaceRef {
                monitor: m as usize,
                workspace: w as usize,
            }]
            &&& new.len() == old.len()
            &&& new[hit] == old[c]
            &&& new[c] == old[hit]
            &&& forall|i: int|
                0 <= i < new.len() && i != c && i != hit ==> #[trigger] new[i] == old[i]
            &&& hit != c ==> at(after, m, w).containers.focused == hit
            &&& after.monitors.focused == state.monitors.focused
            &&& others_keep_theirs(state, after, (m, w), (m, w))
        }),
{
    let id = containers_at(state, m, w)[c].elements[k].id;
    a_tiled_window_is_found(at(state, m, w), c, k);
    let home = state.refreshed(m, w);
    a_refresh_keeps_the_containers(state, m, w, m, w);
    assert forall|i: int| 0 <= i < m implies !is_on(
        (#[trigger] home.monitors.elements[i]).size,
        x,
        y,
    ) by {
        assert(home.monitors.elements[i].size == state.monitors.elements[i].size);
    }
    the_display_is_found(home, x, y, m);
    a_hit_is_found(at(home, m, w).latest_layout, x, y, hit);
    let after = state.swap_window_at_point(id, x, y).0;
    let swapped = home.with_workspace(
        m,
        w,
        home.stamped(at(home, m, w)).focus_container(c).swap_focused(hit),
    );
    a_refresh_keeps_the_containers(swapped, m, w, m, w);
    assert forall|i: int, j: int| exists_at(state, i, j) && (i, j) != (m, w) implies
        #[trigger] containers_at(after, i, j) == containers_at(state, i, j) by {
        a_refresh_keeps_the_containers(state, m, w, i, j);
        a_refresh_keeps_the_containers(swapped, m, w, i, j);
    }
}

/// A window dropped on another display takes its container to the workspace in front
/// there: in the place of the tile it was dropped on, before it and everything behind,
/// or at the end when there was none. It has the focus, and so has that display.
pub proof fn a_container_dropped_elsewhere_moves_there(
    state: StateView,
    m: int,
    w: int,
    c: int,
    k: int,
    x: i32,
    y: i32,
    to: int,
)
    requires
        is_tiled_at(state, m, w, c, k),
        is_dropped_on(state, x, y, to),
        to != m,
        exists_at(state, to, state.monitors.elements[to].workspaces.focused),
    ensures
        ({
            let id = containers_at(state, m, w)[c].elements[k].id;
            let (after, r) = state.swap_window_at_point(id, x, y);
            let front = state.monitors.elements[to].workspaces.focused;
            let (old, new) = (containers_at(state, to, front), containers_at(after, to, front));
            let tiles = at(state, to, front).latest_layout;
            let moved = containers_at(state, m, w)[c];
            &&& r is Ok
            &&& containers_at(after, m, w) == containers_at(state, m, w).remove(c)
            &&& after.monitors.focused == to
            &&& r->Ok_0.focused_monitor_changed
            &&& forall|hit: int|
                #[trigger] is_first_hit(tiles, x, y, hit) && hit <= old.len() ==> {
                    &&& new == old.take(hit) + seq![moved] + old.skip(hit)
                    &&& at(after, to, front).containers.focused == hit
                }
            &&& (forall|i: int| 0 <= i < tiles.len() ==> !is_on(#[trigger] tiles[i], x, y)) ==> {
                &&& new == old + seq![moved]
                &&& at(after, to, front).containers.focused == old.len()
            }
            &&& others_keep_theirs(state, after, (m, w), (to, front))
        }),
{
    let id = containers_at(state, m, w)[c].elements[k].id;
    a_tiled_window_is_found(at(state, m, w), c, k);
    let home = state.refreshed(m, w);
    let front = state.monitors.elements[to].workspaces.focused;
    a_refresh_keeps_the_containers(state, m, w, m, w);
    a_refresh_keeps_the_containers(state, m, w, to, front);
    assert forall|i: int| 0 <= i < to implies !is_on(
        (#[trigger] home.monitors.elements[i]).size,
        x,
        y,
    ) by {
        assert(home.monitors.elements[i].size == state.monitors.elements[i].size);
    }
    the_display_is_found(home, x, y, to);
    let tiles = at(state, to, front).latest_layout;
    assert(at(home, to, front).latest_layout == tiles);
    let source = home.stamped(at(home, m, w)).focus_container(c);
    let taken = home.with_workspace(m, w, source.remove_container(c));
    let old = containers_at(state, to, front);
    assert(containers_at(taken, to, front) == old);
    let spot = match home.container_at_point(to, x, y) {
        Some(idx) => if idx < old.len() {
            idx
        } else {
            old.len() as int
        },
        None => old.len() as int,
    };
    let put = taken.with_workspace(
        to,
        front,
        taken.stamped(at(taken, to, front)).insert_container(spot, source.containers.current()->0),
    );
    a_refresh_keeps_the_containers(put, m, w, m, w);
    a_refresh_keeps_the_containers(put, m, w, to, front);
    let again = put.refreshed(m, w);
    a_refresh_keeps_the_containers(again, to, front, m, w);
    a_refresh_keeps_the_containers(again, to, front, to, front);
    let after = state.swap_window_at_point(id, x, y).0;
    crate::seqs::first_when_any(tiles, is_under(x, y));
    let new = containers_at(after, to, front);
    assert(new == old.insert(spot, containers_at(state, m, w)[c]));
    assert forall|hit: int| #[trigger] is_first_hit(tiles, x, y, hit) && hit <= old.len() implies {
        &&& new == old.take(hit) + seq![containers_at(state, m, w)[c]] + old.skip(hit)
        &&& at(after, to, front).containers.focused == hit
    } by {
        a_hit_is_found(tiles, x, y, hit);
    }
    if forall|i: int| 0 <= i < tiles.len() ==> !is_on(#[trigger] tiles[i], x, y) {
        assert forall|i: int| 0 <= i < tiles.len() implies !is_under(x, y)(#[trigger] tiles[i]) by {
            assert(!is_on(tiles[i], x, y));
        }
        first_is_none(tiles, is_under(x, y));
        assert(new =~= old + seq![containers_at(state, m, w)[c]]);
    }
    assert forall|i: int, j: int|
        exists_at(state, i, j) && (i, j) != (m, w) && (i, j) != (to, front) implies
        #[trigger] containers_at(after, i, j) == containers_at(state, i, j) by {
        a_refresh_keeps_the_containers(state, m, w, i, j);
        a_refresh_keeps_the_containers(put, m, w, i, j);
        a_refresh_keeps_the_containers(again, to, front, i, j);
    }
}

/// A window that nobody manages cannot be dropped, and one that floats or is dropped
/// beside every display stays where it is.
pub proof fn what_cannot_be_dropped_stays(state: StateView, id: WindowId, x: i32, y: i32)
    requires
        !state.is_paused,
    ensures
        state.locate(id) is None ==> state.swap_window_at_point(id, x, y) == (
            state,
            Err::<ChangesView, ErrorView>(ErrorView::WindowNotFound(id)),
        ),
        match state.locate(id) {
            Some((m, w)) => exists_at(state, m, w) && at(state, m, w).container_idx(id) is None
                ==> state.swap_window_at_point(id, x, y) == (
                state,
                Ok::<ChangesView, ErrorView>(ChangesView::none()),
            ),
            None => true,
        },
{
}

} // verus!
