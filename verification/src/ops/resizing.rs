//! What a number of resizes comes to, one after the other.

use vstd::prelude::*;

use crate::error::ErrorView;
use crate::geometry::{Axis, Direction, Rect};
use crate::layout::deltas::{a_missing_delta_is_zero, same_deltas};
use crate::layout::split::{far_delta, near_delta};
use crate::layout::Sizing;
use crate::model::changes::ChangesView;
use crate::model::state::StateView;
use crate::model::workspace::{fitted, WorkspaceView};
use crate::ops::outcome::{delta_or_zero, edge_of, nudge, Bench, Outcome};

verus! {

/// `true` when nudging that edge by `by` pixels does not run into the limits of
/// the numbers.
pub open spec fn in_range(delta: Rect, axis: Axis, far_edge: bool, by: int) -> bool {
    if far_edge {
        i32::MIN <= delta.end(axis) + by <= i32::MAX
    } else {
        i32::MIN <= delta.start(axis) - by <= i32::MAX
    }
}

impl Bench {
    /// The workspace with that delta stored for the focused container.
    pub open spec fn stored(self, delta: Rect) -> WorkspaceView {
        self.lay(self.workspace.with_delta(self.idx(), Some(delta)))
    }

    /// The delta of the focused container, zero when it has none.
    pub open spec fn start(self) -> Rect {
        delta_or_zero(self.workspace.delta(self.idx()))
    }
}

/// The state after a command that moved something, and nothing for one that did
/// not.
pub open spec fn when_moved(after: Outcome) -> Option<StateView> {
    match after.1 {
        Ok(changes) => if changes == ChangesView::none() {
            None
        } else {
            Some(after.0)
        },
        Err(_) => None,
    }
}

impl StateView {
    /// The state after a resize of one edge, if it moves something.
    #[verifier::opaque]
    pub open spec fn edge_press(self, direction: Direction, sizing: Sizing) -> Option<StateView> {
        when_moved(self.resize_edge(direction, sizing))
    }

    /// The state after a resize along an axis, if it moves something.
    #[verifier::opaque]
    pub open spec fn axis_press(self, axis: Axis, sizing: Sizing) -> Option<StateView> {
        when_moved(self.resize_axis(axis, sizing))
    }

    /// The state with that delta stored for the focused container.
    #[verifier::opaque]
    pub open spec fn storing(self, delta: Rect) -> StateView {
        self.with_focused_workspace(self.workbench().stored(delta))
    }

    /// The rectangle of the focused container with that delta.
    #[verifier::opaque]
    pub open spec fn rect_storing(self, delta: Rect) -> Option<Rect> {
        self.workbench().stored(delta).rect(self.workbench().idx())
    }

    /// The delta of the focused container, zero when it has none.
    #[verifier::opaque]
    pub open spec fn start(self) -> Rect {
        self.workbench().start()
    }

    /// The state after `n` resizes of one edge, if every one of them moves
    /// something.
    pub open spec fn edge_presses(
        self,
        direction: Direction,
        sizing: Sizing,
        n: nat,
    ) -> Option<StateView>
        decreases n,
    {
        if n == 0 {
            Some(self)
        } else {
            match self.edge_presses(direction, sizing, (n - 1) as nat) {
                Some(before) => before.edge_press(direction, sizing),
                None => None,
            }
        }
    }

    /// The state after `n` resizes along an axis, if every one of them moves
    /// something.
    pub open spec fn axis_presses(self, axis: Axis, sizing: Sizing, n: nat) -> Option<StateView>
        decreases n,
    {
        if n == 0 {
            Some(self)
        } else {
            match self.axis_presses(axis, sizing, (n - 1) as nat) {
                Some(before) => before.axis_press(axis, sizing),
                None => None,
            }
        }
    }

    /// `true` when a resize has a container to work on.
    pub open spec fn can_resize(self) -> bool {
        &&& !self.is_paused
        &&& self.target() is Ok
        &&& !self.target()->Ok_0.2.focus_outside_the_ring()
        &&& self.target()->Ok_0.2.containers.len() > 0
    }

    /// Where a resize of this state works.
    pub open spec fn workbench(self) -> Bench {
        let (m, w, t) = self.target()->Ok_0;
        self.bench(m, w, t)
    }

    /// The state with the focused workspace replaced.
    pub open spec fn with_focused_workspace(self, value: WorkspaceView) -> StateView {
        let (m, w, _) = self.target()->Ok_0;
        self.with_workspace(m, w, value)
    }
}

/// `value` is the workspace of the bench but for the deltas and the rectangles.
spec fn is_variant(bench: Bench, value: WorkspaceView) -> bool {
    value == (WorkspaceView {
        resize_dimensions: value.resize_dimensions,
        latest_layout: value.latest_layout,
        ..bench.workspace
    })
}

proof fn a_variant_is_resized_alike(state: StateView, value: WorkspaceView)
    requires
        state.wf(),
        state.can_resize(),
        is_variant(state.workbench(), value),
        value == state.workbench().lay(value),
    ensures
        ({
            let after = state.with_focused_workspace(value);
            let (m, w, _) = state.target()->Ok_0;
            &&& after.can_resize()
            &&& after.target() == Ok::<(int, int, WorkspaceView), ErrorView>((m, w, value))
            &&& after.workbench() == (Bench { workspace: value, ..state.workbench() })
            &&& after.resize_delta == state.resize_delta
            &&& forall|other: WorkspaceView|
                after.with_focused_workspace(other) == #[trigger] state.with_focused_workspace(
                    other,
                )
        }),
{
    let (m, w, t) = state.target()->Ok_0;
    let after = state.with_focused_workspace(value);
    assert(0 <= m < state.monitors.elements.len());
    let monitor = state.monitors.elements[m];
    assert(0 <= w < monitor.workspaces.elements.len());
    assert(after.workspace(m, w) == Ok::<WorkspaceView, ErrorView>(value));
    assert(after.stamped(value) == value);
    assert(after.area_for(m, w) == state.area_for(m, w));
    assert forall|other: WorkspaceView| after.with_focused_workspace(other)
        == #[trigger] state.with_focused_workspace(other) by {
        assert(after.with_workspace(m, w, other).monitors.elements
            =~= state.with_workspace(m, w, other).monitors.elements) by {
            let a = after.monitors.elements[m];
            assert(a.workspaces.elements.update(w, other)
                =~= monitor.workspaces.elements.update(w, other));
        }
    }
}

proof fn the_bench_is_laid_out(state: StateView)
    requires
        state.wf(),
        state.can_resize(),
    ensures
        ({
            let bench = state.workbench();
            &&& bench.workspace == bench.lay(bench.workspace)
            &&& 0 <= bench.idx() < bench.workspace.containers.len()
            &&& bench.workspace.resize_dimensions.len() == bench.workspace.containers.len()
        }),
{
    let (m, w, t) = state.target()->Ok_0;
    assert(state.monitors.elements[m].wf());
    assert(state.monitors.elements[m].workspaces.elements[w].wf());
    let len = t.containers.len();
    assert(fitted(fitted(t.resize_dimensions, len), len) =~= fitted(t.resize_dimensions, len));
}

proof fn storing_again(bench: Bench, first: Rect, second: Rect)
    requires
        bench.workspace == bench.lay(bench.workspace),
        0 <= bench.idx() < bench.workspace.containers.len(),
    ensures
        is_variant(bench, bench.stored(first)),
        bench.stored(first) == bench.lay(bench.stored(first)),
        bench.stored(first).delta(bench.idx()) == Some(first),
        (Bench { workspace: bench.stored(first), ..bench }).stored(second) == bench.stored(second),
{
    let len = bench.workspace.containers.len();
    let idx = bench.idx();
    assert(bench.workspace.resize_dimensions.len() == len);
    let once = bench.stored(first);
    assert(once.resize_dimensions =~= bench.workspace.resize_dimensions.update(idx, Some(first)));
    assert(fitted(once.resize_dimensions, len) =~= once.resize_dimensions);
    assert(once.with_delta(idx, Some(second)).resize_dimensions =~= bench.workspace.with_delta(
        idx,
        Some(second),
    ).resize_dimensions);
}

proof fn storing_the_start_moves_nothing(bench: Bench)
    requires
        bench.workspace == bench.lay(bench.workspace),
        0 <= bench.idx() < bench.workspace.containers.len(),
    ensures
        bench.stored(bench.start()) == bench.workspace.with_delta(
            bench.idx(),
            Some(bench.start()),
        ),
        bench.stored(bench.start()).latest_layout == bench.workspace.latest_layout,
{
    let workspace = bench.workspace;
    let len = workspace.containers.len();
    let idx = bench.idx();
    let a = workspace.resize_dimensions;
    assert(a.len() == len);
    let b = workspace.with_delta(idx, Some(bench.start())).resize_dimensions;
    assert(b =~= a.update(idx, Some(bench.start())));
    assert(fitted(b, len) =~= b);
    assert(fitted(a, len) =~= a);
    assert(same_deltas(a, b)) by {
        assert forall|i: int, axis: Axis|
            far_delta(a, i, axis) == far_delta(b, i, axis) && near_delta(a, i, axis)
                == near_delta(b, i, axis) by {}
    }
    a_missing_delta_is_zero(
        workspace.resolved(len),
        workspace.area(bench.work_area, bench.workspace_padding, bench.scale),
        len,
        workspace.gap(bench.container_padding, bench.scale),
        workspace.layout_flip,
        a,
        b,
        workspace.min_tile(bench.scale),
    );
}

proof fn nudges_add_up(delta: Rect, axis: Axis, far_edge: bool, by: int, k: int, n: int)
    requires
        0 <= k < n,
        in_range(delta, axis, far_edge, by * n),
    ensures
        in_range(delta, axis, far_edge, by * k),
        nudge(nudge(delta, axis, far_edge, by * k), axis, far_edge, by) == nudge(
            delta,
            axis,
            far_edge,
            by * (k + 1),
        ),
        nudge(nudge(delta, axis, far_edge, by * (k + 1)), axis, far_edge, -by) == nudge(
            delta,
            axis,
            far_edge,
            by * k,
        ),
        nudge(delta, axis, far_edge, by * 0) == delta,
{
    assert(by * (k + 1) == by * k + by) by (nonlinear_arith);
    assert(by >= 0 ==> 0 <= by * k <= by * (k + 1) <= by * n) by (nonlinear_arith)
        requires
            0 <= k < n,
    ;
    assert(by <= 0 ==> by * n <= by * (k + 1) <= by * k <= 0) by (nonlinear_arith)
        requires
            0 <= k < n,
    ;
    assert(by * 0 == 0);
}

proof fn a_retile_is_a_change(monitor: int, workspace: int)
    ensures
        ChangesView::none().retile(monitor, workspace) != ChangesView::none(),
{
    assert(ChangesView::none().retile(monitor, workspace).retiled.len() == 1);
}

proof fn an_edge_press_nudges(
    state: StateView,
    delta: Rect,
    direction: Direction,
    sizing: Sizing,
)
    requires
        state.wf(),
        state.can_resize(),
    ensures
        ({
            let (axis, far_edge) = edge_of(direction);
            let next = nudge(delta, axis, far_edge, sizing.signed(state.resize_delta) as int);
            state.storing(delta).edge_press(direction, sizing) == if state.rect_storing(next)
                != state.rect_storing(delta) {
                Some(state.storing(next))
            } else {
                None
            }
        }),
{
    reveal(StateView::edge_press);
    reveal(StateView::storing);
    reveal(StateView::rect_storing);
    let (axis, far_edge) = edge_of(direction);
    let bench = state.workbench();
    let by = sizing.signed(state.resize_delta) as int;
    let here = bench.stored(delta);
    the_bench_is_laid_out(state);
    storing_again(bench, delta, nudge(delta, axis, far_edge, by));
    a_variant_is_resized_alike(state, here);
    let between = state.with_focused_workspace(here);
    assert(between.workbench().start() == delta);
    let (m, w, _) = state.target()->Ok_0;
    a_retile_is_a_change(m, w);
}

proof fn a_first_edge_press_nudges(state: StateView, direction: Direction, sizing: Sizing)
    requires
        state.wf(),
        state.can_resize(),
    ensures
        ({
            let (axis, far_edge) = edge_of(direction);
            let next = nudge(
                state.start(),
                axis,
                far_edge,
                sizing.signed(state.resize_delta) as int,
            );
            state.edge_press(direction, sizing) == if state.rect_storing(next)
                != state.rect_storing(state.start()) {
                Some(state.storing(next))
            } else {
                None
            }
        }),
{
    reveal(StateView::edge_press);
    reveal(StateView::storing);
    reveal(StateView::rect_storing);
    reveal(StateView::start);
    the_bench_is_laid_out(state);
    storing_the_start_moves_nothing(state.workbench());
    let (m, w, _) = state.target()->Ok_0;
    a_retile_is_a_change(m, w);
}

proof fn after_some_edge_presses(
    state: StateView,
    direction: Direction,
    sizing: Sizing,
    k: nat,
    n: nat,
)
    requires
        state.wf(),
        state.can_resize(),
        1 <= k <= n,
        state.edge_presses(direction, sizing, k) is Some,
        ({
            let (axis, far_edge) = edge_of(direction);
            in_range(
                state.start(),
                axis,
                far_edge,
                sizing.signed(state.resize_delta) as int * n,
            )
        }),
    ensures
        ({
            let (axis, far_edge) = edge_of(direction);
            let by = sizing.signed(state.resize_delta) as int;
            let here = nudge(state.start(), axis, far_edge, by * k);
            let before = nudge(state.start(), axis, far_edge, by * (k - 1));
            &&& state.edge_presses(direction, sizing, k) == Some(state.storing(here))
            &&& state.rect_storing(here) != state.rect_storing(before)
        }),
    decreases k,
{
    let (axis, far_edge) = edge_of(direction);
    let by = sizing.signed(state.resize_delta) as int;
    nudges_add_up(state.start(), axis, far_edge, by, k - 1, n as int);
    if k == 1 {
        a_first_edge_press_nudges(state, direction, sizing);
        assert(state.edge_presses(direction, sizing, 0) == Some(state));
        assert(by * 1 == by);
    } else {
        let j = (k - 1) as nat;
        after_some_edge_presses(state, direction, sizing, j, n);
        an_edge_press_nudges(
            state,
            nudge(state.start(), axis, far_edge, by * j),
            direction,
            sizing,
        );
    }
}

proof fn some_edge_presses_back(
    state: StateView,
    direction: Direction,
    sizing: Sizing,
    j: nat,
    n: nat,
)
    requires
        state.wf(),
        state.can_resize(),
        state.resize_delta != i32::MIN,
        j <= n,
        1 <= n,
        state.edge_presses(direction, sizing, n) is Some,
        ({
            let (axis, far_edge) = edge_of(direction);
            in_range(
                state.start(),
                axis,
                far_edge,
                sizing.signed(state.resize_delta) as int * n,
            )
        }),
    ensures
        ({
            let (axis, far_edge) = edge_of(direction);
            let by = sizing.signed(state.resize_delta) as int;
            state.edge_presses(direction, sizing, n)->0.edge_presses(
                direction,
                sizing.opposite(),
                j,
            ) == Some(state.storing(nudge(state.start(), axis, far_edge, by * (n - j))))
        }),
    decreases j,
{
    let (axis, far_edge) = edge_of(direction);
    let by = sizing.signed(state.resize_delta) as int;
    after_some_edge_presses(state, direction, sizing, n, n);
    if j > 0 {
        let i = (j - 1) as nat;
        let k = n - i;
        some_edge_presses_back(state, direction, sizing, i, n);
        fewer_presses_move_too(state, direction, sizing, k as nat, n);
        after_some_edge_presses(state, direction, sizing, k as nat, n);
        nudges_add_up(state.start(), axis, far_edge, by, k - 1, n as int);
        an_edge_press_nudges(
            state,
            nudge(state.start(), axis, far_edge, by * k),
            direction,
            sizing.opposite(),
        );
        assert(sizing.opposite().signed(state.resize_delta) == -by);
    }
}

proof fn fewer_presses_move_too(
    state: StateView,
    direction: Direction,
    sizing: Sizing,
    k: nat,
    n: nat,
)
    requires
        k <= n,
        state.edge_presses(direction, sizing, n) is Some,
    ensures
        state.edge_presses(direction, sizing, k) is Some,
    decreases n,
{
    if k < n {
        fewer_presses_move_too(state, direction, sizing, k, (n - 1) as nat);
    }
}

/// The same number of presses back lands on the layout it started from: `n`
/// resizes of one edge that each move something, followed by `n` the other way,
/// each move something too and leave the workspace as it was laid out before,
/// with the delta it had. A container that had no delta is left with a delta of
/// zero.
pub proof fn presses_back_land_on_the_same_layout(
    state: StateView,
    direction: Direction,
    sizing: Sizing,
    n: nat,
)
    requires
        state.wf(),
        state.can_resize(),
        state.resize_delta != i32::MIN,
        1 <= n,
        state.edge_presses(direction, sizing, n) is Some,
        ({
            let (axis, far_edge) = edge_of(direction);
            let by = sizing.signed(state.resize_delta) as int;
            in_range(state.start(), axis, far_edge, by * n)
        }),
    ensures
        ({
            let bench = state.workbench();
            let there = state.edge_presses(direction, sizing, n)->0;
            there.edge_presses(direction, sizing.opposite(), n) == Some(
                state.with_focused_workspace(
                    bench.workspace.with_delta(bench.idx(), Some(bench.start())),
                ),
            )
        }),
{
    reveal(StateView::storing);
    reveal(StateView::start);
    let (axis, far_edge) = edge_of(direction);
    let by = sizing.signed(state.resize_delta) as int;
    let bench = state.workbench();
    the_bench_is_laid_out(state);
    some_edge_presses_back(state, direction, sizing, n, n);
    nudges_add_up(bench.start(), axis, far_edge, by, 0, n as int);
    assert(by * (n - n) == by * 0);
    storing_the_start_moves_nothing(bench);
}

/// The direction the far edge of an axis lies in.
pub open spec fn far_side(axis: Axis) -> Direction {
    match axis {
        Axis::Horizontal => Direction::Right,
        Axis::Vertical => Direction::Down,
    }
}

/// The direction the near edge of an axis lies in.
pub open spec fn near_side(axis: Axis) -> Direction {
    match axis {
        Axis::Horizontal => Direction::Left,
        Axis::Vertical => Direction::Up,
    }
}

impl StateView {
    /// `true` when the focused container has no boundary on its far side:
    /// whatever is stored, nudging that edge makes no difference to it.
    pub open spec fn no_far_boundary(self, axis: Axis) -> bool {
        forall|delta: Rect, by: int|
            self.rect_storing(#[trigger] nudge(delta, axis, true, by)) == self.rect_storing(delta)
    }

    /// The edge a resize along an axis works on.
    pub open spec fn edge_along(self, axis: Axis, sizing: Sizing) -> Direction {
        if self.edge_press(far_side(axis), sizing) is Some {
            far_side(axis)
        } else {
            near_side(axis)
        }
    }
}

proof fn an_axis_press_nudges(state: StateView, delta: Rect, axis: Axis, sizing: Sizing)
    requires
        state.wf(),
        state.can_resize(),
    ensures
        ({
            let by = sizing.signed(state.resize_delta) as int;
            let far = nudge(delta, axis, true, by);
            let back = nudge(delta, axis, true, -by);
            let near = nudge(delta, axis, false, by);
            let here = state.rect_storing(delta);
            state.storing(delta).axis_press(axis, sizing) == if state.rect_storing(far) != here {
                Some(state.storing(far))
            } else if state.rect_storing(back) != here || state.rect_storing(near) == here {
                None
            } else {
                Some(state.storing(near))
            }
        }),
{
    reveal(StateView::axis_press);
    reveal(StateView::storing);
    reveal(StateView::rect_storing);
    let bench = state.workbench();
    let by = sizing.signed(state.resize_delta) as int;
    let here = bench.stored(delta);
    the_bench_is_laid_out(state);
    storing_again(bench, delta, nudge(delta, axis, true, by));
    storing_again(bench, delta, nudge(delta, axis, true, -by));
    storing_again(bench, delta, nudge(delta, axis, false, by));
    a_variant_is_resized_alike(state, here);
    let between = state.with_focused_workspace(here);
    assert(between.workbench().start() == delta);
    let (m, w, _) = state.target()->Ok_0;
    a_retile_is_a_change(m, w);
}

proof fn a_first_axis_press_nudges(state: StateView, axis: Axis, sizing: Sizing)
    requires
        state.wf(),
        state.can_resize(),
    ensures
        ({
            let by = sizing.signed(state.resize_delta) as int;
            let far = nudge(state.start(), axis, true, by);
            let back = nudge(state.start(), axis, true, -by);
            let near = nudge(state.start(), axis, false, by);
            let here = state.rect_storing(state.start());
            state.axis_press(axis, sizing) == if state.rect_storing(far) != here {
                Some(state.storing(far))
            } else if state.rect_storing(back) != here || state.rect_storing(near) == here {
                None
            } else {
                Some(state.storing(near))
            }
        }),
{
    reveal(StateView::axis_press);
    reveal(StateView::storing);
    reveal(StateView::rect_storing);
    reveal(StateView::start);
    the_bench_is_laid_out(state);
    storing_the_start_moves_nothing(state.workbench());
    let (m, w, _) = state.target()->Ok_0;
    a_retile_is_a_change(m, w);
}

proof fn axis_presses_work_on_one_edge(
    state: StateView,
    axis: Axis,
    sizing: Sizing,
    k: nat,
    n: nat,
)
    requires
        state.wf(),
        state.can_resize(),
        k <= n,
        1 <= n,
        state.axis_presses(axis, sizing, k) is Some,
        state.edge_press(far_side(axis), sizing) is Some || state.no_far_boundary(axis),
        in_range(
            state.start(),
            axis,
            state.edge_along(axis, sizing) == far_side(axis),
            sizing.signed(state.resize_delta) as int * n,
        ),
    ensures
        state.edge_presses(state.edge_along(axis, sizing), sizing, k) == state.axis_presses(
            axis,
            sizing,
            k,
        ),
    decreases k,
{
    let by = sizing.signed(state.resize_delta) as int;
    let side = state.edge_along(axis, sizing);
    let far_edge = side == far_side(axis);
    assert(edge_of(side) == (axis, far_edge));
    if k > 0 {
        let j = (k - 1) as nat;
        axis_presses_work_on_one_edge(state, axis, sizing, j, n);
        if j == 0 {
            a_first_axis_press_nudges(state, axis, sizing);
            a_first_edge_press_nudges(state, side, sizing);
            a_first_edge_press_nudges(state, far_side(axis), sizing);
        } else {
            after_some_edge_presses(state, side, sizing, j, n);
            let delta = nudge(state.start(), axis, far_edge, by * j);
            an_axis_press_nudges(state, delta, axis, sizing);
            an_edge_press_nudges(state, delta, side, sizing);
            nudges_add_up(state.start(), axis, far_edge, by, j - 1, n as int);
        }
    }
}

proof fn axis_presses_back_work_on_it_too(
    state: StateView,
    axis: Axis,
    sizing: Sizing,
    j: nat,
    n: nat,
)
    requires
        state.wf(),
        state.can_resize(),
        state.resize_delta != i32::MIN,
        j <= n,
        1 <= n,
        state.axis_presses(axis, sizing, n) is Some,
        state.edge_press(far_side(axis), sizing) is Some || state.no_far_boundary(axis),
        in_range(
            state.start(),
            axis,
            state.edge_along(axis, sizing) == far_side(axis),
            sizing.signed(state.resize_delta) as int * n,
        ),
    ensures
        ({
            let there = state.axis_presses(axis, sizing, n)->0;
            there.axis_presses(axis, sizing.opposite(), j) == there.edge_presses(
                state.edge_along(axis, sizing),
                sizing.opposite(),
                j,
            )
        }),
    decreases j,
{
    let by = sizing.signed(state.resize_delta) as int;
    let side = state.edge_along(axis, sizing);
    let far_edge = side == far_side(axis);
    assert(edge_of(side) == (axis, far_edge));
    axis_presses_work_on_one_edge(state, axis, sizing, n, n);
    if j > 0 {
        let i = (j - 1) as nat;
        axis_presses_back_work_on_it_too(state, axis, sizing, i, n);
        some_edge_presses_back(state, side, sizing, i, n);
        some_edge_presses_back(state, side, sizing, j, n);
        let delta = nudge(state.start(), axis, far_edge, by * (n - i));
        an_axis_press_nudges(state, delta, axis, sizing.opposite());
        an_edge_press_nudges(state, delta, side, sizing.opposite());
    }
}

/// The same number of presses back lands on the layout it started from, along an
/// axis too. The first press picks the far edge, or the near one for a container
/// with no boundary on its far side, and every later press stays with it.
pub proof fn presses_back_along_an_axis_land_on_the_same_layout(
    state: StateView,
    axis: Axis,
    sizing: Sizing,
    n: nat,
)
    requires
        state.wf(),
        state.can_resize(),
        state.resize_delta != i32::MIN,
        1 <= n,
        state.axis_presses(axis, sizing, n) is Some,
        state.edge_press(far_side(axis), sizing) is Some || state.no_far_boundary(axis),
        in_range(
            state.start(),
            axis,
            state.edge_along(axis, sizing) == far_side(axis),
            sizing.signed(state.resize_delta) as int * n,
        ),
    ensures
        ({
            let bench = state.workbench();
            let there = state.axis_presses(axis, sizing, n)->0;
            there.axis_presses(axis, sizing.opposite(), n) == Some(
                state.with_focused_workspace(
                    bench.workspace.with_delta(bench.idx(), Some(bench.start())),
                ),
            )
        }),
{
    axis_presses_work_on_one_edge(state, axis, sizing, n, n);
    axis_presses_back_work_on_it_too(state, axis, sizing, n, n);
    presses_back_land_on_the_same_layout(state, state.edge_along(axis, sizing), sizing, n);
}

} // verus!
