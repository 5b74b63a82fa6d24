//! What the focus of a ring follows.

use vstd::prelude::*;

use crate::model::ring::{CycleDirection, RingView};

verus! {

/// One step on goes to the index behind, and from the last one to the first. One
/// step back goes to the index before, and from the first one to the last.
pub proof fn a_step_goes_to_the_next_one<V>(ring: RingView<V>, direction: CycleDirection)
    requires
        0 <= ring.focused < ring.elements.len(),
    ensures
        ({
            let (at, last) = (ring.focused, ring.elements.len() - 1);
            let to = ring.cycle_focus(direction).focused;
            &&& direction is Next && at < last ==> to == at + 1
            &&& direction is Next && at == last ==> to == 0
            &&& direction is Previous && at > 0 ==> to == at - 1
            &&& direction is Previous && at == 0 ==> to == last
            &&& ring.next_idx(direction) == Some(to)
            &&& ring.cycle_focus(direction).elements == ring.elements
        }),
{
    let len = ring.elements.len() as int;
    let at = ring.focused;
    if at + 1 < len {
        assert((at + 1) % len == at + 1) by (nonlinear_arith)
            requires
                0 <= at + 1 < len,
        ;
    } else {
        assert((at + 1) % len == 0) by (nonlinear_arith)
            requires
                at + 1 == len,
                len > 0,
        ;
    }
}

/// Moving the focused element on trades it with the one that a step would go to, and
/// the focus stays on it.
pub proof fn a_moved_element_trades_places<V>(ring: RingView<V>, direction: CycleDirection)
    requires
        0 <= ring.focused < ring.elements.len(),
    ensures
        ({
            let (from, to) = (ring.focused, ring.cycle_focus(direction).focused);
            let after = ring.move_focused(direction);
            &&& after.focused == to
            &&& after.elements.len() == ring.elements.len()
            &&& after.elements[to] == ring.elements[from]
            &&& after.elements[from] == ring.elements[to]
            &&& forall|i: int|
                0 <= i < after.elements.len() && i != from && i != to
                    ==> #[trigger] after.elements[i] == ring.elements[i]
        }),
{
    a_step_goes_to_the_next_one(ring, direction);
}

/// Swapping trades the two elements and leaves all the others and the focus alone.
pub proof fn a_swap_trades_two<V>(ring: RingView<V>, a: int, b: int)
    requires
        0 <= a < ring.elements.len(),
        0 <= b < ring.elements.len(),
    ensures
        ({
            let after = ring.swap(a, b);
            &&& after.focused == ring.focused
            &&& after.elements.len() == ring.elements.len()
            &&& after.elements[a] == ring.elements[b]
            &&& after.elements[b] == ring.elements[a]
            &&& forall|i: int|
                0 <= i < after.elements.len() && i != a && i != b ==> #[trigger] after.elements[i]
                    == ring.elements[i]
        }),
{
}

/// What is inserted stands at its index, behind everything that was before it and
/// before everything else, and the focus stays on the element it was on.
pub proof fn an_insertion_makes_room<V>(ring: RingView<V>, idx: int, element: V)
    requires
        0 <= ring.focused < ring.elements.len(),
        0 <= idx <= ring.elements.len(),
    ensures
        ({
            let after = ring.insert(idx, element);
            &&& after.elements == ring.elements.take(idx) + seq![element] + ring.elements.skip(idx)
            &&& after.elements[after.focused] == ring.elements[ring.focused]
            &&& after.focused == ring.focused + if idx <= ring.focused {
                1int
            } else {
                0int
            }
            &&& ring.insert_focused(idx, element).elements == after.elements
            &&& ring.insert_focused(idx, element).focused == idx
            &&& ring.push(element).elements == ring.elements + seq![element]
            &&& ring.push(element).focused == ring.focused
            &&& ring.push_focused(element).elements == ring.elements + seq![element]
            &&& ring.push_focused(element).focused == ring.elements.len()
        }),
{
}

/// What is removed leaves everything else in order. The focus stays on the element it
/// was on, and when that one went it goes to the one that moved up, or to the last one
/// when there is none.
pub proof fn a_removal_closes_the_gap<V>(ring: RingView<V>, idx: int)
    requires
        0 <= ring.focused < ring.elements.len(),
        0 <= idx < ring.elements.len(),
    ensures
        ({
            let after = ring.remove(idx);
            &&& after.elements == ring.elements.take(idx) + ring.elements.skip(idx + 1)
            &&& idx != ring.focused ==> after.elements[after.focused]
                == ring.elements[ring.focused] && after.focused == ring.focused - if idx
                < ring.focused {
                1int
            } else {
                0int
            }
            &&& idx == ring.focused && idx + 1 < ring.elements.len()
                ==> after.elements[after.focused] == ring.elements[idx + 1] && after.focused == idx
            &&& idx == ring.focused && idx + 1 == ring.elements.len() && idx > 0 ==> after.focused
                == idx - 1
            &&& ring.elements.len() == 1 ==> after.focused == 0
        }),
{
}

/// The focus goes where it is sent when there is something, and otherwise stays, or
/// goes to the last element where it is to be clamped.
pub proof fn the_focus_goes_where_it_is_sent<V>(ring: RingView<V>, idx: int)
    requires
        0 <= ring.focused < ring.elements.len(),
        0 <= idx,
    ensures
        ring.focus(idx).elements == ring.elements,
        ring.focus_clamped(idx).elements == ring.elements,
        idx < ring.elements.len() ==> ring.focus(idx).focused == idx && ring.focus_clamped(
            idx,
        ).focused == idx,
        idx >= ring.elements.len() ==> ring.focus(idx).focused == ring.focused
            && ring.focus_clamped(idx).focused == ring.elements.len() - 1,
{
}

} // verus!
