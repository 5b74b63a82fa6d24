//! What the neighbour of a rectangle is, told by the edges alone.

use vstd::prelude::*;

use crate::geometry::{
    is_candidate, is_nearest, nearest, no_worse, Direction, Rect,
};

verus! {

/// How many pixels lie between the edge of `a` that faces `direction` and the edge
/// of `b` that faces it. Negative when `b` begins before `a` ends.
pub open spec fn between(a: Rect, b: Rect, direction: Direction) -> int {
    if direction is Left {
        a.left - b.right
    } else if direction is Right {
        b.left - a.right
    } else if direction is Up {
        a.top - b.bottom
    } else {
        b.top - a.bottom
    }
}

/// `true` when `b` is straight ahead of `a`: a line along `direction` meets both.
pub open spec fn faces(a: Rect, b: Rect, direction: Direction) -> bool {
    if direction is Left || direction is Right {
        a.top < b.bottom && b.top < a.bottom
    } else {
        a.left < b.right && b.left < a.right
    }
}

/// The neighbour lies beyond the rectangle, whatever is straight ahead comes before
/// anything else, and nothing straight ahead is closer. Gaps the coordinates cannot
/// hold count as equally far.
pub proof fn nothing_ahead_is_closer(
    rects: Seq<Rect>,
    from: int,
    direction: Direction,
    k: int,
    j: int,
)
    requires
        0 <= from < rects.len(),
        nearest(rects, from, direction) == Some(k),
        0 <= j < rects.len(),
        j != from,
        between(rects[from], rects[j], direction) >= 0,
        faces(rects[from], rects[j], direction),
    ensures
        0 <= k < rects.len(),
        k != from,
        between(rects[from], rects[k], direction) >= 0,
        faces(rects[from], rects[k], direction),
        between(rects[from], rects[k], direction) <= between(rects[from], rects[j], direction)
            || between(rects[from], rects[j], direction) >= i32::MAX,
{
    assert(is_nearest(rects, from, direction, k));
    assert(is_candidate(rects, from, direction, j));
    assert(rects[j] == rects[j]);
}

/// When nothing is straight ahead, nothing beyond the rectangle is closer than its
/// neighbour.
pub proof fn nothing_aside_is_closer(
    rects: Seq<Rect>,
    from: int,
    direction: Direction,
    k: int,
    j: int,
)
    requires
        0 <= from < rects.len(),
        nearest(rects, from, direction) == Some(k),
        !faces(rects[from], rects[k], direction),
        0 <= j < rects.len(),
        j != from,
        between(rects[from], rects[j], direction) >= 0,
    ensures
        0 <= k < rects.len(),
        k != from,
        between(rects[from], rects[k], direction) >= 0,
        !faces(rects[from], rects[j], direction),
        between(rects[from], rects[k], direction) <= between(rects[from], rects[j], direction)
            || between(rects[from], rects[j], direction) >= i32::MAX,
{
    assert(is_nearest(rects, from, direction, k));
    assert(is_candidate(rects, from, direction, j));
    assert(rects[j] == rects[j]);
}

/// The middle of a rectangle across `direction`, rounded down.
pub open spec fn middle(a: Rect, direction: Direction) -> int {
    if direction is Left || direction is Right {
        a.top + (a.bottom - a.top) / 2
    } else {
        a.left + (a.right - a.left) / 2
    }
}

/// How far two numbers are apart.
pub open spec fn apart(a: int, b: int) -> int {
    if a >= b {
        a - b
    } else {
        b - a
    }
}

/// Of two rectangles equally far ahead, the one whose middle is closer is the
/// neighbour, and of two that are equal in that too the first one.
pub proof fn the_closer_middle_wins_a_tie(
    rects: Seq<Rect>,
    from: int,
    direction: Direction,
    k: int,
    j: int,
)
    requires
        0 <= from < rects.len(),
        nearest(rects, from, direction) == Some(k),
        0 <= j < rects.len(),
        j != from,
        between(rects[from], rects[j], direction) >= 0,
        between(rects[from], rects[j], direction) == between(rects[from], rects[k], direction),
        faces(rects[from], rects[j], direction) == faces(rects[from], rects[k], direction),
        forall|i: int|
            0 <= i < rects.len() ==> {
                let r = #[trigger] rects[i];
                &&& r.left <= r.right <= r.left + i32::MAX
                &&& r.top <= r.bottom <= r.top + i32::MAX
            },
    ensures
        ({
            let here = middle(rects[from], direction);
            let to_k = apart(here, middle(rects[k], direction));
            let to_j = apart(here, middle(rects[j], direction));
            to_k < to_j || (to_k == to_j && k <= j)
        }),
{
    assert(is_nearest(rects, from, direction, k));
    assert(is_candidate(rects, from, direction, j));
    assert(rects[j] == rects[j] && rects[from] == rects[from] && rects[k] == rects[k]);
}

proof fn best_so_far(rects: Seq<Rect>, from: int, direction: Direction, n: int) -> (best: int)
    requires
        0 <= from < rects.len(),
        0 <= n <= rects.len(),
        exists|j: int| 0 <= j < n && is_candidate(rects, from, direction, j),
    ensures
        is_candidate(rects, from, direction, best),
        best < n,
        forall|j: int|
            #![trigger rects[j]]
            0 <= j < n && is_candidate(rects, from, direction, j) ==> no_worse(
                &rects[from],
                &rects[best],
                &rects[j],
                direction,
            ) && (j < best ==> !no_worse(&rects[from], &rects[j], &rects[best], direction)),
    decreases n,
{
    let last = n - 1;
    if exists|j: int| 0 <= j < last && is_candidate(rects, from, direction, j) {
        let before = best_so_far(rects, from, direction, last);
        assert(rects[before] == rects[before]);
        if is_candidate(rects, from, direction, last) && !no_worse(
            &rects[from],
            &rects[before],
            &rects[last],
            direction,
        ) {
            last
        } else {
            before
        }
    } else {
        last
    }
}

/// There is a neighbour exactly when something lies beyond the rectangle.
pub proof fn there_is_a_neighbour_when_something_is_there(
    rects: Seq<Rect>,
    from: int,
    direction: Direction,
)
    requires
        0 <= from < rects.len(),
    ensures
        nearest(rects, from, direction) is Some <==> exists|j: int|
            0 <= j < rects.len() && j != from && between(
                rects[from],
                #[trigger] rects[j],
                direction,
            ) >= 0,
{
    if exists|j: int|
        0 <= j < rects.len() && j != from && between(rects[from], #[trigger] rects[j], direction)
            >= 0 {
        let j = choose|j: int|
            0 <= j < rects.len() && j != from && between(rects[from], #[trigger] rects[j], direction)
                >= 0;
        assert(is_candidate(rects, from, direction, j));
        let best = best_so_far(rects, from, direction, rects.len() as int);
        assert(is_nearest(rects, from, direction, best));
    }
    if nearest(rects, from, direction) is Some {
        let k = nearest(rects, from, direction)->0;
        assert(is_nearest(rects, from, direction, k));
        assert(between(rects[from], rects[k], direction) >= 0);
    }
}

/// The rectangles stand side by side, from left to right, each as high as the next.
pub open spec fn in_columns(rects: Seq<Rect>) -> bool {
    &&& forall|i: int|
        0 <= i < rects.len() ==> {
            let r = #[trigger] rects[i];
            &&& r.left < r.right
            &&& r.top < r.bottom
            &&& r.top == rects[0].top
            &&& r.bottom == rects[0].bottom
        }
    &&& forall|i: int, j: int|
        0 <= i < j < rects.len() ==> (#[trigger] rects[i]).right <= (#[trigger] rects[j]).left <= rects[i].right
            + i32::MAX
}

/// The rectangles lie one below the other, each as wide as the next.
pub open spec fn in_rows(rects: Seq<Rect>) -> bool {
    &&& forall|i: int|
        0 <= i < rects.len() ==> {
            let r = #[trigger] rects[i];
            &&& r.left < r.right
            &&& r.top < r.bottom
            &&& r.left == rects[0].left
            &&& r.right == rects[0].right
        }
    &&& forall|i: int, j: int|
        0 <= i < j < rects.len() ==> (#[trigger] rects[i]).bottom <= (#[trigger] rects[j]).top <= rects[i].bottom
            + i32::MAX
}

/// In a row of columns the neighbours are the columns next to one, and there is
/// nothing above or below.
pub proof fn columns_are_neighbours_in_order(rects: Seq<Rect>, from: int)
    requires
        0 <= from < rects.len(),
        in_columns(rects),
    ensures
        nearest(rects, from, Direction::Right) == if from + 1 < rects.len() {
            Some(from + 1)
        } else {
            None::<int>
        },
        nearest(rects, from, Direction::Left) == if from > 0 {
            Some(from - 1)
        } else {
            None::<int>
        },
        nearest(rects, from, Direction::Up) is None,
        nearest(rects, from, Direction::Down) is None,
{
    let here = rects[from];
    there_is_a_neighbour_when_something_is_there(rects, from, Direction::Left);
    there_is_a_neighbour_when_something_is_there(rects, from, Direction::Right);
    there_is_a_neighbour_when_something_is_there(rects, from, Direction::Up);
    there_is_a_neighbour_when_something_is_there(rects, from, Direction::Down);
    if from + 1 < rects.len() {
        assert(between(here, rects[from + 1], Direction::Right) >= 0);
        let k = nearest(rects, from, Direction::Right)->0;
        nothing_ahead_is_closer(rects, from, Direction::Right, k, from + 1);
        assert(rects[k] == rects[k]);
    }
    if from > 0 {
        assert(between(here, rects[from - 1], Direction::Left) >= 0);
        let k = nearest(rects, from, Direction::Left)->0;
        nothing_ahead_is_closer(rects, from, Direction::Left, k, from - 1);
        assert(rects[k] == rects[k]);
    }
}

/// In a pile of rows the neighbours are the rows next to one, and there is nothing
/// to the left or right.
pub proof fn rows_are_neighbours_in_order(rects: Seq<Rect>, from: int)
    requires
        0 <= from < rects.len(),
        in_rows(rects),
    ensures
        nearest(rects, from, Direction::Down) == if from + 1 < rects.len() {
            Some(from + 1)
        } else {
            None::<int>
        },
        nearest(rects, from, Direction::Up) == if from > 0 {
            Some(from - 1)
        } else {
            None::<int>
        },
        nearest(rects, from, Direction::Left) is None,
        nearest(rects, from, Direction::Right) is None,
{
    let here = rects[from];
    there_is_a_neighbour_when_something_is_there(rects, from, Direction::Left);
    there_is_a_neighbour_when_something_is_there(rects, from, Direction::Right);
    there_is_a_neighbour_when_something_is_there(rects, from, Direction::Up);
    there_is_a_neighbour_when_something_is_there(rects, from, Direction::Down);
    if from + 1 < rects.len() {
        assert(between(here, rects[from + 1], Direction::Down) >= 0);
        let k = nearest(rects, from, Direction::Down)->0;
        nothing_ahead_is_closer(rects, from, Direction::Down, k, from + 1);
        assert(rects[k] == rects[k]);
    }
    if from > 0 {
        assert(between(here, rects[from - 1], Direction::Up) >= 0);
        let k = nearest(rects, from, Direction::Up)->0;
        nothing_ahead_is_closer(rects, from, Direction::Up, k, from - 1);
        assert(rects[k] == rects[k]);
    }
}

/// `rects[k]` is the neighbour of `rects[from]` in `direction`: it lies beyond it, it
/// is straight ahead when anything is, and nothing of that kind is closer. Gaps the
/// coordinates cannot hold count as equally far.
pub open spec fn is_neighbour(rects: Seq<Rect>, from: int, direction: Direction, k: int) -> bool {
    &&& 0 <= k < rects.len()
    &&& k != from
    &&& between(rects[from], rects[k], direction) >= 0
    &&& forall|j: int|
        0 <= j < rects.len() && j != from && between(rects[from], #[trigger] rects[j], direction)
            >= 0 ==> {
            &&& faces(rects[from], rects[j], direction) ==> faces(rects[from], rects[k], direction)
            &&& faces(rects[from], rects[j], direction) == faces(
                rects[from],
                rects[k],
                direction,
            ) ==> between(rects[from], rects[k], direction) <= between(
                rects[from],
                rects[j],
                direction,
            ) || between(rects[from], rects[j], direction) >= i32::MAX
        }
}

/// `true` when one of the rectangles lies beyond `rects[from]` in `direction`.
pub open spec fn leads_somewhere(rects: Seq<Rect>, from: int, direction: Direction) -> bool {
    exists|j: int|
        0 <= j < rects.len() && j != from && between(rects[from], #[trigger] rects[j], direction)
            >= 0
}

/// What is picked in a direction is the neighbour there, and something is picked
/// exactly when anything lies there.
pub proof fn the_neighbour_is_picked(rects: Seq<Rect>, from: int, direction: Direction)
    requires
        0 <= from < rects.len(),
    ensures
        match nearest(rects, from, direction) {
            Some(k) => leads_somewhere(rects, from, direction) && is_neighbour(
                rects,
                from,
                direction,
                k,
            ),
            None => !leads_somewhere(rects, from, direction),
        },
{
    there_is_a_neighbour_when_something_is_there(rects, from, direction);
    if nearest(rects, from, direction) is Some {
        let k = nearest(rects, from, direction)->0;
        assert(is_nearest(rects, from, direction, k));
        assert forall|j: int|
            0 <= j < rects.len() && j != from && between(
                rects[from],
                #[trigger] rects[j],
                direction,
            ) >= 0 implies {
            &&& faces(rects[from], rects[j], direction) ==> faces(rects[from], rects[k], direction)
            &&& faces(rects[from], rects[j], direction) == faces(
                rects[from],
                rects[k],
                direction,
            ) ==> between(rects[from], rects[k], direction) <= between(
                rects[from],
                rects[j],
                direction,
            ) || between(rects[from], rects[j], direction) >= i32::MAX
        } by {
            assert(is_candidate(rects, from, direction, j));
        }
    }
}

} // verus!
