//! A list with a focused element, used at every level of the tree.

use vstd::prelude::*;

use crate::error::{Error, Result};
use crate::text::{lower, lower_is, owned};

verus! {

/// Which way a cycling operation moves through a [`Ring`].
#[derive(Debug, Clone, Copy, PartialEq, Eq, Hash, Structural)]
pub enum CycleDirection {
    /// Towards lower indices, wrapping to the end.
    Previous,
    /// Towards higher indices, wrapping to the start.
    Next,
}

/// The index one step from `idx` among `len` elements, wrapping at both ends.
pub open spec fn stepped(direction: CycleDirection, idx: int, len: int) -> int {
    match direction {
        CycleDirection::Next => (idx + 1) % len,
        CycleDirection::Previous => if idx == 0 {
            len - 1
        } else {
            idx - 1
        },
    }
}

impl CycleDirection {
    /// The other way round.
    #[must_use]
    #[verifier::allow_in_spec]
    pub fn opposite(self) -> Self
        returns
            (match self {
                CycleDirection::Previous => CycleDirection::Next,
                CycleDirection::Next => CycleDirection::Previous,
            }),
    {
        match self {
            CycleDirection::Previous => CycleDirection::Next,
            CycleDirection::Next => CycleDirection::Previous,
        }
    }

    /// The index `len` elements can move to from `idx`, wrapping at both ends.
    ///
    /// Returns `None` for an empty ring.
    #[must_use]
    pub fn step(self, idx: usize, len: usize) -> (r: Option<usize>)
        requires
            len > 0 && self is Next ==> idx < usize::MAX,
        ensures
            len == 0 ==> r is None,
            len > 0 ==> r is Some && r->0 == stepped(self, idx as int, len as int),
    {
        if len == 0 {
            return None;
        }
        Some(
            match self {
                CycleDirection::Next => (idx + 1) % len,
                CycleDirection::Previous => {
                    if idx == 0 {
                        len - 1
                    } else {
                        idx - 1
                    }
                },
            },
        )
    }

    /// The word for this direction.
    pub open spec fn name(self) -> Seq<char> {
        match self {
            CycleDirection::Previous => "previous"@,
            CycleDirection::Next => "next"@,
        }
    }

    /// The word for this direction.
    pub fn to_string(&self) -> (r: String)
        ensures
            r@ == self.name(),
    {
        match self {
            CycleDirection::Previous => owned("previous"),
            CycleDirection::Next => owned("next"),
        }
    }

    /// The direction a word stands for, in any case.
    pub open spec fn named(s: Seq<char>) -> Option<CycleDirection> {
        let s = lower(s);
        if s == "previous"@ || s == "prev"@ {
            Some(CycleDirection::Previous)
        } else if s == "next"@ {
            Some(CycleDirection::Next)
        } else {
            None
        }
    }

    /// Reads a direction from its name, in any case.
    pub fn parse(s: &str) -> (r: Result<Self>)
        ensures
            match r {
                Ok(direction) => CycleDirection::named(s@) == Some(direction),
                Err(e) => CycleDirection::named(s@) is None && e.is_parse("cycle direction"@, s@),
            },
    {
        if lower_is(s, "previous") || lower_is(s, "prev") {
            Ok(CycleDirection::Previous)
        } else if lower_is(s, "next") {
            Ok(CycleDirection::Next)
        } else {
            Err(Error::Parse { kind: "cycle direction", value: owned(s) })
        }
    }
}

impl std::str::FromStr for CycleDirection {
    type Err = Error;

    fn from_str(s: &str) -> (r: Result<Self>)
        ensures
            match r {
                Ok(direction) => CycleDirection::named(s@) == Some(direction),
                Err(e) => CycleDirection::named(s@) is None && e.is_parse("cycle direction"@, s@),
            },
    {
        CycleDirection::parse(s)
    }
}

/// Going one step and then one step the other way leads back to the start.
pub proof fn a_step_back_undoes_a_step(direction: CycleDirection, idx: int, len: int)
    requires
        0 <= idx < len,
    ensures
        0 <= stepped(direction, idx, len) < len,
        stepped(direction.opposite(), stepped(direction, idx, len), len) == idx,
{
    if direction is Next {
        if idx + 1 == len {
            assert((idx + 1) % len == 0) by (nonlinear_arith)
                requires
                    idx + 1 == len,
                    len > 0,
            ;
        } else {
            assert((idx + 1) % len == idx + 1) by (nonlinear_arith)
                requires
                    0 <= idx + 1 < len,
            ;
        }
    } else {
        if idx == 0 {
            assert((len - 1 + 1) % len == 0) by (nonlinear_arith)
                requires
                    len > 0,
            ;
        } else {
            assert((idx - 1 + 1) % len == idx) by (nonlinear_arith)
                requires
                    0 <= idx < len,
            ;
        }
    }
}

/// What a [`Ring`] holds: its elements in order, and the index of the focused
/// one. The focus of an empty ring is `0`.
#[verifier::ext_equal]
pub ghost struct RingView<V> {
    /// The elements in order.
    pub elements: Seq<V>,
    /// The index of the focused element.
    pub focused: int,
}

/// `idx`, or the last index of `len` elements when it lies beyond them.
pub open spec fn clamped_idx(idx: int, len: int) -> int {
    if len <= 0 {
        0
    } else if idx >= len {
        len - 1
    } else {
        idx
    }
}

impl<V> RingView<V> {
    /// The ring with nothing in it.
    pub open spec fn empty() -> Self {
        RingView { elements: Seq::empty(), focused: 0 }
    }

    /// A ring over `elements`, focused on the first one.
    pub open spec fn over(elements: Seq<V>) -> Self {
        RingView { elements, focused: 0 }
    }

    /// The number of elements.
    pub open spec fn len(self) -> int {
        self.elements.len() as int
    }

    /// The element at `idx`.
    pub open spec fn at(self, idx: int) -> Option<V> {
        if 0 <= idx < self.len() {
            Some(self.elements[idx])
        } else {
            None
        }
    }

    /// The focused element.
    pub open spec fn current(self) -> Option<V> {
        self.at(self.focused)
    }

    /// The focus lies on an element, or at `0` when there is none.
    pub open spec fn wf(self) -> bool {
        self.focused == clamped_idx(self.focused, self.len()) && 0 <= self.focused
    }

    /// The ring with the element at `idx` replaced.
    pub open spec fn with(self, idx: int, element: V) -> Self {
        RingView { elements: self.elements.update(idx, element), ..self }
    }

    /// The ring with the focus at `idx`. Nothing changes when that is out of range.
    pub open spec fn focus(self, idx: int) -> Self {
        if 0 <= idx < self.len() {
            RingView { focused: idx, ..self }
        } else {
            self
        }
    }

    /// The ring with the focus at `idx`, or at the last element when that is out of range.
    pub open spec fn focus_clamped(self, idx: int) -> Self {
        RingView { focused: clamped_idx(idx, self.len()), ..self }
    }

    /// The index one step from the focus.
    pub open spec fn next_idx(self, direction: CycleDirection) -> Option<int> {
        if self.len() == 0 {
            None
        } else {
            Some(stepped(direction, self.focused, self.len()))
        }
    }

    /// The ring with the focus moved one step.
    pub open spec fn cycle_focus(self, direction: CycleDirection) -> Self {
        if self.len() == 0 {
            self
        } else {
            RingView { focused: stepped(direction, self.focused, self.len()), ..self }
        }
    }

    /// The ring with two elements swapped, the focus left at its index.
    pub open spec fn swap(self, a: int, b: int) -> Self {
        if 0 <= a < self.len() && 0 <= b < self.len() {
            RingView {
                elements: self.elements.update(a, self.elements[b]).update(b, self.elements[a]),
                ..self
            }
        } else {
            self
        }
    }

    /// The ring with the focused element swapped with its neighbour, and the focus on it.
    pub open spec fn move_focused(self, direction: CycleDirection) -> Self {
        if self.len() == 0 {
            self
        } else {
            let to = stepped(direction, self.focused, self.len());
            self.swap(self.focused, to).focus(to)
        }
    }

    /// The ring with an element appended.
    pub open spec fn push(self, element: V) -> Self {
        RingView { elements: self.elements.push(element), ..self }
    }

    /// The ring with an element appended and focused.
    pub open spec fn push_focused(self, element: V) -> Self {
        RingView { elements: self.elements.push(element), focused: self.len() }
    }

    /// Where an insertion at `idx` ends up: there, or at the end.
    pub open spec fn slot(self, idx: int) -> int {
        if idx <= self.len() {
            idx
        } else {
            self.len()
        }
    }

    /// The ring with an element inserted, the focus staying on the element it was on.
    pub open spec fn insert(self, idx: int, element: V) -> Self {
        let at = self.slot(idx);
        RingView {
            elements: self.elements.insert(at, element),
            focused: if at <= self.focused && self.len() > 0 {
                self.focused + 1
            } else {
                self.focused
            },
        }
    }

    /// The ring with an element inserted and focused.
    pub open spec fn insert_focused(self, idx: int, element: V) -> Self {
        let at = self.slot(idx);
        RingView { elements: self.elements.insert(at, element), focused: at }
    }

    /// The ring without the element at `idx`: the focus follows the element it
    /// was on, or stays in place when that very element went.
    pub open spec fn remove(self, idx: int) -> Self {
        if 0 <= idx < self.len() {
            RingView {
                elements: self.elements.remove(idx),
                focused: if idx < self.focused {
                    self.focused - 1
                } else {
                    clamped_idx(self.focused, self.len() - 1)
                },
            }
        } else {
            self
        }
    }
}

/// A `Vec` that remembers which element is focused.
///
/// Every level of the tree is a ring: monitors in the state, workspaces on a
/// monitor, containers in a workspace and windows in a container. Mutating
/// methods keep the focus pointing at a sensible element.
#[derive(Debug, Clone, PartialEq, Eq)]
pub struct Ring<T> {
    elements: Vec<T>,
    focused: usize,
}

impl<T: View> View for Ring<T> {
    type V = RingView<T::V>;

    closed spec fn view(&self) -> RingView<T::V> {
        RingView {
            elements: self.items().map_values(|t: T| t@),
            focused: clamped_idx(self.focused as int, self.elements@.len() as int),
        }
    }
}

impl<T> Ring<T> {
    /// The elements themselves, in order.
    pub closed spec fn items(&self) -> Seq<T> {
        self.elements@
    }

    /// The ring over `elements`, focused on the first one.
    pub closed spec fn over(elements: Vec<T>) -> Self {
        Ring { elements, focused: 0 }
    }

    /// The stored focus is on an element, or at the start of an empty ring. Every
    /// ring is made that way and every method keeps it so: two rings with the same
    /// elements and the same focused element are stored alike.
    pub closed spec fn is_settled(&self) -> bool {
        self.focused == self.focus_index()
    }

    /// The index of the focused element.
    pub closed spec fn focus_index(&self) -> int {
        clamped_idx(self.focused as int, self.elements@.len() as int)
    }
}

impl<T: View> Default for Ring<T> {
    fn default() -> (r: Self)
        ensures
            r@ == RingView::<T::V>::empty(),
            r.is_settled(),
    {
        Ring::new()
    }
}

impl<T: View> Ring<T> {
    /// The view of a ring is the views of its elements, with its focus.
    pub proof fn view_of_items(&self)
        ensures
            self@.elements == self.items().map_values(|t: T| t@),
            self@.focused == self.focus_index(),
            self@.elements.len() == self.items().len(),
            self@.wf(),
    {
    }

    /// An empty ring.
    #[must_use]
    pub fn new() -> (r: Self)
        ensures
            r@ == RingView::<T::V>::empty(),
            r.is_settled(),
    {
        let r = Ring { elements: Vec::new(), focused: 0 };
        assert(r@.elements =~= Seq::<T::V>::empty());
        r
    }

    /// A ring over `elements`, focused on the first one.
    #[must_use]
    pub fn from_vec(elements: Vec<T>) -> (r: Self)
        ensures
            r@ == RingView::over(elements@.map_values(|t: T| t@)),
            r == Ring::over(elements),
            r.items() == elements@,
            r.is_settled(),
    {
        Ring { elements, focused: 0 }
    }

    /// The number of elements.
    #[must_use]
    pub fn len(&self) -> (r: usize)
        ensures
            r == self@.len(),
    {
        self.elements.len()
    }

    /// `true` when the ring holds nothing.
    #[must_use]
    pub fn is_empty(&self) -> (r: bool)
        ensures
            r == (self@.len() == 0),
    {
        self.elements.is_empty()
    }

    /// The elements in order.
    #[must_use]
    pub fn elements(&self) -> (r: &[T])
        ensures
            r@ == self.items(),
            r@.map_values(|t: T| t@) == self@.elements,
    {
        self.elements.as_slice()
    }

    /// The elements in order, mutably. The order cannot be changed this way.
    pub fn elements_mut(&mut self) -> (r: &mut [T])
        ensures
            r@ == old(self).items(),
            final(self)@ == RingView::over(final(r)@.map_values(|t: T| t@)).focus_clamped(
                old(self)@.focused,
            ),
            final(self).items() == final(r)@,
            final(r)@.len() == old(self)@.len() ==> final(self).is_settled(),
    {
        let focused = self.focused_idx();
        self.focused = focused;
        let r = self.elements.as_mut_slice();
        r
    }

    /// The elements in order, to walk over mutably.
    pub fn iter_mut(&mut self) -> (r: &mut [T])
        ensures
            r@ == old(self).items(),
            final(self)@ == RingView::over(final(r)@.map_values(|t: T| t@)).focus_clamped(
                old(self)@.focused,
            ),
            final(self).items() == final(r)@,
            final(r)@.len() == old(self)@.len() ==> final(self).is_settled(),
    {
        self.elements_mut()
    }

    /// Consumes the ring and returns its elements.
    #[must_use]
    pub fn into_vec(self) -> (r: Vec<T>)
        ensures
            r@ == self.items(),
            r@.map_values(|t: T| t@) == self@.elements,
    {
        self.elements
    }

    /// The focused index. `0` for an empty ring.
    #[must_use]
    pub fn focused_idx(&self) -> (r: usize)
        ensures
            r == self@.focused,
            r < usize::MAX,
            self@.len() > 0 ==> r < self@.len(),
            self@.len() == 0 ==> r == 0,
    {
        if self.elements.is_empty() {
            0
        } else {
            self.focused.min(self.elements.len() - 1)
        }
    }

    /// The element at `idx`.
    #[must_use]
    pub fn get(&self, idx: usize) -> (r: Option<&T>)
        ensures
            match r {
                Some(t) => self@.at(idx as int) == Some(t@) && *t == self.items()[idx as int],
                None => self@.at(idx as int) is None,
            },
    {
        if idx < self.elements.len() {
            Some(&self.elements[idx])
        } else {
            None
        }
    }

    /// The element at `idx`, mutably.
    pub fn get_mut(&mut self, idx: usize) -> (r: Option<&mut T>)
        ensures
            match r {
                Some(t) => old(self)@.at(idx as int) == Some((*t)@) && final(self)@ == old(
                    self,
                )@.with(idx as int, (*final(t))@),
                None => old(self)@.at(idx as int) is None && final(self)@ == old(self)@,
            },
            old(self).is_settled() ==> final(self).is_settled(),
    {
        if idx < self.elements.len() {
            let r = &mut self.elements[idx];
            assert(after_borrow(self.elements)@.map_values(|t: T| t@) =~= old(
                self,
            )@.elements.update(idx as int, (*final(r))@));
            Some(r)
        } else {
            None
        }
    }

    /// The focused element.
    #[must_use]
    pub fn focused(&self) -> (r: Option<&T>)
        ensures
            match r {
                Some(t) => self@.current() == Some(t@) && self@.len() > 0,
                None => self@.current() is None && self@.len() == 0,
            },
    {
        self.get(self.focused_idx())
    }

    /// The focused element, mutably.
    pub fn focused_mut(&mut self) -> (r: Option<&mut T>)
        ensures
            match r {
                Some(t) => old(self)@.current() == Some((*t)@) && final(self)@ == old(self)@.with(
                    old(self)@.focused,
                    (*final(t))@,
                ) && old(self)@.len() > 0,
                None => old(self)@.current() is None && final(self)@ == old(self)@ && old(
                    self,
                )@.len() == 0,
            },
            old(self).is_settled() ==> final(self).is_settled(),
    {
        let idx = self.focused_idx();
        self.get_mut(idx)
    }

    /// Focuses `idx`. Returns `false` and changes nothing when out of range.
    pub fn focus(&mut self, idx: usize) -> (r: bool)
        ensures
            r == (idx < old(self)@.len()),
            final(self)@ == old(self)@.focus(idx as int),
            old(self).is_settled() ==> final(self).is_settled(),
    {
        if idx < self.elements.len() {
            self.focused = idx;
            true
        } else {
            false
        }
    }

    /// Focuses `idx`, clamped into range.
    pub fn focus_clamped(&mut self, idx: usize)
        ensures
            final(self)@ == old(self)@.focus_clamped(idx as int),
            final(self).is_settled(),
    {
        self.focused = idx.min(self.elements.len().saturating_sub(1));
    }

    /// The index one step away in `direction`, wrapping.
    #[must_use]
    pub fn next_idx(&self, direction: CycleDirection) -> (r: Option<usize>)
        ensures
            match r {
                Some(idx) => self@.next_idx(direction) == Some(idx as int) && idx < self@.len(),
                None => self@.next_idx(direction) is None,
            },
    {
        if self.elements.len() == 0 {
            return None;
        }
        let idx = self.focused_idx();
        proof {
            a_step_back_undoes_a_step(direction, idx as int, self@.len());
        }
        direction.step(idx, self.elements.len())
    }

    /// Moves the focus one step in `direction`, wrapping. Returns the new index.
    pub fn cycle_focus(&mut self, direction: CycleDirection) -> (r: Option<usize>)
        ensures
            final(self)@ == old(self)@.cycle_focus(direction),
            old(self).is_settled() ==> final(self).is_settled(),
            match r {
                Some(idx) => old(self)@.len() > 0 && idx == final(self)@.focused,
                None => old(self)@.len() == 0,
            },
    {
        match self.next_idx(direction) {
            Some(idx) => {
                self.focused = idx;
                Some(idx)
            },
            None => None,
        }
    }

    fn swap_elements(&mut self, a: usize, b: usize)
        requires
            a < old(self)@.len(),
            b < old(self)@.len(),
        ensures
            final(self)@ == old(self)@.swap(a as int, b as int),
            old(self).is_settled() ==> final(self).is_settled(),
    {
        let ghost before = self.elements@;
        if a != b {
            let (low, high) = if a < b {
                (a, b)
            } else {
                (b, a)
            };
            let upper = self.elements.remove(high);
            let lower = self.elements.remove(low);
            self.elements.insert(low, upper);
            self.elements.insert(high, lower);
        }
        assert(self.elements@ =~= before.update(a as int, before[b as int]).update(
            b as int,
            before[a as int],
        ));
        assert(self@.elements =~= old(self)@.swap(a as int, b as int).elements);
    }

    /// Swaps the focused element with its neighbour in `direction` and follows
    /// it. Returns the new index of the focused element.
    pub fn move_focused(&mut self, direction: CycleDirection) -> (r: Option<usize>)
        ensures
            final(self)@ == old(self)@.move_focused(direction),
            old(self).is_settled() ==> final(self).is_settled(),
            match r {
                Some(idx) => old(self)@.len() > 0 && idx == final(self)@.focused,
                None => old(self)@.len() == 0,
            },
    {
        let from = self.focused_idx();
        match self.next_idx(direction) {
            None => None,
            Some(to) => {
                self.swap_elements(from, to);
                self.focused = to;
                Some(to)
            },
        }
    }

    /// Appends an element without moving the focus.
    pub fn push(&mut self, element: T)
        ensures
            final(self)@ == old(self)@.push(element@),
            final(self).is_settled(),
    {
        self.focused = self.focused_idx();
        self.elements.push(element);
        assert(self@.elements =~= old(self)@.elements.push(element@));
    }

    /// Appends an element and focuses it. Returns its index.
    pub fn push_focused(&mut self, element: T) -> (r: usize)
        ensures
            r == old(self)@.len(),
            final(self)@ == old(self)@.push_focused(element@),
            final(self).is_settled(),
    {
        let idx = self.elements.len();
        self.elements.push(element);
        self.focused = idx;
        assert(self@.elements =~= old(self)@.elements.push(element@));
        idx
    }

    /// Inserts at `idx`, clamped to the end. The previously focused element
    /// stays focused.
    pub fn insert(&mut self, idx: usize, element: T) -> (r: usize)
        ensures
            r == old(self)@.slot(idx as int),
            final(self)@ == old(self)@.insert(idx as int, element@),
            final(self).is_settled(),
    {
        let idx = idx.min(self.elements.len());
        let focused = self.focused_idx();
        let was_empty = self.elements.is_empty();
        self.elements.insert(idx, element);
        self.focused = if idx <= focused && !was_empty {
            focused + 1
        } else {
            focused
        };
        assert(self@.elements =~= old(self)@.elements.insert(idx as int, element@));
        idx
    }

    /// Inserts at `idx`, clamped to the end, and focuses the new element.
    pub fn insert_focused(&mut self, idx: usize, element: T) -> (r: usize)
        ensures
            r == old(self)@.slot(idx as int),
            final(self)@ == old(self)@.insert_focused(idx as int, element@),
            final(self).is_settled(),
    {
        let at = self.insert(idx, element);
        assert(self@.len() == old(self)@.len() + 1);
        self.focused = at;
        at
    }

    /// Removes and returns the element at `idx`.
    ///
    /// The focus follows the element it was on, or stays in place when the
    /// focused element itself was removed.
    pub fn remove(&mut self, idx: usize) -> (r: Option<T>)
        ensures
            final(self)@ == old(self)@.remove(idx as int),
            old(self).is_settled() ==> final(self).is_settled(),
            match r {
                Some(t) => old(self)@.at(idx as int) == Some(t@),
                None => old(self)@.at(idx as int) is None,
            },
    {
        if idx >= self.elements.len() {
            return None;
        }
        let focused = self.focused_idx();
        let element = self.elements.remove(idx);
        self.focused = if idx < focused {
            focused - 1
        } else {
            focused.min(self.elements.len().saturating_sub(1))
        };
        assert(self@.elements =~= old(self)@.elements.remove(idx as int));
        Some(element)
    }

    /// Removes and returns the focused element.
    pub fn remove_focused(&mut self) -> (r: Option<T>)
        ensures
            final(self)@ == old(self)@.remove(old(self)@.focused),
            old(self).is_settled() ==> final(self).is_settled(),
            match r {
                Some(t) => old(self)@.current() == Some(t@),
                None => old(self)@.current() is None,
            },
    {
        let idx = self.focused_idx();
        self.remove(idx)
    }

    /// Swaps two elements. Returns `false` when either index is out of range.
    pub fn swap(&mut self, a: usize, b: usize) -> (r: bool)
        ensures
            r == (a < old(self)@.len() && b < old(self)@.len()),
            final(self)@ == old(self)@.swap(a as int, b as int),
            old(self).is_settled() ==> final(self).is_settled(),
    {
        if a >= self.elements.len() || b >= self.elements.len() {
            return false;
        }
        self.swap_elements(a, b);
        true
    }

    /// The index of the first element matching `predicate`.
    pub fn position<F: Fn(&T) -> bool>(&self, predicate: F) -> (r: Option<usize>)
        requires
            forall|t: &T| call_requires(predicate, (t,)),
        ensures
            match r {
                Some(idx) => {
                    &&& idx < self.items().len()
                    &&& call_ensures(predicate, (&self.items()[idx as int],), true)
                    &&& forall|j: int|
                        0 <= j < idx ==> call_ensures(predicate, (&#[trigger] self.items()[j],), false)
                },
                None => forall|j: int|
                    0 <= j < self.items().len() ==> call_ensures(
                        predicate,
                        (&#[trigger] self.items()[j],),
                        false,
                    ),
            },
    {
        for idx in 0..self.elements.len()
            invariant
                forall|t: &T| call_requires(predicate, (t,)),
                forall|j: int|
                    0 <= j < idx ==> call_ensures(predicate, (&#[trigger] self.items()[j],), false),
        {
            if predicate(&self.elements[idx]) {
                return Some(idx);
            }
        }
        None
    }

    /// Drops every element and resets the focus.
    pub fn clear(&mut self)
        ensures
            final(self)@ == RingView::<T::V>::empty(),
            final(self).is_settled(),
    {
        self.elements.clear();
        self.focused = 0;
        assert(self@.elements =~= Seq::<T::V>::empty());
    }

    /// Iterates the elements in order.
    pub fn iter(&self) -> (r: std::slice::Iter<'_, T>)
        ensures
            vstd::std_specs::iter::IteratorSpec::remaining(&r) == self.items().map_values(|t: T| &t),
    {
        self.elements.as_slice().iter()
    }
}

impl<T: View> From<Vec<T>> for Ring<T> {
    fn from(elements: Vec<T>) -> (r: Self)
        ensures
            r@ == RingView::over(elements@.map_values(|t: T| t@)),
            r == Ring::over(elements),
            r.items() == elements@,
            r.is_settled(),
    {
        Ring::from_vec(elements)
    }
}

impl<T: View> vstd::std_specs::convert::FromSpecImpl<Vec<T>> for Ring<T> {
    open spec fn obeys_from_spec() -> bool {
        true
    }

    open spec fn from_spec(elements: Vec<T>) -> Self {
        Ring::over(elements)
    }
}

impl<'a, T: View> IntoIterator for &'a Ring<T> {
    type Item = &'a T;

    type IntoIter = std::slice::Iter<'a, T>;

    fn into_iter(self) -> (r: Self::IntoIter)
        ensures
            vstd::std_specs::iter::IteratorSpec::remaining(&r) == self.items().map_values(|t: T| &t),
    {
        self.iter()
    }
}

/// A reference to every element, to change each of them in place.
fn each_mut<'a, T>(elements: &'a mut [T]) -> (r: Vec<&'a mut T>)
    ensures
        r@.len() == old(elements)@.len(),
        final(elements)@.len() == r@.len(),
        forall|i: int|
            0 <= i < r@.len() ==> *#[trigger] r@[i] == old(elements)@[i] && *final(r@[i])
                == final(elements)@[i],
{
    let ghost all = elements@;
    let ghost after = final(elements)@;
    let mut r: Vec<&'a mut T> = Vec::new();
    let mut rest = elements;
    while rest.len() > 0
        invariant
            rest@ == all.skip(r@.len() as int),
            r@.len() <= all.len(),
            after.len() == r@.len() + final(rest)@.len(),
            final(rest)@ == after.skip(r@.len() as int),
            forall|i: int|
                0 <= i < r@.len() ==> *#[trigger] r@[i] == all[i] && *final(r@[i]) == after[i],
        decreases rest@.len(),
    {
        let ghost left = final(rest)@;
        let (front, back) = rest.split_at_mut(1);
        let first = &mut front[0];
        assert(left[0] == *final(first) && left.skip(1) =~= final(back)@);
        assert(after.skip(r@.len() as int).skip(1) =~= after.skip((r@.len() + 1) as int));
        r.push(first);
        rest = back;
    }
    r
}

impl<'a, T: View> IntoIterator for &'a mut Ring<T> {
    type Item = &'a mut T;

    type IntoIter = std::vec::IntoIter<&'a mut T>;

    fn into_iter(self) -> (r: Self::IntoIter)
        ensures
            ({
                let each = vstd::std_specs::iter::IteratorSpec::remaining(&r);
                &&& each.len() == old(self)@.len()
                &&& final(self).items().len() == each.len()
                &&& final(self)@.focused == old(self)@.focused
                &&& final(self).is_settled()
                &&& forall|i: int|
                    0 <= i < each.len() ==> *#[trigger] each[i] == old(self).items()[i]
                        && *final(each[i]) == final(self).items()[i]
            }),
    {
        each_mut(self.elements_mut()).into_iter()
    }
}

impl<T: View> IntoIterator for Ring<T> {
    type Item = T;

    type IntoIter = std::vec::IntoIter<T>;

    fn into_iter(self) -> (r: Self::IntoIter)
        ensures
            vstd::std_specs::iter::IteratorSpec::remaining(&r) == self.items(),
    {
        self.elements.into_iter()
    }
}

} // verus!
