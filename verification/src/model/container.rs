//! A container: the stack of windows that share one tile.

use vstd::prelude::*;

use crate::model::ring::{CycleDirection, Ring, RingView};
use crate::model::window::{has_id, ids_of, Window, WindowId, WindowView};
use crate::seqs::{any, first_idx, first_is, first_is_none};

verus! {

/// What a [`Container`] holds: its windows, and which of them is visible.
pub type ContainerView = RingView<WindowView>;

/// Holds of a container with that window in it.
pub open spec fn holds(id: WindowId) -> spec_fn(ContainerView) -> bool {
    |c: ContainerView| any(c.elements, has_id(id))
}

/// The index of a window among others.
pub open spec fn idx_of(windows: Seq<WindowView>, id: WindowId) -> Option<int> {
    first_idx(windows, has_id(id))
}

/// The handle of the visible window.
pub open spec fn top_of(container: ContainerView) -> Option<WindowId> {
    match container.current() {
        Some(w) => Some(w.id),
        None => None,
    }
}

/// A container holding one window.
pub open spec fn alone(window: WindowView) -> ContainerView {
    RingView::over(seq![window])
}

/// A container with a window put on top and focused. A window that is already
/// in it is only focused.
pub open spec fn stacked(container: ContainerView, window: WindowView) -> ContainerView {
    match idx_of(container.elements, window.id) {
        Some(idx) => container.focus(idx),
        None => container.push_focused(window),
    }
}

/// A container with a window put in at `idx` and focused. A window that is
/// already in it is only focused.
pub open spec fn inserted(container: ContainerView, idx: int, window: WindowView) -> ContainerView {
    match idx_of(container.elements, window.id) {
        Some(existing) => container.focus(existing),
        None => container.insert_focused(idx, window),
    }
}

/// A container with the focus on that window, unchanged when it is not there.
pub open spec fn focused_on(container: ContainerView, id: WindowId) -> ContainerView {
    match idx_of(container.elements, id) {
        Some(idx) => container.focus(idx),
        None => container,
    }
}

/// A container without that window, unchanged when it is not there.
pub open spec fn without(container: ContainerView, id: WindowId) -> ContainerView {
    match idx_of(container.elements, id) {
        Some(idx) => container.remove(idx),
        None => container,
    }
}

/// The windows of a ring in order, but the focused one.
pub open spec fn behind_the_top(container: ContainerView, n: int) -> Seq<WindowId>
    decreases n,
{
    if n <= 0 {
        Seq::empty()
    } else if n - 1 == container.focused {
        behind_the_top(container, n - 1)
    } else {
        behind_the_top(container, n - 1).push(container.elements[n - 1].id)
    }
}

/// Finds a window in a ring by its handle.
pub fn find_window(windows: &Ring<Window>, id: WindowId) -> (r: Option<usize>)
    ensures
        match r {
            Some(idx) => idx_of(windows@.elements, id) == Some(idx as int) && idx < windows@.len()
                && windows@.elements[idx as int].id == id,
            None => idx_of(windows@.elements, id) is None,
        },
        r is Some == any(windows@.elements, has_id(id)),
{
    proof {
        windows.view_of_items();
    }
    let elements = windows.elements();
    for idx in 0..elements.len()
        invariant
            elements@.map_values(|t: Window| t@) == windows@.elements,
            elements@.len() == windows@.elements.len(),
            forall|j: int| 0 <= j < idx ==> !has_id(id)(#[trigger] windows@.elements[j]),
    {
        assert(windows@.elements[idx as int] == elements@[idx as int]@);
        if elements[idx].id == id {
            proof {
                first_is(windows@.elements, has_id(id), idx as int);
            }
            return Some(idx);
        }
    }
    proof {
        first_is_none(windows@.elements, has_id(id));
    }
    None
}

/// A stack of windows sharing one rectangle.
///
/// Only the focused window is visible; the rest are hidden by whatever hiding
/// behaviour the daemon is configured with. A container with one window is the
/// normal case, several windows make a stack.
#[derive(Debug, Clone, PartialEq, Eq)]
pub struct Container {
    windows: Ring<Window>,
}

impl View for Container {
    type V = ContainerView;

    closed spec fn view(&self) -> ContainerView {
        self.windows@
    }
}

impl Default for Container {
    fn default() -> (r: Self)
        ensures
            r@ == ContainerView::empty(),
    {
        Container { windows: Ring::new() }
    }
}

impl Container {
    /// The focus lies on a window, or at `0` when there is none.
    pub proof fn view_is_wf(&self)
        ensures
            self@.wf(),
    {
        self.windows.view_of_items();
    }

    /// An empty container. Workspaces drop these as soon as they appear.
    #[must_use]
    pub fn new() -> (r: Self)
        ensures
            r@ == ContainerView::empty(),
    {
        Container { windows: Ring::new() }
    }

    /// A container holding one window.
    #[must_use]
    pub fn from_window(window: Window) -> (r: Self)
        ensures
            r@ == alone(window@),
    {
        let mut windows = Ring::new();
        windows.push(window);
        assert(windows@ =~= alone(window@));
        Container { windows }
    }

    /// The windows, focused one included.
    #[must_use]
    pub fn windows(&self) -> (r: &Ring<Window>)
        ensures
            r@ == self@,
    {
        &self.windows
    }

    /// The windows, mutably.
    pub fn windows_mut(&mut self) -> (r: &mut Ring<Window>)
        ensures
            (*r)@ == old(self)@,
            final(self)@ == (*final(r))@,
    {
        &mut self.windows
    }

    /// The number of stacked windows.
    #[must_use]
    pub fn len(&self) -> (r: usize)
        ensures
            r == self@.len(),
    {
        self.windows.len()
    }

    /// `true` when the container holds no windows.
    #[must_use]
    pub fn is_empty(&self) -> (r: bool)
        ensures
            r == (self@.len() == 0),
    {
        self.windows.is_empty()
    }

    /// `true` when more than one window shares this tile.
    #[must_use]
    pub fn is_stack(&self) -> (r: bool)
        ensures
            r == (self@.len() > 1),
    {
        self.windows.len() > 1
    }

    /// The window that is actually visible.
    #[must_use]
    pub fn focused_window(&self) -> (r: Option<&Window>)
        ensures
            match r {
                Some(w) => self@.current() == Some(w@),
                None => self@.current() is None,
            },
    {
        self.windows.focused()
    }

    /// The window that is actually visible, mutably.
    pub fn focused_window_mut(&mut self) -> (r: Option<&mut Window>)
        ensures
            match r {
                Some(w) => old(self)@.current() == Some((*w)@) && final(self)@ == old(self)@.with(
                    old(self)@.focused,
                    (*final(w))@,
                ),
                None => old(self)@.current() is None && final(self)@ == old(self)@,
            },
    {
        self.windows.focused_mut()
    }

    /// The handle of the visible window.
    #[must_use]
    pub fn focused_window_id(&self) -> (r: Option<WindowId>)
        ensures
            r == top_of(self@),
    {
        match self.windows.focused() {
            Some(w) => Some(w.id),
            None => None,
        }
    }

    /// Every handle in the stack, in order.
    #[must_use]
    pub fn window_ids(&self) -> (r: Vec<WindowId>)
        ensures
            r@ == ids_of(self@.elements),
    {
        let elements = self.windows.elements();
        let mut ids: Vec<WindowId> = Vec::new();
        for idx in 0..elements.len()
            invariant
                elements@.map_values(|t: Window| t@) == self@.elements,
                ids@ == ids_of(self@.elements.take(idx as int)),
        {
            ids.push(elements[idx].id);
            assert(self@.elements[idx as int] == elements@[idx as int]@);
            assert(ids@ =~= ids_of(self@.elements.take(idx + 1)));
        }
        assert(self@.elements.take(elements@.len() as int) =~= self@.elements);
        ids
    }

    /// The handles that are currently hidden behind the focused one.
    #[must_use]
    pub fn hidden_window_ids(&self) -> (r: Vec<WindowId>)
        ensures
            r@ == behind_the_top(self@, self@.len()),
    {
        let focused = self.windows.focused_idx();
        let elements = self.windows.elements();
        let mut ids: Vec<WindowId> = Vec::new();
        for idx in 0..elements.len()
            invariant
                elements@.map_values(|t: Window| t@) == self@.elements,
                focused == self@.focused,
                ids@ == behind_the_top(self@, idx as int),
        {
            assert(self@.elements[idx as int] == elements@[idx as int]@);
            if idx != focused {
                ids.push(elements[idx].id);
            }
        }
        ids
    }

    /// The position of a window in the stack.
    #[must_use]
    pub fn idx_for(&self, id: WindowId) -> (r: Option<usize>)
        ensures
            match r {
                Some(idx) => idx_of(self@.elements, id) == Some(idx as int) && idx < self@.len()
                    && self@.elements[idx as int].id == id,
                None => idx_of(self@.elements, id) is None,
            },
            r is Some == holds(id)(self@),
    {
        find_window(&self.windows, id)
    }

    /// `true` when the window is in this stack.
    #[must_use]
    pub fn contains(&self, id: WindowId) -> (r: bool)
        ensures
            r == holds(id)(self@),
            r == (idx_of(self@.elements, id) is Some),
    {
        self.idx_for(id).is_some()
    }

    /// The window with that handle.
    #[must_use]
    pub fn window(&self, id: WindowId) -> (r: Option<&Window>)
        ensures
            match r {
                Some(w) => idx_of(self@.elements, id) matches Some(idx) && self@.at(idx) == Some(w@)
                    && w.id == id,
                None => idx_of(self@.elements, id) is None,
            },
    {
        match self.idx_for(id) {
            Some(idx) => self.windows.get(idx),
            None => None,
        }
    }

    /// The window with that handle, mutably.
    pub fn window_mut(&mut self, id: WindowId) -> (r: Option<&mut Window>)
        ensures
            match r {
                Some(w) => idx_of(old(self)@.elements, id) matches Some(idx) && old(self)@.at(idx)
                    == Some((*w)@) && final(self)@ == old(self)@.with(idx, (*final(w))@),
                None => idx_of(old(self)@.elements, id) is None && final(self)@ == old(self)@,
            },
    {
        match self.idx_for(id) {
            Some(idx) => self.windows.get_mut(idx),
            None => None,
        }
    }

    /// Adds a window on top of the stack and focuses it.
    ///
    /// A window that is already in the stack is only focused, never duplicated.
    pub fn add_window(&mut self, window: Window) -> (r: usize)
        ensures
            final(self)@ == stacked(old(self)@, window@),
            r == final(self)@.focused,
    {
        if let Some(idx) = self.idx_for(window.id) {
            self.windows.focus(idx);
            return idx;
        }
        self.windows.push_focused(window)
    }

    /// Inserts a window at `idx` and focuses it.
    pub fn insert_window(&mut self, idx: usize, window: Window) -> (r: usize)
        ensures
            final(self)@ == inserted(old(self)@, idx as int, window@),
            r == final(self)@.focused,
    {
        if let Some(existing) = self.idx_for(window.id) {
            self.windows.focus(existing);
            return existing;
        }
        self.windows.insert_focused(idx, window)
    }

    /// Removes a window by handle.
    pub fn remove_window(&mut self, id: WindowId) -> (r: Option<Window>)
        ensures
            final(self)@ == without(old(self)@, id),
            match r {
                Some(w) => idx_of(old(self)@.elements, id) matches Some(idx) && old(self)@.at(idx)
                    == Some(w@) && w.id == id,
                None => idx_of(old(self)@.elements, id) is None,
            },
    {
        match self.idx_for(id) {
            Some(idx) => self.windows.remove(idx),
            None => None,
        }
    }

    /// Removes the visible window.
    pub fn remove_focused_window(&mut self) -> (r: Option<Window>)
        ensures
            final(self)@ == old(self)@.remove(old(self)@.focused),
            match r {
                Some(w) => old(self)@.current() == Some(w@),
                None => old(self)@.current() is None,
            },
    {
        self.windows.remove_focused()
    }

    /// Focuses a window by handle. Returns `false` when it is not in the stack.
    pub fn focus_window(&mut self, id: WindowId) -> (r: bool)
        ensures
            final(self)@ == focused_on(old(self)@, id),
            r == holds(id)(old(self)@),
            r == (idx_of(old(self)@.elements, id) is Some),
    {
        match self.idx_for(id) {
            Some(idx) => self.windows.focus(idx),
            None => false,
        }
    }

    /// Moves the focus one window along the stack, wrapping.
    pub fn cycle_focus(&mut self, direction: CycleDirection) -> (r: Option<WindowId>)
        ensures
            final(self)@ == old(self)@.cycle_focus(direction),
            r == top_of(final(self)@),
    {
        self.windows.cycle_focus(direction);
        self.focused_window_id()
    }

    /// Takes every window out of the container, leaving it empty.
    pub fn drain(&mut self) -> (r: Vec<Window>)
        ensures
            final(self)@ == ContainerView::empty(),
            r@.map_values(|w: Window| w@) == old(self)@.elements,
    {
        let mut windows = Ring::new();
        std::mem::swap(&mut windows, &mut self.windows);
        windows.into_vec()
    }
}

impl From<Window> for Container {
    fn from(window: Window) -> (r: Self)
        ensures
            r@ == alone(window@),
    {
        Container::from_window(window)
    }
}

impl vstd::std_specs::convert::FromSpecImpl<Window> for Container {
    open spec fn obeys_from_spec() -> bool {
        false
    }

    open spec fn from_spec(window: Window) -> Self {
        arbitrary()
    }
}

} // verus!
