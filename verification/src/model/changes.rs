//! What a mutating operation changed, so the daemon knows what to redraw.
//!
//! Nothing in this crate talks to Win32. Every operation instead returns a
//! [`Changes`] describing the work the daemon has to do: which workspaces need
//! a fresh layout, which windows have to be shown, hidden, focused, maximized
//! or closed.

use vstd::prelude::*;

use crate::geometry::Rect;
use crate::model::window::WindowId;

verus! {

/// A workspace, addressed by its monitor and its index on that monitor.
#[derive(Debug, Clone, Copy, PartialEq, Eq, PartialOrd, Ord, Hash, Structural)]
pub struct WorkspaceRef {
    /// The index of the monitor in the state's monitor ring.
    pub monitor: usize,
    /// The index of the workspace on that monitor.
    pub workspace: usize,
}

impl WorkspaceRef {
    /// A reference to one workspace.
    #[must_use]
    #[verifier::allow_in_spec]
    pub fn new(monitor: usize, workspace: usize) -> Self
        returns
            (WorkspaceRef { monitor, workspace }),
    {
        WorkspaceRef { monitor, workspace }
    }
}

/// What a [`Changes`] holds.
#[verifier::ext_equal]
pub ghost struct ChangesView {
    /// Workspaces whose layout has to be recomputed and applied.
    pub retiled: Seq<WorkspaceRef>,
    /// Windows that have to be brought on screen.
    pub show: Seq<WindowId>,
    /// Windows that have to be taken off screen.
    pub hide: Seq<WindowId>,
    /// Windows that have to be minimized.
    pub minimize: Seq<WindowId>,
    /// Windows that have to be taken out of a maximized or minimized state.
    pub restore: Seq<WindowId>,
    /// The window that has to be maximized, if any.
    pub maximize: Option<WindowId>,
    /// The window that has to be closed, if any.
    pub close: Option<WindowId>,
    /// The window that has to end up with the foreground focus, if any.
    pub focus: Option<WindowId>,
    /// Where the cursor has to be warped to.
    pub warp_mouse_to: Option<Rect>,
    /// `true` when the focused monitor changed.
    pub focused_monitor_changed: bool,
}

/// The references with one more, unless it is already there.
pub open spec fn with_ref(refs: Seq<WorkspaceRef>, target: WorkspaceRef) -> Seq<WorkspaceRef> {
    if refs.contains(target) {
        refs
    } else {
        refs.push(target)
    }
}

/// The references with every one of `more` that is not already there.
pub open spec fn with_refs(refs: Seq<WorkspaceRef>, more: Seq<WorkspaceRef>) -> Seq<WorkspaceRef>
    decreases more.len(),
{
    if more.len() == 0 {
        refs
    } else {
        with_ref(with_refs(refs, more.drop_last()), more.last())
    }
}

/// The first of two choices that is one.
pub open spec fn or_else<T>(first: Option<T>, second: Option<T>) -> Option<T> {
    if first is Some {
        first
    } else {
        second
    }
}

/// The handles that are not among `others`, in order.
pub open spec fn not_in(ids: Seq<WindowId>, others: Seq<WindowId>) -> Seq<WindowId>
    decreases ids.len(),
{
    if ids.len() == 0 {
        Seq::empty()
    } else if others.contains(ids.last()) {
        not_in(ids.drop_last(), others)
    } else {
        not_in(ids.drop_last(), others).push(ids.last())
    }
}

/// The handles without the repeats, in the order they come up first.
pub open spec fn distinct(ids: Seq<WindowId>) -> Seq<WindowId>
    decreases ids.len(),
{
    if ids.len() == 0 {
        Seq::empty()
    } else if distinct(ids.drop_last()).contains(ids.last()) {
        distinct(ids.drop_last())
    } else {
        distinct(ids.drop_last()).push(ids.last())
    }
}

impl ChangesView {
    /// No side effects at all.
    pub open spec fn none() -> Self {
        ChangesView {
            retiled: Seq::empty(),
            show: Seq::empty(),
            hide: Seq::empty(),
            minimize: Seq::empty(),
            restore: Seq::empty(),
            maximize: None,
            close: None,
            focus: None,
            warp_mouse_to: None,
            focused_monitor_changed: false,
        }
    }

    /// The changes with a workspace marked as needing a fresh layout.
    pub open spec fn retile(self, monitor: int, workspace: int) -> Self {
        ChangesView {
            retiled: with_ref(
                self.retiled,
                WorkspaceRef { monitor: monitor as usize, workspace: workspace as usize },
            ),
            ..self
        }
    }

    /// The changes with `other` folded in: lists are appended, and of two
    /// choices the newer one wins.
    pub open spec fn merge(self, other: Self) -> Self {
        ChangesView {
            retiled: with_refs(self.retiled, other.retiled),
            show: self.show + other.show,
            hide: self.hide + other.hide,
            minimize: self.minimize + other.minimize,
            restore: self.restore + other.restore,
            maximize: or_else(other.maximize, self.maximize),
            close: or_else(other.close, self.close),
            focus: or_else(other.focus, self.focus),
            warp_mouse_to: or_else(other.warp_mouse_to, self.warp_mouse_to),
            focused_monitor_changed: self.focused_monitor_changed || other.focused_monitor_changed,
        }
    }

    /// The changes with every window that is both shown and hidden only shown,
    /// and without repeats.
    pub open spec fn settle(self) -> Self {
        ChangesView {
            show: distinct(self.show),
            hide: distinct(not_in(self.hide, self.show)),
            ..self
        }
    }
}

/// `not_in` keeps exactly the handles that are not among the others.
pub proof fn not_in_keeps(ids: Seq<WindowId>, others: Seq<WindowId>, id: WindowId)
    ensures
        not_in(ids, others).contains(id) <==> ids.contains(id) && !others.contains(id),
    decreases ids.len(),
{
    if ids.len() > 0 {
        let head = ids.drop_last();
        let last = ids.last();
        not_in_keeps(head, others, id);
        assert(ids == head.push(last));
        lemma_push_contains(head, last, id);
        if !others.contains(last) {
            lemma_push_contains(not_in(head, others), last, id);
        }
    }
}

pub proof fn lemma_push_contains(s: Seq<WindowId>, last: WindowId, id: WindowId)
    ensures
        s.push(last).contains(id) <==> s.contains(id) || last == id,
{
    if s.contains(id) {
        let k = choose|k: int| 0 <= k < s.len() && s[k] == id;
        assert(s.push(last)[k] == id);
    }
    if last == id {
        assert(s.push(last)[s.len() as int] == id);
    }
    if s.push(last).contains(id) {
        let k = choose|k: int| 0 <= k < s.push(last).len() && s.push(last)[k] == id;
        if k < s.len() {
            assert(s[k] == id);
        }
    }
}

/// `distinct` keeps every handle, once.
pub proof fn distinct_keeps(ids: Seq<WindowId>, id: WindowId)
    ensures
        distinct(ids).contains(id) <==> ids.contains(id),
        distinct(ids).no_duplicates(),
    decreases ids.len(),
{
    if ids.len() > 0 {
        let head = ids.drop_last();
        let last = ids.last();
        distinct_keeps(head, id);
        distinct_keeps(head, last);
        assert(ids == head.push(last));
        lemma_push_contains(head, last, id);
        lemma_push_contains(distinct(head), last, id);
    }
}

/// Settled changes never show and hide the same window, and name no window
/// twice in either list. Everything that was to be shown is shown, and
/// everything that was only to be hidden is hidden.
pub proof fn settled_changes_do_not_blink(changes: ChangesView, id: WindowId)
    ensures
        changes.settle().show.no_duplicates(),
        changes.settle().hide.no_duplicates(),
        !(changes.settle().show.contains(id) && changes.settle().hide.contains(id)),
        changes.settle().show.contains(id) <==> changes.show.contains(id),
        changes.settle().hide.contains(id) <==> changes.hide.contains(id)
            && !changes.show.contains(id),
{
    distinct_keeps(changes.show, id);
    distinct_keeps(not_in(changes.hide, changes.show), id);
    not_in_keeps(changes.hide, changes.show, id);
}

/// The side effects of one operation.
///
/// Empty fields mean "nothing to do". The daemon should apply the fields in
/// the order they are documented: hide, retile, show, maximize, focus.
#[derive(Debug, Clone, PartialEq, Eq)]
pub struct Changes {
    /// Workspaces whose layout has to be recomputed and applied.
    pub retiled: Vec<WorkspaceRef>,
    /// Windows that have to be brought on screen.
    pub show: Vec<WindowId>,
    /// Windows that have to be taken off screen.
    pub hide: Vec<WindowId>,
    /// Windows that have to be minimized.
    pub minimize: Vec<WindowId>,
    /// Windows that have to be taken out of a maximized or minimized state.
    pub restore: Vec<WindowId>,
    /// The window that has to be maximized, if any.
    pub maximize: Option<WindowId>,
    /// The window that has to be closed, if any.
    pub close: Option<WindowId>,
    /// The window that has to end up with the foreground focus, if any.
    pub focus: Option<WindowId>,
    /// Where the cursor has to be warped to, when `mouse_follows_focus` is on.
    pub warp_mouse_to: Option<Rect>,
    /// `true` when the focused monitor changed, so a bar can update.
    pub focused_monitor_changed: bool,
}

impl View for Changes {
    type V = ChangesView;

    open spec fn view(&self) -> ChangesView {
        ChangesView {
            retiled: self.retiled@,
            show: self.show@,
            hide: self.hide@,
            minimize: self.minimize@,
            restore: self.restore@,
            maximize: self.maximize,
            close: self.close,
            focus: self.focus,
            warp_mouse_to: self.warp_mouse_to,
            focused_monitor_changed: self.focused_monitor_changed,
        }
    }
}

impl Default for Changes {
    fn default() -> (r: Self)
        ensures
            r@ == ChangesView::none(),
    {
        Changes::none()
    }
}

/// `true` when the handle is among the others.
pub fn has_handle(ids: &[WindowId], id: WindowId) -> (r: bool)
    ensures
        r == ids@.contains(id),
{
    for i in 0..ids.len()
        invariant
            forall|j: int| 0 <= j < i ==> ids@[j] != id,
    {
        if ids[i] == id {
            return true;
        }
    }
    false
}

/// Appends the handles of `more` that are not among `others`.
pub fn extend_without(ids: &mut Vec<WindowId>, more: &[WindowId], others: &[WindowId])
    ensures
        final(ids)@ == old(ids)@ + not_in(more@, others@),
{
    for i in 0..more.len()
        invariant
            ids@ == old(ids)@ + not_in(more@.take(i as int), others@),
    {
        assert(more@.take(i + 1).drop_last() =~= more@.take(i as int));
        if !has_handle(others, more[i]) {
            ids.push(more[i]);
        }
        assert(ids@ =~= old(ids)@ + not_in(more@.take(i + 1), others@));
    }
    assert(more@.take(more@.len() as int) =~= more@);
}

fn dedup_keeping_order(ids: &mut Vec<WindowId>)
    ensures
        final(ids)@ == distinct(old(ids)@),
{
    let mut kept: Vec<WindowId> = Vec::new();
    for i in 0..ids.len()
        invariant
            ids@ == old(ids)@,
            kept@ == distinct(ids@.take(i as int)),
    {
        assert(ids@.take(i + 1).drop_last() =~= ids@.take(i as int));
        if !has_handle(kept.as_slice(), ids[i]) {
            kept.push(ids[i]);
        }
    }
    assert(ids@.take(ids@.len() as int) =~= ids@);
    *ids = kept;
}

impl Changes {
    /// No side effects at all.
    #[must_use]
    pub fn none() -> (r: Self)
        ensures
            r@ == ChangesView::none(),
    {
        let r = Changes {
            retiled: Vec::new(),
            show: Vec::new(),
            hide: Vec::new(),
            minimize: Vec::new(),
            restore: Vec::new(),
            maximize: None,
            close: None,
            focus: None,
            warp_mouse_to: None,
            focused_monitor_changed: false,
        };
        assert(r@ =~= ChangesView::none());
        r
    }

    /// `true` when there is nothing for the daemon to do.
    #[must_use]
    pub fn is_empty(&self) -> (r: bool)
        ensures
            r == (self@ == ChangesView::none()),
    {
        let r = self.retiled.is_empty() && self.show.is_empty() && self.hide.is_empty()
            && self.minimize.is_empty() && self.restore.is_empty() && self.maximize.is_none()
            && self.close.is_none() && self.focus.is_none() && self.warp_mouse_to.is_none()
            && !self.focused_monitor_changed;
        assert(r ==> self@ =~= ChangesView::none());
        r
    }

    /// Marks a workspace as needing a fresh layout. Duplicates are dropped.
    #[must_use]
    pub fn retile(self, monitor: usize, workspace: usize) -> (r: Self)
        ensures
            r@ == self@.retile(monitor as int, workspace as int),
    {
        let mut changes = self;
        changes.add_retile(monitor, workspace);
        changes
    }

    /// Marks a workspace as needing a fresh layout, in place.
    pub fn add_retile(&mut self, monitor: usize, workspace: usize)
        ensures
            final(self)@ == old(self)@.retile(monitor as int, workspace as int),
    {
        let target = WorkspaceRef { monitor, workspace };
        self.add_ref(target);
    }

    fn add_ref(&mut self, target: WorkspaceRef)
        ensures
            final(self)@ == (ChangesView {
                retiled: with_ref(old(self)@.retiled, target),
                ..old(self)@
            }),
    {
        for i in 0..self.retiled.len()
            invariant
                self@ == old(self)@,
                forall|j: int| 0 <= j < i ==> self.retiled@[j] != target,
        {
            if self.retiled[i] == target {
                return;
            }
        }
        self.retiled.push(target);
    }

    /// Sets the window to focus.
    #[must_use]
    pub fn focus(self, id: Option<WindowId>) -> (r: Self)
        ensures
            r@ == (ChangesView { focus: id, ..self@ }),
    {
        let mut changes = self;
        changes.focus = id;
        changes
    }

    /// Adds windows to show.
    #[must_use]
    pub fn showing(self, ids: Vec<WindowId>) -> (r: Self)
        ensures
            r@ == (ChangesView { show: self@.show + ids@, ..self@ }),
    {
        let mut changes = self;
        let mut ids = ids;
        changes.show.append(&mut ids);
        changes
    }

    /// Adds windows to hide.
    #[must_use]
    pub fn hiding(self, ids: Vec<WindowId>) -> (r: Self)
        ensures
            r@ == (ChangesView { hide: self@.hide + ids@, ..self@ }),
    {
        let mut changes = self;
        let mut ids = ids;
        changes.hide.append(&mut ids);
        changes
    }

    /// Folds `other` into `self`.
    pub fn merge(&mut self, other: Changes)
        ensures
            final(self)@ == old(self)@.merge(other@),
    {
        let mut other = other;
        for i in 0..other.retiled.len()
            invariant
                self@ == (ChangesView {
                    retiled: with_refs(old(self)@.retiled, other.retiled@.take(i as int)),
                    ..old(self)@
                }),
        {
            assert(other.retiled@.take(i + 1).drop_last() =~= other.retiled@.take(i as int));
            self.add_ref(other.retiled[i]);
        }
        assert(other.retiled@.take(other.retiled@.len() as int) =~= other.retiled@);
        self.show.append(&mut other.show);
        self.hide.append(&mut other.hide);
        self.minimize.append(&mut other.minimize);
        self.restore.append(&mut other.restore);
        if other.maximize.is_some() {
            self.maximize = other.maximize;
        }
        if other.close.is_some() {
            self.close = other.close;
        }
        if other.focus.is_some() {
            self.focus = other.focus;
        }
        if other.warp_mouse_to.is_some() {
            self.warp_mouse_to = other.warp_mouse_to;
        }
        if other.focused_monitor_changed {
            self.focused_monitor_changed = true;
        }
    }

    /// Drops any window that appears in both `show` and `hide`, keeping it
    /// shown, and removes duplicates. A workspace switch that moves a window
    /// between two visible workspaces should not blink.
    pub fn settle(&mut self)
        ensures
            final(self)@ == old(self)@.settle(),
    {
        let mut hide: Vec<WindowId> = Vec::new();
        extend_without(&mut hide, self.hide.as_slice(), self.show.as_slice());
        assert(hide@ =~= not_in(self.hide@, self.show@));
        self.hide = hide;
        dedup_keeping_order(&mut self.show);
        dedup_keeping_order(&mut self.hide);
    }
}

} // verus!
