//! A monitor: its geometry and the workspaces that live on it.

use vstd::prelude::*;

use crate::geometry::{Offset, Rect};
use crate::model::ring::{Ring, RingView};
use crate::model::scale::{Scale, DEFAULT_DPI};
use crate::model::window::{ids_of, WindowId, WindowView};
use crate::model::workspace::{Workspace, WorkspaceView};
use crate::seqs::{first_idx, first_is, first_is_none, any};
use crate::text::{decimal, decimal_of, owned};

verus! {

/// What a [`Monitor`] holds.
#[verifier::ext_equal]
pub ghost struct MonitorView {
    /// The platform handle.
    pub id: isize,
    /// The friendly name.
    pub name: Seq<char>,
    /// The GDI device name.
    pub device: Seq<char>,
    /// The stable device id.
    pub device_id: Seq<char>,
    /// The full display rectangle.
    pub size: Rect,
    /// The part of `size` that is not covered by the taskbar.
    pub work_area: Rect,
    /// The display's DPI.
    pub dpi: u32,
    /// The workspaces on this monitor.
    pub workspaces: RingView<WorkspaceView>,
    /// The workspace that was focused before the current one.
    pub last_focused_workspace: Option<int>,
    /// An extra offset applied to the work area of every workspace here.
    pub work_area_offset: Option<Offset>,
    /// An offset applied only to workspaces that opt in.
    pub window_based_work_area_offset: Option<Offset>,
    /// The container count up to which that offset applies.
    pub window_based_work_area_offset_limit: int,
}

/// The value of an optional index.
pub open spec fn index_opt(o: Option<usize>) -> Option<int> {
    match o {
        Some(idx) => Some(idx as int),
        None => None,
    }
}

/// Holds of a workspace with that window on it.
pub open spec fn houses(id: WindowId) -> spec_fn(WorkspaceView) -> bool {
    |w: WorkspaceView| w.has_window(id)
}

/// The windows of the workspaces, workspace by workspace.
pub open spec fn windows_on(workspaces: Seq<WorkspaceView>) -> Seq<WindowView>
    decreases workspaces.len(),
{
    if workspaces.len() == 0 {
        Seq::empty()
    } else {
        windows_on(workspaces.drop_last()) + workspaces.last().all_windows()
    }
}

/// The workspaces with empty ones appended until there are `count`.
pub open spec fn grown(workspaces: RingView<WorkspaceView>, count: int) -> RingView<WorkspaceView> {
    RingView {
        elements: if count > workspaces.len() {
            Seq::new(
                count as nat,
                |i: int|
                    if i < workspaces.len() {
                        workspaces.elements[i]
                    } else {
                        WorkspaceView::fresh()
                    },
            )
        } else {
            workspaces.elements
        },
        ..workspaces
    }
}

impl MonitorView {
    /// A monitor with nothing set and no workspaces.
    pub open spec fn blank() -> Self {
        MonitorView {
            id: 0,
            name: Seq::empty(),
            device: Seq::empty(),
            device_id: Seq::empty(),
            size: Rect::new(0, 0, 0, 0),
            work_area: Rect::new(0, 0, 0, 0),
            dpi: DEFAULT_DPI,
            workspaces: RingView::empty(),
            last_focused_workspace: None,
            work_area_offset: None,
            window_based_work_area_offset: None,
            window_based_work_area_offset_limit: 1,
        }
    }

    /// The monitor with a workspace focused and the one it came from remembered.
    pub open spec fn focus_workspace(self, idx: int) -> Self {
        if 0 <= idx < self.workspaces.len() {
            MonitorView {
                workspaces: self.workspaces.focus(idx),
                last_focused_workspace: if self.workspaces.focused != idx {
                    Some(self.workspaces.focused)
                } else {
                    self.last_focused_workspace
                },
                ..self
            }
        } else {
            self
        }
    }

    /// The monitor with at least `count` workspaces.
    pub open spec fn ensure_workspaces(self, count: int) -> Self {
        MonitorView { workspaces: grown(self.workspaces, count), ..self }
    }

    /// The name of a workspace, or its one-based index.
    pub open spec fn workspace_name(self, idx: int) -> Seq<char> {
        match self.workspaces.at(idx) {
            Some(w) => match w.name {
                Some(name) => name,
                None => decimal_of((idx + 1) as nat),
            },
            None => decimal_of((idx + 1) as nat),
        }
    }

    /// `true` when the window based offset applies to that workspace.
    pub open spec fn takes_window_offset(self, idx: int) -> bool {
        match self.workspaces.at(idx) {
            Some(w) => w.apply_window_based_work_area_offset && w.containers.len()
                <= self.window_based_work_area_offset_limit,
            None => false,
        }
    }

    /// The area a workspace tiles into.
    pub open spec fn area_for(self, idx: int, global_offset: Option<Offset>) -> Rect {
        let area = match (self.work_area_offset, global_offset) {
            (Some(offset), _) => offset.apply(self.work_area),
            (None, Some(offset)) => offset.apply(self.work_area),
            (None, None) => self.work_area,
        };
        match self.window_based_work_area_offset {
            Some(offset) => if self.takes_window_offset(idx) {
                offset.apply(area)
            } else {
                area
            },
            None => area,
        }
    }

    /// The index of the workspace holding a window.
    pub open spec fn workspace_of(self, id: WindowId) -> Option<int> {
        first_idx(self.workspaces.elements, houses(id))
    }

    /// `true` when any workspace on this monitor holds the window.
    pub open spec fn has_window(self, id: WindowId) -> bool {
        any(self.workspaces.elements, houses(id))
    }

    /// Every window on this monitor.
    pub open spec fn all_windows(self) -> Seq<WindowView> {
        windows_on(self.workspaces.elements)
    }
}

/// One display, with its own ring of workspaces.
#[derive(Debug, Clone, PartialEq, Eq)]
pub struct Monitor {
    /// The platform handle, an `HMONITOR` on Windows.
    pub id: isize,
    /// The friendly name, for example `DISPLAY1`.
    pub name: String,
    /// The GDI device name, for example `\\.\DISPLAY1`.
    pub device: String,
    /// The stable device id used by `display_index_preferences`.
    pub device_id: String,
    /// The full display rectangle in virtual desktop coordinates.
    pub size: Rect,
    /// The part of `size` that is not covered by the taskbar.
    pub work_area: Rect,
    /// The display's DPI. 96 is 100 percent scaling.
    pub dpi: u32,
    /// The workspaces on this monitor.
    pub workspaces: Ring<Workspace>,
    /// The workspace that was focused before the current one, for
    /// `focus-last-workspace`.
    pub last_focused_workspace: Option<usize>,
    /// An extra offset applied to the work area of every workspace here.
    pub work_area_offset: Option<Offset>,
    /// An offset applied only to workspaces that opt in with
    /// [`Workspace::apply_window_based_work_area_offset`].
    pub window_based_work_area_offset: Option<Offset>,
    /// The offset above only applies while the workspace holds at most this
    /// many containers.
    pub window_based_work_area_offset_limit: usize,
}

impl View for Monitor {
    type V = MonitorView;

    open spec fn view(&self) -> MonitorView {
        MonitorView {
            id: self.id,
            name: self.name@,
            device: self.device@,
            device_id: self.device_id@,
            size: self.size,
            work_area: self.work_area,
            dpi: self.dpi,
            workspaces: self.workspaces@,
            last_focused_workspace: index_opt(self.last_focused_workspace),
            work_area_offset: self.work_area_offset,
            window_based_work_area_offset: self.window_based_work_area_offset,
            window_based_work_area_offset_limit: self.window_based_work_area_offset_limit as int,
        }
    }
}

impl Default for Monitor {
    fn default() -> (r: Self)
        ensures
            r@ == MonitorView::blank(),
    {
        let r = Monitor {
            id: 0,
            name: String::new(),
            device: String::new(),
            device_id: String::new(),
            size: Rect::new(0, 0, 0, 0),
            work_area: Rect::new(0, 0, 0, 0),
            dpi: DEFAULT_DPI,
            workspaces: Ring::new(),
            last_focused_workspace: None,
            work_area_offset: None,
            window_based_work_area_offset: None,
            window_based_work_area_offset_limit: 1,
        };
        assert(r@ =~= MonitorView::blank());
        r
    }
}

impl Monitor {
    /// A monitor with one empty workspace.
    #[must_use]
    pub fn new(id: isize, size: Rect, work_area: Rect) -> (r: Self)
        ensures
            r@ == (MonitorView {
                id,
                size,
                work_area,
                workspaces: RingView::over(seq![WorkspaceView::fresh()]),
                ..MonitorView::blank()
            }),
    {
        let mut monitor = Monitor::default();
        monitor.id = id;
        monitor.size = size;
        monitor.work_area = work_area;
        monitor.workspaces.push(Workspace::new());
        assert(monitor@.workspaces.elements =~= seq![WorkspaceView::fresh()]);
        monitor
    }

    /// Sets the friendly name, builder style.
    #[must_use]
    pub fn with_name(self, name: &str) -> (r: Self)
        ensures
            r@ == (MonitorView { name: name@, ..self@ }),
    {
        let mut monitor = self;
        monitor.name = owned(name);
        monitor
    }

    /// Sets the device and device id, builder style.
    #[must_use]
    pub fn with_device(self, device: &str, device_id: &str) -> (r: Self)
        ensures
            r@ == (MonitorView { device: device@, device_id: device_id@, ..self@ }),
    {
        let mut monitor = self;
        monitor.device = owned(device);
        monitor.device_id = owned(device_id);
        monitor
    }

    /// Sets the DPI, builder style.
    #[must_use]
    pub fn with_dpi(self, dpi: u32) -> (r: Self)
        ensures
            r@ == (MonitorView { dpi, ..self@ }),
    {
        let mut monitor = self;
        monitor.dpi = dpi;
        monitor
    }

    /// The scaling factor, where 96 DPI is 100 percent.
    #[must_use]
    pub fn scale_factor(&self) -> (r: Scale)
        ensures
            r == Scale::of_dpi(self@.dpi),
    {
        Scale::of_dpi(self.dpi)
    }

    /// `true` when the display is taller than it is wide.
    #[must_use]
    pub fn is_portrait(&self) -> (r: bool)
        ensures
            r == (self@.size.height() > self@.size.width()),
    {
        self.size.height() > self.size.width()
    }

    /// The workspaces on this monitor.
    #[must_use]
    pub fn workspaces(&self) -> (r: &Ring<Workspace>)
        ensures
            r@ == self@.workspaces,
    {
        &self.workspaces
    }

    /// The workspaces, mutably.
    pub fn workspaces_mut(&mut self) -> (r: &mut Ring<Workspace>)
        ensures
            (*r)@ == old(self)@.workspaces,
            final(self)@ == (MonitorView { workspaces: (*final(r))@, ..old(self)@ }),
    {
        &mut self.workspaces
    }

    /// The index of the focused workspace.
    #[must_use]
    pub fn focused_workspace_idx(&self) -> (r: usize)
        ensures
            r == self@.workspaces.focused,
            r < usize::MAX,
            self@.workspaces.len() > 0 ==> r < self@.workspaces.len(),
    {
        self.workspaces.focused_idx()
    }

    /// The focused workspace.
    #[must_use]
    pub fn focused_workspace(&self) -> (r: Option<&Workspace>)
        ensures
            match r {
                Some(w) => self@.workspaces.current() == Some(w@) && self@.workspaces.len() > 0,
                None => self@.workspaces.current() is None && self@.workspaces.len() == 0,
            },
    {
        self.workspaces.focused()
    }

    /// The focused workspace, mutably.
    pub fn focused_workspace_mut(&mut self) -> (r: Option<&mut Workspace>)
        ensures
            match r {
                Some(w) => old(self)@.workspaces.current() == Some((*w)@) && final(self)@ == (
                MonitorView {
                    workspaces: old(self)@.workspaces.with(
                        old(self)@.workspaces.focused,
                        (*final(w))@,
                    ),
                    ..old(self)@
                }) && old(self)@.workspaces.len() > 0,
                None => old(self)@.workspaces.current() is None && final(self)@ == old(self)@
                    && old(self)@.workspaces.len() == 0,
            },
    {
        self.workspaces.focused_mut()
    }

    /// Focuses a workspace by index, remembering the one we came from.
    ///
    /// Returns `false` when the index is out of range.
    pub fn focus_workspace(&mut self, idx: usize) -> (r: bool)
        ensures
            r == (idx < old(self)@.workspaces.len()),
            final(self)@ == old(self)@.focus_workspace(idx as int),
    {
        let previous = self.workspaces.focused_idx();
        if !self.workspaces.focus(idx) {
            return false;
        }
        if previous != idx {
            self.last_focused_workspace = Some(previous);
        }
        true
    }

    /// Makes sure there are at least `count` workspaces, creating empty ones
    /// as needed.
    ///
    /// Returns the number that were created.
    pub fn ensure_workspaces(&mut self, count: usize) -> (r: usize)
        ensures
            final(self)@ == old(self)@.ensure_workspaces(count as int),
            r == final(self)@.workspaces.len() - old(self)@.workspaces.len(),
    {
        let mut created: usize = 0;
        while self.workspaces.len() < count
            invariant
                old(self)@.workspaces.len() <= self@.workspaces.len(),
                self@.workspaces.len() <= count || created == 0,
                created == self@.workspaces.len() - old(self)@.workspaces.len(),
                self@ == old(self)@.ensure_workspaces(self@.workspaces.len()),
            decreases count - self@.workspaces.len(),
        {
            self.workspaces.push(Workspace::new());
            created = created + 1;
            assert(self@.workspaces.elements =~= grown(
                old(self)@.workspaces,
                self@.workspaces.len(),
            ).elements);
        }
        created
    }

    /// The name of a workspace, falling back to its one-based index.
    #[must_use]
    pub fn workspace_name(&self, idx: usize) -> (r: String)
        requires
            idx < usize::MAX,
        ensures
            r@ == self@.workspace_name(idx as int),
    {
        match self.workspaces.get(idx) {
            Some(workspace) => match &workspace.name {
                Some(name) => owned(name.as_str()),
                None => decimal(idx as u64 + 1),
            },
            None => decimal(idx as u64 + 1),
        }
    }

    /// The area a workspace tiles into, with every configured offset applied.
    #[must_use]
    pub fn work_area_for(&self, idx: usize, global_offset: Option<Offset>) -> (r: Rect)
        ensures
            r == self@.area_for(idx as int, global_offset),
    {
        let mut area = self.work_area;
        if let Some(offset) = self.work_area_offset {
            area = offset.apply(area);
        } else if let Some(offset) = global_offset {
            area = offset.apply(area);
        }
        if let Some(workspace) = self.workspaces.get(idx) {
            if workspace.apply_window_based_work_area_offset && workspace.containers().len()
                <= self.window_based_work_area_offset_limit {
                if let Some(offset) = self.window_based_work_area_offset {
                    area = offset.apply(area);
                }
            }
        }
        area
    }

    /// The index of the workspace holding a window.
    #[must_use]
    pub fn workspace_idx_for_window(&self, id: WindowId) -> (r: Option<usize>)
        ensures
            index_opt(r) == self@.workspace_of(id),
            r is Some == self@.has_window(id),
            r matches Some(idx) ==> idx < self@.workspaces.len()
                && self@.workspaces.elements[idx as int].has_window(id),
    {
        let elements = self.workspaces.elements();
        proof {
            self.workspaces.view_of_items();
        }
        for idx in 0..elements.len()
            invariant
                elements@.map_values(|t: Workspace| t@) == self@.workspaces.elements,
                elements@.len() == self@.workspaces.elements.len(),
                forall|j: int| 0 <= j < idx ==> !houses(id)(#[trigger] self@.workspaces.elements[j]),
        {
            assert(self@.workspaces.elements[idx as int] == elements@[idx as int]@);
            if elements[idx].contains_window(id) {
                proof {
                    first_is(self@.workspaces.elements, houses(id), idx as int);
                }
                return Some(idx);
            }
        }
        proof {
            first_is_none(self@.workspaces.elements, houses(id));
        }
        None
    }

    /// `true` when any workspace on this monitor holds the window.
    #[must_use]
    pub fn contains_window(&self, id: WindowId) -> (r: bool)
        ensures
            r == self@.has_window(id),
    {
        self.workspace_idx_for_window(id).is_some()
    }

    /// Every window handle on this monitor.
    #[must_use]
    pub fn all_window_ids(&self) -> (r: Vec<WindowId>)
        ensures
            r@ == ids_of(self@.all_windows()),
    {
        let elements = self.workspaces.elements();
        let ghost views = self@.workspaces.elements;
        proof {
            self.workspaces.view_of_items();
        }
        let mut ids: Vec<WindowId> = Vec::new();
        for idx in 0..elements.len()
            invariant
                elements@.map_values(|t: Workspace| t@) == views,
                elements@.len() == views.len(),
                ids@ == ids_of(windows_on(views.take(idx as int))),
        {
            assert(views[idx as int] == elements@[idx as int]@);
            assert(views.take(idx + 1).drop_last() =~= views.take(idx as int));
            let mut more = elements[idx].all_window_ids();
            ids.append(&mut more);
            assert(ids@ =~= ids_of(windows_on(views.take(idx + 1))));
        }
        assert(views.take(views.len() as int) =~= views);
        ids
    }
}

} // verus!
