//! The whole window manager state: a ring of monitors plus the global settings.

use vstd::prelude::*;

use crate::error::{Error, ErrorView, Result};
use crate::geometry::{nearest, nearest_in_direction, Direction, Offset, Rect};
use crate::layout::MIN_TILE_SIZE;
use crate::model::monitor::{index_opt, Monitor, MonitorView};
use crate::model::container::idx_of;
use crate::model::ring::{Ring, RingView};
use crate::model::scale::Scale;
use crate::model::window::{ids_of, Window, WindowId, WindowView};
use crate::model::workspace::{Workspace, WorkspaceView};
use crate::rules::{RuleSets, RuleSetsView};
use crate::seqs::{any, first_idx, first_is, first_is_none};
use crate::MAX_WORKSPACES;

verus! {

/// How a window is taken off screen when its workspace is not visible.
#[derive(Debug, Clone, Copy, PartialEq, Eq, Hash, Structural)]
pub enum HidingBehaviour {
    /// `ShowWindow(SW_HIDE)`. Fast, but some applications dislike it.
    Hide,
    /// Minimize the window. Plays nicely with the taskbar, animates.
    Minimize,
    /// Mark the window as cloaked in DWM. Invisible but still composited.
    Cloak,
}

impl Default for HidingBehaviour {
    fn default() -> (r: Self)
        ensures
            r == HidingBehaviour::Cloak,
    {
        HidingBehaviour::Cloak
    }
}

/// What happens when a container is moved past the edge of its monitor.
#[derive(Debug, Clone, Copy, PartialEq, Eq, Hash, Structural)]
pub enum MoveBehaviour {
    /// Swap places with the container that is focused on the target monitor.
    Swap,
    /// Insert the container into the target workspace at the edge it entered
    /// through.
    Insert,
    /// Do nothing at the edge.
    NoOp,
}

impl Default for MoveBehaviour {
    fn default() -> (r: Self)
        ensures
            r == MoveBehaviour::Swap,
    {
        MoveBehaviour::Swap
    }
}

/// What happens when a command is aimed at a window the manager does not own.
#[derive(Debug, Clone, Copy, PartialEq, Eq, Hash, Structural)]
pub enum OperationBehaviour {
    /// Run the command anyway.
    Op,
    /// Refuse the command.
    NoOp,
}

impl Default for OperationBehaviour {
    fn default() -> (r: Self)
        ensures
            r == OperationBehaviour::Op,
    {
        OperationBehaviour::Op
    }
}

/// Which implementation of focus follows mouse is in use.
#[derive(Debug, Clone, Copy, PartialEq, Eq, Hash, Structural)]
pub enum FocusFollowsMouseImplementation {
    /// The Windows accessibility setting.
    Windows,
    /// Mochi's own mouse tracking.
    Mochi,
}

/// Whether a new window joins the focused container or gets one of its own.
#[derive(Debug, Clone, Copy, PartialEq, Eq, Hash, Structural)]
pub enum WindowContainerBehaviour {
    /// Give every new window its own container.
    Create,
    /// Stack every new window onto the focused container.
    Append,
}

impl Default for WindowContainerBehaviour {
    fn default() -> (r: Self)
        ensures
            r == WindowContainerBehaviour::Create,
    {
        WindowContainerBehaviour::Create
    }
}

/// What a [`State`] holds.
#[verifier::ext_equal]
pub ghost struct StateView {
    /// The displays, with the focused one marked.
    pub monitors: RingView<MonitorView>,
    /// Warp the cursor to the middle of a window when it takes focus.
    pub mouse_follows_focus: bool,
    /// What moving a container past a monitor edge does.
    pub cross_monitor_move_behaviour: MoveBehaviour,
    /// How windows on an inactive workspace are taken off screen.
    pub window_hiding_behaviour: HidingBehaviour,
    /// Whether hovering a window focuses it.
    pub focus_follows_mouse: Option<FocusFollowsMouseImplementation>,
    /// What a command aimed at an unmanaged window does.
    pub unmanaged_window_operation_behaviour: OperationBehaviour,
    /// Whether a new window stacks onto the focused container.
    pub window_container_behaviour: WindowContainerBehaviour,
    /// While paused, nothing is tiled, hidden or moved.
    pub is_paused: bool,
    /// The default workspace padding.
    pub default_workspace_padding: i32,
    /// The default container padding.
    pub default_container_padding: i32,
    /// The width a tile may never shrink below.
    pub minimum_window_width: i32,
    /// The height a tile may never shrink below.
    pub minimum_window_height: i32,
    /// How many pixels one resize step moves a boundary.
    pub resize_delta: i32,
    /// A work area offset for every monitor without one of its own.
    pub work_area_offset: Option<Offset>,
    /// Make every new window float, everywhere.
    pub float_override: bool,
    /// Scale paddings and the minimum tile size with the monitor.
    pub scale_padding_with_dpi: bool,
    /// Windows that appeared while the manager was paused.
    pub pending_windows: Seq<WindowView>,
    /// The rules that decide what happens to a window when it appears.
    pub rules: RuleSetsView,
}

/// Holds of a monitor with that window on it.
pub open spec fn shows(id: WindowId) -> spec_fn(MonitorView) -> bool {
    |m: MonitorView| m.has_window(id)
}

/// Holds of a monitor whose display rectangle contains the point.
pub open spec fn covers(x: i32, y: i32) -> spec_fn(MonitorView) -> bool {
    |m: MonitorView| m.size.contains(x, y)
}

/// Holds of the monitor with that platform handle.
pub open spec fn has_handle_of(id: isize) -> spec_fn(MonitorView) -> bool {
    |m: MonitorView| m.id == id
}

/// The windows of the monitors, monitor by monitor.
pub open spec fn windows_across(monitors: Seq<MonitorView>) -> Seq<WindowView>
    decreases monitors.len(),
{
    if monitors.len() == 0 {
        Seq::empty()
    } else {
        windows_across(monitors.drop_last()) + monitors.last().all_windows()
    }
}

/// The handles the focused workspaces of the monitors show, monitor by monitor.
pub open spec fn visible_across(monitors: Seq<MonitorView>) -> Seq<WindowId>
    decreases monitors.len(),
{
    if monitors.len() == 0 {
        Seq::empty()
    } else {
        visible_across(monitors.drop_last()) + match monitors.last().workspaces.current() {
            Some(w) => w.visible(),
            None => Seq::empty(),
        }
    }
}

impl StateView {
    /// A state with no monitors and the default settings.
    pub open spec fn fresh() -> Self {
        StateView {
            monitors: RingView::empty(),
            mouse_follows_focus: true,
            cross_monitor_move_behaviour: MoveBehaviour::Swap,
            window_hiding_behaviour: HidingBehaviour::Cloak,
            focus_follows_mouse: None,
            unmanaged_window_operation_behaviour: OperationBehaviour::Op,
            window_container_behaviour: WindowContainerBehaviour::Create,
            is_paused: false,
            default_workspace_padding: 10,
            default_container_padding: 10,
            minimum_window_width: MIN_TILE_SIZE,
            minimum_window_height: MIN_TILE_SIZE,
            resize_delta: 50,
            work_area_offset: None,
            float_override: false,
            scale_padding_with_dpi: true,
            pending_windows: Seq::empty(),
            rules: RuleSets::no_rules(),
        }
    }

    /// The monitor and workspace indices that are focused.
    pub open spec fn focused_indices(self) -> std::result::Result<(int, int), ErrorView> {
        match self.monitors.current() {
            Some(m) => Ok((self.monitors.focused, m.workspaces.focused)),
            None => Err(ErrorView::NoFocusedMonitor),
        }
    }

    /// One workspace, by monitor and index.
    pub open spec fn workspace(self, monitor: int, workspace: int) -> std::result::Result<
        WorkspaceView,
        ErrorView,
    > {
        match self.monitors.at(monitor) {
            Some(m) => match m.workspaces.at(workspace) {
                Some(w) => Ok(w),
                None => Err(ErrorView::WorkspaceNotFound { monitor, workspace }),
            },
            None => Err(ErrorView::MonitorNotFound(monitor)),
        }
    }

    /// The focused workspace of the focused monitor.
    pub open spec fn focused_workspace(self) -> std::result::Result<WorkspaceView, ErrorView> {
        match self.monitors.current() {
            Some(m) => match m.workspaces.current() {
                Some(w) => Ok(w),
                None => Err(ErrorView::NoFocusedWorkspace(self.monitors.focused)),
            },
            None => Err(ErrorView::NoFocusedMonitor),
        }
    }

    /// The state with one workspace replaced.
    pub open spec fn with_workspace(
        self,
        monitor: int,
        workspace: int,
        value: WorkspaceView,
    ) -> Self {
        let m = self.monitors.elements[monitor];
        StateView {
            monitors: self.monitors.with(
                monitor,
                MonitorView { workspaces: m.workspaces.with(workspace, value), ..m },
            ),
            ..self
        }
    }

    /// A workspace with the configured minimum tile size stamped on.
    pub open spec fn stamped(self, workspace: WorkspaceView) -> WorkspaceView {
        WorkspaceView {
            minimum_window_width: self.minimum_window_width,
            minimum_window_height: self.minimum_window_height,
            ..workspace
        }
    }

    /// Where a window lives.
    pub open spec fn locate(self, id: WindowId) -> Option<(int, int)> {
        match first_idx(self.monitors.elements, shows(id)) {
            Some(m) => Some((m, self.monitors.elements[m].workspace_of(id)->0)),
            None => None,
        }
    }

    /// `true` when any workspace holds the window.
    pub open spec fn manages(self, id: WindowId) -> bool {
        any(self.monitors.elements, shows(id))
    }

    /// The handle of the focused window.
    pub open spec fn focused_id(self) -> Option<WindowId> {
        match self.focused_workspace() {
            Ok(w) => w.focused_id(),
            Err(_) => None,
        }
    }

    /// Every window the manager owns.
    pub open spec fn all_windows(self) -> Seq<WindowView> {
        windows_across(self.monitors.elements)
    }

    /// The handles that should be on screen.
    pub open spec fn visible(self) -> Seq<WindowId> {
        visible_across(self.monitors.elements)
    }

    /// The work area a workspace tiles into.
    pub open spec fn area_for(self, monitor: int, workspace: int) -> Option<Rect> {
        match self.monitors.at(monitor) {
            Some(m) => Some(m.area_for(workspace, self.work_area_offset)),
            None => None,
        }
    }

    /// The rectangle a tiled window occupied at the last layout update.
    pub open spec fn rect_of(self, id: WindowId) -> Option<Rect> {
        match self.locate(id) {
            Some((m, w)) => {
                let workspace = self.monitors.elements[m].workspaces.elements[w];
                match workspace.container_idx(id) {
                    Some(idx) => workspace.rect(idx),
                    None => None,
                }
            },
            None => None,
        }
    }

    /// `true` when a workspace index exists on that monitor or can be created.
    pub open spec fn allows_workspace(self, monitor: int, idx: int) -> bool {
        idx < MAX_WORKSPACES || match self.monitors.at(monitor) {
            Some(m) => idx < m.workspaces.len(),
            None => false,
        }
    }

    /// The scale of the paddings and the minimum tile size on that monitor.
    pub open spec fn padding_scale(self, monitor: int) -> Scale {
        match self.monitors.at(monitor) {
            Some(m) => if self.scale_padding_with_dpi {
                Scale::of_dpi(m.dpi)
            } else {
                Scale::one()
            },
            None => Scale::one(),
        }
    }

    /// The display rectangles of the monitors.
    pub open spec fn screens(self) -> Seq<Rect> {
        self.monitors.elements.map_values(|m: MonitorView| m.size)
    }
}

/// Everything the window manager knows.
///
/// One thread in the daemon owns exactly one of these. Every command is a
/// method that mutates it and hands back a [`super::changes::Changes`]
/// describing what the daemon has to do to the real windows.
#[derive(Debug, Clone, PartialEq, Eq)]
pub struct State {
    /// The displays, with the focused one marked.
    pub monitors: Ring<Monitor>,
    /// Warp the cursor to the middle of a window when it takes focus.
    pub mouse_follows_focus: bool,
    /// What moving a container past a monitor edge does.
    pub cross_monitor_move_behaviour: MoveBehaviour,
    /// How windows on an inactive workspace are taken off screen.
    pub window_hiding_behaviour: HidingBehaviour,
    /// Whether hovering a window focuses it, and with which implementation.
    pub focus_follows_mouse: Option<FocusFollowsMouseImplementation>,
    /// What a command aimed at an unmanaged window does.
    pub unmanaged_window_operation_behaviour: OperationBehaviour,
    /// Whether a new window stacks onto the focused container.
    pub window_container_behaviour: WindowContainerBehaviour,
    /// While paused, nothing is tiled, hidden or moved.
    pub is_paused: bool,
    /// The workspace padding a workspace uses when it has none of its own.
    pub default_workspace_padding: i32,
    /// The container padding a workspace uses when it has none of its own.
    pub default_container_padding: i32,
    /// The width a tile may never shrink below, in logical pixels. Stamped on
    /// every workspace that is handed out.
    pub minimum_window_width: i32,
    /// The height a tile may never shrink below, in logical pixels.
    pub minimum_window_height: i32,
    /// How many pixels one `resize-axis` step moves a boundary.
    pub resize_delta: i32,
    /// A work area offset applied to every monitor without one of its own.
    pub work_area_offset: Option<Offset>,
    /// Make every new window float, everywhere.
    pub float_override: bool,
    /// Multiply the paddings and the minimum tile size by the monitor scale
    /// factor, so a 14 pixel padding looks the same on every display.
    pub scale_padding_with_dpi: bool,
    /// Windows that appeared while the manager was paused.
    ///
    /// They are tracked but not managed: nothing is moved, hidden or focused
    /// for them until [`State::toggle_pause`] turns tiling back on or
    /// [`State::retile`] runs, which is when they join the focused workspace
    /// through the normal rules.
    pub pending_windows: Vec<Window>,
    /// The rules that decide what happens to a window when it appears.
    pub rules: RuleSets,
}

/// The views of some windows.
pub open spec fn window_views(windows: Seq<Window>) -> Seq<WindowView> {
    windows.map_values(|w: Window| w@)
}

impl View for State {
    type V = StateView;

    open spec fn view(&self) -> StateView {
        StateView {
            monitors: self.monitors@,
            mouse_follows_focus: self.mouse_follows_focus,
            cross_monitor_move_behaviour: self.cross_monitor_move_behaviour,
            window_hiding_behaviour: self.window_hiding_behaviour,
            focus_follows_mouse: self.focus_follows_mouse,
            unmanaged_window_operation_behaviour: self.unmanaged_window_operation_behaviour,
            window_container_behaviour: self.window_container_behaviour,
            is_paused: self.is_paused,
            default_workspace_padding: self.default_workspace_padding,
            default_container_padding: self.default_container_padding,
            minimum_window_width: self.minimum_window_width,
            minimum_window_height: self.minimum_window_height,
            resize_delta: self.resize_delta,
            work_area_offset: self.work_area_offset,
            float_override: self.float_override,
            scale_padding_with_dpi: self.scale_padding_with_dpi,
            pending_windows: window_views(self.pending_windows@),
            rules: self.rules@,
        }
    }
}

impl Default for State {
    fn default() -> (r: Self)
        ensures
            r@ == StateView::fresh(),
    {
        State::new()
    }
}

/// The daemon's view of the window manager. An alias for [`State`].
pub type WindowManager = State;

impl State {
    /// An empty state with no monitors.
    #[must_use]
    pub fn new() -> (r: Self)
        ensures
            r@ == StateView::fresh(),
    {
        let r = State {
            monitors: Ring::new(),
            mouse_follows_focus: true,
            cross_monitor_move_behaviour: MoveBehaviour::default(),
            window_hiding_behaviour: HidingBehaviour::default(),
            focus_follows_mouse: None,
            unmanaged_window_operation_behaviour: OperationBehaviour::default(),
            window_container_behaviour: WindowContainerBehaviour::default(),
            is_paused: false,
            default_workspace_padding: 10,
            default_container_padding: 10,
            minimum_window_width: MIN_TILE_SIZE,
            minimum_window_height: MIN_TILE_SIZE,
            resize_delta: 50,
            work_area_offset: None,
            float_override: false,
            scale_padding_with_dpi: true,
            pending_windows: Vec::new(),
            rules: RuleSets::new(),
        };
        assert(r@ =~= StateView::fresh());
        r
    }

    // -- monitors -----------------------------------------------------------

    /// The displays.
    #[must_use]
    pub fn monitors(&self) -> (r: &Ring<Monitor>)
        ensures
            r@ == self@.monitors,
    {
        &self.monitors
    }

    /// The displays, mutably.
    pub fn monitors_mut(&mut self) -> (r: &mut Ring<Monitor>)
        ensures
            (*r)@ == old(self)@.monitors,
            final(self)@ == (StateView { monitors: (*final(r))@, ..old(self)@ }),
    {
        &mut self.monitors
    }

    /// The index of the focused monitor.
    #[must_use]
    pub fn focused_monitor_idx(&self) -> (r: usize)
        ensures
            r == self@.monitors.focused,
            r < usize::MAX,
            self@.monitors.len() > 0 ==> r < self@.monitors.len(),
    {
        self.monitors.focused_idx()
    }

    /// The focused monitor.
    ///
    /// # Errors
    ///
    /// Returns [`Error::NoFocusedMonitor`] when there are no monitors.
    pub fn focused_monitor(&self) -> (r: Result<&Monitor>)
        ensures
            match r {
                Ok(m) => self@.monitors.current() == Some(m@),
                Err(e) => self@.monitors.current() is None && e@ == ErrorView::NoFocusedMonitor,
            },
    {
        match self.monitors.focused() {
            Some(monitor) => Ok(monitor),
            None => Err(Error::NoFocusedMonitor),
        }
    }

    /// The focused monitor, mutably.
    ///
    /// # Errors
    ///
    /// Returns [`Error::NoFocusedMonitor`] when there are no monitors.
    pub fn focused_monitor_mut(&mut self) -> (r: Result<&mut Monitor>)
        ensures
            match r {
                Ok(m) => old(self)@.monitors.current() == Some((*m)@) && final(self)@ == (
                StateView {
                    monitors: old(self)@.monitors.with(old(self)@.monitors.focused, (*final(m))@),
                    ..old(self)@
                }),
                Err(e) => old(self)@.monitors.current() is None && e@ == ErrorView::NoFocusedMonitor
                    && final(self)@ == old(self)@,
            },
    {
        match self.monitors.focused_mut() {
            Some(monitor) => Ok(monitor),
            None => Err(Error::NoFocusedMonitor),
        }
    }

    /// The focused workspace of the focused monitor.
    ///
    /// # Errors
    ///
    /// Returns an error when there is no focused monitor or it has no
    /// workspaces.
    pub fn focused_workspace(&self) -> (r: Result<&Workspace>)
        ensures
            match r {
                Ok(w) => self@.focused_workspace() == Ok::<WorkspaceView, ErrorView>(w@),
                Err(e) => self@.focused_workspace() == Err::<WorkspaceView, ErrorView>(e@),
            },
    {
        let monitor_idx = self.focused_monitor_idx();
        match self.focused_monitor() {
            Ok(monitor) => match monitor.focused_workspace() {
                Some(workspace) => Ok(workspace),
                None => Err(Error::NoFocusedWorkspace(monitor_idx)),
            },
            Err(e) => Err(e),
        }
    }

    /// The focused workspace of the focused monitor, mutably.
    ///
    /// # Errors
    ///
    /// Returns an error when there is no focused monitor or it has no
    /// workspaces.
    pub fn focused_workspace_mut(&mut self) -> (r: Result<&mut Workspace>)
        ensures
            match r {
                Ok(w) => old(self)@.focused_workspace() == Ok::<WorkspaceView, ErrorView>((*w)@)
                    && final(self)@ == old(self)@.with_workspace(
                    old(self)@.monitors.focused,
                    old(self)@.monitors.current()->0.workspaces.focused,
                    (*final(w))@,
                ),
                Err(e) => old(self)@.focused_workspace() == Err::<WorkspaceView, ErrorView>(e@)
                    && final(self)@ == old(self)@,
            },
    {
        let monitor_idx = self.focused_monitor_idx();
        match self.monitors.focused_mut() {
            Some(monitor) => match monitor.focused_workspace_mut() {
                Some(workspace) => Ok(workspace),
                None => {
                    assert(old(self)@.monitors.with(
                        old(self)@.monitors.focused,
                        old(self)@.monitors.current()->0,
                    ) =~= old(self)@.monitors);
                    Err(Error::NoFocusedWorkspace(monitor_idx))
                },
            },
            None => Err(Error::NoFocusedMonitor),
        }
    }

    /// The monitor and workspace indices that are focused right now.
    ///
    /// # Errors
    ///
    /// Returns [`Error::NoFocusedMonitor`] when there are no monitors.
    pub fn focused_indices(&self) -> (r: Result<(usize, usize)>)
        ensures
            match r {
                Ok((m, w)) => self@.focused_indices() == Ok::<(int, int), ErrorView>(
                    (m as int, w as int),
                ) && m < self@.monitors.len() && w < usize::MAX,
                Err(e) => self@.focused_indices() == Err::<(int, int), ErrorView>(e@),
            },
    {
        match self.focused_monitor() {
            Ok(monitor) => Ok((self.focused_monitor_idx(), monitor.focused_workspace_idx())),
            Err(e) => Err(e),
        }
    }

    /// Adds a monitor and returns its index.
    pub fn add_monitor(&mut self, monitor: Monitor) -> (r: usize)
        ensures
            final(self)@ == (StateView {
                monitors: old(self)@.monitors.push(monitor@),
                ..old(self)@
            }),
            r == old(self)@.monitors.len(),
    {
        self.monitors.push(monitor);
        self.monitors.len() - 1
    }

    /// Removes a monitor by index.
    pub fn remove_monitor(&mut self, idx: usize) -> (r: Option<Monitor>)
        ensures
            final(self)@ == (StateView {
                monitors: old(self)@.monitors.remove(idx as int),
                ..old(self)@
            }),
            match r {
                Some(m) => old(self)@.monitors.at(idx as int) == Some(m@),
                None => old(self)@.monitors.at(idx as int) is None,
            },
    {
        self.monitors.remove(idx)
    }

    /// The index of the monitor with that platform handle.
    #[must_use]
    pub fn monitor_idx_for_id(&self, id: isize) -> (r: Option<usize>)
        ensures
            index_opt(r) == first_idx(self@.monitors.elements, has_handle_of(id)),
    {
        let elements = self.monitors.elements();
        proof {
            self.monitors.view_of_items();
        }
        for idx in 0..elements.len()
            invariant
                elements@.map_values(|t: Monitor| t@) == self@.monitors.elements,
                elements@.len() == self@.monitors.elements.len(),
                forall|j: int| 0 <= j < idx ==> !has_handle_of(id)(#[trigger] self@.monitors.elements[j]),
        {
            assert(self@.monitors.elements[idx as int] == elements@[idx as int]@);
            if elements[idx].id == id {
                proof {
                    first_is(self@.monitors.elements, has_handle_of(id), idx as int);
                }
                return Some(idx);
            }
        }
        proof {
            first_is_none(self@.monitors.elements, has_handle_of(id));
        }
        None
    }

    /// The index of the monitor whose display rectangle contains the point.
    #[must_use]
    pub fn monitor_idx_at(&self, x: i32, y: i32) -> (r: Option<usize>)
        ensures
            index_opt(r) == first_idx(self@.monitors.elements, covers(x, y)),
            r matches Some(idx) ==> idx < self@.monitors.len(),
    {
        let elements = self.monitors.elements();
        proof {
            self.monitors.view_of_items();
        }
        for idx in 0..elements.len()
            invariant
                elements@.map_values(|t: Monitor| t@) == self@.monitors.elements,
                elements@.len() == self@.monitors.elements.len(),
                forall|j: int| 0 <= j < idx ==> !covers(x, y)(#[trigger] self@.monitors.elements[j]),
        {
            assert(self@.monitors.elements[idx as int] == elements@[idx as int]@);
            if elements[idx].size.contains(x, y) {
                proof {
                    first_is(self@.monitors.elements, covers(x, y), idx as int);
                }
                return Some(idx);
            }
        }
        proof {
            first_is_none(self@.monitors.elements, covers(x, y));
        }
        None
    }

    /// The index of the monitor that lies in `direction` from the focused one.
    #[must_use]
    pub fn monitor_idx_in_direction(&self, direction: Direction) -> (r: Option<usize>)
        ensures
            index_opt(r) == nearest(self@.screens(), self@.monitors.focused, direction),
    {
        let elements = self.monitors.elements();
        proof {
            self.monitors.view_of_items();
        }
        let mut rects: Vec<Rect> = Vec::new();
        for idx in 0..elements.len()
            invariant
                elements@.map_values(|t: Monitor| t@) == self@.monitors.elements,
                elements@.len() == self@.monitors.elements.len(),
                rects@ == self@.screens().take(idx as int),
        {
            assert(self@.monitors.elements[idx as int] == elements@[idx as int]@);
            rects.push(elements[idx].size);
            assert(rects@ =~= self@.screens().take(idx + 1));
        }
        assert(rects@ =~= self@.screens());
        nearest_in_direction(rects.as_slice(), self.monitors.focused_idx(), direction)
    }

    // -- windows ------------------------------------------------------------

    /// Where a window lives, as a monitor and workspace index pair.
    #[must_use]
    pub fn locate_window(&self, id: WindowId) -> (r: Option<(usize, usize)>)
        ensures
            match r {
                Some((m, w)) => self@.locate(id) == Some((m as int, w as int)) && m
                    < self@.monitors.len() && w < self@.monitors.elements[m as int].workspaces.len()
                    && self@.monitors.elements[m as int].workspaces.elements[w as int].has_window(
                    id,
                ),
                None => self@.locate(id) is None,
            },
            r is Some == self@.manages(id),
    {
        let elements = self.monitors.elements();
        proof {
            self.monitors.view_of_items();
        }
        for idx in 0..elements.len()
            invariant
                elements@.map_values(|t: Monitor| t@) == self@.monitors.elements,
                elements@.len() == self@.monitors.elements.len(),
                forall|j: int| 0 <= j < idx ==> !shows(id)(#[trigger] self@.monitors.elements[j]),
        {
            assert(self@.monitors.elements[idx as int] == elements@[idx as int]@);
            if let Some(workspace) = elements[idx].workspace_idx_for_window(id) {
                proof {
                    first_is(self@.monitors.elements, shows(id), idx as int);
                }
                return Some((idx, workspace));
            }
        }
        proof {
            first_is_none(self@.monitors.elements, shows(id));
        }
        None
    }

    /// The window with that handle, wherever it is.
    #[must_use]
    pub fn window(&self, id: WindowId) -> (r: Option<&Window>)
        ensures
            match r {
                Some(w) => self@.locate(id) matches Some((m, k)) && {
                    let all = self@.monitors.elements[m].workspaces.elements[k].all_windows();
                    idx_of(all, id) matches Some(idx) && all[idx] == w@ && w@.id == id
                },
                None => self@.locate(id) is None,
            },
    {
        match self.locate_window(id) {
            Some((monitor, workspace)) => match self.monitors.get(monitor) {
                Some(m) => match m.workspaces.get(workspace) {
                    Some(w) => w.window(id),
                    None => None,
                },
                None => None,
            },
            None => None,
        }
    }

    /// `true` when any workspace holds the window.
    #[must_use]
    pub fn is_managed(&self, id: WindowId) -> (r: bool)
        ensures
            r == self@.manages(id),
    {
        self.locate_window(id).is_some()
    }

    /// The handle of the focused window.
    #[must_use]
    pub fn focused_window_id(&self) -> (r: Option<WindowId>)
        ensures
            r == self@.focused_id(),
    {
        match self.focused_workspace() {
            Ok(workspace) => workspace.focused_window_id(),
            Err(_) => None,
        }
    }

    /// Every window handle the manager owns.
    #[must_use]
    pub fn all_window_ids(&self) -> (r: Vec<WindowId>)
        ensures
            r@ == ids_of(self@.all_windows()),
    {
        let elements = self.monitors.elements();
        let ghost views = self@.monitors.elements;
        proof {
            self.monitors.view_of_items();
        }
        let mut ids: Vec<WindowId> = Vec::new();
        for idx in 0..elements.len()
            invariant
                elements@.map_values(|t: Monitor| t@) == views,
                elements@.len() == views.len(),
                ids@ == ids_of(windows_across(views.take(idx as int))),
        {
            assert(views[idx as int] == elements@[idx as int]@);
            assert(views.take(idx + 1).drop_last() =~= views.take(idx as int));
            let mut more = elements[idx].all_window_ids();
            ids.append(&mut more);
            assert(ids@ =~= ids_of(windows_across(views.take(idx + 1))));
        }
        assert(views.take(views.len() as int) =~= views);
        ids
    }

    /// The handles that should be on screen right now, across every monitor.
    #[must_use]
    pub fn visible_window_ids(&self) -> (r: Vec<WindowId>)
        ensures
            r@ == self@.visible(),
    {
        let elements = self.monitors.elements();
        let ghost views = self@.monitors.elements;
        proof {
            self.monitors.view_of_items();
        }
        let mut ids: Vec<WindowId> = Vec::new();
        for idx in 0..elements.len()
            invariant
                elements@.map_values(|t: Monitor| t@) == views,
                elements@.len() == views.len(),
                ids@ == visible_across(views.take(idx as int)),
        {
            assert(views[idx as int] == elements@[idx as int]@);
            assert(views.take(idx + 1).drop_last() =~= views.take(idx as int));
            if let Some(workspace) = elements[idx].focused_workspace() {
                let mut more = workspace.visible_window_ids();
                ids.append(&mut more);
            }
            assert(ids@ =~= visible_across(views.take(idx + 1)));
        }
        assert(views.take(views.len() as int) =~= views);
        ids
    }

    // -- geometry -----------------------------------------------------------

    /// The work area a workspace tiles into, with every offset applied.
    #[must_use]
    pub fn work_area_for(&self, monitor: usize, workspace: usize) -> (r: Option<Rect>)
        ensures
            r == self@.area_for(monitor as int, workspace as int),
    {
        match self.monitors.get(monitor) {
            Some(m) => Some(m.work_area_for(workspace, self.work_area_offset)),
            None => None,
        }
    }

    /// The rectangle a window currently occupies according to the last layout
    /// update, if it is tiled.
    #[must_use]
    pub fn rect_for_window(&self, id: WindowId) -> (r: Option<Rect>)
        ensures
            r == self@.rect_of(id),
    {
        match self.locate_window(id) {
            Some((monitor, workspace)) => match self.workspace(monitor, workspace) {
                Ok(w) => match w.container_idx_for_window(id) {
                    Some(idx) => w.rect_of_container(idx),
                    None => None,
                },
                Err(_) => None,
            },
            None => None,
        }
    }

    // -- helpers used by the operations -------------------------------------

    /// Checks that a workspace index is one we are willing to create.
    ///
    /// # Errors
    ///
    /// Returns [`Error::WorkspaceIndexOutOfRange`] beyond [`MAX_WORKSPACES`].
    pub fn check_workspace_idx(idx: usize) -> (r: Result<()>)
        ensures
            match r {
                Ok(_) => idx < MAX_WORKSPACES,
                Err(e) => idx >= MAX_WORKSPACES && e@ == ErrorView::WorkspaceIndexOutOfRange(
                    idx as int,
                ),
            },
    {
        if idx >= MAX_WORKSPACES {
            return Err(Error::WorkspaceIndexOutOfRange(idx));
        }
        Ok(())
    }

    /// Checks that a workspace index can be used on that monitor.
    ///
    /// A workspace the configuration created is always allowed, however many
    /// there are: [`MAX_WORKSPACES`] only caps the ones the manager creates on
    /// demand for an index nobody configured.
    ///
    /// # Errors
    ///
    /// Returns [`Error::WorkspaceIndexOutOfRange`] for an index that neither
    /// exists nor can be created.
    pub fn check_workspace_idx_on(&self, monitor: usize, idx: usize) -> (r: Result<()>)
        ensures
            match r {
                Ok(_) => self@.allows_workspace(monitor as int, idx as int) && idx < usize::MAX,
                Err(e) => !self@.allows_workspace(monitor as int, idx as int) && e@
                    == ErrorView::WorkspaceIndexOutOfRange(idx as int),
            },
    {
        let configured = match self.monitors.get(monitor) {
            Some(m) => m.workspaces.len(),
            None => 0,
        };
        if idx < configured || idx < MAX_WORKSPACES {
            return Ok(());
        }
        Err(Error::WorkspaceIndexOutOfRange(idx))
    }

    /// The factor the paddings and the minimum tile size are multiplied by on
    /// that monitor, or 100 percent when [`State::scale_padding_with_dpi`] is
    /// off.
    #[must_use]
    pub fn padding_scale(&self, monitor: usize) -> (r: Scale)
        ensures
            r == self@.padding_scale(monitor as int),
    {
        if !self.scale_padding_with_dpi {
            return Scale::one();
        }
        match self.monitors.get(monitor) {
            Some(m) => m.scale_factor(),
            None => Scale::one(),
        }
    }

    /// A mutable borrow of one workspace, with the configured minimum tile size
    /// stamped on it.
    ///
    /// # Errors
    ///
    /// Returns an error when either index is out of range.
    pub fn workspace_mut(&mut self, monitor: usize, workspace: usize) -> (r: Result<&mut Workspace>)
        ensures
            match r {
                Ok(w) => old(self)@.workspace(monitor as int, workspace as int) is Ok && (*w)@
                    == old(self)@.stamped(
                    old(self)@.workspace(monitor as int, workspace as int)->Ok_0,
                ) && final(self)@ == old(self)@.with_workspace(
                    monitor as int,
                    workspace as int,
                    (*final(w))@,
                ),
                Err(e) => old(self)@.workspace(monitor as int, workspace as int) == Err::<
                    WorkspaceView,
                    ErrorView,
                >(e@) && final(self)@ == old(self)@,
            },
    {
        let width = self.minimum_window_width;
        let height = self.minimum_window_height;
        match self.monitors.get_mut(monitor) {
            Some(m) => match m.workspaces.get_mut(workspace) {
                Some(w) => {
                    w.minimum_window_width = width;
                    w.minimum_window_height = height;
                    Ok(w)
                },
                None => {
                    assert(old(self)@.monitors.with(
                        monitor as int,
                        old(self)@.monitors.elements[monitor as int],
                    ) =~= old(self)@.monitors);
                    Err(Error::WorkspaceNotFound { monitor, workspace })
                },
            },
            None => Err(Error::MonitorNotFound(monitor)),
        }
    }

    /// A borrow of one workspace.
    ///
    /// # Errors
    ///
    /// Returns an error when either index is out of range.
    pub fn workspace(&self, monitor: usize, workspace: usize) -> (r: Result<&Workspace>)
        ensures
            match r {
                Ok(w) => self@.workspace(monitor as int, workspace as int) == Ok::<
                    WorkspaceView,
                    ErrorView,
                >(w@),
                Err(e) => self@.workspace(monitor as int, workspace as int) == Err::<
                    WorkspaceView,
                    ErrorView,
                >(e@),
            },
    {
        match self.monitors.get(monitor) {
            Some(m) => match m.workspaces.get(workspace) {
                Some(w) => Ok(w),
                None => Err(Error::WorkspaceNotFound { monitor, workspace }),
            },
            None => Err(Error::MonitorNotFound(monitor)),
        }
    }
}

} // verus!
