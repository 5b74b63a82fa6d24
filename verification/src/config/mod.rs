//! The configuration: what a configuration file says, and what applying it to a
//! state does.
//!
//! Every field is optional, so a config written for a newer or older version
//! still applies: a key that is not set leaves the state alone.

use std::collections::BTreeMap;
use std::path::PathBuf;

use vstd::prelude::*;

use crate::animation::{AnimationStyle, DEFAULT_DURATION_MS, DEFAULT_FPS};
use crate::geometry::{Offset, Rect};
use crate::layout::Layout;
use crate::model::monitor::{index_opt, Monitor, MonitorView};
use crate::model::ring::RingView;
use crate::model::state::{
    FocusFollowsMouseImplementation, HidingBehaviour, MoveBehaviour, OperationBehaviour, State,
    StateView, WindowContainerBehaviour,
};
use crate::model::workspace::{opt, Workspace, WorkspaceView};
use crate::ops::reconcile::claim_views;
use crate::rules::{rule_views, MatchingRule, MatchingRuleView, RuleSets, RuleSetsView};
use crate::text::owned;

pub mod again;
pub mod assign;
pub mod colour;
pub mod effect;
pub mod pinning;
pub mod routing;

pub use colour::{Colour, ColourRepr};

verus! {

/// A path of the file system.
#[verifier::external_type_specification]
#[verifier::external_body]
pub struct ExPathBuf(std::path::PathBuf);

/// The shape of the focus border.
#[derive(Debug, Clone, Copy, PartialEq, Eq, Hash, Structural)]
pub enum BorderStyle {
    /// Follow whatever Windows is doing.
    System,
    /// Always rounded corners.
    Rounded,
    /// Always square corners.
    Square,
}

impl Default for BorderStyle {
    fn default() -> (r: Self)
        ensures
            r == BorderStyle::System,
    {
        BorderStyle::System
    }
}

/// The border colour for each window state.
#[derive(Debug, Clone, Copy, Default, PartialEq, Eq)]
pub struct BorderColours {
    /// A focused window that is alone in its container.
    pub single: Option<Colour>,
    /// A focused window that shares its container with others.
    pub stack: Option<Colour>,
    /// A focused window in monocle mode.
    pub monocle: Option<Colour>,
    /// A focused window that is floating.
    pub floating: Option<Colour>,
    /// Every window that is not focused.
    pub unfocused: Option<Colour>,
}

/// A setting, or what it is when it is not set.
pub open spec fn or_default<T>(setting: Option<T>, otherwise: T) -> T {
    match setting {
        Some(value) => value,
        None => otherwise,
    }
}

/// Window movement animation.
#[derive(Debug, Clone, Copy, Default, PartialEq, Eq)]
pub struct AnimationConfig {
    /// Turns animation on.
    pub enabled: Option<bool>,
    /// How long one animation takes, in milliseconds.
    pub duration: Option<u64>,
    /// The easing curve.
    pub style: Option<AnimationStyle>,
    /// How many frames per second to draw.
    pub fps: Option<u32>,
}

impl AnimationConfig {
    /// `true` when animation is on. Off by default.
    #[must_use]
    pub fn is_enabled(&self) -> (r: bool)
        ensures
            r == or_default(self.enabled, false),
    {
        match self.enabled {
            Some(value) => value,
            None => false,
        }
    }

    /// The configured duration, or the default.
    #[must_use]
    pub fn duration_ms(&self) -> (r: u64)
        ensures
            r == or_default(self.duration, DEFAULT_DURATION_MS),
    {
        match self.duration {
            Some(value) => value,
            None => DEFAULT_DURATION_MS,
        }
    }

    /// The configured frame rate, or the default.
    #[must_use]
    pub fn fps(&self) -> (r: u32)
        ensures
            r == or_default(self.fps, DEFAULT_FPS),
    {
        match self.fps {
            Some(value) => value,
            None => DEFAULT_FPS,
        }
    }

    /// The configured easing curve, or the default.
    #[must_use]
    pub fn style(&self) -> (r: AnimationStyle)
        ensures
            r == or_default(self.style, AnimationStyle::Linear),
    {
        match self.style {
            Some(value) => value,
            None => AnimationStyle::Linear,
        }
    }
}

/// When the tab bar above a stacked container is drawn.
#[derive(Debug, Clone, Copy, PartialEq, Eq, Hash, Structural)]
pub enum StackbarMode {
    /// Always draw it.
    Always,
    /// Only draw it for containers with more than one window.
    OnStack,
    /// Never draw it. The default: nothing is ever drawn above a window
    /// unless the configuration asks for it.
    Never,
}

impl Default for StackbarMode {
    fn default() -> (r: Self)
        ensures
            r == StackbarMode::Never,
    {
        StackbarMode::Never
    }
}

/// What a stackbar tab says.
#[derive(Debug, Clone, Copy, PartialEq, Eq, Hash, Structural)]
pub enum StackbarLabel {
    /// The window title.
    Title,
    /// The name of the owning executable.
    Process,
}

impl Default for StackbarLabel {
    fn default() -> (r: Self)
        ensures
            r == StackbarLabel::Title,
    {
        StackbarLabel::Title
    }
}

/// The look of one stackbar tab.
#[derive(Debug, Clone, Default, PartialEq, Eq)]
pub struct StackbarTabs {
    /// Tab width in pixels.
    pub width: Option<i32>,
    /// Text colour of the focused tab.
    pub focused_text: Option<Colour>,
    /// Text colour of the other tabs.
    pub unfocused_text: Option<Colour>,
    /// Tab background colour.
    pub background: Option<Colour>,
    /// Font family name.
    pub font_family: Option<String>,
    /// Font size in points.
    pub font_size: Option<i32>,
}

/// The tab bar drawn above a stacked container.
///
/// Types only for now; nothing in this crate draws anything.
#[derive(Debug, Clone, Default, PartialEq, Eq)]
pub struct StackbarConfig {
    /// Bar height in pixels.
    pub height: Option<i32>,
    /// When to draw the bar.
    pub mode: Option<StackbarMode>,
    /// What a tab says.
    pub label: Option<StackbarLabel>,
    /// The look of the tabs.
    pub tabs: Option<StackbarTabs>,
}

/// One workspace, as configured.
#[derive(Debug, Clone, Default, PartialEq, Eq)]
pub struct WorkspaceConfig {
    /// The workspace name, as reported by `mochic state`.
    pub name: Option<String>,
    /// The layout to start with.
    pub layout: Option<Layout>,
    /// Padding around the whole workspace.
    pub workspace_padding: Option<i32>,
    /// Padding around each container.
    pub container_padding: Option<i32>,
    /// Layout per container count.
    pub layout_rules: Option<BTreeMap<usize, Layout>>,
    /// Windows matching these rules open here the first time they are seen.
    pub initial_workspace_rules: Option<Vec<MatchingRule>>,
    /// Windows matching these rules always end up here.
    pub workspace_rules: Option<Vec<MatchingRule>>,
    /// Apply the monitor's window based work area offset to this workspace.
    pub apply_window_based_work_area_offset: Option<bool>,
    /// Make every window opened here float.
    pub float_override: Option<bool>,
    /// Whether a new window stacks onto the focused container here.
    pub window_container_behaviour: Option<WindowContainerBehaviour>,
}

/// A setting that may be unset itself: the new value when there is one.
pub open spec fn or_kept<T>(setting: Option<T>, kept: Option<T>) -> Option<T> {
    match setting {
        Some(value) => Some(value),
        None => kept,
    }
}

/// Copies a setting over, when it is set.
fn set<T: Copy>(slot: &mut T, setting: Option<T>)
    ensures
        *final(slot) == or_default(setting, *old(slot)),
{
    if let Some(value) = setting {
        *slot = value;
    }
}

/// Copies a setting over that may be unset itself, when it is set.
fn keep<T: Copy>(slot: &mut Option<T>, setting: Option<T>)
    ensures
        *final(slot) == or_kept(setting, *old(slot)),
{
    if setting.is_some() {
        *slot = setting;
    }
}

impl WorkspaceConfig {
    /// A workspace with the configured values on it.
    pub open spec fn configured(&self, workspace: WorkspaceView) -> WorkspaceView {
        WorkspaceView {
            name: or_kept(opt(self.name), workspace.name),
            layout: or_default(self.layout, workspace.layout),
            layout_rules: match self.layout_rules {
                Some(rules) => rules@,
                None => workspace.layout_rules,
            },
            workspace_padding: or_kept(self.workspace_padding, workspace.workspace_padding),
            container_padding: or_kept(self.container_padding, workspace.container_padding),
            apply_window_based_work_area_offset: or_default(
                self.apply_window_based_work_area_offset,
                workspace.apply_window_based_work_area_offset,
            ),
            float_override: or_default(self.float_override, workspace.float_override),
            ..workspace
        }
    }

    /// Copies the configured values onto a workspace, leaving the rest alone.
    pub fn apply_to(&self, workspace: &mut Workspace)
        ensures
            final(workspace)@ == self.configured(old(workspace)@),
    {
        if let Some(name) = &self.name {
            workspace.name = Some(owned(name.as_str()));
        }
        if let Some(rules) = &self.layout_rules {
            workspace.layout_rules = rules.clone();
        }
        set(&mut workspace.layout, self.layout);
        keep(&mut workspace.workspace_padding, self.workspace_padding);
        keep(&mut workspace.container_padding, self.container_padding);
        set(
            &mut workspace.apply_window_based_work_area_offset,
            self.apply_window_based_work_area_offset,
        );
        set(&mut workspace.float_override, self.float_override);
    }
}

/// One monitor, as configured.
#[derive(Debug, Clone, Default, PartialEq, Eq)]
pub struct MonitorConfig {
    /// The workspaces on this monitor, in order.
    pub workspaces: Vec<WorkspaceConfig>,
    /// A work area offset just for this monitor.
    pub work_area_offset: Option<Offset>,
    /// An offset for workspaces that opt in.
    pub window_based_work_area_offset: Option<Offset>,
    /// The container count up to which the offset above applies.
    pub window_based_work_area_offset_limit: Option<usize>,
}

/// The first `n` workspaces configured, one entry each.
pub open spec fn workspaces_configured(
    entries: Seq<WorkspaceConfig>,
    workspaces: Seq<WorkspaceView>,
    n: int,
) -> Seq<WorkspaceView> {
    Seq::new(
        workspaces.len(),
        |i: int|
            if i < n {
                entries[i].configured(workspaces[i])
            } else {
                workspaces[i]
            },
    )
}

impl MonitorConfig {
    /// A monitor with the configured values on it and on its workspaces, which
    /// are created as needed.
    pub open spec fn configured(&self, monitor: MonitorView) -> MonitorView {
        let room = monitor.ensure_workspaces(self.workspaces@.len() as int);
        MonitorView {
            work_area_offset: or_kept(self.work_area_offset, monitor.work_area_offset),
            window_based_work_area_offset: or_kept(
                self.window_based_work_area_offset,
                monitor.window_based_work_area_offset,
            ),
            window_based_work_area_offset_limit: match self.window_based_work_area_offset_limit {
                Some(limit) => limit as int,
                None => monitor.window_based_work_area_offset_limit,
            },
            workspaces: RingView {
                elements: workspaces_configured(
                    self.workspaces@,
                    room.workspaces.elements,
                    self.workspaces@.len() as int,
                ),
                ..room.workspaces
            },
            ..room
        }
    }

    /// Copies the configured values onto a monitor.
    fn apply_to(&self, monitor: &mut Monitor)
        ensures
            final(monitor)@ == self.configured(old(monitor)@),
    {
        if self.work_area_offset.is_some() {
            monitor.work_area_offset = self.work_area_offset;
        }
        if self.window_based_work_area_offset.is_some() {
            monitor.window_based_work_area_offset = self.window_based_work_area_offset;
        }
        if let Some(limit) = self.window_based_work_area_offset_limit {
            monitor.window_based_work_area_offset_limit = limit;
        }
        monitor.ensure_workspaces(self.workspaces.len());
        let ghost room = monitor@;
        assert(workspaces_configured(self.workspaces@, room.workspaces.elements, 0)
            =~= room.workspaces.elements);
        for idx in 0..self.workspaces.len()
            invariant
                room.workspaces.len() >= self.workspaces@.len(),
                monitor@ == (MonitorView {
                    workspaces: RingView {
                        elements: workspaces_configured(
                            self.workspaces@,
                            room.workspaces.elements,
                            idx as int,
                        ),
                        ..room.workspaces
                    },
                    ..room
                }),
        {
            if let Some(workspace) = monitor.workspaces.get_mut(idx) {
                self.workspaces[idx].apply_to(workspace);
            }
            assert(monitor@.workspaces.elements =~= workspaces_configured(
                self.workspaces@,
                room.workspaces.elements,
                idx + 1,
            ));
        }
    }
}

/// The whole configuration file.
///
/// Everything is optional.
#[derive(Debug, Clone, Default, PartialEq, Eq)]
pub struct Config {
    /// The community application rules file to load on top of these rules.
    pub app_specific_configuration_path: Option<PathBuf>,
    /// How windows on an inactive workspace are taken off screen.
    pub window_hiding_behaviour: Option<HidingBehaviour>,
    /// What moving a container past a monitor edge does.
    pub cross_monitor_move_behaviour: Option<MoveBehaviour>,
    /// What a command aimed at an unmanaged window does.
    pub unmanaged_window_operation_behaviour: Option<OperationBehaviour>,
    /// Whether a new window stacks onto the focused container.
    pub window_container_behaviour: Option<WindowContainerBehaviour>,
    /// Whether hovering a window focuses it, and with which implementation.
    pub focus_follows_mouse: Option<FocusFollowsMouseImplementation>,
    /// Warp the cursor onto a window when it takes focus.
    pub mouse_follows_focus: Option<bool>,
    /// Make every new window float.
    pub float_override: Option<bool>,
    /// How many pixels one `resize-axis` step moves a boundary.
    pub resize_delta: Option<i32>,
    /// The width below which a tile is not allowed to shrink.
    ///
    /// In logical pixels, the same units as `default_workspace_padding` and
    /// scaled the same way: the number in the file is the value at 100
    /// percent, and it is multiplied by the scale factor of the monitor the
    /// workspace lands on, so a floor of `300` is 450 physical pixels on a
    /// display at 150 percent. Defaults to
    /// [`MIN_TILE_SIZE`](crate::layout::MIN_TILE_SIZE).
    ///
    /// A value too large for the screen is not an error: the layouts scale a
    /// minimum that cannot fit back down, so the tiles still cover the area
    /// exactly.
    pub minimum_window_width: Option<i32>,
    /// The height below which a tile is not allowed to shrink. The
    /// counterpart of `minimum_window_width`, in the same units.
    pub minimum_window_height: Option<i32>,
    /// Padding around a workspace that has none of its own.
    pub default_workspace_padding: Option<i32>,
    /// Padding around a container in a workspace that has none of its own.
    pub default_container_padding: Option<i32>,
    /// A work area offset applied to every monitor without one of its own.
    pub work_area_offset: Option<Offset>,
    /// Another name for `work_area_offset`.
    pub global_work_area_offset: Option<Offset>,
    /// Draw a border around the focused window.
    pub border: Option<bool>,
    /// Border thickness in pixels.
    pub border_width: Option<i32>,
    /// How far the border sits outside the window rectangle.
    pub border_offset: Option<i32>,
    /// The shape of the border.
    pub border_style: Option<BorderStyle>,
    /// The border colour for each window state.
    pub border_colours: Option<BorderColours>,
    /// Make unfocused windows transparent.
    pub transparency: Option<bool>,
    /// The alpha value applied to unfocused windows, 0 to 255.
    pub transparency_alpha: Option<u8>,
    /// Window movement animation.
    pub animation: Option<AnimationConfig>,
    /// The tab bar above a stacked container.
    pub stackbar: Option<StackbarConfig>,
    /// Windows that are never touched at all.
    pub ignore_rules: Option<Vec<MatchingRule>>,
    /// Windows that are managed even though the heuristics say no.
    pub manage_rules: Option<Vec<MatchingRule>>,
    /// Windows that are managed but never tiled.
    pub floating_applications: Option<Vec<MatchingRule>>,
    /// Applications that keep a hidden window alive in the tray.
    pub tray_and_multi_window_applications: Option<Vec<MatchingRule>>,
    /// Applications that reuse one window and only change its title.
    pub object_name_change_applications: Option<Vec<MatchingRule>>,
    /// Applications whose border sits outside the window rectangle.
    pub border_overflow_applications: Option<Vec<MatchingRule>>,
    /// Layered windows that should be managed anyway.
    pub layered_whitelist: Option<Vec<MatchingRule>>,
    /// Windows that must never be made transparent.
    pub transparency_ignore_rules: Option<Vec<MatchingRule>>,
    /// Applications that need an extra beat before their window is ready.
    pub slow_application_identifiers: Option<Vec<MatchingRule>>,
    /// The monitors, in the order they should be indexed.
    pub monitors: Option<Vec<MonitorConfig>>,
    /// Pins a `monitors` entry to the display that covers exactly this
    /// rectangle of the virtual desktop.
    ///
    /// The key is the index of the entry, the value its display's full
    /// rectangle, the `size` that `mochic state` reports for that monitor.
    /// See [`Config::monitor_assignments`] for how the two preference keys
    /// and the positional fallback interact.
    pub monitor_index_preferences: Option<BTreeMap<usize, Rect>>,
    /// Pins a `monitors` entry to one physical display.
    ///
    /// The key is the index of the entry, the value an identifier of the
    /// display: its [`Monitor::device_id`], its [`Monitor::name`] or its
    /// [`Monitor::device`]. See [`Config::monitor_assignments`], which also
    /// explains why a model name cannot tell two identical panels apart.
    pub display_index_preferences: Option<BTreeMap<usize, String>>,
}

/// The rules of a list that may not be there.
pub open spec fn listed(rules: Option<Vec<MatchingRule>>) -> Seq<MatchingRuleView> {
    match rules {
        Some(rules) => rule_views(rules@),
        None => Seq::empty(),
    }
}

fn copy_rules(rules: &Option<Vec<MatchingRule>>) -> (r: Vec<MatchingRule>)
    ensures
        rule_views(r@) == listed(*rules),
{
    let mut copy: Vec<MatchingRule> = Vec::new();
    if let Some(rules) = rules {
        for i in 0..rules.len()
            invariant
                rule_views(copy@) == rule_views(rules@).take(i as int),
        {
            let ghost before = rule_views(copy@);
            copy.push(rules[i].clone());
            assert(rule_views(copy@) =~= before.push(rules@[i as int]@));
            assert(rule_views(copy@) =~= rule_views(rules@).take(i + 1));
        }
        assert(rule_views(rules@).take(rules@.len() as int) =~= rule_views(rules@));
    } else {
        assert(rule_views(copy@) =~= Seq::<MatchingRuleView>::empty());
    }
    copy
}

/// A rule that decides where a window opens: monitor, workspace, rule, and
/// whether it only counts the first time.
pub type Route = (int, int, MatchingRuleView, bool);

/// The routes of one rule list.
pub open spec fn routes_by(
    rules: Seq<MatchingRuleView>,
    monitor: int,
    workspace: int,
    initial: bool,
) -> Seq<Route> {
    rules.map_values(|rule: MatchingRuleView| (monitor, workspace, rule, initial))
}

/// The routes to one workspace.
pub open spec fn routes_to(entry: WorkspaceConfig, monitor: int, workspace: int) -> Seq<Route> {
    routes_by(listed(entry.initial_workspace_rules), monitor, workspace, true) + routes_by(
        listed(entry.workspace_rules),
        monitor,
        workspace,
        false,
    )
}

/// The routes to the first `n` workspaces of a monitor.
pub open spec fn routes_on(entries: Seq<WorkspaceConfig>, monitor: int, n: int) -> Seq<Route>
    decreases n,
{
    if n <= 0 {
        Seq::empty()
    } else {
        routes_on(entries, monitor, n - 1) + routes_to(entries[n - 1], monitor, n - 1)
    }
}

/// The routes under the first `n` monitor entries. An entry without a monitor
/// leads nowhere.
pub open spec fn routes_across(
    entries: Seq<MonitorConfig>,
    assignments: Seq<Option<int>>,
    n: int,
) -> Seq<Route>
    decreases n,
{
    if n <= 0 {
        Seq::empty()
    } else {
        routes_across(entries, assignments, n - 1) + match assignments[n - 1] {
            Some(monitor) => routes_on(
                entries[n - 1].workspaces@,
                monitor,
                entries[n - 1].workspaces@.len() as int,
            ),
            None => Seq::empty(),
        }
    }
}

/// The value of a list of routes.
pub open spec fn route_views(routes: Seq<(usize, usize, MatchingRule, bool)>) -> Seq<Route> {
    routes.map_values(
        |t: (usize, usize, MatchingRule, bool)| (t.0 as int, t.1 as int, t.2@, t.3),
    )
}

fn push_routes(
    routes: &mut Vec<(usize, usize, MatchingRule, bool)>,
    rules: &Option<Vec<MatchingRule>>,
    monitor: usize,
    workspace: usize,
    initial: bool,
)
    ensures
        route_views(final(routes)@) == route_views(old(routes)@) + routes_by(
            listed(*rules),
            monitor as int,
            workspace as int,
            initial,
        ),
{
    let ghost start = route_views(routes@);
    let ghost all = routes_by(listed(*rules), monitor as int, workspace as int, initial);
    if let Some(rules) = rules {
        assert(start + all.take(0) =~= start);
        for i in 0..rules.len()
            invariant
                all == routes_by(
                    rule_views(rules@),
                    monitor as int,
                    workspace as int,
                    initial,
                ),
                route_views(routes@) == start + all.take(i as int),
        {
            let ghost before = route_views(routes@);
            routes.push((monitor, workspace, rules[i].clone(), initial));
            assert(route_views(routes@) =~= before.push(all[i as int]));
            assert(route_views(routes@) =~= start + all.take(i + 1));
        }
        assert(all.take(rules@.len() as int) =~= all);
    } else {
        assert(start + all =~= start);
    }
}

/// The monitors with the first `n` entries applied.
pub open spec fn monitors_configured(
    entries: Seq<MonitorConfig>,
    assignments: Seq<Option<int>>,
    monitors: RingView<MonitorView>,
    n: int,
) -> RingView<MonitorView>
    decreases n,
{
    if n <= 0 {
        monitors
    } else {
        let before = monitors_configured(entries, assignments, monitors, n - 1);
        match assignments[n - 1] {
            Some(idx) => before.with(idx, entries[n - 1].configured(before.elements[idx])),
            None => before,
        }
    }
}

impl Config {
    /// The monitor entries.
    pub open spec fn entries(&self) -> Seq<MonitorConfig> {
        match self.monitors {
            Some(monitors) => monitors@,
            None => Seq::empty(),
        }
    }

    /// The work area offset, accepting either spelling.
    #[must_use]
    pub fn work_area_offset(&self) -> (r: Option<Offset>)
        ensures
            r == or_kept(self.work_area_offset, self.global_work_area_offset),
    {
        match self.work_area_offset {
            Some(offset) => Some(offset),
            None => self.global_work_area_offset,
        }
    }

    /// Every rule list, gathered into one set. The ignore rules count a second
    /// time as the user's own.
    pub open spec fn rules(&self) -> RuleSetsView {
        RuleSetsView {
            ignore_rules: listed(self.ignore_rules),
            own_ignore_rules: listed(self.ignore_rules),
            manage_rules: listed(self.manage_rules),
            floating_applications: listed(self.floating_applications),
            tray_and_multi_window_applications: listed(self.tray_and_multi_window_applications),
            object_name_change_applications: listed(self.object_name_change_applications),
            border_overflow_applications: listed(self.border_overflow_applications),
            layered_whitelist: listed(self.layered_whitelist),
            transparency_ignore_rules: listed(self.transparency_ignore_rules),
            slow_application_identifiers: listed(self.slow_application_identifiers),
        }
    }

    /// Every rule list from this file, gathered into one set.
    #[must_use]
    pub fn rule_sets(&self) -> (r: RuleSets)
        ensures
            r@ == self.rules(),
    {
        RuleSets {
            ignore_rules: copy_rules(&self.ignore_rules),
            // The same rules again, marked as the user's own. A community rule
            // file is merged in later, which deliberately does not add to this
            // list, so a manage rule from one cannot overrule what the user
            // wrote in their own file.
            own_ignore_rules: copy_rules(&self.ignore_rules),
            manage_rules: copy_rules(&self.manage_rules),
            floating_applications: copy_rules(&self.floating_applications),
            tray_and_multi_window_applications: copy_rules(
                &self.tray_and_multi_window_applications,
            ),
            object_name_change_applications: copy_rules(&self.object_name_change_applications),
            border_overflow_applications: copy_rules(&self.border_overflow_applications),
            layered_whitelist: copy_rules(&self.layered_whitelist),
            transparency_ignore_rules: copy_rules(&self.transparency_ignore_rules),
            slow_application_identifiers: copy_rules(&self.slow_application_identifiers),
        }
    }

    /// The rules that decide which workspace a window opens on.
    ///
    /// Returns one entry per rule as `(monitor, workspace, rule, initial_only)`,
    /// where `monitor` is the index of the monitor the entry it was written
    /// under configures; see [`Config::monitor_assignments`]. An entry whose
    /// display is not attached configures nothing, so its rules have nowhere to
    /// send a window and are left out.
    #[must_use]
    pub fn workspace_rules(&self, state: &State) -> (r: Vec<(usize, usize, MatchingRule, bool)>)
        ensures
            route_views(r@) == routes_across(
                self.entries(),
                self.assignments(state@.monitors.elements),
                self.entries().len() as int,
            ),
    {
        let assignments = self.monitor_assignments(state);
        let ghost slots = self.assignments(state@.monitors.elements);
        proof {
            self.one_slot_per_entry(state@.monitors.elements);
        }
        let mut routes: Vec<(usize, usize, MatchingRule, bool)> = Vec::new();
        assert(route_views(routes@) =~= Seq::<Route>::empty());
        if let Some(monitors) = &self.monitors {
            for entry in 0..monitors.len()
                invariant
                    monitors@ == self.entries(),
                    claim_views(assignments@) == slots,
                    slots.len() == monitors@.len(),
                    route_views(routes@) == routes_across(self.entries(), slots, entry as int),
            {
                assert(slots[entry as int] == index_opt(assignments@[entry as int]));
                if let Some(monitor) = assignments[entry] {
                    push_routes_on(&mut routes, &monitors[entry].workspaces, monitor);
                } else {
                    assert(route_views(routes@) + Seq::<Route>::empty() =~= route_views(routes@));
                }
            }
        }
        routes
    }

    /// What applying the configuration makes of a state.
    pub open spec fn configured(&self, state: StateView) -> StateView {
        StateView {
            window_hiding_behaviour: or_default(
                self.window_hiding_behaviour,
                state.window_hiding_behaviour,
            ),
            cross_monitor_move_behaviour: or_default(
                self.cross_monitor_move_behaviour,
                state.cross_monitor_move_behaviour,
            ),
            unmanaged_window_operation_behaviour: or_default(
                self.unmanaged_window_operation_behaviour,
                state.unmanaged_window_operation_behaviour,
            ),
            window_container_behaviour: or_default(
                self.window_container_behaviour,
                state.window_container_behaviour,
            ),
            focus_follows_mouse: or_kept(self.focus_follows_mouse, state.focus_follows_mouse),
            mouse_follows_focus: or_default(self.mouse_follows_focus, state.mouse_follows_focus),
            float_override: or_default(self.float_override, state.float_override),
            resize_delta: or_default(self.resize_delta, state.resize_delta),
            minimum_window_width: or_default(self.minimum_window_width, state.minimum_window_width),
            minimum_window_height: or_default(
                self.minimum_window_height,
                state.minimum_window_height,
            ),
            default_workspace_padding: or_default(
                self.default_workspace_padding,
                state.default_workspace_padding,
            ),
            default_container_padding: or_default(
                self.default_container_padding,
                state.default_container_padding,
            ),
            work_area_offset: or_kept(
                or_kept(self.work_area_offset, self.global_work_area_offset),
                state.work_area_offset,
            ),
            rules: self.rules(),
            monitors: monitors_configured(
                self.entries(),
                self.assignments(state.monitors.elements),
                state.monitors,
                self.entries().len() as int,
            ),
            ..state
        }
    }

    /// Copies the global settings and the rules onto a state, and configures
    /// the workspaces of every monitor that already exists.
    ///
    /// Which monitor an entry configures is decided by
    /// [`Config::monitor_assignments`]: a display or rectangle preference
    /// where the entry has one, its position otherwise. An entry pinned to a
    /// display that is not attached configures nothing. Workspaces are
    /// created on demand.
    pub fn apply_to(&self, state: &mut State)
        ensures
            final(state)@ == self.configured(old(state)@),
    {
        set(&mut state.window_hiding_behaviour, self.window_hiding_behaviour);
        set(&mut state.cross_monitor_move_behaviour, self.cross_monitor_move_behaviour);
        set(
            &mut state.unmanaged_window_operation_behaviour,
            self.unmanaged_window_operation_behaviour,
        );
        set(&mut state.window_container_behaviour, self.window_container_behaviour);
        keep(&mut state.focus_follows_mouse, self.focus_follows_mouse);
        set(&mut state.mouse_follows_focus, self.mouse_follows_focus);
        set(&mut state.float_override, self.float_override);
        set(&mut state.resize_delta, self.resize_delta);
        set(&mut state.minimum_window_width, self.minimum_window_width);
        set(&mut state.minimum_window_height, self.minimum_window_height);
        set(&mut state.default_workspace_padding, self.default_workspace_padding);
        set(&mut state.default_container_padding, self.default_container_padding);
        let offset = self.work_area_offset();
        keep(&mut state.work_area_offset, offset);
        state.rules = self.rule_sets();
        self.apply_to_monitors(state);
    }

    fn apply_to_monitors(&self, state: &mut State)
        ensures
            final(state)@ == (StateView {
                monitors: monitors_configured(
                    self.entries(),
                    self.assignments(old(state)@.monitors.elements),
                    old(state)@.monitors,
                    self.entries().len() as int,
                ),
                ..old(state)@
            }),
    {
        let assignments = self.monitor_assignments(state);
        let ghost slots = self.assignments(state@.monitors.elements);
        let ghost start = state@;
        proof {
            self.one_slot_per_entry(state@.monitors.elements);
        }
        if let Some(monitors) = &self.monitors {
            for entry in 0..monitors.len()
                invariant
                    monitors@ == self.entries(),
                    claim_views(assignments@) == slots,
                    slots.len() == monitors@.len(),
                    forall|i: int|
                        0 <= i < slots.len() && (#[trigger] slots[i]) is Some ==> 0 <= slots[i]->0
                            < start.monitors.len(),
                    state@.monitors.len() == start.monitors.len(),
                    state@ == (StateView {
                        monitors: monitors_configured(
                            self.entries(),
                            slots,
                            start.monitors,
                            entry as int,
                        ),
                        ..start
                    }),
            {
                assert(slots[entry as int] == index_opt(assignments@[entry as int]));
                // `None` is an entry that is held back: pinned to a display that
                // is not attached, or with no monitor left to fall back to.
                if let Some(idx) = assignments[entry] {
                    if let Some(monitor) = state.monitors.get_mut(idx) {
                        monitors[entry].apply_to(monitor);
                    }
                }
            }
        }
    }

    /// Configures one monitor from whichever entry assigns to it.
    ///
    /// For a display that has just been attached. [`Config::apply_to`] shapes
    /// every monitor at once, which is right when the configuration is being
    /// loaded and wrong on a display change: it would put every workspace back
    /// to its configured layout and padding, throwing away what a `mochic`
    /// command had set on screens that were never unplugged.
    ///
    /// Returns false when no entry configures this monitor, so the caller can
    /// fall back to something better than a single empty workspace.
    pub fn apply_to_monitor(&self, state: &mut State, monitor_idx: usize) -> (r: bool)
        ensures
            ({
                let slots = self.assignments(old(state)@.monitors.elements);
                match crate::seqs::first_idx(
                    slots,
                    crate::ops::outcome::is_claim(monitor_idx as int),
                ) {
                    Some(entry) => r && final(state)@ == (StateView {
                        monitors: old(state)@.monitors.with(
                            monitor_idx as int,
                            self.entries()[entry].configured(
                                old(state)@.monitors.elements[monitor_idx as int],
                            ),
                        ),
                        ..old(state)@
                    }),
                    None => !r && final(state)@ == old(state)@,
                }
            }),
    {
        let assignments = self.monitor_assignments(state);
        let ghost slots = self.assignments(state@.monitors.elements);
        proof {
            self.one_slot_per_entry(state@.monitors.elements);
            crate::seqs::first_when_any(
                slots,
                crate::ops::outcome::is_claim(monitor_idx as int),
            );
        }
        let entry = match find_claim(&assignments, monitor_idx) {
            Some(entry) => entry,
            None => return false,
        };
        match &self.monitors {
            Some(monitors) => match state.monitors.get_mut(monitor_idx) {
                Some(monitor) => {
                    monitors[entry].apply_to(monitor);
                    true
                },
                None => false,
            },
            None => false,
        }
    }
}

fn find_claim(assignments: &Vec<Option<usize>>, monitor: usize) -> (r: Option<usize>)
    ensures
        index_opt(r) == crate::seqs::first_idx(
            claim_views(assignments@),
            crate::ops::outcome::is_claim(monitor as int),
        ),
        r matches Some(idx) ==> idx < assignments@.len(),
{
    let ghost views = claim_views(assignments@);
    let ghost wanted = crate::ops::outcome::is_claim(monitor as int);
    for idx in 0..assignments.len()
        invariant
            views == claim_views(assignments@),
            wanted == crate::ops::outcome::is_claim(monitor as int),
            forall|j: int| 0 <= j < idx ==> !wanted(#[trigger] views[j]),
    {
        assert(views[idx as int] == index_opt(assignments@[idx as int]));
        if let Some(at) = assignments[idx] {
            if at == monitor {
                proof {
                    crate::seqs::first_is(views, wanted, idx as int);
                }
                return Some(idx);
            }
        }
    }
    proof {
        crate::seqs::first_is_none(views, wanted);
    }
    None
}

fn push_routes_on(
    routes: &mut Vec<(usize, usize, MatchingRule, bool)>,
    workspaces: &Vec<WorkspaceConfig>,
    monitor: usize,
)
    ensures
        route_views(final(routes)@) == route_views(old(routes)@) + routes_on(
            workspaces@,
            monitor as int,
            workspaces@.len() as int,
        ),
{
    let ghost start = route_views(routes@);
    assert(start + Seq::<Route>::empty() =~= start);
    for idx in 0..workspaces.len()
        invariant
            route_views(routes@) == start + routes_on(workspaces@, monitor as int, idx as int),
    {
        let ghost before = route_views(routes@);
        push_routes(routes, &workspaces[idx].initial_workspace_rules, monitor, idx, true);
        push_routes(routes, &workspaces[idx].workspace_rules, monitor, idx, false);
        assert(route_views(routes@) =~= start + routes_on(
            workspaces@,
            monitor as int,
            idx + 1,
        ));
    }
}

} // verus!
