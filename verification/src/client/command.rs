//! Commands a client can send to the daemon.
//!
//! The wire form is an internally tagged JSON object: the variant name goes into
//! the `cmd` field in kebab-case, the payload fields sit next to it.
//!
//! ```text
//! {"cmd":"focus","direction":"left"}
//! {"cmd":"resize-axis","axis":"horizontal","sizing":"increase"}
//! ```

use vstd::prelude::*;

use crate::client::wire::{
    AnimationStyle, Axis, BooleanState, BorderStyle, ContainerBehaviour, CycleDirection, Direction,
    HidingBehaviour, Layout, MatchingStrategy, MoveBehaviour, OperationBehaviour, QueryTarget,
    RuleIdentifier, Sizing, WindowKind,
};

verus! {

/// A command sent from a client to the daemon.
#[derive(Debug, Clone, PartialEq, Eq)]
#[allow(inconsistent_fields)]
pub enum Command {
    // --- lifecycle -------------------------------------------------------
    /// Start the daemon. Only meaningful to `mochic`; a running daemon answers Ok.
    Start,
    /// Exit cleanly, restoring every managed window first.
    Stop,
    /// Write a default mochi.json to `%USERPROFILE%` if there is none.
    Quickstart,
    /// Stop and resume management without exiting.
    TogglePause,
    /// Hand the whole keyboard to a game: pause tiling and suspend every
    /// hotkey except the one bound to this command, so it can be undone.
    ToggleGameMode,
    /// Re-read the configuration file.
    ReloadConfiguration,
    /// Show every window Mochi is hiding, without stopping.
    RestoreWindows,
    /// Recompute and re-apply every layout.
    Retile,

    // --- introspection ---------------------------------------------------
    /// Dump the full daemon state as JSON.
    State,
    /// Ask for a single scalar.
    Query {
        /// What to answer.
        target: QueryTarget,
    },
    /// Ask for the bindings the hotkey daemon currently holds.
    Hotkeys,
    /// Ask what Mochi makes of the window in front, and why.
    Why,
    /// Ask for a check of the daemon's picture of the desktop against the real
    /// one.
    Doctor,

    // --- focus and movement ----------------------------------------------
    /// Move focus in a direction.
    Focus {
        /// Direction to move focus in.
        direction: Direction,
    },
    /// Step the focus one container along the ring, by position rather than by
    /// geometry, which is what a layout with no obvious left and right wants.
    CycleFocus {
        /// Which way to step.
        direction: CycleDirection,
    },
    /// Move the focused window in a direction.
    Move {
        /// Direction to move the window in.
        direction: Direction,
    },
    /// Swap the focused window with its neighbour in the ring, by position
    /// rather than by geometry.
    CycleMove {
        /// Which way to step.
        direction: CycleDirection,
    },
    /// Grow or shrink the focused window along an axis.
    ResizeAxis {
        /// Axis to resize along.
        axis: Axis,
        /// Grow or shrink.
        sizing: Sizing,
    },
    /// Grow or shrink the focused window by moving one named edge, instead of
    /// letting the axis decide which edge to move.
    ResizeEdge {
        /// Edge to move.
        direction: Direction,
        /// Grow or shrink.
        sizing: Sizing,
    },
    /// Swap the focused window with the first window of its workspace.
    Promote,
    /// Focus the first window of the workspace without moving anything.
    PromoteFocus,

    // --- window state ----------------------------------------------------
    /// Toggle the focused window between tiled and floating.
    ToggleFloat,
    /// Toggle whether every new window floats, for as long as the daemon runs.
    ToggleFloatOverride,
    /// Toggle the focused window between tiled and maximized.
    ToggleMaximize,
    /// Toggle monocle mode for the focused window.
    ToggleMonocle,
    /// Minimize the focused window.
    Minimize,
    /// Ask the focused window to close.
    Close,
    /// Start managing the focused window even if a rule would skip it.
    Manage,
    /// Stop managing the focused window and leave it where it is.
    Unmanage,

    // --- stacks -----------------------------------------------------------
    /// Stack the focused window onto its neighbour in a direction.
    Stack {
        /// Which neighbour to stack onto.
        direction: Direction,
    },
    /// Pull the focused window back out of its stack.
    Unstack,
    /// Collapse every container in the workspace into one stack.
    StackAll,
    /// Focus one window of the focused stack by its position in it.
    FocusStackWindow {
        /// Zero-based index into the stack.
        index: usize,
    },
    /// Give every stacked window in the workspace its own container.
    UnstackAll,
    /// Step through the windows of the focused stack.
    CycleStack {
        /// Which way to step.
        direction: CycleDirection,
    },

    // --- layouts ----------------------------------------------------------
    /// Step through the layout ring of the focused workspace.
    CycleLayout {
        /// Which way to step.
        direction: CycleDirection,
    },
    /// Set the layout of the focused workspace.
    ChangeLayout {
        /// Layout to switch to.
        layout: Layout,
    },
    /// Mirror the layout of the focused workspace along an axis.
    FlipLayout {
        /// Axis to flip along.
        axis: Axis,
    },
    /// Stop and resume tiling the focused workspace, leaving every window
    /// managed and exactly where it is.
    ToggleTiling,

    // --- workspaces -------------------------------------------------------
    /// Focus a workspace by its zero-based index on the focused monitor.
    FocusWorkspace {
        /// Zero-based workspace index.
        index: usize,
    },
    /// Move the focused window to a workspace and follow it.
    MoveToWorkspace {
        /// Zero-based workspace index.
        index: usize,
    },
    /// Move the focused window to a workspace and stay where you are.
    SendToWorkspace {
        /// Zero-based workspace index.
        index: usize,
    },
    /// Step through the workspaces of the focused monitor.
    CycleWorkspace {
        /// Which way to step.
        direction: CycleDirection,
    },
    /// Return to the workspace that was focused before the current one.
    FocusLastWorkspace,
    /// Focus the workspace with this name, on whichever monitor it is.
    FocusNamedWorkspace {
        /// The name as it appears in the configuration.
        name: String,
    },
    /// Move the focused window to the workspace with this name and follow it.
    MoveToNamedWorkspace {
        /// The name as it appears in the configuration.
        name: String,
    },
    /// Move the focused window to the workspace with this name and stay put.
    SendToNamedWorkspace {
        /// The name as it appears in the configuration.
        name: String,
    },
    /// Set the outer padding of one workspace.
    WorkspacePadding {
        /// Zero-based monitor index.
        monitor: usize,
        /// Zero-based workspace index.
        workspace: usize,
        /// Padding in logical pixels.
        size: i32,
    },
    /// Set the padding between the containers of one workspace.
    ContainerPadding {
        /// Zero-based monitor index.
        monitor: usize,
        /// Zero-based workspace index.
        workspace: usize,
        /// Padding in logical pixels.
        size: i32,
    },

    // --- monitors ---------------------------------------------------------
    /// Focus a monitor by its zero-based index.
    FocusMonitor {
        /// Zero-based monitor index.
        index: usize,
    },
    /// Move the focused window to a monitor and follow it.
    MoveToMonitor {
        /// Zero-based monitor index.
        index: usize,
    },
    /// Move the focused window to a monitor and stay where you are.
    SendToMonitor {
        /// Zero-based monitor index.
        index: usize,
    },
    /// Step through the monitor ring.
    CycleMonitor {
        /// Which way to step.
        direction: CycleDirection,
    },

    // --- input behaviour --------------------------------------------------
    /// Focus whatever window the mouse moves over.
    FocusFollowsMouse {
        /// Turn it on or off.
        state: BooleanState,
    },
    /// Decide whether a new window stacks onto the focused container.
    WindowContainerBehaviour {
        /// Create a container, or append to the focused one.
        behaviour: ContainerBehaviour,
    },
    /// Switch between creating a container and appending to the focused one.
    ToggleWindowContainerBehaviour,
    /// Decide what moving a container past a monitor edge does.
    CrossMonitorMoveBehaviour {
        /// Swap, insert or do nothing.
        behaviour: MoveBehaviour,
    },
    /// Decide how a window on an inactive workspace is taken off screen.
    WindowHidingBehaviour {
        /// Hide, minimize or cloak.
        behaviour: HidingBehaviour,
    },
    /// Decide what a command aimed at an unmanaged window does.
    UnmanagedWindowOperationBehaviour {
        /// Run it anyway, or refuse it.
        behaviour: OperationBehaviour,
    },
    /// Warp the mouse to the centre of a newly focused window.
    MouseFollowsFocus {
        /// Turn it on or off.
        state: BooleanState,
    },
    /// Turn the hotkey daemon on or off without stopping Mochi.
    SetHotkeys {
        /// Turn it on or off.
        state: BooleanState,
    },

    // --- visuals ----------------------------------------------------------
    /// Toggle transparency for unfocused windows.
    ToggleTransparency,
    /// Turn the focus border on or off.
    Border {
        /// Turn it on or off.
        state: BooleanState,
    },
    /// Set the border thickness in logical pixels.
    BorderWidth {
        /// Thickness in logical pixels.
        width: i32,
    },
    /// Set how far the border sits outside the window frame.
    BorderOffset {
        /// Offset in logical pixels, negative pulls the border inwards.
        offset: i32,
    },
    /// Set the border colour for one kind of window.
    BorderColour {
        /// Which windows the colour applies to.
        kind: WindowKind,
        /// Red channel.
        r: u8,
        /// Green channel.
        g: u8,
        /// Blue channel.
        b: u8,
    },
    /// Set the border shape.
    BorderStyle {
        /// Border shape.
        style: BorderStyle,
    },
    /// Turn move and resize animations on or off.
    Animation {
        /// Turn it on or off.
        state: BooleanState,
    },
    /// Set the animation duration in milliseconds.
    AnimationDuration {
        /// Duration in milliseconds.
        duration: u64,
    },
    /// Set the animation easing curve.
    AnimationStyle {
        /// Easing curve.
        style: AnimationStyle,
    },
    /// Set the animation frame rate.
    AnimationFps {
        /// Frames per second.
        fps: u32,
    },

    // --- rules ------------------------------------------------------------
    /// Add a rule that manages matching windows the heuristics would skip.
    ManageRule {
        /// Window property to match on.
        identifier: RuleIdentifier,
        /// Value to match against.
        id: String,
        /// How to compare.
        matching_strategy: MatchingStrategy,
    },
    /// Add a rule that opens matching windows on a particular workspace.
    WorkspaceRule {
        /// Window property to match on.
        identifier: RuleIdentifier,
        /// Value to match against.
        id: String,
        /// Zero-based monitor index.
        monitor: usize,
        /// Zero-based workspace index on that monitor.
        workspace: usize,
        /// Only route the first window the rule ever matches.
        initial_only: bool,
        /// How to compare.
        matching_strategy: MatchingStrategy,
    },
    /// Add a rule that floats matching windows instead of tiling them.
    FloatRule {
        /// Window property to match on.
        identifier: RuleIdentifier,
        /// Value to match against.
        id: String,
        /// How to compare.
        matching_strategy: MatchingStrategy,
    },
    /// Add a rule that makes Mochi ignore matching windows entirely.
    IgnoreRule {
        /// Window property to match on.
        identifier: RuleIdentifier,
        /// Value to match against.
        id: String,
        /// How to compare.
        matching_strategy: MatchingStrategy,
    },

    // --- subscriptions ----------------------------------------------------
    /// Send every notification to a named pipe created by the subscriber.
    ///
    /// The subscriber creates the pipe, the daemon connects to it as a client.
    SubscribePipe {
        /// Pipe name without the `\\.\pipe\` prefix.
        name: String,
    },
    /// Stop sending notifications to a subscriber pipe.
    UnsubscribePipe {
        /// Pipe name without the `\\.\pipe\` prefix.
        name: String,
    },
}

impl Command {
    /// The `cmd` tag this command travels under.
    pub open spec fn tag(self) -> Seq<char> {
        match self {
            Command::Start => "start"@,
            Command::Stop => "stop"@,
            Command::Quickstart => "quickstart"@,
            Command::TogglePause => "toggle-pause"@,
            Command::ToggleGameMode => "toggle-game-mode"@,
            Command::ReloadConfiguration => "reload-configuration"@,
            Command::RestoreWindows => "restore-windows"@,
            Command::Retile => "retile"@,
            Command::State => "state"@,
            Command::Query { .. } => "query"@,
            Command::Hotkeys => "hotkeys"@,
            Command::Why => "why"@,
            Command::Doctor => "doctor"@,
            Command::Focus { .. } => "focus"@,
            Command::CycleFocus { .. } => "cycle-focus"@,
            Command::Move { .. } => "move"@,
            Command::CycleMove { .. } => "cycle-move"@,
            Command::ResizeAxis { .. } => "resize-axis"@,
            Command::ResizeEdge { .. } => "resize-edge"@,
            Command::Promote => "promote"@,
            Command::PromoteFocus => "promote-focus"@,
            Command::ToggleFloat => "toggle-float"@,
            Command::ToggleFloatOverride => "toggle-float-override"@,
            Command::ToggleMaximize => "toggle-maximize"@,
            Command::ToggleMonocle => "toggle-monocle"@,
            Command::Minimize => "minimize"@,
            Command::Close => "close"@,
            Command::Manage => "manage"@,
            Command::Unmanage => "unmanage"@,
            Command::Stack { .. } => "stack"@,
            Command::Unstack => "unstack"@,
            Command::StackAll => "stack-all"@,
            Command::FocusStackWindow { .. } => "focus-stack-window"@,
            Command::UnstackAll => "unstack-all"@,
            Command::CycleStack { .. } => "cycle-stack"@,
            Command::CycleLayout { .. } => "cycle-layout"@,
            Command::ChangeLayout { .. } => "change-layout"@,
            Command::FlipLayout { .. } => "flip-layout"@,
            Command::ToggleTiling => "toggle-tiling"@,
            Command::FocusWorkspace { .. } => "focus-workspace"@,
            Command::MoveToWorkspace { .. } => "move-to-workspace"@,
            Command::SendToWorkspace { .. } => "send-to-workspace"@,
            Command::CycleWorkspace { .. } => "cycle-workspace"@,
            Command::FocusLastWorkspace => "focus-last-workspace"@,
            Command::FocusNamedWorkspace { .. } => "focus-named-workspace"@,
            Command::MoveToNamedWorkspace { .. } => "move-to-named-workspace"@,
            Command::SendToNamedWorkspace { .. } => "send-to-named-workspace"@,
            Command::WorkspacePadding { .. } => "workspace-padding"@,
            Command::ContainerPadding { .. } => "container-padding"@,
            Command::FocusMonitor { .. } => "focus-monitor"@,
            Command::MoveToMonitor { .. } => "move-to-monitor"@,
            Command::SendToMonitor { .. } => "send-to-monitor"@,
            Command::CycleMonitor { .. } => "cycle-monitor"@,
            Command::FocusFollowsMouse { .. } => "focus-follows-mouse"@,
            Command::WindowContainerBehaviour { .. } => "window-container-behaviour"@,
            Command::ToggleWindowContainerBehaviour => "toggle-window-container-behaviour"@,
            Command::CrossMonitorMoveBehaviour { .. } => "cross-monitor-move-behaviour"@,
            Command::WindowHidingBehaviour { .. } => "window-hiding-behaviour"@,
            Command::UnmanagedWindowOperationBehaviour { .. } => "unmanaged-window-operation-behaviour"@,
            Command::MouseFollowsFocus { .. } => "mouse-follows-focus"@,
            Command::SetHotkeys { .. } => "set-hotkeys"@,
            Command::ToggleTransparency => "toggle-transparency"@,
            Command::Border { .. } => "border"@,
            Command::BorderWidth { .. } => "border-width"@,
            Command::BorderOffset { .. } => "border-offset"@,
            Command::BorderColour { .. } => "border-colour"@,
            Command::BorderStyle { .. } => "border-style"@,
            Command::Animation { .. } => "animation"@,
            Command::AnimationDuration { .. } => "animation-duration"@,
            Command::AnimationStyle { .. } => "animation-style"@,
            Command::AnimationFps { .. } => "animation-fps"@,
            Command::ManageRule { .. } => "manage-rule"@,
            Command::WorkspaceRule { .. } => "workspace-rule"@,
            Command::FloatRule { .. } => "float-rule"@,
            Command::IgnoreRule { .. } => "ignore-rule"@,
            Command::SubscribePipe { .. } => "subscribe-pipe"@,
            Command::UnsubscribePipe { .. } => "unsubscribe-pipe"@,
        }
    }

    /// The place of this kind of command among all of them.
    pub open spec fn place(self) -> int {
        match self {
            Command::Start => 0,
            Command::Stop => 1,
            Command::Quickstart => 2,
            Command::TogglePause => 3,
            Command::ToggleGameMode => 4,
            Command::ReloadConfiguration => 5,
            Command::RestoreWindows => 6,
            Command::Retile => 7,
            Command::State => 8,
            Command::Query { .. } => 9,
            Command::Hotkeys => 10,
            Command::Why => 11,
            Command::Doctor => 12,
            Command::Focus { .. } => 13,
            Command::CycleFocus { .. } => 14,
            Command::Move { .. } => 15,
            Command::CycleMove { .. } => 16,
            Command::ResizeAxis { .. } => 17,
            Command::ResizeEdge { .. } => 18,
            Command::Promote => 19,
            Command::PromoteFocus => 20,
            Command::ToggleFloat => 21,
            Command::ToggleFloatOverride => 22,
            Command::ToggleMaximize => 23,
            Command::ToggleMonocle => 24,
            Command::Minimize => 25,
            Command::Close => 26,
            Command::Manage => 27,
            Command::Unmanage => 28,
            Command::Stack { .. } => 29,
            Command::Unstack => 30,
            Command::StackAll => 31,
            Command::FocusStackWindow { .. } => 32,
            Command::UnstackAll => 33,
            Command::CycleStack { .. } => 34,
            Command::CycleLayout { .. } => 35,
            Command::ChangeLayout { .. } => 36,
            Command::FlipLayout { .. } => 37,
            Command::ToggleTiling => 38,
            Command::FocusWorkspace { .. } => 39,
            Command::MoveToWorkspace { .. } => 40,
            Command::SendToWorkspace { .. } => 41,
            Command::CycleWorkspace { .. } => 42,
            Command::FocusLastWorkspace => 43,
            Command::FocusNamedWorkspace { .. } => 44,
            Command::MoveToNamedWorkspace { .. } => 45,
            Command::SendToNamedWorkspace { .. } => 46,
            Command::WorkspacePadding { .. } => 47,
            Command::ContainerPadding { .. } => 48,
            Command::FocusMonitor { .. } => 49,
            Command::MoveToMonitor { .. } => 50,
            Command::SendToMonitor { .. } => 51,
            Command::CycleMonitor { .. } => 52,
            Command::FocusFollowsMouse { .. } => 53,
            Command::WindowContainerBehaviour { .. } => 54,
            Command::ToggleWindowContainerBehaviour => 55,
            Command::CrossMonitorMoveBehaviour { .. } => 56,
            Command::WindowHidingBehaviour { .. } => 57,
            Command::UnmanagedWindowOperationBehaviour { .. } => 58,
            Command::MouseFollowsFocus { .. } => 59,
            Command::SetHotkeys { .. } => 60,
            Command::ToggleTransparency => 61,
            Command::Border { .. } => 62,
            Command::BorderWidth { .. } => 63,
            Command::BorderOffset { .. } => 64,
            Command::BorderColour { .. } => 65,
            Command::BorderStyle { .. } => 66,
            Command::Animation { .. } => 67,
            Command::AnimationDuration { .. } => 68,
            Command::AnimationStyle { .. } => 69,
            Command::AnimationFps { .. } => 70,
            Command::ManageRule { .. } => 71,
            Command::WorkspaceRule { .. } => 72,
            Command::FloatRule { .. } => 73,
            Command::IgnoreRule { .. } => 74,
            Command::SubscribePipe { .. } => 75,
            Command::UnsubscribePipe { .. } => 76,
        }
    }

    /// `true` when the two commands say the same: they are equal, with the texts
    /// in them compared by what they hold.
    pub open spec fn agrees(self, other: Command) -> bool {
        match (self, other) {
            (
                Command::FocusNamedWorkspace { name: name1 },
                Command::FocusNamedWorkspace { name: name2 },
            ) => {
                &&& name1@ == name2@
            },
            (
                Command::MoveToNamedWorkspace { name: name1 },
                Command::MoveToNamedWorkspace { name: name2 },
            ) => {
                &&& name1@ == name2@
            },
            (
                Command::SendToNamedWorkspace { name: name1 },
                Command::SendToNamedWorkspace { name: name2 },
            ) => {
                &&& name1@ == name2@
            },
            (
                Command::ManageRule {
                    identifier: identifier1,
                    id: id1,
                    matching_strategy: matching_strategy1,
                },
                Command::ManageRule {
                    identifier: identifier2,
                    id: id2,
                    matching_strategy: matching_strategy2,
                },
            ) => {
                &&& identifier1 == identifier2
                &&& id1@ == id2@
                &&& matching_strategy1 == matching_strategy2
            },
            (
                Command::WorkspaceRule {
                    identifier: identifier1,
                    id: id1,
                    monitor: monitor1,
                    workspace: workspace1,
                    initial_only: initial_only1,
                    matching_strategy: matching_strategy1,
                },
                Command::WorkspaceRule {
                    identifier: identifier2,
                    id: id2,
                    monitor: monitor2,
                    workspace: workspace2,
                    initial_only: initial_only2,
                    matching_strategy: matching_strategy2,
                },
            ) => {
                &&& identifier1 == identifier2
                &&& id1@ == id2@
                &&& monitor1 == monitor2
                &&& workspace1 == workspace2
                &&& initial_only1 == initial_only2
                &&& matching_strategy1 == matching_strategy2
            },
            (
                Command::FloatRule {
                    identifier: identifier1,
                    id: id1,
                    matching_strategy: matching_strategy1,
                },
                Command::FloatRule {
                    identifier: identifier2,
                    id: id2,
                    matching_strategy: matching_strategy2,
                },
            ) => {
                &&& identifier1 == identifier2
                &&& id1@ == id2@
                &&& matching_strategy1 == matching_strategy2
            },
            (
                Command::IgnoreRule {
                    identifier: identifier1,
                    id: id1,
                    matching_strategy: matching_strategy1,
                },
                Command::IgnoreRule {
                    identifier: identifier2,
                    id: id2,
                    matching_strategy: matching_strategy2,
                },
            ) => {
                &&& identifier1 == identifier2
                &&& id1@ == id2@
                &&& matching_strategy1 == matching_strategy2
            },
            (
                Command::SubscribePipe { name: name1 },
                Command::SubscribePipe { name: name2 },
            ) => {
                &&& name1@ == name2@
            },
            (
                Command::UnsubscribePipe { name: name1 },
                Command::UnsubscribePipe { name: name2 },
            ) => {
                &&& name1@ == name2@
            },
            _ => self == other,
        }
    }

    /// The `cmd` tag this command travels under, handy for logging.
    #[must_use]
    pub fn name(&self) -> (r: &'static str)
        ensures
            r@ == self.tag(),
    {
        match self {
            Command::Start => "start",
            Command::Stop => "stop",
            Command::Quickstart => "quickstart",
            Command::TogglePause => "toggle-pause",
            Command::ToggleGameMode => "toggle-game-mode",
            Command::ReloadConfiguration => "reload-configuration",
            Command::RestoreWindows => "restore-windows",
            Command::Retile => "retile",
            Command::State => "state",
            Command::Query { .. } => "query",
            Command::Hotkeys => "hotkeys",
            Command::Why => "why",
            Command::Doctor => "doctor",
            Command::Focus { .. } => "focus",
            Command::CycleFocus { .. } => "cycle-focus",
            Command::Move { .. } => "move",
            Command::CycleMove { .. } => "cycle-move",
            Command::ResizeAxis { .. } => "resize-axis",
            Command::ResizeEdge { .. } => "resize-edge",
            Command::Promote => "promote",
            Command::PromoteFocus => "promote-focus",
            Command::ToggleFloat => "toggle-float",
            Command::ToggleFloatOverride => "toggle-float-override",
            Command::ToggleMaximize => "toggle-maximize",
            Command::ToggleMonocle => "toggle-monocle",
            Command::Minimize => "minimize",
            Command::Close => "close",
            Command::Manage => "manage",
            Command::Unmanage => "unmanage",
            Command::Stack { .. } => "stack",
            Command::Unstack => "unstack",
            Command::StackAll => "stack-all",
            Command::FocusStackWindow { .. } => "focus-stack-window",
            Command::UnstackAll => "unstack-all",
            Command::CycleStack { .. } => "cycle-stack",
            Command::CycleLayout { .. } => "cycle-layout",
            Command::ChangeLayout { .. } => "change-layout",
            Command::FlipLayout { .. } => "flip-layout",
            Command::ToggleTiling => "toggle-tiling",
            Command::FocusWorkspace { .. } => "focus-workspace",
            Command::MoveToWorkspace { .. } => "move-to-workspace",
            Command::SendToWorkspace { .. } => "send-to-workspace",
            Command::CycleWorkspace { .. } => "cycle-workspace",
            Command::FocusLastWorkspace => "focus-last-workspace",
            Command::FocusNamedWorkspace { .. } => "focus-named-workspace",
            Command::MoveToNamedWorkspace { .. } => "move-to-named-workspace",
            Command::SendToNamedWorkspace { .. } => "send-to-named-workspace",
            Command::WorkspacePadding { .. } => "workspace-padding",
            Command::ContainerPadding { .. } => "container-padding",
            Command::FocusMonitor { .. } => "focus-monitor",
            Command::MoveToMonitor { .. } => "move-to-monitor",
            Command::SendToMonitor { .. } => "send-to-monitor",
            Command::CycleMonitor { .. } => "cycle-monitor",
            Command::FocusFollowsMouse { .. } => "focus-follows-mouse",
            Command::WindowContainerBehaviour { .. } => "window-container-behaviour",
            Command::ToggleWindowContainerBehaviour => "toggle-window-container-behaviour",
            Command::CrossMonitorMoveBehaviour { .. } => "cross-monitor-move-behaviour",
            Command::WindowHidingBehaviour { .. } => "window-hiding-behaviour",
            Command::UnmanagedWindowOperationBehaviour { .. } => "unmanaged-window-operation-behaviour",
            Command::MouseFollowsFocus { .. } => "mouse-follows-focus",
            Command::SetHotkeys { .. } => "set-hotkeys",
            Command::ToggleTransparency => "toggle-transparency",
            Command::Border { .. } => "border",
            Command::BorderWidth { .. } => "border-width",
            Command::BorderOffset { .. } => "border-offset",
            Command::BorderColour { .. } => "border-colour",
            Command::BorderStyle { .. } => "border-style",
            Command::Animation { .. } => "animation",
            Command::AnimationDuration { .. } => "animation-duration",
            Command::AnimationStyle { .. } => "animation-style",
            Command::AnimationFps { .. } => "animation-fps",
            Command::ManageRule { .. } => "manage-rule",
            Command::WorkspaceRule { .. } => "workspace-rule",
            Command::FloatRule { .. } => "float-rule",
            Command::IgnoreRule { .. } => "ignore-rule",
            Command::SubscribePipe { .. } => "subscribe-pipe",
            Command::UnsubscribePipe { .. } => "unsubscribe-pipe",
        }
    }

    /// True for the commands `mochic` handles on its own without a daemon.
    #[must_use]
    #[verifier::allow_in_spec]
    pub fn is_client_side(&self) -> bool
        returns
            *self is Start || *self is Quickstart,
    {
        matches!(self, Command::Start | Command::Quickstart)
    }
}

/// The windows a border colour is for when nothing says so.
#[must_use]
#[verifier::allow_in_spec]
pub fn default_window_kind() -> WindowKind
    returns
        WindowKind::Single,
{
    WindowKind::Single
}

/// How a rule compares when nothing says so.
#[must_use]
#[verifier::allow_in_spec]
pub fn default_matching_strategy() -> MatchingStrategy
    returns
        MatchingStrategy::Equals,
{
    MatchingStrategy::Equals
}

/// How many characters the word has.
spec fn tag_len(x: Command) -> int {
    match x {
        Command::Start => 5,
        Command::Stop => 4,
        Command::Quickstart => 10,
        Command::TogglePause => 12,
        Command::ToggleGameMode => 16,
        Command::ReloadConfiguration => 20,
        Command::RestoreWindows => 15,
        Command::Retile => 6,
        Command::State => 5,
        Command::Query { .. } => 5,
        Command::Hotkeys => 7,
        Command::Why => 3,
        Command::Doctor => 6,
        Command::Focus { .. } => 5,
        Command::CycleFocus { .. } => 11,
        Command::Move { .. } => 4,
        Command::CycleMove { .. } => 10,
        Command::ResizeAxis { .. } => 11,
        Command::ResizeEdge { .. } => 11,
        Command::Promote => 7,
        Command::PromoteFocus => 13,
        Command::ToggleFloat => 12,
        Command::ToggleFloatOverride => 21,
        Command::ToggleMaximize => 15,
        Command::ToggleMonocle => 14,
        Command::Minimize => 8,
        Command::Close => 5,
        Command::Manage => 6,
        Command::Unmanage => 8,
        Command::Stack { .. } => 5,
        Command::Unstack => 7,
        Command::StackAll => 9,
        Command::FocusStackWindow { .. } => 18,
        Command::UnstackAll => 11,
        Command::CycleStack { .. } => 11,
        Command::CycleLayout { .. } => 12,
        Command::ChangeLayout { .. } => 13,
        Command::FlipLayout { .. } => 11,
        Command::ToggleTiling => 13,
        Command::FocusWorkspace { .. } => 15,
        Command::MoveToWorkspace { .. } => 17,
        Command::SendToWorkspace { .. } => 17,
        Command::CycleWorkspace { .. } => 15,
        Command::FocusLastWorkspace => 20,
        Command::FocusNamedWorkspace { .. } => 21,
        Command::MoveToNamedWorkspace { .. } => 23,
        Command::SendToNamedWorkspace { .. } => 23,
        Command::WorkspacePadding { .. } => 17,
        Command::ContainerPadding { .. } => 17,
        Command::FocusMonitor { .. } => 13,
        Command::MoveToMonitor { .. } => 15,
        Command::SendToMonitor { .. } => 15,
        Command::CycleMonitor { .. } => 13,
        Command::FocusFollowsMouse { .. } => 19,
        Command::WindowContainerBehaviour { .. } => 26,
        Command::ToggleWindowContainerBehaviour => 33,
        Command::CrossMonitorMoveBehaviour { .. } => 28,
        Command::WindowHidingBehaviour { .. } => 23,
        Command::UnmanagedWindowOperationBehaviour { .. } => 36,
        Command::MouseFollowsFocus { .. } => 19,
        Command::SetHotkeys { .. } => 11,
        Command::ToggleTransparency => 19,
        Command::Border { .. } => 6,
        Command::BorderWidth { .. } => 12,
        Command::BorderOffset { .. } => 13,
        Command::BorderColour { .. } => 13,
        Command::BorderStyle { .. } => 12,
        Command::Animation { .. } => 9,
        Command::AnimationDuration { .. } => 18,
        Command::AnimationStyle { .. } => 15,
        Command::AnimationFps { .. } => 13,
        Command::ManageRule { .. } => 11,
        Command::WorkspaceRule { .. } => 14,
        Command::FloatRule { .. } => 10,
        Command::IgnoreRule { .. } => 11,
        Command::SubscribePipe { .. } => 14,
        Command::UnsubscribePipe { .. } => 16,
    }
}

proof fn tag_has_its_length(x: Command)
    ensures
        x.tag().len() == tag_len(x),
{
    reveal_strlit("start");
    reveal_strlit("stop");
    reveal_strlit("quickstart");
    reveal_strlit("toggle-pause");
    reveal_strlit("toggle-game-mode");
    reveal_strlit("reload-configuration");
    reveal_strlit("restore-windows");
    reveal_strlit("retile");
    reveal_strlit("state");
    reveal_strlit("query");
    reveal_strlit("hotkeys");
    reveal_strlit("why");
    reveal_strlit("doctor");
    reveal_strlit("focus");
    reveal_strlit("cycle-focus");
    reveal_strlit("move");
    reveal_strlit("cycle-move");
    reveal_strlit("resize-axis");
    reveal_strlit("resize-edge");
    reveal_strlit("promote");
    reveal_strlit("promote-focus");
    reveal_strlit("toggle-float");
    reveal_strlit("toggle-float-override");
    reveal_strlit("toggle-maximize");
    reveal_strlit("toggle-monocle");
    reveal_strlit("minimize");
    reveal_strlit("close");
    reveal_strlit("manage");
    reveal_strlit("unmanage");
    reveal_strlit("stack");
    reveal_strlit("unstack");
    reveal_strlit("stack-all");
    reveal_strlit("focus-stack-window");
    reveal_strlit("unstack-all");
    reveal_strlit("cycle-stack");
    reveal_strlit("cycle-layout");
    reveal_strlit("change-layout");
    reveal_strlit("flip-layout");
    reveal_strlit("toggle-tiling");
    reveal_strlit("focus-workspace");
    reveal_strlit("move-to-workspace");
    reveal_strlit("send-to-workspace");
    reveal_strlit("cycle-workspace");
    reveal_strlit("focus-last-workspace");
    reveal_strlit("focus-named-workspace");
    reveal_strlit("move-to-named-workspace");
    reveal_strlit("send-to-named-workspace");
    reveal_strlit("workspace-padding");
    reveal_strlit("container-padding");
    reveal_strlit("focus-monitor");
    reveal_strlit("move-to-monitor");
    reveal_strlit("send-to-monitor");
    reveal_strlit("cycle-monitor");
    reveal_strlit("focus-follows-mouse");
    reveal_strlit("window-container-behaviour");
    reveal_strlit("toggle-window-container-behaviour");
    reveal_strlit("cross-monitor-move-behaviour");
    reveal_strlit("window-hiding-behaviour");
    reveal_strlit("unmanaged-window-operation-behaviour");
    reveal_strlit("mouse-follows-focus");
    reveal_strlit("set-hotkeys");
    reveal_strlit("toggle-transparency");
    reveal_strlit("border");
    reveal_strlit("border-width");
    reveal_strlit("border-offset");
    reveal_strlit("border-colour");
    reveal_strlit("border-style");
    reveal_strlit("animation");
    reveal_strlit("animation-duration");
    reveal_strlit("animation-style");
    reveal_strlit("animation-fps");
    reveal_strlit("manage-rule");
    reveal_strlit("workspace-rule");
    reveal_strlit("float-rule");
    reveal_strlit("ignore-rule");
    reveal_strlit("subscribe-pipe");
    reveal_strlit("unsubscribe-pipe");
}

proof fn tags_of_4_are_distinct(a: Command, b: Command)
    requires
        a.tag() == b.tag(),
        tag_len(a) == 4,
        tag_len(b) == 4,
    ensures
        a.place() == b.place(),
{
    reveal_strlit("stop");
    reveal_strlit("move");
    assert("move"@[0] == 'm');
    assert("stop"@[0] == 's');
}

proof fn tags_of_5_are_distinct(a: Command, b: Command)
    requires
        a.tag() == b.tag(),
        tag_len(a) == 5,
        tag_len(b) == 5,
    ensures
        a.place() == b.place(),
{
    reveal_strlit("start");
    reveal_strlit("state");
    reveal_strlit("query");
    reveal_strlit("focus");
    reveal_strlit("close");
    reveal_strlit("stack");
    assert("close"@[0] == 'c');
    assert("focus"@[0] == 'f');
    assert("query"@[0] == 'q');
    assert("stack"@[0] == 's');
    assert("stack"@[3] == 'c');
    assert("start"@[0] == 's');
    assert("start"@[3] == 'r');
    assert("state"@[0] == 's');
    assert("state"@[3] == 't');
}

proof fn tags_of_6_are_distinct(a: Command, b: Command)
    requires
        a.tag() == b.tag(),
        tag_len(a) == 6,
        tag_len(b) == 6,
    ensures
        a.place() == b.place(),
{
    reveal_strlit("retile");
    reveal_strlit("doctor");
    reveal_strlit("manage");
    reveal_strlit("border");
    assert("border"@[0] == 'b');
    assert("doctor"@[0] == 'd');
    assert("manage"@[0] == 'm');
    assert("retile"@[0] == 'r');
}

proof fn tags_of_7_are_distinct(a: Command, b: Command)
    requires
        a.tag() == b.tag(),
        tag_len(a) == 7,
        tag_len(b) == 7,
    ensures
        a.place() == b.place(),
{
    reveal_strlit("hotkeys");
    reveal_strlit("promote");
    reveal_strlit("unstack");
    assert("hotkeys"@[0] == 'h');
    assert("promote"@[0] == 'p');
    assert("unstack"@[0] == 'u');
}

proof fn tags_of_8_are_distinct(a: Command, b: Command)
    requires
        a.tag() == b.tag(),
        tag_len(a) == 8,
        tag_len(b) == 8,
    ensures
        a.place() == b.place(),
{
    reveal_strlit("minimize");
    reveal_strlit("unmanage");
    assert("minimize"@[0] == 'm');
    assert("unmanage"@[0] == 'u');
}

proof fn tags_of_9_are_distinct(a: Command, b: Command)
    requires
        a.tag() == b.tag(),
        tag_len(a) == 9,
        tag_len(b) == 9,
    ensures
        a.place() == b.place(),
{
    reveal_strlit("stack-all");
    reveal_strlit("animation");
    assert("animation"@[0] == 'a');
    assert("stack-all"@[0] == 's');
}

proof fn tags_of_10_are_distinct(a: Command, b: Command)
    requires
        a.tag() == b.tag(),
        tag_len(a) == 10,
        tag_len(b) == 10,
    ensures
        a.place() == b.place(),
{
    reveal_strlit("quickstart");
    reveal_strlit("cycle-move");
    reveal_strlit("float-rule");
    assert("cycle-move"@[0] == 'c');
    assert("float-rule"@[0] == 'f');
    assert("quickstart"@[0] == 'q');
}

proof fn tags_of_11_are_distinct(a: Command, b: Command)
    requires
        a.tag() == b.tag(),
        tag_len(a) == 11,
        tag_len(b) == 11,
    ensures
        a.place() == b.place(),
{
    reveal_strlit("cycle-focus");
    reveal_strlit("resize-axis");
    reveal_strlit("resize-edge");
    reveal_strlit("unstack-all");
    reveal_strlit("cycle-stack");
    reveal_strlit("flip-layout");
    reveal_strlit("set-hotkeys");
    reveal_strlit("manage-rule");
    reveal_strlit("ignore-rule");
    assert("cycle-focus"@[0] == 'c');
    assert("cycle-focus"@[6] == 'f');
    assert("cycle-stack"@[0] == 'c');
    assert("cycle-stack"@[6] == 's');
    assert("flip-layout"@[0] == 'f');
    assert("ignore-rule"@[0] == 'i');
    assert("manage-rule"@[0] == 'm');
    assert("resize-axis"@[0] == 'r');
    assert("resize-axis"@[7] == 'a');
    assert("resize-edge"@[0] == 'r');
    assert("resize-edge"@[7] == 'e');
    assert("set-hotkeys"@[0] == 's');
    assert("unstack-all"@[0] == 'u');
}

proof fn tags_of_12_are_distinct(a: Command, b: Command)
    requires
        a.tag() == b.tag(),
        tag_len(a) == 12,
        tag_len(b) == 12,
    ensures
        a.place() == b.place(),
{
    reveal_strlit("toggle-pause");
    reveal_strlit("toggle-float");
    reveal_strlit("cycle-layout");
    reveal_strlit("border-width");
    reveal_strlit("border-style");
    assert("border-style"@[0] == 'b');
    assert("border-style"@[7] == 's');
    assert("border-width"@[0] == 'b');
    assert("border-width"@[7] == 'w');
    assert("cycle-layout"@[0] == 'c');
    assert("toggle-float"@[0] == 't');
    assert("toggle-float"@[7] == 'f');
    assert("toggle-pause"@[0] == 't');
    assert("toggle-pause"@[7] == 'p');
}

proof fn tags_of_13_are_distinct(a: Command, b: Command)
    requires
        a.tag() == b.tag(),
        tag_len(a) == 13,
        tag_len(b) == 13,
    ensures
        a.place() == b.place(),
{
    reveal_strlit("promote-focus");
    reveal_strlit("change-layout");
    reveal_strlit("toggle-tiling");
    reveal_strlit("focus-monitor");
    reveal_strlit("cycle-monitor");
    reveal_strlit("border-offset");
    reveal_strlit("border-colour");
    reveal_strlit("animation-fps");
    assert("animation-fps"@[0] == 'a');
    assert("border-colour"@[0] == 'b');
    assert("border-colour"@[7] == 'c');
    assert("border-offset"@[0] == 'b');
    assert("border-offset"@[7] == 'o');
    assert("change-layout"@[0] == 'c');
    assert("change-layout"@[1] == 'h');
    assert("cycle-monitor"@[0] == 'c');
    assert("cycle-monitor"@[1] == 'y');
    assert("focus-monitor"@[0] == 'f');
    assert("promote-focus"@[0] == 'p');
    assert("toggle-tiling"@[0] == 't');
}

proof fn tags_of_14_are_distinct(a: Command, b: Command)
    requires
        a.tag() == b.tag(),
        tag_len(a) == 14,
        tag_len(b) == 14,
    ensures
        a.place() == b.place(),
{
    reveal_strlit("toggle-monocle");
    reveal_strlit("workspace-rule");
    reveal_strlit("subscribe-pipe");
    assert("subscribe-pipe"@[0] == 's');
    assert("toggle-monocle"@[0] == 't');
    assert("workspace-rule"@[0] == 'w');
}

proof fn tags_of_15_are_distinct(a: Command, b: Command)
    requires
        a.tag() == b.tag(),
        tag_len(a) == 15,
        tag_len(b) == 15,
    ensures
        a.place() == b.place(),
{
    reveal_strlit("restore-windows");
    reveal_strlit("toggle-maximize");
    reveal_strlit("focus-workspace");
    reveal_strlit("cycle-workspace");
    reveal_strlit("move-to-monitor");
    reveal_strlit("send-to-monitor");
    reveal_strlit("animation-style");
    assert("animation-style"@[0] == 'a');
    assert("cycle-workspace"@[0] == 'c');
    assert("focus-workspace"@[0] == 'f');
    assert("move-to-monitor"@[0] == 'm');
    assert("restore-windows"@[0] == 'r');
    assert("send-to-monitor"@[0] == 's');
    assert("toggle-maximize"@[0] == 't');
}

proof fn tags_of_16_are_distinct(a: Command, b: Command)
    requires
        a.tag() == b.tag(),
        tag_len(a) == 16,
        tag_len(b) == 16,
    ensures
        a.place() == b.place(),
{
    reveal_strlit("toggle-game-mode");
    reveal_strlit("unsubscribe-pipe");
    assert("toggle-game-mode"@[0] == 't');
    assert("unsubscribe-pipe"@[0] == 'u');
}

proof fn tags_of_17_are_distinct(a: Command, b: Command)
    requires
        a.tag() == b.tag(),
        tag_len(a) == 17,
        tag_len(b) == 17,
    ensures
        a.place() == b.place(),
{
    reveal_strlit("move-to-workspace");
    reveal_strlit("send-to-workspace");
    reveal_strlit("workspace-padding");
    reveal_strlit("container-padding");
    assert("container-padding"@[0] == 'c');
    assert("move-to-workspace"@[0] == 'm');
    assert("send-to-workspace"@[0] == 's');
    assert("workspace-padding"@[0] == 'w');
}

proof fn tags_of_18_are_distinct(a: Command, b: Command)
    requires
        a.tag() == b.tag(),
        tag_len(a) == 18,
        tag_len(b) == 18,
    ensures
        a.place() == b.place(),
{
    reveal_strlit("focus-stack-window");
    reveal_strlit("animation-duration");
    assert("animation-duration"@[0] == 'a');
    assert("focus-stack-window"@[0] == 'f');
}

proof fn tags_of_19_are_distinct(a: Command, b: Command)
    requires
        a.tag() == b.tag(),
        tag_len(a) == 19,
        tag_len(b) == 19,
    ensures
        a.place() == b.place(),
{
    reveal_strlit("focus-follows-mouse");
    reveal_strlit("mouse-follows-focus");
    reveal_strlit("toggle-transparency");
    assert("focus-follows-mouse"@[0] == 'f');
    assert("mouse-follows-focus"@[0] == 'm');
    assert("toggle-transparency"@[0] == 't');
}

proof fn tags_of_20_are_distinct(a: Command, b: Command)
    requires
        a.tag() == b.tag(),
        tag_len(a) == 20,
        tag_len(b) == 20,
    ensures
        a.place() == b.place(),
{
    reveal_strlit("reload-configuration");
    reveal_strlit("focus-last-workspace");
    assert("focus-last-workspace"@[0] == 'f');
    assert("reload-configuration"@[0] == 'r');
}

proof fn tags_of_21_are_distinct(a: Command, b: Command)
    requires
        a.tag() == b.tag(),
        tag_len(a) == 21,
        tag_len(b) == 21,
    ensures
        a.place() == b.place(),
{
    reveal_strlit("toggle-float-override");
    reveal_strlit("focus-named-workspace");
    assert("focus-named-workspace"@[0] == 'f');
    assert("toggle-float-override"@[0] == 't');
}

proof fn tags_of_23_are_distinct(a: Command, b: Command)
    requires
        a.tag() == b.tag(),
        tag_len(a) == 23,
        tag_len(b) == 23,
    ensures
        a.place() == b.place(),
{
    reveal_strlit("move-to-named-workspace");
    reveal_strlit("send-to-named-workspace");
    reveal_strlit("window-hiding-behaviour");
    assert("move-to-named-workspace"@[0] == 'm');
    assert("send-to-named-workspace"@[0] == 's');
    assert("window-hiding-behaviour"@[0] == 'w');
}

/// No two kinds of command share a tag.
pub proof fn tags_are_distinct(a: Command, b: Command)
    requires
        a.tag() == b.tag(),
    ensures
        a.place() == b.place(),
{
    tag_has_its_length(a);
    tag_has_its_length(b);
    if tag_len(a) == 4 {
        tags_of_4_are_distinct(a, b);
    } else if tag_len(a) == 5 {
        tags_of_5_are_distinct(a, b);
    } else if tag_len(a) == 6 {
        tags_of_6_are_distinct(a, b);
    } else if tag_len(a) == 7 {
        tags_of_7_are_distinct(a, b);
    } else if tag_len(a) == 8 {
        tags_of_8_are_distinct(a, b);
    } else if tag_len(a) == 9 {
        tags_of_9_are_distinct(a, b);
    } else if tag_len(a) == 10 {
        tags_of_10_are_distinct(a, b);
    } else if tag_len(a) == 11 {
        tags_of_11_are_distinct(a, b);
    } else if tag_len(a) == 12 {
        tags_of_12_are_distinct(a, b);
    } else if tag_len(a) == 13 {
        tags_of_13_are_distinct(a, b);
    } else if tag_len(a) == 14 {
        tags_of_14_are_distinct(a, b);
    } else if tag_len(a) == 15 {
        tags_of_15_are_distinct(a, b);
    } else if tag_len(a) == 16 {
        tags_of_16_are_distinct(a, b);
    } else if tag_len(a) == 17 {
        tags_of_17_are_distinct(a, b);
    } else if tag_len(a) == 18 {
        tags_of_18_are_distinct(a, b);
    } else if tag_len(a) == 19 {
        tags_of_19_are_distinct(a, b);
    } else if tag_len(a) == 20 {
        tags_of_20_are_distinct(a, b);
    } else if tag_len(a) == 21 {
        tags_of_21_are_distinct(a, b);
    } else if tag_len(a) == 23 {
        tags_of_23_are_distinct(a, b);
    }
}

} // verus!
