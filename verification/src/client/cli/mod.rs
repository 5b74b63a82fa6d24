//! The `mochic` command-line grammar.
//!
//! It is shared with the hotkey daemon, which binds keys to the very words a user
//! would type at a prompt. With one grammar a binding cannot drift away from the
//! command line it was copied from.

use vstd::prelude::*;

use crate::client::cli::grammar::{verbs_are_distinct, Verb};
use crate::client::cli::misuse::{
    on_one_line, one_line, one_line_has_no_break, Misuse, MisuseView,
};
use crate::client::cli::scan::{
    fits, plain_words_take_their_places, scan, scan_of, texts, what_was_read_fits, words_fit, Found,
    FoundView, Progress,
};
use crate::client::cli::token::{text_view, token, token_of, Token, TokenView};
use crate::client::cli::values::{
    axis_of, border_of, channel_of, container_of, crossing_of, cycle_of, direction_of, easing_of,
    hiding_of, identifier_of, index_of, layout_of, millis_of, operation_of, pixels_of, rate_of,
    sizing_of, state_of, strategy_of, target_of, window_of, Kind,
};
use crate::client::command::{default_matching_strategy, default_window_kind, Command};
use crate::client::wire::{
    animation_style_words_are_distinct, axis_words_are_distinct,
    boolean_state_words_are_distinct, border_style_words_are_distinct,
    container_behaviour_words_are_distinct, cycle_direction_words_are_distinct,
    direction_words_are_distinct, hiding_behaviour_words_are_distinct,
    layout_words_are_distinct, matching_strategy_words_are_distinct,
    move_behaviour_words_are_distinct, operation_behaviour_words_are_distinct,
    query_target_words_are_distinct, rule_identifier_words_are_distinct,
    sizing_words_are_distinct, window_kind_words_are_distinct, AnimationStyle, Axis,
    BooleanState, BorderStyle, ContainerBehaviour, CycleDirection, Direction, HidingBehaviour,
    Layout, MatchingStrategy, MoveBehaviour, OperationBehaviour, QueryTarget, RuleIdentifier,
    Sizing, WindowKind,
};
use crate::text::{append, owned, same};

pub mod faithful;
pub mod grammar;
pub mod misuse;
pub mod numbers;
pub mod options;
pub mod scan;
pub mod token;
pub mod values;

verus! {

/// The whole `mochic` command line: a subcommand and its arguments.
#[derive(Debug, Clone, PartialEq, Eq)]
pub struct Cli {
    /// The subcommand to run.
    pub command: Cmd,
}

/// The value of the option `idx`, when it is there.
pub open spec fn given(found: FoundView, idx: int) -> Option<Seq<char>> {
    found.given[idx]
}

/// `true` when a word stands for this number.
pub open spec fn is_number(kind: Kind, text: Seq<char>, number: int) -> bool {
    kind.number(text) == Ok::<int, crate::client::cli::numbers::NumberFault>(number)
}

/// `true` when this is the kind of window that was asked for, or the one that is
/// meant when none was.
pub open spec fn is_kind(text: Option<Seq<char>>, kind: WindowKind) -> bool {
    match text {
        Some(text) => text == kind.word(),
        None => kind == WindowKind::Single,
    }
}

/// `true` when this is the strategy that was asked for, or the one that is meant
/// when none was.
pub open spec fn is_strategy(text: Option<Seq<char>>, strategy: MatchingStrategy) -> bool {
    match text {
        Some(text) => text == strategy.word(),
        None => strategy == MatchingStrategy::Equals,
    }
}

/// One `mochic` subcommand, with the arguments it takes.
///
/// Mostly one per [`Command`]; the handful that `mochic` carries out itself are
/// the ones [`Cmd::to_command`] answers `None` for. A path is held as it was
/// typed.
#[derive(Debug, Clone, PartialEq, Eq)]
#[allow(inconsistent_fields)]
pub enum Cmd {
    // --- lifecycle -------------------------------------------------------
    /// Start the daemon, detached from this console.
    Start {
        /// Pass a configuration file to the daemon.
        config: Option<String>,
        /// Pass a hotkey file to the daemon.
        hotkeys: Option<String>,
        /// Start the daemon with no keys bound.
        no_hotkeys: bool,
        /// Start the daemon in dry-run mode, which moves nothing.
        dry_run: bool,
    },
    /// Stop the daemon and restore all windows.
    Stop,
    /// Write a starting mochi.json and hotkey file, if there is none.
    Quickstart,
    /// Check a configuration file and report what is wrong with it.
    Check {
        /// File to check. Defaults to the one the daemon would load.
        path: Option<String>,
    },
    /// Print the JSON schema of the configuration file.
    Schema {
        /// Write the schema to this file, in UTF-8, instead of to stdout.
        output: Option<String>,
    },
    /// Pause and resume window management.
    TogglePause,
    /// Hand the whole keyboard to a game, and take it back again.
    ToggleGameMode,
    /// Re-read the configuration file and the hotkey file.
    ReloadConfiguration,
    /// Show every window Mochi is hiding, without stopping it.
    RestoreWindows,
    /// Recompute and re-apply every layout.
    Retile,

    // --- introspection ---------------------------------------------------
    /// Print the daemon state as pretty JSON.
    State,
    /// Print a single value from the daemon.
    Query {
        /// What to ask for.
        target: QueryTarget,
    },
    /// Check the daemon's picture of the desktop against the real one.
    Doctor {
        /// Print the raw findings document instead of a report.
        json: bool,
    },
    /// Explain what Mochi makes of the window in front, and what to do about it.
    Why {
        /// Print the raw explanation document instead of a paragraph.
        json: bool,
    },
    /// Print the hotkey bindings the daemon holds.
    Hotkeys {
        /// Print the raw bindings document instead of a table.
        json: bool,
    },
    /// Stream notifications to stdout until interrupted.
    Subscribe {
        /// Pipe name to create, without the \\.\pipe\ prefix.
        name: String,
    },
    /// Register an existing named pipe for notifications.
    SubscribePipe {
        /// Pipe name, without the \\.\pipe\ prefix.
        name: String,
    },
    /// Stop sending notifications to a named pipe.
    UnsubscribePipe {
        /// Pipe name, without the \\.\pipe\ prefix.
        name: String,
    },

    // --- focus and movement ----------------------------------------------
    /// Move focus in a direction.
    Focus {
        /// left, right, up or down.
        direction: Direction,
    },
    /// Step the focus along the container ring, by position not by geometry.
    CycleFocus {
        /// next or previous.
        direction: CycleDirection,
    },
    /// Move the focused window in a direction.
    Move {
        /// left, right, up or down.
        direction: Direction,
    },
    /// Step the focused window along the container ring, by position.
    CycleMove {
        /// next or previous.
        direction: CycleDirection,
    },
    /// Grow or shrink the focused window along an axis.
    ResizeAxis {
        /// horizontal or vertical.
        axis: Axis,
        /// increase or decrease.
        sizing: Sizing,
    },
    /// Grow or shrink the focused window by moving one named edge.
    ResizeEdge {
        /// left, right, up or down.
        direction: Direction,
        /// increase or decrease.
        sizing: Sizing,
    },
    /// Swap the focused window with the first window of its workspace.
    Promote,
    /// Focus the first window of the workspace, moving nothing.
    PromoteFocus,

    // --- window state ----------------------------------------------------
    /// Toggle the focused window between tiled and floating.
    ToggleFloat,
    /// Toggle whether every new window floats.
    ToggleFloatOverride,
    /// Toggle the focused window between tiled and maximized.
    ToggleMaximize,
    /// Toggle monocle mode for the focused window.
    ToggleMonocle,
    /// Minimize the focused window.
    Minimize,
    /// Ask the focused window to close.
    Close,
    /// Manage the focused window even if a rule would skip it.
    Manage,
    /// Stop managing the focused window.
    Unmanage,

    // --- stacks -----------------------------------------------------------
    /// Stack the focused window onto its neighbour.
    Stack {
        /// left, right, up or down.
        direction: Direction,
    },
    /// Pull the focused window out of its stack.
    Unstack,
    /// Collapse the whole workspace into one stack.
    StackAll,
    /// Focus one window of the focused stack by its position.
    FocusStackWindow {
        /// Zero-based index into the stack.
        index: usize,
    },
    /// Give every stacked window its own container again.
    UnstackAll,
    /// Step through the windows of the focused stack.
    CycleStack {
        /// next or previous.
        direction: CycleDirection,
    },

    // --- layouts ----------------------------------------------------------
    /// Step through the layout ring.
    CycleLayout {
        /// next or previous.
        direction: CycleDirection,
    },
    /// Set the layout of the focused workspace.
    ChangeLayout {
        /// Layout name.
        layout: Layout,
    },
    /// Mirror the layout along an axis.
    FlipLayout {
        /// horizontal or vertical.
        axis: Axis,
    },
    /// Stop and resume tiling the focused workspace.
    ToggleTiling,

    // --- workspaces -------------------------------------------------------
    /// Focus a workspace by its zero-based index.
    FocusWorkspace {
        /// Zero-based workspace index.
        index: usize,
    },
    /// Move the focused window to a workspace and follow it.
    MoveToWorkspace {
        /// Zero-based workspace index.
        index: usize,
    },
    /// Move the focused window to a workspace and stay where you are.
    SendToWorkspace {
        /// Zero-based workspace index.
        index: usize,
    },
    /// Step through the workspaces of the focused monitor.
    CycleWorkspace {
        /// next or previous.
        direction: CycleDirection,
    },
    /// Go back to the previously focused workspace.
    FocusLastWorkspace,
    /// Focus a workspace by its configured name.
    FocusNamedWorkspace {
        /// The name from the configuration.
        name: String,
    },
    /// Move the focused window to a named workspace and follow it.
    MoveToNamedWorkspace {
        /// The name from the configuration.
        name: String,
    },
    /// Move the focused window to a named workspace and stay where you are.
    SendToNamedWorkspace {
        /// The name from the configuration.
        name: String,
    },
    /// Set the outer padding of one workspace.
    WorkspacePadding {
        /// Zero-based monitor index.
        monitor: usize,
        /// Zero-based workspace index.
        workspace: usize,
        /// Padding in logical pixels.
        size: i32,
    },
    /// Set the padding between containers of one workspace.
    ContainerPadding {
        /// Zero-based monitor index.
        monitor: usize,
        /// Zero-based workspace index.
        workspace: usize,
        /// Padding in logical pixels.
        size: i32,
    },

    // --- monitors ---------------------------------------------------------
    /// Focus a monitor by its zero-based index.
    FocusMonitor {
        /// Zero-based monitor index.
        index: usize,
    },
    /// Move the focused window to a monitor and follow it.
    MoveToMonitor {
        /// Zero-based monitor index.
        index: usize,
    },
    /// Move the focused window to a monitor and stay where you are.
    SendToMonitor {
        /// Zero-based monitor index.
        index: usize,
    },
    /// Step through the monitor ring.
    CycleMonitor {
        /// next or previous.
        direction: CycleDirection,
    },

    // --- input behaviour --------------------------------------------------
    /// Focus whatever window the mouse moves over.
    FocusFollowsMouse {
        /// enable or disable.
        state: BooleanState,
    },
    /// Decide whether a new window stacks onto the focused container.
    WindowContainerBehaviour {
        /// create or append.
        behaviour: ContainerBehaviour,
    },
    /// Switch between creating a container and appending to the focused one.
    ToggleWindowContainerBehaviour,
    /// Decide what moving a container past a monitor edge does.
    CrossMonitorMoveBehaviour {
        /// swap, insert or no-op.
        behaviour: MoveBehaviour,
    },
    /// Decide how a window on an inactive workspace is taken off screen.
    WindowHidingBehaviour {
        /// hide, minimize or cloak.
        behaviour: HidingBehaviour,
    },
    /// Decide what a command aimed at an unmanaged window does.
    UnmanagedWindowOperationBehaviour {
        /// op or no-op.
        behaviour: OperationBehaviour,
    },
    /// Warp the mouse to a newly focused window.
    MouseFollowsFocus {
        /// enable or disable.
        state: BooleanState,
    },
    /// Turn the hotkey daemon on or off.
    SetHotkeys {
        /// enable or disable.
        state: BooleanState,
    },

    // --- visuals ----------------------------------------------------------
    /// Toggle transparency for unfocused windows.
    ToggleTransparency,
    /// Turn the focus border on or off.
    Border {
        /// enable or disable.
        state: BooleanState,
    },
    /// Set the border thickness in logical pixels.
    BorderWidth {
        /// Thickness in logical pixels.
        width: i32,
    },
    /// Set how far the border sits outside the window frame.
    BorderOffset {
        /// Offset in logical pixels, negative pulls it inwards.
        offset: i32,
    },
    /// Set the border colour for one kind of window.
    BorderColour {
        /// Red channel, 0 to 255.
        r: u8,
        /// Green channel, 0 to 255.
        g: u8,
        /// Blue channel, 0 to 255.
        b: u8,
        /// Which windows the colour applies to.
        window_kind: WindowKind,
    },
    /// Set the border shape.
    BorderStyle {
        /// system, rounded or square.
        style: BorderStyle,
    },
    /// Turn move and resize animations on or off.
    Animation {
        /// enable or disable.
        state: BooleanState,
    },
    /// Set the animation duration in milliseconds.
    AnimationDuration {
        /// Duration in milliseconds.
        duration: u64,
    },
    /// Set the animation easing curve.
    AnimationStyle {
        /// Easing curve.
        style: AnimationStyle,
    },
    /// Set the animation frame rate.
    AnimationFps {
        /// Frames per second.
        fps: u32,
    },

    // --- rules ------------------------------------------------------------
    /// Manage windows that match a rule, even ones Mochi would skip.
    ManageRule {
        /// exe, class, title or path.
        identifier: RuleIdentifier,
        /// Value to match against.
        id: String,
        /// How to compare.
        matching_strategy: MatchingStrategy,
    },
    /// Open windows that match a rule on a particular workspace.
    WorkspaceRule {
        /// exe, class, title or path.
        identifier: RuleIdentifier,
        /// Value to match against.
        id: String,
        /// Zero-based monitor index.
        monitor: usize,
        /// Zero-based workspace index on that monitor.
        workspace: usize,
        /// Only route the first window the rule ever matches.
        initial_only: bool,
        /// How to compare.
        matching_strategy: MatchingStrategy,
    },
    /// Float windows that match a rule.
    FloatRule {
        /// exe, class, title or path.
        identifier: RuleIdentifier,
        /// Value to match against.
        id: String,
        /// How to compare.
        matching_strategy: MatchingStrategy,
    },
    /// Ignore windows that match a rule.
    IgnoreRule {
        /// exe, class, title or path.
        identifier: RuleIdentifier,
        /// Value to match against.
        id: String,
        /// How to compare.
        matching_strategy: MatchingStrategy,
    },
}

impl Cmd {
    /// The name of this subcommand.
    pub open spec fn verb(self) -> Verb {
        match self {
            Cmd::Start { .. } => Verb::Start,
            Cmd::Stop => Verb::Stop,
            Cmd::Quickstart => Verb::Quickstart,
            Cmd::Check { .. } => Verb::Check,
            Cmd::Schema { .. } => Verb::Schema,
            Cmd::TogglePause => Verb::TogglePause,
            Cmd::ToggleGameMode => Verb::ToggleGameMode,
            Cmd::ReloadConfiguration => Verb::ReloadConfiguration,
            Cmd::RestoreWindows => Verb::RestoreWindows,
            Cmd::Retile => Verb::Retile,
            Cmd::State => Verb::State,
            Cmd::Query { .. } => Verb::Query,
            Cmd::Doctor { .. } => Verb::Doctor,
            Cmd::Why { .. } => Verb::Why,
            Cmd::Hotkeys { .. } => Verb::Hotkeys,
            Cmd::Subscribe { .. } => Verb::Subscribe,
            Cmd::SubscribePipe { .. } => Verb::SubscribePipe,
            Cmd::UnsubscribePipe { .. } => Verb::UnsubscribePipe,
            Cmd::Focus { .. } => Verb::Focus,
            Cmd::CycleFocus { .. } => Verb::CycleFocus,
            Cmd::Move { .. } => Verb::Move,
            Cmd::CycleMove { .. } => Verb::CycleMove,
            Cmd::ResizeAxis { .. } => Verb::ResizeAxis,
            Cmd::ResizeEdge { .. } => Verb::ResizeEdge,
            Cmd::Promote => Verb::Promote,
            Cmd::PromoteFocus => Verb::PromoteFocus,
            Cmd::ToggleFloat => Verb::ToggleFloat,
            Cmd::ToggleFloatOverride => Verb::ToggleFloatOverride,
            Cmd::ToggleMaximize => Verb::ToggleMaximize,
            Cmd::ToggleMonocle => Verb::ToggleMonocle,
            Cmd::Minimize => Verb::Minimize,
            Cmd::Close => Verb::Close,
            Cmd::Manage => Verb::Manage,
            Cmd::Unmanage => Verb::Unmanage,
            Cmd::Stack { .. } => Verb::Stack,
            Cmd::Unstack => Verb::Unstack,
            Cmd::StackAll => Verb::StackAll,
            Cmd::FocusStackWindow { .. } => Verb::FocusStackWindow,
            Cmd::UnstackAll => Verb::UnstackAll,
            Cmd::CycleStack { .. } => Verb::CycleStack,
            Cmd::CycleLayout { .. } => Verb::CycleLayout,
            Cmd::ChangeLayout { .. } => Verb::ChangeLayout,
            Cmd::FlipLayout { .. } => Verb::FlipLayout,
            Cmd::ToggleTiling => Verb::ToggleTiling,
            Cmd::FocusWorkspace { .. } => Verb::FocusWorkspace,
            Cmd::MoveToWorkspace { .. } => Verb::MoveToWorkspace,
            Cmd::SendToWorkspace { .. } => Verb::SendToWorkspace,
            Cmd::CycleWorkspace { .. } => Verb::CycleWorkspace,
            Cmd::FocusLastWorkspace => Verb::FocusLastWorkspace,
            Cmd::FocusNamedWorkspace { .. } => Verb::FocusNamedWorkspace,
            Cmd::MoveToNamedWorkspace { .. } => Verb::MoveToNamedWorkspace,
            Cmd::SendToNamedWorkspace { .. } => Verb::SendToNamedWorkspace,
            Cmd::WorkspacePadding { .. } => Verb::WorkspacePadding,
            Cmd::ContainerPadding { .. } => Verb::ContainerPadding,
            Cmd::FocusMonitor { .. } => Verb::FocusMonitor,
            Cmd::MoveToMonitor { .. } => Verb::MoveToMonitor,
            Cmd::SendToMonitor { .. } => Verb::SendToMonitor,
            Cmd::CycleMonitor { .. } => Verb::CycleMonitor,
            Cmd::FocusFollowsMouse { .. } => Verb::FocusFollowsMouse,
            Cmd::WindowContainerBehaviour { .. } => Verb::WindowContainerBehaviour,
            Cmd::ToggleWindowContainerBehaviour => Verb::ToggleWindowContainerBehaviour,
            Cmd::CrossMonitorMoveBehaviour { .. } => Verb::CrossMonitorMoveBehaviour,
            Cmd::WindowHidingBehaviour { .. } => Verb::WindowHidingBehaviour,
            Cmd::UnmanagedWindowOperationBehaviour { .. } => Verb::UnmanagedWindowOperationBehaviour,
            Cmd::MouseFollowsFocus { .. } => Verb::MouseFollowsFocus,
            Cmd::SetHotkeys { .. } => Verb::SetHotkeys,
            Cmd::ToggleTransparency => Verb::ToggleTransparency,
            Cmd::Border { .. } => Verb::Border,
            Cmd::BorderWidth { .. } => Verb::BorderWidth,
            Cmd::BorderOffset { .. } => Verb::BorderOffset,
            Cmd::BorderColour { .. } => Verb::BorderColour,
            Cmd::BorderStyle { .. } => Verb::BorderStyle,
            Cmd::Animation { .. } => Verb::Animation,
            Cmd::AnimationDuration { .. } => Verb::AnimationDuration,
            Cmd::AnimationStyle { .. } => Verb::AnimationStyle,
            Cmd::AnimationFps { .. } => Verb::AnimationFps,
            Cmd::ManageRule { .. } => Verb::ManageRule,
            Cmd::WorkspaceRule { .. } => Verb::WorkspaceRule,
            Cmd::FloatRule { .. } => Verb::FloatRule,
            Cmd::IgnoreRule { .. } => Verb::IgnoreRule,
        }
    }

    /// `true` when the words found behind the name say what this subcommand holds.
    pub open spec fn holds(self, found: FoundView) -> bool {
        match self {
            Cmd::Start { config, hotkeys, no_hotkeys, dry_run } => {
                &&& given(found, 0) == text_view(config)
                &&& given(found, 1) == text_view(hotkeys)
                &&& no_hotkeys == given(found, 2) is Some
                &&& dry_run == given(found, 3) is Some
            },
            Cmd::Check { path } => text_view(path) == if found.values.len() > 0 { Some(found.values[0]) } else { None },
            Cmd::Schema { output } => given(found, 0) == text_view(output),
            Cmd::Query { target } => found.values[0] == target.word(),
            Cmd::Doctor { json } => json == given(found, 0) is Some,
            Cmd::Why { json } => json == given(found, 0) is Some,
            Cmd::Hotkeys { json } => json == given(found, 0) is Some,
            Cmd::Subscribe { name } => found.values[0] == name@,
            Cmd::SubscribePipe { name } => found.values[0] == name@,
            Cmd::UnsubscribePipe { name } => found.values[0] == name@,
            Cmd::Focus { direction } => found.values[0] == direction.word(),
            Cmd::CycleFocus { direction } => found.values[0] == direction.word(),
            Cmd::Move { direction } => found.values[0] == direction.word(),
            Cmd::CycleMove { direction } => found.values[0] == direction.word(),
            Cmd::ResizeAxis { axis, sizing } => {
                &&& found.values[0] == axis.word()
                &&& found.values[1] == sizing.word()
            },
            Cmd::ResizeEdge { direction, sizing } => {
                &&& found.values[0] == direction.word()
                &&& found.values[1] == sizing.word()
            },
            Cmd::Stack { direction } => found.values[0] == direction.word(),
            Cmd::FocusStackWindow { index } => is_number(Kind::Index, found.values[0], index as int),
            Cmd::CycleStack { direction } => found.values[0] == direction.word(),
            Cmd::CycleLayout { direction } => found.values[0] == direction.word(),
            Cmd::ChangeLayout { layout } => found.values[0] == layout.word(),
            Cmd::FlipLayout { axis } => found.values[0] == axis.word(),
            Cmd::FocusWorkspace { index } => is_number(Kind::Index, found.values[0], index as int),
            Cmd::MoveToWorkspace { index } => is_number(Kind::Index, found.values[0], index as int),
            Cmd::SendToWorkspace { index } => is_number(Kind::Index, found.values[0], index as int),
            Cmd::CycleWorkspace { direction } => found.values[0] == direction.word(),
            Cmd::FocusNamedWorkspace { name } => found.values[0] == name@,
            Cmd::MoveToNamedWorkspace { name } => found.values[0] == name@,
            Cmd::SendToNamedWorkspace { name } => found.values[0] == name@,
            Cmd::WorkspacePadding { monitor, workspace, size } => {
                &&& is_number(Kind::Index, found.values[0], monitor as int)
                &&& is_number(Kind::Index, found.values[1], workspace as int)
                &&& is_number(Kind::Pixels, found.values[2], size as int)
            },
            Cmd::ContainerPadding { monitor, workspace, size } => {
                &&& is_number(Kind::Index, found.values[0], monitor as int)
                &&& is_number(Kind::Index, found.values[1], workspace as int)
                &&& is_number(Kind::Pixels, found.values[2], size as int)
            },
            Cmd::FocusMonitor { index } => is_number(Kind::Index, found.values[0], index as int),
            Cmd::MoveToMonitor { index } => is_number(Kind::Index, found.values[0], index as int),
            Cmd::SendToMonitor { index } => is_number(Kind::Index, found.values[0], index as int),
            Cmd::CycleMonitor { direction } => found.values[0] == direction.word(),
            Cmd::FocusFollowsMouse { state } => found.values[0] == state.word(),
            Cmd::WindowContainerBehaviour { behaviour } => found.values[0] == behaviour.word(),
            Cmd::CrossMonitorMoveBehaviour { behaviour } => found.values[0] == behaviour.word(),
            Cmd::WindowHidingBehaviour { behaviour } => found.values[0] == behaviour.word(),
            Cmd::UnmanagedWindowOperationBehaviour { behaviour } => found.values[0] == behaviour.word(),
            Cmd::MouseFollowsFocus { state } => found.values[0] == state.word(),
            Cmd::SetHotkeys { state } => found.values[0] == state.word(),
            Cmd::Border { state } => found.values[0] == state.word(),
            Cmd::BorderWidth { width } => is_number(Kind::Pixels, found.values[0], width as int),
            Cmd::BorderOffset { offset } => is_number(Kind::Pixels, found.values[0], offset as int),
            Cmd::BorderColour { r, g, b, window_kind } => {
                &&& is_number(Kind::Channel, found.values[0], r as int)
                &&& is_number(Kind::Channel, found.values[1], g as int)
                &&& is_number(Kind::Channel, found.values[2], b as int)
                &&& is_kind(given(found, 0), window_kind)
            },
            Cmd::BorderStyle { style } => found.values[0] == style.word(),
            Cmd::Animation { state } => found.values[0] == state.word(),
            Cmd::AnimationDuration { duration } => is_number(Kind::Millis, found.values[0], duration as int),
            Cmd::AnimationStyle { style } => found.values[0] == style.word(),
            Cmd::AnimationFps { fps } => is_number(Kind::Rate, found.values[0], fps as int),
            Cmd::ManageRule { identifier, id, matching_strategy } => {
                &&& found.values[0] == identifier.word()
                &&& found.values[1] == id@
                &&& is_strategy(given(found, 0), matching_strategy)
            },
            Cmd::WorkspaceRule {
                identifier,
                id,
                monitor,
                workspace,
                initial_only,
                matching_strategy,
            } => {
                &&& found.values[0] == identifier.word()
                &&& found.values[1] == id@
                &&& is_number(Kind::Index, found.values[2], monitor as int)
                &&& is_number(Kind::Index, found.values[3], workspace as int)
                &&& initial_only == given(found, 0) is Some
                &&& is_strategy(given(found, 1), matching_strategy)
            },
            Cmd::FloatRule { identifier, id, matching_strategy } => {
                &&& found.values[0] == identifier.word()
                &&& found.values[1] == id@
                &&& is_strategy(given(found, 0), matching_strategy)
            },
            Cmd::IgnoreRule { identifier, id, matching_strategy } => {
                &&& found.values[0] == identifier.word()
                &&& found.values[1] == id@
                &&& is_strategy(given(found, 0), matching_strategy)
            },
            _ => true,
        }
    }

    /// `true` when a subcommand of this name with these words behind it is this
    /// one.
    pub open spec fn says(self, verb: Verb, found: FoundView) -> bool {
        self.verb() == verb && self.holds(found)
    }

    /// The protocol command this subcommand sends, or `None` for the ones `mochic`
    /// handles by itself.
    pub open spec fn sends(self) -> Option<Command> {
        match self {
            Cmd::Stop => Some(Command::Stop),
            Cmd::TogglePause => Some(Command::TogglePause),
            Cmd::ToggleGameMode => Some(Command::ToggleGameMode),
            Cmd::ReloadConfiguration => Some(Command::ReloadConfiguration),
            Cmd::RestoreWindows => Some(Command::RestoreWindows),
            Cmd::Retile => Some(Command::Retile),
            Cmd::State => Some(Command::State),
            Cmd::Query { target } => Some(Command::Query { target }),
            Cmd::Doctor { .. } => Some(Command::Doctor),
            Cmd::Why { .. } => Some(Command::Why),
            Cmd::Hotkeys { .. } => Some(Command::Hotkeys),
            Cmd::SubscribePipe { name } => Some(Command::SubscribePipe { name }),
            Cmd::UnsubscribePipe { name } => Some(Command::UnsubscribePipe { name }),
            Cmd::Focus { direction } => Some(Command::Focus { direction }),
            Cmd::CycleFocus { direction } => Some(Command::CycleFocus { direction }),
            Cmd::Move { direction } => Some(Command::Move { direction }),
            Cmd::CycleMove { direction } => Some(Command::CycleMove { direction }),
            Cmd::ResizeAxis { axis, sizing } => Some(Command::ResizeAxis { axis, sizing }),
            Cmd::ResizeEdge { direction, sizing } => Some(
                Command::ResizeEdge {
                    direction,
                    sizing,
                },
            ),
            Cmd::Promote => Some(Command::Promote),
            Cmd::PromoteFocus => Some(Command::PromoteFocus),
            Cmd::ToggleFloat => Some(Command::ToggleFloat),
            Cmd::ToggleFloatOverride => Some(Command::ToggleFloatOverride),
            Cmd::ToggleMaximize => Some(Command::ToggleMaximize),
            Cmd::ToggleMonocle => Some(Command::ToggleMonocle),
            Cmd::Minimize => Some(Command::Minimize),
            Cmd::Close => Some(Command::Close),
            Cmd::Manage => Some(Command::Manage),
            Cmd::Unmanage => Some(Command::Unmanage),
            Cmd::Stack { direction } => Some(Command::Stack { direction }),
            Cmd::Unstack => Some(Command::Unstack),
            Cmd::StackAll => Some(Command::StackAll),
            Cmd::FocusStackWindow { index } => Some(Command::FocusStackWindow { index }),
            Cmd::UnstackAll => Some(Command::UnstackAll),
            Cmd::CycleStack { direction } => Some(Command::CycleStack { direction }),
            Cmd::CycleLayout { direction } => Some(Command::CycleLayout { direction }),
            Cmd::ChangeLayout { layout } => Some(Command::ChangeLayout { layout }),
            Cmd::FlipLayout { axis } => Some(Command::FlipLayout { axis }),
            Cmd::ToggleTiling => Some(Command::ToggleTiling),
            Cmd::FocusWorkspace { index } => Some(Command::FocusWorkspace { index }),
            Cmd::MoveToWorkspace { index } => Some(Command::MoveToWorkspace { index }),
            Cmd::SendToWorkspace { index } => Some(Command::SendToWorkspace { index }),
            Cmd::CycleWorkspace { direction } => Some(Command::CycleWorkspace { direction }),
            Cmd::FocusLastWorkspace => Some(Command::FocusLastWorkspace),
            Cmd::FocusNamedWorkspace { name } => Some(Command::FocusNamedWorkspace { name }),
            Cmd::MoveToNamedWorkspace { name } => Some(Command::MoveToNamedWorkspace { name }),
            Cmd::SendToNamedWorkspace { name } => Some(Command::SendToNamedWorkspace { name }),
            Cmd::WorkspacePadding { monitor, workspace, size } => Some(
                Command::WorkspacePadding {
                    monitor,
                    workspace,
                    size,
                },
            ),
            Cmd::ContainerPadding { monitor, workspace, size } => Some(
                Command::ContainerPadding {
                    monitor,
                    workspace,
                    size,
                },
            ),
            Cmd::FocusMonitor { index } => Some(Command::FocusMonitor { index }),
            Cmd::MoveToMonitor { index } => Some(Command::MoveToMonitor { index }),
            Cmd::SendToMonitor { index } => Some(Command::SendToMonitor { index }),
            Cmd::CycleMonitor { direction } => Some(Command::CycleMonitor { direction }),
            Cmd::FocusFollowsMouse { state } => Some(Command::FocusFollowsMouse { state }),
            Cmd::WindowContainerBehaviour { behaviour } => Some(
                Command::WindowContainerBehaviour {
                    behaviour,
                },
            ),
            Cmd::ToggleWindowContainerBehaviour => Some(Command::ToggleWindowContainerBehaviour),
            Cmd::CrossMonitorMoveBehaviour { behaviour } => Some(
                Command::CrossMonitorMoveBehaviour {
                    behaviour,
                },
            ),
            Cmd::WindowHidingBehaviour { behaviour } => Some(
                Command::WindowHidingBehaviour {
                    behaviour,
                },
            ),
            Cmd::UnmanagedWindowOperationBehaviour { behaviour } => Some(
                Command::UnmanagedWindowOperationBehaviour {
                    behaviour,
                },
            ),
            Cmd::MouseFollowsFocus { state } => Some(Command::MouseFollowsFocus { state }),
            Cmd::SetHotkeys { state } => Some(Command::SetHotkeys { state }),
            Cmd::ToggleTransparency => Some(Command::ToggleTransparency),
            Cmd::Border { state } => Some(Command::Border { state }),
            Cmd::BorderWidth { width } => Some(Command::BorderWidth { width }),
            Cmd::BorderOffset { offset } => Some(Command::BorderOffset { offset }),
            Cmd::BorderColour { r, g, b, window_kind } => Some(
                Command::BorderColour {
                    kind: window_kind,
                    r,
                    g,
                    b,
                },
            ),
            Cmd::BorderStyle { style } => Some(Command::BorderStyle { style }),
            Cmd::Animation { state } => Some(Command::Animation { state }),
            Cmd::AnimationDuration { duration } => Some(Command::AnimationDuration { duration }),
            Cmd::AnimationStyle { style } => Some(Command::AnimationStyle { style }),
            Cmd::AnimationFps { fps } => Some(Command::AnimationFps { fps }),
            Cmd::ManageRule { identifier, id, matching_strategy } => Some(
                Command::ManageRule {
                    identifier,
                    id,
                    matching_strategy,
                },
            ),
            Cmd::WorkspaceRule {
                identifier,
                id,
                monitor,
                workspace,
                initial_only,
                matching_strategy,
            } => Some(
                Command::WorkspaceRule {
                    identifier,
                    id,
                    monitor,
                    workspace,
                    initial_only,
                    matching_strategy,
                },
            ),
            Cmd::FloatRule { identifier, id, matching_strategy } => Some(
                Command::FloatRule {
                    identifier,
                    id,
                    matching_strategy,
                },
            ),
            Cmd::IgnoreRule { identifier, id, matching_strategy } => Some(
                Command::IgnoreRule {
                    identifier,
                    id,
                    matching_strategy,
                },
            ),
            _ => None,
        }
    }

    /// The protocol command this subcommand sends, or `None` for the ones
    /// `mochic` handles by itself (`start`, `quickstart`, `check`, `schema`,
    /// `subscribe`).
    ///
    /// Two of those run before a daemon exists and two only read or print a file.
    /// `subscribe` is not one command either: it creates its own pipe first and
    /// only then registers it, so answering `subscribe-pipe` here would let a key
    /// register a pipe that nobody ever created.
    ///
    /// A table, a paragraph or raw JSON is a decision `mochic` makes on its own,
    /// the daemon answers the same document either way.
    #[must_use]
    pub fn to_command(&self) -> (r: Option<Command>)
        ensures
            match (r, self.sends()) {
                (Some(command), Some(sent)) => command.agrees(sent),
                (None, None) => true,
                _ => false,
            },
    {
        match self {
            Cmd::Stop => Some(Command::Stop),
            Cmd::TogglePause => Some(Command::TogglePause),
            Cmd::ToggleGameMode => Some(Command::ToggleGameMode),
            Cmd::ReloadConfiguration => Some(Command::ReloadConfiguration),
            Cmd::RestoreWindows => Some(Command::RestoreWindows),
            Cmd::Retile => Some(Command::Retile),
            Cmd::State => Some(Command::State),
            Cmd::Query { target } => Some(Command::Query { target: *target }),
            Cmd::Doctor { .. } => Some(Command::Doctor),
            Cmd::Why { .. } => Some(Command::Why),
            Cmd::Hotkeys { .. } => Some(Command::Hotkeys),
            Cmd::SubscribePipe { name } => Some(
                Command::SubscribePipe {
                    name: owned(name.as_str()),
                },
            ),
            Cmd::UnsubscribePipe { name } => Some(
                Command::UnsubscribePipe {
                    name: owned(name.as_str()),
                },
            ),
            Cmd::Focus { direction } => Some(Command::Focus { direction: *direction }),
            Cmd::CycleFocus { direction } => Some(Command::CycleFocus { direction: *direction }),
            Cmd::Move { direction } => Some(Command::Move { direction: *direction }),
            Cmd::CycleMove { direction } => Some(Command::CycleMove { direction: *direction }),
            Cmd::ResizeAxis { axis, sizing } => Some(
                Command::ResizeAxis {
                    axis: *axis,
                    sizing: *sizing,
                },
            ),
            Cmd::ResizeEdge { direction, sizing } => Some(
                Command::ResizeEdge {
                    direction: *direction,
                    sizing: *sizing,
                },
            ),
            Cmd::Promote => Some(Command::Promote),
            Cmd::PromoteFocus => Some(Command::PromoteFocus),
            Cmd::ToggleFloat => Some(Command::ToggleFloat),
            Cmd::ToggleFloatOverride => Some(Command::ToggleFloatOverride),
            Cmd::ToggleMaximize => Some(Command::ToggleMaximize),
            Cmd::ToggleMonocle => Some(Command::ToggleMonocle),
            Cmd::Minimize => Some(Command::Minimize),
            Cmd::Close => Some(Command::Close),
            Cmd::Manage => Some(Command::Manage),
            Cmd::Unmanage => Some(Command::Unmanage),
            Cmd::Stack { direction } => Some(Command::Stack { direction: *direction }),
            Cmd::Unstack => Some(Command::Unstack),
            Cmd::StackAll => Some(Command::StackAll),
            Cmd::FocusStackWindow { index } => Some(Command::FocusStackWindow { index: *index }),
            Cmd::UnstackAll => Some(Command::UnstackAll),
            Cmd::CycleStack { direction } => Some(Command::CycleStack { direction: *direction }),
            Cmd::CycleLayout { direction } => Some(Command::CycleLayout { direction: *direction }),
            Cmd::ChangeLayout { layout } => Some(Command::ChangeLayout { layout: *layout }),
            Cmd::FlipLayout { axis } => Some(Command::FlipLayout { axis: *axis }),
            Cmd::ToggleTiling => Some(Command::ToggleTiling),
            Cmd::FocusWorkspace { index } => Some(Command::FocusWorkspace { index: *index }),
            Cmd::MoveToWorkspace { index } => Some(Command::MoveToWorkspace { index: *index }),
            Cmd::SendToWorkspace { index } => Some(Command::SendToWorkspace { index: *index }),
            Cmd::CycleWorkspace { direction } => Some(
                Command::CycleWorkspace {
                    direction: *direction,
                },
            ),
            Cmd::FocusLastWorkspace => Some(Command::FocusLastWorkspace),
            Cmd::FocusNamedWorkspace { name } => Some(
                Command::FocusNamedWorkspace {
                    name: owned(name.as_str()),
                },
            ),
            Cmd::MoveToNamedWorkspace { name } => Some(
                Command::MoveToNamedWorkspace {
                    name: owned(name.as_str()),
                },
            ),
            Cmd::SendToNamedWorkspace { name } => Some(
                Command::SendToNamedWorkspace {
                    name: owned(name.as_str()),
                },
            ),
            Cmd::WorkspacePadding { monitor, workspace, size } => Some(
                Command::WorkspacePadding {
                    monitor: *monitor,
                    workspace: *workspace,
                    size: *size,
                },
            ),
            Cmd::ContainerPadding { monitor, workspace, size } => Some(
                Command::ContainerPadding {
                    monitor: *monitor,
                    workspace: *workspace,
                    size: *size,
                },
            ),
            Cmd::FocusMonitor { index } => Some(Command::FocusMonitor { index: *index }),
            Cmd::MoveToMonitor { index } => Some(Command::MoveToMonitor { index: *index }),
            Cmd::SendToMonitor { index } => Some(Command::SendToMonitor { index: *index }),
            Cmd::CycleMonitor { direction } => Some(
                Command::CycleMonitor {
                    direction: *direction,
                },
            ),
            Cmd::FocusFollowsMouse { state } => Some(Command::FocusFollowsMouse { state: *state }),
            Cmd::WindowContainerBehaviour { behaviour } => Some(
                Command::WindowContainerBehaviour {
                    behaviour: *behaviour,
                },
            ),
            Cmd::ToggleWindowContainerBehaviour => Some(Command::ToggleWindowContainerBehaviour),
            Cmd::CrossMonitorMoveBehaviour { behaviour } => Some(
                Command::CrossMonitorMoveBehaviour {
                    behaviour: *behaviour,
                },
            ),
            Cmd::WindowHidingBehaviour { behaviour } => Some(
                Command::WindowHidingBehaviour {
                    behaviour: *behaviour,
                },
            ),
            Cmd::UnmanagedWindowOperationBehaviour { behaviour } => Some(
                Command::UnmanagedWindowOperationBehaviour {
                    behaviour: *behaviour,
                },
            ),
            Cmd::MouseFollowsFocus { state } => Some(Command::MouseFollowsFocus { state: *state }),
            Cmd::SetHotkeys { state } => Some(Command::SetHotkeys { state: *state }),
            Cmd::ToggleTransparency => Some(Command::ToggleTransparency),
            Cmd::Border { state } => Some(Command::Border { state: *state }),
            Cmd::BorderWidth { width } => Some(Command::BorderWidth { width: *width }),
            Cmd::BorderOffset { offset } => Some(Command::BorderOffset { offset: *offset }),
            Cmd::BorderColour { r, g, b, window_kind } => Some(
                Command::BorderColour {
                    kind: *window_kind,
                    r: *r,
                    g: *g,
                    b: *b,
                },
            ),
            Cmd::BorderStyle { style } => Some(Command::BorderStyle { style: *style }),
            Cmd::Animation { state } => Some(Command::Animation { state: *state }),
            Cmd::AnimationDuration { duration } => Some(
                Command::AnimationDuration {
                    duration: *duration,
                },
            ),
            Cmd::AnimationStyle { style } => Some(Command::AnimationStyle { style: *style }),
            Cmd::AnimationFps { fps } => Some(Command::AnimationFps { fps: *fps }),
            Cmd::ManageRule { identifier, id, matching_strategy } => Some(
                Command::ManageRule {
                    identifier: *identifier,
                    id: owned(id.as_str()),
                    matching_strategy: *matching_strategy,
                },
            ),
            Cmd::WorkspaceRule {
                identifier,
                id,
                monitor,
                workspace,
                initial_only,
                matching_strategy,
            } => Some(
                Command::WorkspaceRule {
                    identifier: *identifier,
                    id: owned(id.as_str()),
                    monitor: *monitor,
                    workspace: *workspace,
                    initial_only: *initial_only,
                    matching_strategy: *matching_strategy,
                },
            ),
            Cmd::FloatRule { identifier, id, matching_strategy } => Some(
                Command::FloatRule {
                    identifier: *identifier,
                    id: owned(id.as_str()),
                    matching_strategy: *matching_strategy,
                },
            ),
            Cmd::IgnoreRule { identifier, id, matching_strategy } => Some(
                Command::IgnoreRule {
                    identifier: *identifier,
                    id: owned(id.as_str()),
                    matching_strategy: *matching_strategy,
                },
            ),
            Cmd::Start { .. }
            | Cmd::Quickstart
            | Cmd::Schema { .. }
            | Cmd::Check { .. }
            | Cmd::Subscribe { .. } => None,
        }
    }
}

/// The subcommand of this name with these words behind it.
#[verifier::spinoff_prover]
#[verifier::rlimit(60)]
fn build(verb: Verb, found: Found) -> (r: Cmd)
    requires
        fits(verb.shape(), found@),
    ensures
        r.says(verb, found@),
{
    match verb {
        Verb::Start => Cmd::Start {
            config: option_at(&found, 0),
            hotkeys: option_at(&found, 1),
            no_hotkeys: flag_at(&found, 2),
            dry_run: flag_at(&found, 3),
        },
        Verb::Stop => Cmd::Stop,
        Verb::Quickstart => Cmd::Quickstart,
        Verb::Check => Cmd::Check { path: first_of(&found) },
        Verb::Schema => Cmd::Schema { output: option_at(&found, 0) },
        Verb::TogglePause => Cmd::TogglePause,
        Verb::ToggleGameMode => Cmd::ToggleGameMode,
        Verb::ReloadConfiguration => Cmd::ReloadConfiguration,
        Verb::RestoreWindows => Cmd::RestoreWindows,
        Verb::Retile => Cmd::Retile,
        Verb::State => Cmd::State,
        Verb::Query => Cmd::Query { target: target_of(word_at(&found, 0)) },
        Verb::Doctor => Cmd::Doctor { json: flag_at(&found, 0) },
        Verb::Why => Cmd::Why { json: flag_at(&found, 0) },
        Verb::Hotkeys => Cmd::Hotkeys { json: flag_at(&found, 0) },
        Verb::Subscribe => Cmd::Subscribe { name: owned(word_at(&found, 0)) },
        Verb::SubscribePipe => Cmd::SubscribePipe { name: owned(word_at(&found, 0)) },
        Verb::UnsubscribePipe => Cmd::UnsubscribePipe { name: owned(word_at(&found, 0)) },
        Verb::Focus => Cmd::Focus { direction: direction_of(word_at(&found, 0)) },
        Verb::CycleFocus => Cmd::CycleFocus { direction: cycle_of(word_at(&found, 0)) },
        Verb::Move => Cmd::Move { direction: direction_of(word_at(&found, 0)) },
        Verb::CycleMove => Cmd::CycleMove { direction: cycle_of(word_at(&found, 0)) },
        Verb::ResizeAxis => Cmd::ResizeAxis {
            axis: axis_of(word_at(&found, 0)),
            sizing: sizing_of(word_at(&found, 1)),
        },
        Verb::ResizeEdge => Cmd::ResizeEdge {
            direction: direction_of(word_at(&found, 0)),
            sizing: sizing_of(word_at(&found, 1)),
        },
        Verb::Promote => Cmd::Promote,
        Verb::PromoteFocus => Cmd::PromoteFocus,
        Verb::ToggleFloat => Cmd::ToggleFloat,
        Verb::ToggleFloatOverride => Cmd::ToggleFloatOverride,
        Verb::ToggleMaximize => Cmd::ToggleMaximize,
        Verb::ToggleMonocle => Cmd::ToggleMonocle,
        Verb::Minimize => Cmd::Minimize,
        Verb::Close => Cmd::Close,
        Verb::Manage => Cmd::Manage,
        Verb::Unmanage => Cmd::Unmanage,
        Verb::Stack => Cmd::Stack { direction: direction_of(word_at(&found, 0)) },
        Verb::Unstack => Cmd::Unstack,
        Verb::StackAll => Cmd::StackAll,
        Verb::FocusStackWindow => Cmd::FocusStackWindow { index: index_of(word_at(&found, 0)) },
        Verb::UnstackAll => Cmd::UnstackAll,
        Verb::CycleStack => Cmd::CycleStack { direction: cycle_of(word_at(&found, 0)) },
        Verb::CycleLayout => Cmd::CycleLayout { direction: cycle_of(word_at(&found, 0)) },
        Verb::ChangeLayout => Cmd::ChangeLayout { layout: layout_of(word_at(&found, 0)) },
        Verb::FlipLayout => Cmd::FlipLayout { axis: axis_of(word_at(&found, 0)) },
        Verb::ToggleTiling => Cmd::ToggleTiling,
        Verb::FocusWorkspace => Cmd::FocusWorkspace { index: index_of(word_at(&found, 0)) },
        Verb::MoveToWorkspace => Cmd::MoveToWorkspace { index: index_of(word_at(&found, 0)) },
        Verb::SendToWorkspace => Cmd::SendToWorkspace { index: index_of(word_at(&found, 0)) },
        Verb::CycleWorkspace => Cmd::CycleWorkspace { direction: cycle_of(word_at(&found, 0)) },
        Verb::FocusLastWorkspace => Cmd::FocusLastWorkspace,
        Verb::FocusNamedWorkspace => Cmd::FocusNamedWorkspace { name: owned(word_at(&found, 0)) },
        Verb::MoveToNamedWorkspace => Cmd::MoveToNamedWorkspace {
            name: owned(word_at(&found, 0)),
        },
        Verb::SendToNamedWorkspace => Cmd::SendToNamedWorkspace {
            name: owned(word_at(&found, 0)),
        },
        Verb::WorkspacePadding => Cmd::WorkspacePadding {
            monitor: index_of(word_at(&found, 0)),
            workspace: index_of(word_at(&found, 1)),
            size: pixels_of(word_at(&found, 2)),
        },
        Verb::ContainerPadding => Cmd::ContainerPadding {
            monitor: index_of(word_at(&found, 0)),
            workspace: index_of(word_at(&found, 1)),
            size: pixels_of(word_at(&found, 2)),
        },
        Verb::FocusMonitor => Cmd::FocusMonitor { index: index_of(word_at(&found, 0)) },
        Verb::MoveToMonitor => Cmd::MoveToMonitor { index: index_of(word_at(&found, 0)) },
        Verb::SendToMonitor => Cmd::SendToMonitor { index: index_of(word_at(&found, 0)) },
        Verb::CycleMonitor => Cmd::CycleMonitor { direction: cycle_of(word_at(&found, 0)) },
        Verb::FocusFollowsMouse => Cmd::FocusFollowsMouse { state: state_of(word_at(&found, 0)) },
        Verb::WindowContainerBehaviour => Cmd::WindowContainerBehaviour {
            behaviour: container_of(word_at(&found, 0)),
        },
        Verb::ToggleWindowContainerBehaviour => Cmd::ToggleWindowContainerBehaviour,
        Verb::CrossMonitorMoveBehaviour => Cmd::CrossMonitorMoveBehaviour {
            behaviour: crossing_of(word_at(&found, 0)),
        },
        Verb::WindowHidingBehaviour => Cmd::WindowHidingBehaviour {
            behaviour: hiding_of(word_at(&found, 0)),
        },
        Verb::UnmanagedWindowOperationBehaviour => Cmd::UnmanagedWindowOperationBehaviour {
            behaviour: operation_of(word_at(&found, 0)),
        },
        Verb::MouseFollowsFocus => Cmd::MouseFollowsFocus { state: state_of(word_at(&found, 0)) },
        Verb::SetHotkeys => Cmd::SetHotkeys { state: state_of(word_at(&found, 0)) },
        Verb::ToggleTransparency => Cmd::ToggleTransparency,
        Verb::Border => Cmd::Border { state: state_of(word_at(&found, 0)) },
        Verb::BorderWidth => Cmd::BorderWidth { width: pixels_of(word_at(&found, 0)) },
        Verb::BorderOffset => Cmd::BorderOffset { offset: pixels_of(word_at(&found, 0)) },
        Verb::BorderColour => Cmd::BorderColour {
            r: channel_of(word_at(&found, 0)),
            g: channel_of(word_at(&found, 1)),
            b: channel_of(word_at(&found, 2)),
            window_kind: kind_at(&found, 0),
        },
        Verb::BorderStyle => Cmd::BorderStyle { style: border_of(word_at(&found, 0)) },
        Verb::Animation => Cmd::Animation { state: state_of(word_at(&found, 0)) },
        Verb::AnimationDuration => Cmd::AnimationDuration {
            duration: millis_of(word_at(&found, 0)),
        },
        Verb::AnimationStyle => Cmd::AnimationStyle { style: easing_of(word_at(&found, 0)) },
        Verb::AnimationFps => Cmd::AnimationFps { fps: rate_of(word_at(&found, 0)) },
        Verb::ManageRule => Cmd::ManageRule {
            identifier: identifier_of(word_at(&found, 0)),
            id: owned(word_at(&found, 1)),
            matching_strategy: strategy_at(&found, 0),
        },
        Verb::WorkspaceRule => Cmd::WorkspaceRule {
            identifier: identifier_of(word_at(&found, 0)),
            id: owned(word_at(&found, 1)),
            monitor: index_of(word_at(&found, 2)),
            workspace: index_of(word_at(&found, 3)),
            initial_only: flag_at(&found, 0),
            matching_strategy: strategy_at(&found, 1),
        },
        Verb::FloatRule => Cmd::FloatRule {
            identifier: identifier_of(word_at(&found, 0)),
            id: owned(word_at(&found, 1)),
            matching_strategy: strategy_at(&found, 0),
        },
        Verb::IgnoreRule => Cmd::IgnoreRule {
            identifier: identifier_of(word_at(&found, 0)),
            id: owned(word_at(&found, 1)),
            matching_strategy: strategy_at(&found, 0),
        },
    }
}

fn word_at(found: &Found, idx: usize) -> (r: &str)
    requires
        idx < found@.values.len(),
    ensures
        r@ == found@.values[idx as int],
{
    found.values[idx].as_str()
}

fn first_of(found: &Found) -> (r: Option<String>)
    ensures
        text_view(r) == if found@.values.len() > 0 {
            Some(found@.values[0])
        } else {
            None
        },
{
    if found.values.len() > 0 {
        Some(owned(word_at(found, 0)))
    } else {
        None
    }
}

fn option_at(found: &Found, idx: usize) -> (r: Option<String>)
    requires
        idx < found@.given.len(),
    ensures
        text_view(r) == given(found@, idx as int),
{
    match &found.given[idx] {
        Some(text) => Some(owned(text.as_str())),
        None => None,
    }
}

fn flag_at(found: &Found, idx: usize) -> (r: bool)
    requires
        idx < found@.given.len(),
    ensures
        r == given(found@, idx as int) is Some,
{
    found.given[idx].is_some()
}

fn kind_at(found: &Found, idx: usize) -> (r: WindowKind)
    requires
        idx < found@.given.len(),
        given(found@, idx as int) matches Some(text) ==> Kind::Window.fault(text) is None,
    ensures
        is_kind(given(found@, idx as int), r),
{
    match &found.given[idx] {
        Some(text) => window_of(text.as_str()),
        None => default_window_kind(),
    }
}

fn strategy_at(found: &Found, idx: usize) -> (r: MatchingStrategy)
    requires
        idx < found@.given.len(),
        given(found@, idx as int) matches Some(text) ==> Kind::Strategy.fault(text) is None,
    ensures
        is_strategy(given(found@, idx as int), r),
{
    match &found.given[idx] {
        Some(text) => strategy_of(text.as_str()),
        None => default_matching_strategy(),
    }
}

/// `true` when a subcommand is spelled like this.
pub open spec fn is_verb(word: Seq<char>) -> bool {
    exists|verb: Verb| word == #[trigger] verb.word()
}

/// The subcommand that is spelled like this.
pub open spec fn verb_of(word: Seq<char>) -> Verb {
    choose|verb: Verb| word == #[trigger] verb.word()
}

/// What `help` with these words behind it comes to.
pub open spec fn helped(words: Seq<Seq<char>>) -> MisuseView {
    if words.len() > 0 && !is_verb(words[0]) && words[0] != "help"@ {
        MisuseView::Unrecognized(words[0])
    } else if words.len() > 1 {
        MisuseView::Unrecognized(words[1])
    } else {
        MisuseView::Help
    }
}

/// What is wrong with a command line that does not begin with a subcommand.
pub open spec fn misdirected(words: Seq<Seq<char>>) -> MisuseView {
    if words.len() == 0 {
        MisuseView::Help
    } else if words[0] == "help"@ {
        helped(words.skip(1))
    } else {
        match token_of(words[0]) {
            TokenView::Escape => if words.len() == 1 {
                MisuseView::Help
            } else if is_verb(words[1]) || words[1] == "help"@ {
                MisuseView::Unexpected(words[1])
            } else {
                MisuseView::Unrecognized(words[1])
            },
            TokenView::Long { name, value } => if name == "help"@ || name == "version"@ {
                match value {
                    Some(value) => MisuseView::NoneExpected { value, label: "--"@ + name },
                    None => if name == "help"@ {
                        MisuseView::Help
                    } else {
                        MisuseView::Version
                    },
                }
            } else {
                MisuseView::Unexpected("--"@ + name)
            },
            TokenView::Short { letter, .. } => if letter == 'h' {
                MisuseView::Help
            } else if letter == 'V' {
                MisuseView::Version
            } else {
                MisuseView::Unexpected("-"@.push(letter))
            },
            TokenView::Plain => MisuseView::Unrecognized(words[0]),
        }
    }
}

/// The words of a command line, without the name of the program: the name of a
/// subcommand and what was found behind it.
pub open spec fn reading(words: Seq<Seq<char>>) -> Result<(Verb, FoundView), MisuseView> {
    if words.len() > 0 && is_verb(words[0]) {
        match scan_of(verb_of(words[0]).shape(), words.skip(1)) {
            Ok(found) => Ok((verb_of(words[0]), found)),
            Err(misuse) => Err(misuse),
        }
    } else {
        Err(misdirected(words))
    }
}

/// The name of a subcommand names that one.
proof fn lemma_verb_of(verb: Verb)
    ensures
        is_verb(verb.word()),
        verb_of(verb.word()) == verb,
{
    verbs_are_distinct(verb_of(verb.word()), verb);
}

fn names_help(word: &str) -> (r: bool)
    ensures
        r == (word@ == "help"@),
{
    same(word, "help")
}

fn names_verb(word: &str) -> (r: bool)
    ensures
        r == is_verb(word@),
{
    Verb::named(word).is_some()
}

fn help_misuse(words: &[String]) -> (r: Misuse)
    requires
        words@.len() > 0,
    ensures
        r@ == helped(texts(words@).skip(1)),
{
    let ghost rest = texts(words@).skip(1);
    if words.len() > 1 {
        assert(rest[0] == words@[1]@);
        if !names_verb(words[1].as_str()) && !names_help(words[1].as_str()) {
            return Misuse::Unrecognized(owned(words[1].as_str()));
        }
    }
    if words.len() > 2 {
        assert(rest[1] == words@[2]@);
        return Misuse::Unrecognized(owned(words[2].as_str()));
    }
    Misuse::Help
}

fn dashed(dashes: &str, name: &str) -> (r: String)
    ensures
        r@ == dashes@ + name@,
{
    let mut r = owned(dashes);
    append(&mut r, name);
    r
}

fn misdirection(words: &[String]) -> (r: Misuse)
    ensures
        r@ == misdirected(texts(words@)),
{
    if words.len() == 0 {
        return Misuse::Help;
    }
    assert(texts(words@)[0] == words@[0]@);
    if names_help(words[0].as_str()) {
        return help_misuse(words);
    }
    match token(words[0].as_str()) {
        Token::Escape => {
            if words.len() == 1 {
                return Misuse::Help;
            }
            assert(texts(words@)[1] == words@[1]@);
            if names_verb(words[1].as_str()) || names_help(words[1].as_str()) {
                Misuse::Unexpected(owned(words[1].as_str()))
            } else {
                Misuse::Unrecognized(owned(words[1].as_str()))
            }
        },
        Token::Long { name, value } => {
            if same(name.as_str(), "help") {
                proof {
                    reveal_strlit("--");
                    reveal_strlit("help");
                    reveal_strlit("--help");
                    assert("--"@ + "help"@ =~= "--help"@);
                }
                match value {
                    Some(value) => Misuse::NoneExpected { value, label: "--help" },
                    None => Misuse::Help,
                }
            } else if same(name.as_str(), "version") {
                proof {
                    reveal_strlit("--");
                    reveal_strlit("help");
                    reveal_strlit("version");
                    reveal_strlit("--version");
                    assert("--"@ + "version"@ =~= "--version"@);
                }
                match value {
                    Some(value) => Misuse::NoneExpected { value, label: "--version" },
                    None => Misuse::Version,
                }
            } else {
                Misuse::Unexpected(dashed("--", name.as_str()))
            }
        },
        Token::Short { letter, .. } => {
            if letter == 'h' {
                Misuse::Help
            } else if letter == 'V' {
                Misuse::Version
            } else {
                let mut argument = owned("-");
                argument.push(letter);
                Misuse::Unexpected(argument)
            }
        },
        Token::Plain => Misuse::Unrecognized(owned(words[0].as_str())),
    }
}

/// Reads the words of a command line, without the name of the program.
///
/// # Errors
///
/// Returns the first [`Misuse`] there is.
pub fn parse_words(words: &[String]) -> (r: Result<Cli, Misuse>)
    ensures
        match (r, reading(texts(words@))) {
            (Ok(cli), Ok((verb, found))) => cli.command.says(verb, found),
            (Err(misuse), Err(expected)) => misuse@ == expected,
            _ => false,
        },
{
    if words.len() > 0 {
        assert(texts(words@)[0] == words@[0]@);
        if let Some(verb) = Verb::named(words[0].as_str()) {
            proof {
                lemma_verb_of(verb);
            }
            let rest = vstd::slice::slice_subrange(words, 1, words.len());
            assert(texts(rest@) =~= texts(words@).skip(1));
            proof {
                what_was_read_fits(verb.shape(), texts(rest@));
            }
            return match scan(verb.form(), rest) {
                Ok(found) => Ok(Cli { command: build(verb, found) }),
                Err(misuse) => Err(misuse),
            };
        }
    }
    Err(misdirection(words))
}

/// The words of an argument vector behind the name of the program.
pub open spec fn behind_the_program(argv: Seq<Seq<char>>) -> Seq<Seq<char>> {
    if argv.len() > 0 {
        argv.skip(1)
    } else {
        argv
    }
}

impl Cli {
    /// Reads an argument vector, the name of the program first.
    ///
    /// # Errors
    ///
    /// Returns the first [`Misuse`] there is.
    pub fn parse_argv(argv: &[String]) -> (r: Result<Self, Misuse>)
        ensures
            match (r, reading(behind_the_program(texts(argv@)))) {
                (Ok(cli), Ok((verb, found))) => cli.command.says(verb, found),
                (Err(misuse), Err(expected)) => misuse@ == expected,
                _ => false,
            },
    {
        let words = if argv.len() > 0 {
            vstd::slice::slice_subrange(argv, 1, argv.len())
        } else {
            argv
        };
        assert(texts(words@) =~= behind_the_program(texts(argv@)));
        parse_words(words)
    }
}

/// True when `name` is a subcommand a key can be bound to.
///
/// `mochic start` and its kind are run by the client itself and never travel to
/// the daemon, so they are not bindable. That matters to a checker: `start` is
/// also the Windows shell command for launching a program, so a perfectly good
/// `start wt` binding shares its first word with a Mochi subcommand.
#[must_use]
pub fn is_bindable_subcommand(name: &str) -> (r: bool)
    ensures
        r == (is_verb(name@) && verb_of(name@).is_sent()),
{
    match Verb::named(name) {
        Some(verb) => {
            proof {
                lemma_verb_of(verb);
            }
            verb.is_sent()
        },
        None => false,
    }
}

/// The words of a line, with a space between each two of them.
pub open spec fn joined(words: Seq<Seq<char>>) -> Seq<char>
    decreases words.len(),
{
    if words.len() == 0 {
        Seq::empty()
    } else if words.len() == 1 {
        words[0]
    } else {
        joined(words.drop_last()) + " "@ + words.last()
    }
}

fn join(words: &[String]) -> (r: String)
    ensures
        r@ == joined(texts(words@)),
{
    let ghost all = texts(words@);
    let mut line = String::new();
    for i in 0..words.len()
        invariant
            all == texts(words@),
            all.len() == words@.len(),
            line@ == joined(all.take(i as int)),
    {
        assert(all.take(i + 1).drop_last() =~= all.take(i as int));
        assert(all.take(i + 1).last() == words@[i as int]@);
        if i > 0 {
            append(&mut line, " ");
        } else {
            assert(line@ =~= Seq::<char>::empty());
        }
        append(&mut line, words[i].as_str());
        assert(i == 0 ==> line@ =~= words@[0]@);
    }
    assert(all.take(all.len() as int) =~= all);
    line
}

/// How a misuse is put on one line.
pub open spec fn in_short(misuse: MisuseView) -> Seq<char> {
    if misuse is Help || misuse is Version {
        misuse.message()
    } else {
        on_one_line(misuse.message())
    }
}

/// Why a line cannot be bound to a key.
pub open spec fn refusal(words: Seq<Seq<char>>) -> Seq<char> {
    if words.len() == 0 {
        "a binding needs a command, `focus left` for example"@
    } else {
        match reading(words) {
            Err(misuse) => "`"@ + joined(words) + "`: "@ + in_short(misuse),
            Ok(_) => "`"@ + words[0] + "` cannot be bound to a key, `mochic` runs it itself"@,
        }
    }
}

/// `true` when these words are a line that sends this command.
pub open spec fn sends_command(words: Seq<Seq<char>>, command: Command) -> bool {
    reading(words) matches Ok((verb, found)) && (exists|cmd: Cmd| #[trigger]
        cmd.says(verb, found) && (cmd.sends() matches Some(sent) && command.agrees(sent)))
}

/// `true` when these words are a line that can be bound to a key.
pub open spec fn is_binding(words: Seq<Seq<char>>) -> bool {
    reading(words) matches Ok((verb, _)) && verb.is_sent()
}

/// Parses one hotkey binding's words (`["focus", "left"]`, no leading `mochic`)
/// into the command it sends. The error is one line, meant for a human reading
/// a config error, and names what was wrong.
///
/// # Errors
///
/// Returns the reason when the words are not a command, or one `mochic` runs
/// itself.
pub fn command_from_args(args: &[String]) -> (r: Result<Command, String>)
    ensures
        match r {
            Ok(command) => is_binding(texts(args@)) && sends_command(texts(args@), command),
            Err(reason) => !is_binding(texts(args@)) && reason@ == refusal(texts(args@)),
        },
{
    if args.len() == 0 {
        return Err(owned("a binding needs a command, `focus left` for example"));
    }
    assert(texts(args@)[0] == args@[0]@);
    match parse_words(args) {
        Ok(cli) => {
            proof {
                only_some_are_sent(cli.command);
            }
            match cli.command.to_command() {
                Some(command) => {
                    assert(sends_command(texts(args@), command));
                    Ok(command)
                },
                None => {
                    let mut reason = dashed("`", args[0].as_str());
                    append(&mut reason, "` cannot be bound to a key, `mochic` runs it itself");
                    Err(reason)
                },
            }
        },
        Err(misuse) => {
            let mut reason = dashed("`", join(args).as_str());
            append(&mut reason, "`: ");
            let message = misuse.to_string();
            let short = match misuse {
                Misuse::Help | Misuse::Version => message,
                _ => one_line(message.as_str()),
            };
            append(&mut reason, short.as_str());
            Err(reason)
        },
    }
}

// -- laws ------------------------------------------------------------------

/// A subcommand sends a command exactly when its name is one that is sent.
pub proof fn only_some_are_sent(cmd: Cmd)
    ensures
        cmd.sends() is Some <==> cmd.verb().is_sent(),
{
}

/// Two subcommands that the same words say are the same, down to the characters
/// of the texts they hold.
#[verifier::spinoff_prover]
#[verifier::rlimit(100)]
pub proof fn words_say_one_thing(a: Cmd, b: Cmd, verb: Verb, found: FoundView)
    requires
        a.says(verb, found),
        b.says(verb, found),
    ensures
        a.sends() matches Some(x) ==> (b.sends() matches Some(y) && x.agrees(y)),
{
    match (a, b) {
        (Cmd::Query { target: x0 }, Cmd::Query { target: y0 }) => {
            query_target_words_are_distinct(x0, y0);
        },
        (Cmd::Focus { direction: x0 }, Cmd::Focus { direction: y0 }) => {
            direction_words_are_distinct(x0, y0);
        },
        (Cmd::CycleFocus { direction: x0 }, Cmd::CycleFocus { direction: y0 }) => {
            cycle_direction_words_are_distinct(x0, y0);
        },
        (Cmd::Move { direction: x0 }, Cmd::Move { direction: y0 }) => {
            direction_words_are_distinct(x0, y0);
        },
        (Cmd::CycleMove { direction: x0 }, Cmd::CycleMove { direction: y0 }) => {
            cycle_direction_words_are_distinct(x0, y0);
        },
        (Cmd::ResizeAxis { axis: x0, sizing: x1 }, Cmd::ResizeAxis { axis: y0, sizing: y1 }) => {
            axis_words_are_distinct(x0, y0);
            sizing_words_are_distinct(x1, y1);
        },
        (Cmd::ResizeEdge { direction: x0, sizing: x1 }, Cmd::ResizeEdge { direction: y0, sizing: y1 }) => {
            direction_words_are_distinct(x0, y0);
            sizing_words_are_distinct(x1, y1);
        },
        (Cmd::Stack { direction: x0 }, Cmd::Stack { direction: y0 }) => {
            direction_words_are_distinct(x0, y0);
        },
        (Cmd::CycleStack { direction: x0 }, Cmd::CycleStack { direction: y0 }) => {
            cycle_direction_words_are_distinct(x0, y0);
        },
        (Cmd::CycleLayout { direction: x0 }, Cmd::CycleLayout { direction: y0 }) => {
            cycle_direction_words_are_distinct(x0, y0);
        },
        (Cmd::ChangeLayout { layout: x0 }, Cmd::ChangeLayout { layout: y0 }) => {
            layout_words_are_distinct(x0, y0);
        },
        (Cmd::FlipLayout { axis: x0 }, Cmd::FlipLayout { axis: y0 }) => {
            axis_words_are_distinct(x0, y0);
        },
        (Cmd::CycleWorkspace { direction: x0 }, Cmd::CycleWorkspace { direction: y0 }) => {
            cycle_direction_words_are_distinct(x0, y0);
        },
        (Cmd::CycleMonitor { direction: x0 }, Cmd::CycleMonitor { direction: y0 }) => {
            cycle_direction_words_are_distinct(x0, y0);
        },
        (Cmd::FocusFollowsMouse { state: x0 }, Cmd::FocusFollowsMouse { state: y0 }) => {
            boolean_state_words_are_distinct(x0, y0);
        },
        (Cmd::WindowContainerBehaviour { behaviour: x0 }, Cmd::WindowContainerBehaviour { behaviour: y0 }) => {
            container_behaviour_words_are_distinct(x0, y0);
        },
        (Cmd::CrossMonitorMoveBehaviour { behaviour: x0 }, Cmd::CrossMonitorMoveBehaviour { behaviour: y0 }) => {
            move_behaviour_words_are_distinct(x0, y0);
        },
        (Cmd::WindowHidingBehaviour { behaviour: x0 }, Cmd::WindowHidingBehaviour { behaviour: y0 }) => {
            hiding_behaviour_words_are_distinct(x0, y0);
        },
        (Cmd::UnmanagedWindowOperationBehaviour { behaviour: x0 }, Cmd::UnmanagedWindowOperationBehaviour { behaviour: y0 }) => {
            operation_behaviour_words_are_distinct(x0, y0);
        },
        (Cmd::MouseFollowsFocus { state: x0 }, Cmd::MouseFollowsFocus { state: y0 }) => {
            boolean_state_words_are_distinct(x0, y0);
        },
        (Cmd::SetHotkeys { state: x0 }, Cmd::SetHotkeys { state: y0 }) => {
            boolean_state_words_are_distinct(x0, y0);
        },
        (Cmd::Border { state: x0 }, Cmd::Border { state: y0 }) => {
            boolean_state_words_are_distinct(x0, y0);
        },
        (Cmd::BorderColour { window_kind: x0, .. }, Cmd::BorderColour { window_kind: y0, .. }) => {
            window_kind_words_are_distinct(x0, y0);
        },
        (Cmd::BorderStyle { style: x0 }, Cmd::BorderStyle { style: y0 }) => {
            border_style_words_are_distinct(x0, y0);
        },
        (Cmd::Animation { state: x0 }, Cmd::Animation { state: y0 }) => {
            boolean_state_words_are_distinct(x0, y0);
        },
        (Cmd::AnimationStyle { style: x0 }, Cmd::AnimationStyle { style: y0 }) => {
            animation_style_words_are_distinct(x0, y0);
        },
        (Cmd::ManageRule { identifier: x0, matching_strategy: x1, .. }, Cmd::ManageRule { identifier: y0, matching_strategy: y1, .. }) => {
            rule_identifier_words_are_distinct(x0, y0);
            matching_strategy_words_are_distinct(x1, y1);
        },
        (Cmd::WorkspaceRule { identifier: x0, matching_strategy: x1, .. }, Cmd::WorkspaceRule { identifier: y0, matching_strategy: y1, .. }) => {
            rule_identifier_words_are_distinct(x0, y0);
            matching_strategy_words_are_distinct(x1, y1);
        },
        (Cmd::FloatRule { identifier: x0, matching_strategy: x1, .. }, Cmd::FloatRule { identifier: y0, matching_strategy: y1, .. }) => {
            rule_identifier_words_are_distinct(x0, y0);
            matching_strategy_words_are_distinct(x1, y1);
        },
        (Cmd::IgnoreRule { identifier: x0, matching_strategy: x1, .. }, Cmd::IgnoreRule { identifier: y0, matching_strategy: y1, .. }) => {
            rule_identifier_words_are_distinct(x0, y0);
            matching_strategy_words_are_distinct(x1, y1);
        },
        _ => {},
    }
}

/// A line of plain words is read as it is written: the name of a subcommand, then
/// one word for each place that spells what has to stand there and does not begin
/// with a dash.
pub proof fn a_plain_line_is_read_as_written(verb: Verb, words: Seq<Seq<char>>)
    requires
        words.len() == verb.shape().params().len(),
        words_fit(verb.shape(), words),
        forall|i: int| 0 <= i < words.len() ==> token_of(#[trigger] words[i]) is Plain,
    ensures
        reading(seq![verb.word()] + words) == Ok::<(Verb, FoundView), MisuseView>(
            (verb, FoundView { values: words, given: Progress::start(verb.shape()).given }),
        ),
{
    let line = seq![verb.word()] + words;
    assert(line[0] == verb.word());
    assert(line.skip(1) =~= words);
    lemma_verb_of(verb);
    plain_words_take_their_places(verb.shape(), words);
}

/// The refusal of a line without line breaks is one line.
pub proof fn a_refusal_is_one_line(words: Seq<Seq<char>>)
    requires
        forall|i: int| 0 <= i < words.len() ==> !(#[trigger] words[i]).contains('\n'),
    ensures
        !refusal(words).contains('\n'),
{
    reveal_strlit("a binding needs a command, `focus left` for example");
    reveal_strlit("`");
    reveal_strlit("`: ");
    reveal_strlit("` cannot be bound to a key, `mochic` runs it itself");
    reveal_strlit("expected a command, not a help or version flag");
    if words.len() > 0 {
        lemma_joined_has_no_break(words);
        if let Err(misuse) = reading(words) {
            one_line_has_no_break(misuse.message());
            let short = in_short(misuse);
            assert(!short.contains('\n'));
            lemma_no_break("`"@, joined(words));
            lemma_no_break("`"@ + joined(words), "`: "@);
            lemma_no_break("`"@ + joined(words) + "`: "@, short);
        } else {
            lemma_no_break("`"@, words[0]);
            lemma_no_break(
                "`"@ + words[0],
                "` cannot be bound to a key, `mochic` runs it itself"@,
            );
        }
    }
}

proof fn lemma_no_break(a: Seq<char>, b: Seq<char>)
    requires
        !a.contains('\n'),
        !b.contains('\n'),
    ensures
        !(a + b).contains('\n'),
{
    let s = a + b;
    assert forall|i: int| 0 <= i < s.len() implies s[i] != '\n' by {
        if i < a.len() {
            assert(a.contains(a[i]));
        } else {
            assert(b.contains(b[i - a.len()]));
        }
    }
}

proof fn lemma_joined_has_no_break(words: Seq<Seq<char>>)
    requires
        forall|i: int| 0 <= i < words.len() ==> !(#[trigger] words[i]).contains('\n'),
    ensures
        !joined(words).contains('\n'),
    decreases words.len(),
{
    reveal_strlit(" ");
    if words.len() > 1 {
        let shorter = words.drop_last();
        assert forall|i: int| 0 <= i < shorter.len() implies !(#[trigger] shorter[i]).contains(
            '\n',
        ) by {
            assert(shorter[i] == words[i]);
        }
        lemma_joined_has_no_break(shorter);
        lemma_no_break(joined(shorter), " "@);
        lemma_no_break(joined(shorter) + " "@, words.last());
    }
}

} // verus!
