//! The subcommands of `mochic` and what stands behind each of their names.

use vstd::prelude::*;

use crate::client::cli::values::Kind;
use crate::text::same;

verus! {

/// A word that has to stand at its place on the command line.
#[derive(Debug, Clone, Copy)]
pub struct Param {
    /// How the argument is called in a message.
    pub label: &'static str,
    /// What the word has to spell.
    pub kind: Kind,
}

/// What a [`Param`] holds.
pub ghost struct ParamView {
    pub label: Seq<char>,
    pub kind: Kind,
}

impl View for Param {
    type V = ParamView;

    open spec fn view(&self) -> ParamView {
        ParamView { label: self.label@, kind: self.kind }
    }
}

/// An argument with a name of its own.
#[derive(Debug, Clone, Copy)]
pub struct Opt {
    /// The name behind two dashes.
    pub long: &'static str,
    /// The letter behind one dash.
    pub short: Option<char>,
    /// How the argument is called in a message.
    pub label: &'static str,
    /// What its value has to spell; a flag takes no value.
    pub kind: Option<Kind>,
}

/// What an [`Opt`] holds.
pub ghost struct OptView {
    pub long: Seq<char>,
    pub short: Option<char>,
    pub label: Seq<char>,
    pub kind: Option<Kind>,
}

impl View for Opt {
    type V = OptView;

    open spec fn view(&self) -> OptView {
        OptView { long: self.long@, short: self.short, label: self.label@, kind: self.kind }
    }
}

/// What the parameters of a list hold.
pub open spec fn param_views(params: Seq<Param>) -> Seq<ParamView> {
    params.map_values(|p: Param| p@)
}

/// What the options of a list hold.
pub open spec fn opt_views(opts: Seq<Opt>) -> Seq<OptView> {
    opts.map_values(|o: Opt| o@)
}

/// What stands behind the name of a subcommand.
#[derive(Debug, Clone, Copy, PartialEq, Eq, Structural)]
pub enum Shape {
    /// Nothing behind the name.
    Bare,
    /// `--json`.
    Json,
    /// A name.
    Name,
    /// What to ask for.
    Target,
    /// A direction.
    Direction,
    /// A way to step.
    Cycle,
    /// An axis.
    Axis,
    /// An axis, and whether to grow or shrink.
    AxisSizing,
    /// An edge, and whether to grow or shrink.
    EdgeSizing,
    /// A zero-based index.
    Index,
    /// On or off.
    State,
    /// What becomes of a new window.
    Container,
    /// What moving past a monitor edge does.
    Crossing,
    /// How a window is taken off screen.
    Hiding,
    /// What a command aimed at an unmanaged window does.
    Operation,
    /// A layout.
    Layout,
    /// A thickness.
    Width,
    /// An offset, which may be negative.
    Offset,
    /// A monitor, a workspace and a padding, which may be negative.
    Padding,
    /// Three channels, and which windows they are for.
    Colour,
    /// A border shape.
    Border,
    /// A time in milliseconds.
    Time,
    /// An easing curve.
    Easing,
    /// Frames per second.
    Rate,
    /// A window property, a value, and how to compare.
    Rule,
    /// A rule, and the workspace its windows open on.
    Route,
    /// How to start the daemon.
    Start,
    /// A file, which may be left out.
    Check,
    /// Where to write to.
    Schema,
}

impl Shape {
    /// The words that have to follow, in order.
    pub open spec fn params(self) -> Seq<ParamView> {
        match self {
            Shape::Name => seq![ParamView { label: "<NAME>"@, kind: Kind::Text }],
            Shape::Target => seq![ParamView { label: "<TARGET>"@, kind: Kind::Target }],
            Shape::Direction => seq![ParamView { label: "<DIRECTION>"@, kind: Kind::Direction }],
            Shape::Cycle => seq![ParamView { label: "<DIRECTION>"@, kind: Kind::Cycle }],
            Shape::Axis => seq![ParamView { label: "<AXIS>"@, kind: Kind::Axis }],
            Shape::AxisSizing => seq![
                ParamView { label: "<AXIS>"@, kind: Kind::Axis },
                ParamView { label: "<SIZING>"@, kind: Kind::Sizing },
            ],
            Shape::EdgeSizing => seq![
                ParamView { label: "<DIRECTION>"@, kind: Kind::Direction },
                ParamView { label: "<SIZING>"@, kind: Kind::Sizing },
            ],
            Shape::Index => seq![ParamView { label: "<INDEX>"@, kind: Kind::Index }],
            Shape::State => seq![ParamView { label: "<STATE>"@, kind: Kind::State }],
            Shape::Container => seq![ParamView { label: "<BEHAVIOUR>"@, kind: Kind::Container }],
            Shape::Crossing => seq![ParamView { label: "<BEHAVIOUR>"@, kind: Kind::Crossing }],
            Shape::Hiding => seq![ParamView { label: "<BEHAVIOUR>"@, kind: Kind::Hiding }],
            Shape::Operation => seq![ParamView { label: "<BEHAVIOUR>"@, kind: Kind::Operation }],
            Shape::Layout => seq![ParamView { label: "<LAYOUT>"@, kind: Kind::Layout }],
            Shape::Width => seq![ParamView { label: "<WIDTH>"@, kind: Kind::Pixels }],
            Shape::Offset => seq![ParamView { label: "<OFFSET>"@, kind: Kind::Pixels }],
            Shape::Padding => seq![
                ParamView { label: "<MONITOR>"@, kind: Kind::Index },
                ParamView { label: "<WORKSPACE>"@, kind: Kind::Index },
                ParamView { label: "<SIZE>"@, kind: Kind::Pixels },
            ],
            Shape::Colour => seq![
                ParamView { label: "<R>"@, kind: Kind::Channel },
                ParamView { label: "<G>"@, kind: Kind::Channel },
                ParamView { label: "<B>"@, kind: Kind::Channel },
            ],
            Shape::Border => seq![ParamView { label: "<STYLE>"@, kind: Kind::Border }],
            Shape::Time => seq![ParamView { label: "<DURATION>"@, kind: Kind::Millis }],
            Shape::Easing => seq![ParamView { label: "<STYLE>"@, kind: Kind::Easing }],
            Shape::Rate => seq![ParamView { label: "<FPS>"@, kind: Kind::Rate }],
            Shape::Rule => seq![
                ParamView { label: "<IDENTIFIER>"@, kind: Kind::Identifier },
                ParamView { label: "<ID>"@, kind: Kind::Text },
            ],
            Shape::Route => seq![
                ParamView { label: "<IDENTIFIER>"@, kind: Kind::Identifier },
                ParamView { label: "<ID>"@, kind: Kind::Text },
                ParamView { label: "<MONITOR>"@, kind: Kind::Index },
                ParamView { label: "<WORKSPACE>"@, kind: Kind::Index },
            ],
            Shape::Check => seq![ParamView { label: "[PATH]"@, kind: Kind::Path }],
            _ => Seq::empty(),
        }
    }

    /// The arguments with a name of their own.
    pub open spec fn opts(self) -> Seq<OptView> {
        match self {
            Shape::Json => seq![
                OptView {
                    long: "json"@,
                    short: None,
                    label: "--json"@,
                    kind: None,
                },
            ],
            Shape::Colour => seq![
                OptView {
                    long: "window-kind"@,
                    short: None,
                    label: "--window-kind <WINDOW_KIND>"@,
                    kind: Some(Kind::Window),
                },
            ],
            Shape::Rule => seq![
                OptView {
                    long: "matching-strategy"@,
                    short: None,
                    label: "--matching-strategy <MATCHING_STRATEGY>"@,
                    kind: Some(Kind::Strategy),
                },
            ],
            Shape::Route => seq![
                OptView {
                    long: "initial-only"@,
                    short: None,
                    label: "--initial-only"@,
                    kind: None,
                },
                OptView {
                    long: "matching-strategy"@,
                    short: None,
                    label: "--matching-strategy <MATCHING_STRATEGY>"@,
                    kind: Some(Kind::Strategy),
                },
            ],
            Shape::Start => seq![
                OptView {
                    long: "config"@,
                    short: None,
                    label: "--config <PATH>"@,
                    kind: Some(Kind::Path),
                },
                OptView {
                    long: "hotkeys"@,
                    short: None,
                    label: "--hotkeys <PATH>"@,
                    kind: Some(Kind::Path),
                },
                OptView {
                    long: "no-hotkeys"@,
                    short: None,
                    label: "--no-hotkeys"@,
                    kind: None,
                },
                OptView {
                    long: "dry-run"@,
                    short: None,
                    label: "--dry-run"@,
                    kind: None,
                },
            ],
            Shape::Schema => seq![
                OptView {
                    long: "output"@,
                    short: Some('o'),
                    label: "--output <OUTPUT>"@,
                    kind: Some(Kind::Path),
                },
            ],
            _ => Seq::empty(),
        }
    }

    /// The two options that exclude each other, by their place among the options.
    #[verifier::allow_in_spec]
    pub fn clash(self) -> Option<(usize, usize)>
        returns
            (if self == Shape::Start {
                Some((1usize, 2usize))
            } else {
                None
            }),
    {
        if self == Shape::Start {
            Some((1, 2))
        } else {
            None
        }
    }

    /// `true` where a word such as `-5` is a number and not an option.
    #[verifier::allow_in_spec]
    pub fn takes_negatives(self) -> bool
        returns
            self == Shape::Offset || self == Shape::Padding,
    {
        self == Shape::Offset || self == Shape::Padding
    }

    /// `true` where the words behind the name may be left out.
    #[verifier::allow_in_spec]
    pub fn may_be_short(self) -> bool
        returns
            self == Shape::Check,
    {
        self == Shape::Check
    }

    /// The words that have to follow, in order.
    pub fn param_list(self) -> (r: Vec<Param>)
        ensures
            param_views(r@) == self.params(),
    {
        let r = match self {
            Shape::Name => vec![Param { label: "<NAME>", kind: Kind::Text }],
            Shape::Target => vec![Param { label: "<TARGET>", kind: Kind::Target }],
            Shape::Direction => vec![Param { label: "<DIRECTION>", kind: Kind::Direction }],
            Shape::Cycle => vec![Param { label: "<DIRECTION>", kind: Kind::Cycle }],
            Shape::Axis => vec![Param { label: "<AXIS>", kind: Kind::Axis }],
            Shape::AxisSizing => vec![
                Param { label: "<AXIS>", kind: Kind::Axis },
                Param { label: "<SIZING>", kind: Kind::Sizing },
            ],
            Shape::EdgeSizing => vec![
                Param { label: "<DIRECTION>", kind: Kind::Direction },
                Param { label: "<SIZING>", kind: Kind::Sizing },
            ],
            Shape::Index => vec![Param { label: "<INDEX>", kind: Kind::Index }],
            Shape::State => vec![Param { label: "<STATE>", kind: Kind::State }],
            Shape::Container => vec![Param { label: "<BEHAVIOUR>", kind: Kind::Container }],
            Shape::Crossing => vec![Param { label: "<BEHAVIOUR>", kind: Kind::Crossing }],
            Shape::Hiding => vec![Param { label: "<BEHAVIOUR>", kind: Kind::Hiding }],
            Shape::Operation => vec![Param { label: "<BEHAVIOUR>", kind: Kind::Operation }],
            Shape::Layout => vec![Param { label: "<LAYOUT>", kind: Kind::Layout }],
            Shape::Width => vec![Param { label: "<WIDTH>", kind: Kind::Pixels }],
            Shape::Offset => vec![Param { label: "<OFFSET>", kind: Kind::Pixels }],
            Shape::Padding => vec![
                Param { label: "<MONITOR>", kind: Kind::Index },
                Param { label: "<WORKSPACE>", kind: Kind::Index },
                Param { label: "<SIZE>", kind: Kind::Pixels },
            ],
            Shape::Colour => vec![
                Param { label: "<R>", kind: Kind::Channel },
                Param { label: "<G>", kind: Kind::Channel },
                Param { label: "<B>", kind: Kind::Channel },
            ],
            Shape::Border => vec![Param { label: "<STYLE>", kind: Kind::Border }],
            Shape::Time => vec![Param { label: "<DURATION>", kind: Kind::Millis }],
            Shape::Easing => vec![Param { label: "<STYLE>", kind: Kind::Easing }],
            Shape::Rate => vec![Param { label: "<FPS>", kind: Kind::Rate }],
            Shape::Rule => vec![
                Param { label: "<IDENTIFIER>", kind: Kind::Identifier },
                Param { label: "<ID>", kind: Kind::Text },
            ],
            Shape::Route => vec![
                Param { label: "<IDENTIFIER>", kind: Kind::Identifier },
                Param { label: "<ID>", kind: Kind::Text },
                Param { label: "<MONITOR>", kind: Kind::Index },
                Param { label: "<WORKSPACE>", kind: Kind::Index },
            ],
            Shape::Check => vec![Param { label: "[PATH]", kind: Kind::Path }],
            _ => Vec::new(),
        };
        assert(param_views(r@) =~= self.params());
        r
    }

    /// The arguments with a name of their own.
    pub fn opt_list(self) -> (r: Vec<Opt>)
        ensures
            opt_views(r@) == self.opts(),
    {
        let r = match self {
            Shape::Json => vec![
                Opt {
                    long: "json",
                    short: None,
                    label: "--json",
                    kind: None,
                },
            ],
            Shape::Colour => vec![
                Opt {
                    long: "window-kind",
                    short: None,
                    label: "--window-kind <WINDOW_KIND>",
                    kind: Some(Kind::Window),
                },
            ],
            Shape::Rule => vec![
                Opt {
                    long: "matching-strategy",
                    short: None,
                    label: "--matching-strategy <MATCHING_STRATEGY>",
                    kind: Some(Kind::Strategy),
                },
            ],
            Shape::Route => vec![
                Opt {
                    long: "initial-only",
                    short: None,
                    label: "--initial-only",
                    kind: None,
                },
                Opt {
                    long: "matching-strategy",
                    short: None,
                    label: "--matching-strategy <MATCHING_STRATEGY>",
                    kind: Some(Kind::Strategy),
                },
            ],
            Shape::Start => vec![
                Opt {
                    long: "config",
                    short: None,
                    label: "--config <PATH>",
                    kind: Some(Kind::Path),
                },
                Opt {
                    long: "hotkeys",
                    short: None,
                    label: "--hotkeys <PATH>",
                    kind: Some(Kind::Path),
                },
                Opt {
                    long: "no-hotkeys",
                    short: None,
                    label: "--no-hotkeys",
                    kind: None,
                },
                Opt {
                    long: "dry-run",
                    short: None,
                    label: "--dry-run",
                    kind: None,
                },
            ],
            Shape::Schema => vec![
                Opt {
                    long: "output",
                    short: Some('o'),
                    label: "--output <OUTPUT>",
                    kind: Some(Kind::Path),
                },
            ],
            _ => Vec::new(),
        };
        assert(opt_views(r@) =~= self.opts());
        r
    }
}

/// The name of a subcommand.
#[derive(Debug, Clone, Copy, PartialEq, Eq, Structural)]
pub enum Verb {
    /// Spelled `start`.
    Start,
    /// Spelled `stop`.
    Stop,
    /// Spelled `quickstart`.
    Quickstart,
    /// Spelled `check`.
    Check,
    /// Spelled `schema`.
    Schema,
    /// Spelled `toggle-pause`.
    TogglePause,
    /// Spelled `toggle-game-mode`.
    ToggleGameMode,
    /// Spelled `reload-configuration`.
    ReloadConfiguration,
    /// Spelled `restore-windows`.
    RestoreWindows,
    /// Spelled `retile`.
    Retile,
    /// Spelled `state`.
    State,
    /// Spelled `query`.
    Query,
    /// Spelled `doctor`.
    Doctor,
    /// Spelled `why`.
    Why,
    /// Spelled `hotkeys`.
    Hotkeys,
    /// Spelled `subscribe`.
    Subscribe,
    /// Spelled `subscribe-pipe`.
    SubscribePipe,
    /// Spelled `unsubscribe-pipe`.
    UnsubscribePipe,
    /// Spelled `focus`.
    Focus,
    /// Spelled `cycle-focus`.
    CycleFocus,
    /// Spelled `move`.
    Move,
    /// Spelled `cycle-move`.
    CycleMove,
    /// Spelled `resize-axis`.
    ResizeAxis,
    /// Spelled `resize-edge`.
    ResizeEdge,
    /// Spelled `promote`.
    Promote,
    /// Spelled `promote-focus`.
    PromoteFocus,
    /// Spelled `toggle-float`.
    ToggleFloat,
    /// Spelled `toggle-float-override`.
    ToggleFloatOverride,
    /// Spelled `toggle-maximize`.
    ToggleMaximize,
    /// Spelled `toggle-monocle`.
    ToggleMonocle,
    /// Spelled `minimize`.
    Minimize,
    /// Spelled `close`.
    Close,
    /// Spelled `manage`.
    Manage,
    /// Spelled `unmanage`.
    Unmanage,
    /// Spelled `stack`.
    Stack,
    /// Spelled `unstack`.
    Unstack,
    /// Spelled `stack-all`.
    StackAll,
    /// Spelled `focus-stack-window`.
    FocusStackWindow,
    /// Spelled `unstack-all`.
    UnstackAll,
    /// Spelled `cycle-stack`.
    CycleStack,
    /// Spelled `cycle-layout`.
    CycleLayout,
    /// Spelled `change-layout`.
    ChangeLayout,
    /// Spelled `flip-layout`.
    FlipLayout,
    /// Spelled `toggle-tiling`.
    ToggleTiling,
    /// Spelled `focus-workspace`.
    FocusWorkspace,
    /// Spelled `move-to-workspace`.
    MoveToWorkspace,
    /// Spelled `send-to-workspace`.
    SendToWorkspace,
    /// Spelled `cycle-workspace`.
    CycleWorkspace,
    /// Spelled `focus-last-workspace`.
    FocusLastWorkspace,
    /// Spelled `focus-named-workspace`.
    FocusNamedWorkspace,
    /// Spelled `move-to-named-workspace`.
    MoveToNamedWorkspace,
    /// Spelled `send-to-named-workspace`.
    SendToNamedWorkspace,
    /// Spelled `workspace-padding`.
    WorkspacePadding,
    /// Spelled `container-padding`.
    ContainerPadding,
    /// Spelled `focus-monitor`.
    FocusMonitor,
    /// Spelled `move-to-monitor`.
    MoveToMonitor,
    /// Spelled `send-to-monitor`.
    SendToMonitor,
    /// Spelled `cycle-monitor`.
    CycleMonitor,
    /// Spelled `focus-follows-mouse`.
    FocusFollowsMouse,
    /// Spelled `window-container-behaviour`.
    WindowContainerBehaviour,
    /// Spelled `toggle-window-container-behaviour`.
    ToggleWindowContainerBehaviour,
    /// Spelled `cross-monitor-move-behaviour`.
    CrossMonitorMoveBehaviour,
    /// Spelled `window-hiding-behaviour`.
    WindowHidingBehaviour,
    /// Spelled `unmanaged-window-operation-behaviour`.
    UnmanagedWindowOperationBehaviour,
    /// Spelled `mouse-follows-focus`.
    MouseFollowsFocus,
    /// Spelled `set-hotkeys`.
    SetHotkeys,
    /// Spelled `toggle-transparency`.
    ToggleTransparency,
    /// Spelled `border`.
    Border,
    /// Spelled `border-width`.
    BorderWidth,
    /// Spelled `border-offset`.
    BorderOffset,
    /// Spelled `border-colour`.
    BorderColour,
    /// Spelled `border-style`.
    BorderStyle,
    /// Spelled `animation`.
    Animation,
    /// Spelled `animation-duration`.
    AnimationDuration,
    /// Spelled `animation-style`.
    AnimationStyle,
    /// Spelled `animation-fps`.
    AnimationFps,
    /// Spelled `manage-rule`.
    ManageRule,
    /// Spelled `workspace-rule`.
    WorkspaceRule,
    /// Spelled `float-rule`.
    FloatRule,
    /// Spelled `ignore-rule`.
    IgnoreRule,
}

impl Verb {
    /// How the subcommand is spelled.
    pub open spec fn word(self) -> Seq<char> {
        match self {
            Verb::Start => "start"@,
            Verb::Stop => "stop"@,
            Verb::Quickstart => "quickstart"@,
            Verb::Check => "check"@,
            Verb::Schema => "schema"@,
            Verb::TogglePause => "toggle-pause"@,
            Verb::ToggleGameMode => "toggle-game-mode"@,
            Verb::ReloadConfiguration => "reload-configuration"@,
            Verb::RestoreWindows => "restore-windows"@,
            Verb::Retile => "retile"@,
            Verb::State => "state"@,
            Verb::Query => "query"@,
            Verb::Doctor => "doctor"@,
            Verb::Why => "why"@,
            Verb::Hotkeys => "hotkeys"@,
            Verb::Subscribe => "subscribe"@,
            Verb::SubscribePipe => "subscribe-pipe"@,
            Verb::UnsubscribePipe => "unsubscribe-pipe"@,
            Verb::Focus => "focus"@,
            Verb::CycleFocus => "cycle-focus"@,
            Verb::Move => "move"@,
            Verb::CycleMove => "cycle-move"@,
            Verb::ResizeAxis => "resize-axis"@,
            Verb::ResizeEdge => "resize-edge"@,
            Verb::Promote => "promote"@,
            Verb::PromoteFocus => "promote-focus"@,
            Verb::ToggleFloat => "toggle-float"@,
            Verb::ToggleFloatOverride => "toggle-float-override"@,
            Verb::ToggleMaximize => "toggle-maximize"@,
            Verb::ToggleMonocle => "toggle-monocle"@,
            Verb::Minimize => "minimize"@,
            Verb::Close => "close"@,
            Verb::Manage => "manage"@,
            Verb::Unmanage => "unmanage"@,
            Verb::Stack => "stack"@,
            Verb::Unstack => "unstack"@,
            Verb::StackAll => "stack-all"@,
            Verb::FocusStackWindow => "focus-stack-window"@,
            Verb::UnstackAll => "unstack-all"@,
            Verb::CycleStack => "cycle-stack"@,
            Verb::CycleLayout => "cycle-layout"@,
            Verb::ChangeLayout => "change-layout"@,
            Verb::FlipLayout => "flip-layout"@,
            Verb::ToggleTiling => "toggle-tiling"@,
            Verb::FocusWorkspace => "focus-workspace"@,
            Verb::MoveToWorkspace => "move-to-workspace"@,
            Verb::SendToWorkspace => "send-to-workspace"@,
            Verb::CycleWorkspace => "cycle-workspace"@,
            Verb::FocusLastWorkspace => "focus-last-workspace"@,
            Verb::FocusNamedWorkspace => "focus-named-workspace"@,
            Verb::MoveToNamedWorkspace => "move-to-named-workspace"@,
            Verb::SendToNamedWorkspace => "send-to-named-workspace"@,
            Verb::WorkspacePadding => "workspace-padding"@,
            Verb::ContainerPadding => "container-padding"@,
            Verb::FocusMonitor => "focus-monitor"@,
            Verb::MoveToMonitor => "move-to-monitor"@,
            Verb::SendToMonitor => "send-to-monitor"@,
            Verb::CycleMonitor => "cycle-monitor"@,
            Verb::FocusFollowsMouse => "focus-follows-mouse"@,
            Verb::WindowContainerBehaviour => "window-container-behaviour"@,
            Verb::ToggleWindowContainerBehaviour => "toggle-window-container-behaviour"@,
            Verb::CrossMonitorMoveBehaviour => "cross-monitor-move-behaviour"@,
            Verb::WindowHidingBehaviour => "window-hiding-behaviour"@,
            Verb::UnmanagedWindowOperationBehaviour => "unmanaged-window-operation-behaviour"@,
            Verb::MouseFollowsFocus => "mouse-follows-focus"@,
            Verb::SetHotkeys => "set-hotkeys"@,
            Verb::ToggleTransparency => "toggle-transparency"@,
            Verb::Border => "border"@,
            Verb::BorderWidth => "border-width"@,
            Verb::BorderOffset => "border-offset"@,
            Verb::BorderColour => "border-colour"@,
            Verb::BorderStyle => "border-style"@,
            Verb::Animation => "animation"@,
            Verb::AnimationDuration => "animation-duration"@,
            Verb::AnimationStyle => "animation-style"@,
            Verb::AnimationFps => "animation-fps"@,
            Verb::ManageRule => "manage-rule"@,
            Verb::WorkspaceRule => "workspace-rule"@,
            Verb::FloatRule => "float-rule"@,
            Verb::IgnoreRule => "ignore-rule"@,
        }
    }

    /// The place of the subcommand among all of them.
    pub open spec fn place(self) -> int {
        match self {
            Verb::Start => 0,
            Verb::Stop => 1,
            Verb::Quickstart => 2,
            Verb::Check => 3,
            Verb::Schema => 4,
            Verb::TogglePause => 5,
            Verb::ToggleGameMode => 6,
            Verb::ReloadConfiguration => 7,
            Verb::RestoreWindows => 8,
            Verb::Retile => 9,
            Verb::State => 10,
            Verb::Query => 11,
            Verb::Doctor => 12,
            Verb::Why => 13,
            Verb::Hotkeys => 14,
            Verb::Subscribe => 15,
            Verb::SubscribePipe => 16,
            Verb::UnsubscribePipe => 17,
            Verb::Focus => 18,
            Verb::CycleFocus => 19,
            Verb::Move => 20,
            Verb::CycleMove => 21,
            Verb::ResizeAxis => 22,
            Verb::ResizeEdge => 23,
            Verb::Promote => 24,
            Verb::PromoteFocus => 25,
            Verb::ToggleFloat => 26,
            Verb::ToggleFloatOverride => 27,
            Verb::ToggleMaximize => 28,
            Verb::ToggleMonocle => 29,
            Verb::Minimize => 30,
            Verb::Close => 31,
            Verb::Manage => 32,
            Verb::Unmanage => 33,
            Verb::Stack => 34,
            Verb::Unstack => 35,
            Verb::StackAll => 36,
            Verb::FocusStackWindow => 37,
            Verb::UnstackAll => 38,
            Verb::CycleStack => 39,
            Verb::CycleLayout => 40,
            Verb::ChangeLayout => 41,
            Verb::FlipLayout => 42,
            Verb::ToggleTiling => 43,
            Verb::FocusWorkspace => 44,
            Verb::MoveToWorkspace => 45,
            Verb::SendToWorkspace => 46,
            Verb::CycleWorkspace => 47,
            Verb::FocusLastWorkspace => 48,
            Verb::FocusNamedWorkspace => 49,
            Verb::MoveToNamedWorkspace => 50,
            Verb::SendToNamedWorkspace => 51,
            Verb::WorkspacePadding => 52,
            Verb::ContainerPadding => 53,
            Verb::FocusMonitor => 54,
            Verb::MoveToMonitor => 55,
            Verb::SendToMonitor => 56,
            Verb::CycleMonitor => 57,
            Verb::FocusFollowsMouse => 58,
            Verb::WindowContainerBehaviour => 59,
            Verb::ToggleWindowContainerBehaviour => 60,
            Verb::CrossMonitorMoveBehaviour => 61,
            Verb::WindowHidingBehaviour => 62,
            Verb::UnmanagedWindowOperationBehaviour => 63,
            Verb::MouseFollowsFocus => 64,
            Verb::SetHotkeys => 65,
            Verb::ToggleTransparency => 66,
            Verb::Border => 67,
            Verb::BorderWidth => 68,
            Verb::BorderOffset => 69,
            Verb::BorderColour => 70,
            Verb::BorderStyle => 71,
            Verb::Animation => 72,
            Verb::AnimationDuration => 73,
            Verb::AnimationStyle => 74,
            Verb::AnimationFps => 75,
            Verb::ManageRule => 76,
            Verb::WorkspaceRule => 77,
            Verb::FloatRule => 78,
            Verb::IgnoreRule => 79,
        }
    }

    /// What stands behind the name.
    pub open spec fn shape(self) -> Shape {
        match self {
            Verb::Doctor | Verb::Why | Verb::Hotkeys => Shape::Json,
            Verb::Subscribe
            | Verb::SubscribePipe
            | Verb::UnsubscribePipe
            | Verb::FocusNamedWorkspace
            | Verb::MoveToNamedWorkspace
            | Verb::SendToNamedWorkspace => Shape::Name,
            Verb::Query => Shape::Target,
            Verb::Focus | Verb::Move | Verb::Stack => Shape::Direction,
            Verb::CycleFocus
            | Verb::CycleMove
            | Verb::CycleStack
            | Verb::CycleLayout
            | Verb::CycleWorkspace
            | Verb::CycleMonitor => Shape::Cycle,
            Verb::FlipLayout => Shape::Axis,
            Verb::ResizeAxis => Shape::AxisSizing,
            Verb::ResizeEdge => Shape::EdgeSizing,
            Verb::FocusStackWindow
            | Verb::FocusWorkspace
            | Verb::MoveToWorkspace
            | Verb::SendToWorkspace
            | Verb::FocusMonitor
            | Verb::MoveToMonitor
            | Verb::SendToMonitor => Shape::Index,
            Verb::FocusFollowsMouse
            | Verb::MouseFollowsFocus
            | Verb::SetHotkeys
            | Verb::Border
            | Verb::Animation => Shape::State,
            Verb::WindowContainerBehaviour => Shape::Container,
            Verb::CrossMonitorMoveBehaviour => Shape::Crossing,
            Verb::WindowHidingBehaviour => Shape::Hiding,
            Verb::UnmanagedWindowOperationBehaviour => Shape::Operation,
            Verb::ChangeLayout => Shape::Layout,
            Verb::BorderWidth => Shape::Width,
            Verb::BorderOffset => Shape::Offset,
            Verb::WorkspacePadding | Verb::ContainerPadding => Shape::Padding,
            Verb::BorderColour => Shape::Colour,
            Verb::BorderStyle => Shape::Border,
            Verb::AnimationDuration => Shape::Time,
            Verb::AnimationStyle => Shape::Easing,
            Verb::AnimationFps => Shape::Rate,
            Verb::ManageRule | Verb::FloatRule | Verb::IgnoreRule => Shape::Rule,
            Verb::WorkspaceRule => Shape::Route,
            Verb::Start => Shape::Start,
            Verb::Check => Shape::Check,
            Verb::Schema => Shape::Schema,
            _ => Shape::Bare,
        }
    }

    /// What stands behind the name.
    pub fn form(self) -> (r: Shape)
        ensures
            r == self.shape(),
    {
        match self {
            Verb::Doctor | Verb::Why | Verb::Hotkeys => Shape::Json,
            Verb::Subscribe
            | Verb::SubscribePipe
            | Verb::UnsubscribePipe
            | Verb::FocusNamedWorkspace
            | Verb::MoveToNamedWorkspace
            | Verb::SendToNamedWorkspace => Shape::Name,
            Verb::Query => Shape::Target,
            Verb::Focus | Verb::Move | Verb::Stack => Shape::Direction,
            Verb::CycleFocus
            | Verb::CycleMove
            | Verb::CycleStack
            | Verb::CycleLayout
            | Verb::CycleWorkspace
            | Verb::CycleMonitor => Shape::Cycle,
            Verb::FlipLayout => Shape::Axis,
            Verb::ResizeAxis => Shape::AxisSizing,
            Verb::ResizeEdge => Shape::EdgeSizing,
            Verb::FocusStackWindow
            | Verb::FocusWorkspace
            | Verb::MoveToWorkspace
            | Verb::SendToWorkspace
            | Verb::FocusMonitor
            | Verb::MoveToMonitor
            | Verb::SendToMonitor => Shape::Index,
            Verb::FocusFollowsMouse
            | Verb::MouseFollowsFocus
            | Verb::SetHotkeys
            | Verb::Border
            | Verb::Animation => Shape::State,
            Verb::WindowContainerBehaviour => Shape::Container,
            Verb::CrossMonitorMoveBehaviour => Shape::Crossing,
            Verb::WindowHidingBehaviour => Shape::Hiding,
            Verb::UnmanagedWindowOperationBehaviour => Shape::Operation,
            Verb::ChangeLayout => Shape::Layout,
            Verb::BorderWidth => Shape::Width,
            Verb::BorderOffset => Shape::Offset,
            Verb::WorkspacePadding | Verb::ContainerPadding => Shape::Padding,
            Verb::BorderColour => Shape::Colour,
            Verb::BorderStyle => Shape::Border,
            Verb::AnimationDuration => Shape::Time,
            Verb::AnimationStyle => Shape::Easing,
            Verb::AnimationFps => Shape::Rate,
            Verb::ManageRule | Verb::FloatRule | Verb::IgnoreRule => Shape::Rule,
            Verb::WorkspaceRule => Shape::Route,
            Verb::Start => Shape::Start,
            Verb::Check => Shape::Check,
            Verb::Schema => Shape::Schema,
            _ => Shape::Bare,
        }
    }

    /// `true` for the subcommands that send a command to the daemon. The others
    /// are carried out by `mochic` itself.
    #[verifier::allow_in_spec]
    pub fn is_sent(self) -> bool
        returns
            !(self == Verb::Start || self == Verb::Quickstart || self == Verb::Schema || self
                == Verb::Check || self == Verb::Subscribe),
    {
        !(self == Verb::Start || self == Verb::Quickstart || self == Verb::Schema || self
            == Verb::Check || self == Verb::Subscribe)
    }

    /// How the subcommand is spelled.
    #[must_use]
    pub fn as_str(self) -> (r: &'static str)
        ensures
            r@ == self.word(),
    {
        match self {
            Verb::Start => "start",
            Verb::Stop => "stop",
            Verb::Quickstart => "quickstart",
            Verb::Check => "check",
            Verb::Schema => "schema",
            Verb::TogglePause => "toggle-pause",
            Verb::ToggleGameMode => "toggle-game-mode",
            Verb::ReloadConfiguration => "reload-configuration",
            Verb::RestoreWindows => "restore-windows",
            Verb::Retile => "retile",
            Verb::State => "state",
            Verb::Query => "query",
            Verb::Doctor => "doctor",
            Verb::Why => "why",
            Verb::Hotkeys => "hotkeys",
            Verb::Subscribe => "subscribe",
            Verb::SubscribePipe => "subscribe-pipe",
            Verb::UnsubscribePipe => "unsubscribe-pipe",
            Verb::Focus => "focus",
            Verb::CycleFocus => "cycle-focus",
            Verb::Move => "move",
            Verb::CycleMove => "cycle-move",
            Verb::ResizeAxis => "resize-axis",
            Verb::ResizeEdge => "resize-edge",
            Verb::Promote => "promote",
            Verb::PromoteFocus => "promote-focus",
            Verb::ToggleFloat => "toggle-float",
            Verb::ToggleFloatOverride => "toggle-float-override",
            Verb::ToggleMaximize => "toggle-maximize",
            Verb::ToggleMonocle => "toggle-monocle",
            Verb::Minimize => "minimize",
            Verb::Close => "close",
            Verb::Manage => "manage",
            Verb::Unmanage => "unmanage",
            Verb::Stack => "stack",
            Verb::Unstack => "unstack",
            Verb::StackAll => "stack-all",
            Verb::FocusStackWindow => "focus-stack-window",
            Verb::UnstackAll => "unstack-all",
            Verb::CycleStack => "cycle-stack",
            Verb::CycleLayout => "cycle-layout",
            Verb::ChangeLayout => "change-layout",
            Verb::FlipLayout => "flip-layout",
            Verb::ToggleTiling => "toggle-tiling",
            Verb::FocusWorkspace => "focus-workspace",
            Verb::MoveToWorkspace => "move-to-workspace",
            Verb::SendToWorkspace => "send-to-workspace",
            Verb::CycleWorkspace => "cycle-workspace",
            Verb::FocusLastWorkspace => "focus-last-workspace",
            Verb::FocusNamedWorkspace => "focus-named-workspace",
            Verb::MoveToNamedWorkspace => "move-to-named-workspace",
            Verb::SendToNamedWorkspace => "send-to-named-workspace",
            Verb::WorkspacePadding => "workspace-padding",
            Verb::ContainerPadding => "container-padding",
            Verb::FocusMonitor => "focus-monitor",
            Verb::MoveToMonitor => "move-to-monitor",
            Verb::SendToMonitor => "send-to-monitor",
            Verb::CycleMonitor => "cycle-monitor",
            Verb::FocusFollowsMouse => "focus-follows-mouse",
            Verb::WindowContainerBehaviour => "window-container-behaviour",
            Verb::ToggleWindowContainerBehaviour => "toggle-window-container-behaviour",
            Verb::CrossMonitorMoveBehaviour => "cross-monitor-move-behaviour",
            Verb::WindowHidingBehaviour => "window-hiding-behaviour",
            Verb::UnmanagedWindowOperationBehaviour => "unmanaged-window-operation-behaviour",
            Verb::MouseFollowsFocus => "mouse-follows-focus",
            Verb::SetHotkeys => "set-hotkeys",
            Verb::ToggleTransparency => "toggle-transparency",
            Verb::Border => "border",
            Verb::BorderWidth => "border-width",
            Verb::BorderOffset => "border-offset",
            Verb::BorderColour => "border-colour",
            Verb::BorderStyle => "border-style",
            Verb::Animation => "animation",
            Verb::AnimationDuration => "animation-duration",
            Verb::AnimationStyle => "animation-style",
            Verb::AnimationFps => "animation-fps",
            Verb::ManageRule => "manage-rule",
            Verb::WorkspaceRule => "workspace-rule",
            Verb::FloatRule => "float-rule",
            Verb::IgnoreRule => "ignore-rule",
        }
    }

    /// Every subcommand, in the order of the help text.
    pub const ALL: [Self; 80] = [
        Verb::Start,
        Verb::Stop,
        Verb::Quickstart,
        Verb::Check,
        Verb::Schema,
        Verb::TogglePause,
        Verb::ToggleGameMode,
        Verb::ReloadConfiguration,
        Verb::RestoreWindows,
        Verb::Retile,
        Verb::State,
        Verb::Query,
        Verb::Doctor,
        Verb::Why,
        Verb::Hotkeys,
        Verb::Subscribe,
        Verb::SubscribePipe,
        Verb::UnsubscribePipe,
        Verb::Focus,
        Verb::CycleFocus,
        Verb::Move,
        Verb::CycleMove,
        Verb::ResizeAxis,
        Verb::ResizeEdge,
        Verb::Promote,
        Verb::PromoteFocus,
        Verb::ToggleFloat,
        Verb::ToggleFloatOverride,
        Verb::ToggleMaximize,
        Verb::ToggleMonocle,
        Verb::Minimize,
        Verb::Close,
        Verb::Manage,
        Verb::Unmanage,
        Verb::Stack,
        Verb::Unstack,
        Verb::StackAll,
        Verb::FocusStackWindow,
        Verb::UnstackAll,
        Verb::CycleStack,
        Verb::CycleLayout,
        Verb::ChangeLayout,
        Verb::FlipLayout,
        Verb::ToggleTiling,
        Verb::FocusWorkspace,
        Verb::MoveToWorkspace,
        Verb::SendToWorkspace,
        Verb::CycleWorkspace,
        Verb::FocusLastWorkspace,
        Verb::FocusNamedWorkspace,
        Verb::MoveToNamedWorkspace,
        Verb::SendToNamedWorkspace,
        Verb::WorkspacePadding,
        Verb::ContainerPadding,
        Verb::FocusMonitor,
        Verb::MoveToMonitor,
        Verb::SendToMonitor,
        Verb::CycleMonitor,
        Verb::FocusFollowsMouse,
        Verb::WindowContainerBehaviour,
        Verb::ToggleWindowContainerBehaviour,
        Verb::CrossMonitorMoveBehaviour,
        Verb::WindowHidingBehaviour,
        Verb::UnmanagedWindowOperationBehaviour,
        Verb::MouseFollowsFocus,
        Verb::SetHotkeys,
        Verb::ToggleTransparency,
        Verb::Border,
        Verb::BorderWidth,
        Verb::BorderOffset,
        Verb::BorderColour,
        Verb::BorderStyle,
        Verb::Animation,
        Verb::AnimationDuration,
        Verb::AnimationStyle,
        Verb::AnimationFps,
        Verb::ManageRule,
        Verb::WorkspaceRule,
        Verb::FloatRule,
        Verb::IgnoreRule,
    ];

    /// The subcommand spelled exactly like `s`.
    #[must_use]
    pub fn named(s: &str) -> (r: Option<Self>)
        ensures
            match r {
                Some(v) => s@ == v.word(),
                None => forall|v: Self| s@ != #[trigger] v.word(),
            },
    {
        let all = Verb::ALL;
        for i in 0..all.len()
            invariant
                all@ == Verb::ALL@,
                forall|j: int| 0 <= j < i ==> s@ != (#[trigger] all@[j]).word(),
        {
            if same(s, all[i].as_str()) {
                return Some(all[i]);
            }
        }
        assert forall|v: Self| s@ != #[trigger] v.word() by {
            every_verb_is_listed(v);
            assert(all@[v.place()] == v);
        }
        None
    }
}

/// Every subcommand is in [`Verb::ALL`], at its place.
pub proof fn every_verb_is_listed(v: Verb)
    ensures
        0 <= v.place() < Verb::ALL@.len(),
        Verb::ALL@[v.place()] == v,
{
    let all = Verb::ALL@;
    match v {
        Verb::Start => assert(all[0] == Verb::Start),
        Verb::Stop => assert(all[1] == Verb::Stop),
        Verb::Quickstart => assert(all[2] == Verb::Quickstart),
        Verb::Check => assert(all[3] == Verb::Check),
        Verb::Schema => assert(all[4] == Verb::Schema),
        Verb::TogglePause => assert(all[5] == Verb::TogglePause),
        Verb::ToggleGameMode => assert(all[6] == Verb::ToggleGameMode),
        Verb::ReloadConfiguration => assert(all[7] == Verb::ReloadConfiguration),
        Verb::RestoreWindows => assert(all[8] == Verb::RestoreWindows),
        Verb::Retile => assert(all[9] == Verb::Retile),
        Verb::State => assert(all[10] == Verb::State),
        Verb::Query => assert(all[11] == Verb::Query),
        Verb::Doctor => assert(all[12] == Verb::Doctor),
        Verb::Why => assert(all[13] == Verb::Why),
        Verb::Hotkeys => assert(all[14] == Verb::Hotkeys),
        Verb::Subscribe => assert(all[15] == Verb::Subscribe),
        Verb::SubscribePipe => assert(all[16] == Verb::SubscribePipe),
        Verb::UnsubscribePipe => assert(all[17] == Verb::UnsubscribePipe),
        Verb::Focus => assert(all[18] == Verb::Focus),
        Verb::CycleFocus => assert(all[19] == Verb::CycleFocus),
        Verb::Move => assert(all[20] == Verb::Move),
        Verb::CycleMove => assert(all[21] == Verb::CycleMove),
        Verb::ResizeAxis => assert(all[22] == Verb::ResizeAxis),
        Verb::ResizeEdge => assert(all[23] == Verb::ResizeEdge),
        Verb::Promote => assert(all[24] == Verb::Promote),
        Verb::PromoteFocus => assert(all[25] == Verb::PromoteFocus),
        Verb::ToggleFloat => assert(all[26] == Verb::ToggleFloat),
        Verb::ToggleFloatOverride => assert(all[27] == Verb::ToggleFloatOverride),
        Verb::ToggleMaximize => assert(all[28] == Verb::ToggleMaximize),
        Verb::ToggleMonocle => assert(all[29] == Verb::ToggleMonocle),
        Verb::Minimize => assert(all[30] == Verb::Minimize),
        Verb::Close => assert(all[31] == Verb::Close),
        Verb::Manage => assert(all[32] == Verb::Manage),
        Verb::Unmanage => assert(all[33] == Verb::Unmanage),
        Verb::Stack => assert(all[34] == Verb::Stack),
        Verb::Unstack => assert(all[35] == Verb::Unstack),
        Verb::StackAll => assert(all[36] == Verb::StackAll),
        Verb::FocusStackWindow => assert(all[37] == Verb::FocusStackWindow),
        Verb::UnstackAll => assert(all[38] == Verb::UnstackAll),
        Verb::CycleStack => assert(all[39] == Verb::CycleStack),
        Verb::CycleLayout => assert(all[40] == Verb::CycleLayout),
        Verb::ChangeLayout => assert(all[41] == Verb::ChangeLayout),
        Verb::FlipLayout => assert(all[42] == Verb::FlipLayout),
        Verb::ToggleTiling => assert(all[43] == Verb::ToggleTiling),
        Verb::FocusWorkspace => assert(all[44] == Verb::FocusWorkspace),
        Verb::MoveToWorkspace => assert(all[45] == Verb::MoveToWorkspace),
        Verb::SendToWorkspace => assert(all[46] == Verb::SendToWorkspace),
        Verb::CycleWorkspace => assert(all[47] == Verb::CycleWorkspace),
        Verb::FocusLastWorkspace => assert(all[48] == Verb::FocusLastWorkspace),
        Verb::FocusNamedWorkspace => assert(all[49] == Verb::FocusNamedWorkspace),
        Verb::MoveToNamedWorkspace => assert(all[50] == Verb::MoveToNamedWorkspace),
        Verb::SendToNamedWorkspace => assert(all[51] == Verb::SendToNamedWorkspace),
        Verb::WorkspacePadding => assert(all[52] == Verb::WorkspacePadding),
        Verb::ContainerPadding => assert(all[53] == Verb::ContainerPadding),
        Verb::FocusMonitor => assert(all[54] == Verb::FocusMonitor),
        Verb::MoveToMonitor => assert(all[55] == Verb::MoveToMonitor),
        Verb::SendToMonitor => assert(all[56] == Verb::SendToMonitor),
        Verb::CycleMonitor => assert(all[57] == Verb::CycleMonitor),
        Verb::FocusFollowsMouse => assert(all[58] == Verb::FocusFollowsMouse),
        Verb::WindowContainerBehaviour => assert(all[59] == Verb::WindowContainerBehaviour),
        Verb::ToggleWindowContainerBehaviour => assert(all[60] == Verb::ToggleWindowContainerBehaviour),
        Verb::CrossMonitorMoveBehaviour => assert(all[61] == Verb::CrossMonitorMoveBehaviour),
        Verb::WindowHidingBehaviour => assert(all[62] == Verb::WindowHidingBehaviour),
        Verb::UnmanagedWindowOperationBehaviour => assert(all[63] == Verb::UnmanagedWindowOperationBehaviour),
        Verb::MouseFollowsFocus => assert(all[64] == Verb::MouseFollowsFocus),
        Verb::SetHotkeys => assert(all[65] == Verb::SetHotkeys),
        Verb::ToggleTransparency => assert(all[66] == Verb::ToggleTransparency),
        Verb::Border => assert(all[67] == Verb::Border),
        Verb::BorderWidth => assert(all[68] == Verb::BorderWidth),
        Verb::BorderOffset => assert(all[69] == Verb::BorderOffset),
        Verb::BorderColour => assert(all[70] == Verb::BorderColour),
        Verb::BorderStyle => assert(all[71] == Verb::BorderStyle),
        Verb::Animation => assert(all[72] == Verb::Animation),
        Verb::AnimationDuration => assert(all[73] == Verb::AnimationDuration),
        Verb::AnimationStyle => assert(all[74] == Verb::AnimationStyle),
        Verb::AnimationFps => assert(all[75] == Verb::AnimationFps),
        Verb::ManageRule => assert(all[76] == Verb::ManageRule),
        Verb::WorkspaceRule => assert(all[77] == Verb::WorkspaceRule),
        Verb::FloatRule => assert(all[78] == Verb::FloatRule),
        Verb::IgnoreRule => assert(all[79] == Verb::IgnoreRule),
    }
}

/// How many characters the word has.
spec fn word_len(x: Verb) -> int {
    match x {
        Verb::Start => 5,
        Verb::Stop => 4,
        Verb::Quickstart => 10,
        Verb::Check => 5,
        Verb::Schema => 6,
        Verb::TogglePause => 12,
        Verb::ToggleGameMode => 16,
        Verb::ReloadConfiguration => 20,
        Verb::RestoreWindows => 15,
        Verb::Retile => 6,
        Verb::State => 5,
        Verb::Query => 5,
        Verb::Doctor => 6,
        Verb::Why => 3,
        Verb::Hotkeys => 7,
        Verb::Subscribe => 9,
        Verb::SubscribePipe => 14,
        Verb::UnsubscribePipe => 16,
        Verb::Focus => 5,
        Verb::CycleFocus => 11,
        Verb::Move => 4,
        Verb::CycleMove => 10,
        Verb::ResizeAxis => 11,
        Verb::ResizeEdge => 11,
        Verb::Promote => 7,
        Verb::PromoteFocus => 13,
        Verb::ToggleFloat => 12,
        Verb::ToggleFloatOverride => 21,
        Verb::ToggleMaximize => 15,
        Verb::ToggleMonocle => 14,
        Verb::Minimize => 8,
        Verb::Close => 5,
        Verb::Manage => 6,
        Verb::Unmanage => 8,
        Verb::Stack => 5,
        Verb::Unstack => 7,
        Verb::StackAll => 9,
        Verb::FocusStackWindow => 18,
        Verb::UnstackAll => 11,
        Verb::CycleStack => 11,
        Verb::CycleLayout => 12,
        Verb::ChangeLayout => 13,
        Verb::FlipLayout => 11,
        Verb::ToggleTiling => 13,
        Verb::FocusWorkspace => 15,
        Verb::MoveToWorkspace => 17,
        Verb::SendToWorkspace => 17,
        Verb::CycleWorkspace => 15,
        Verb::FocusLastWorkspace => 20,
        Verb::FocusNamedWorkspace => 21,
        Verb::MoveToNamedWorkspace => 23,
        Verb::SendToNamedWorkspace => 23,
        Verb::WorkspacePadding => 17,
        Verb::ContainerPadding => 17,
        Verb::FocusMonitor => 13,
        Verb::MoveToMonitor => 15,
        Verb::SendToMonitor => 15,
        Verb::CycleMonitor => 13,
        Verb::FocusFollowsMouse => 19,
        Verb::WindowContainerBehaviour => 26,
        Verb::ToggleWindowContainerBehaviour => 33,
        Verb::CrossMonitorMoveBehaviour => 28,
        Verb::WindowHidingBehaviour => 23,
        Verb::UnmanagedWindowOperationBehaviour => 36,
        Verb::MouseFollowsFocus => 19,
        Verb::SetHotkeys => 11,
        Verb::ToggleTransparency => 19,
        Verb::Border => 6,
        Verb::BorderWidth => 12,
        Verb::BorderOffset => 13,
        Verb::BorderColour => 13,
        Verb::BorderStyle => 12,
        Verb::Animation => 9,
        Verb::AnimationDuration => 18,
        Verb::AnimationStyle => 15,
        Verb::AnimationFps => 13,
        Verb::ManageRule => 11,
        Verb::WorkspaceRule => 14,
        Verb::FloatRule => 10,
        Verb::IgnoreRule => 11,
    }
}

proof fn word_has_its_length(x: Verb)
    ensures
        x.word().len() == word_len(x),
{
    reveal_strlit("start");
    reveal_strlit("stop");
    reveal_strlit("quickstart");
    reveal_strlit("check");
    reveal_strlit("schema");
    reveal_strlit("toggle-pause");
    reveal_strlit("toggle-game-mode");
    reveal_strlit("reload-configuration");
    reveal_strlit("restore-windows");
    reveal_strlit("retile");
    reveal_strlit("state");
    reveal_strlit("query");
    reveal_strlit("doctor");
    reveal_strlit("why");
    reveal_strlit("hotkeys");
    reveal_strlit("subscribe");
    reveal_strlit("subscribe-pipe");
    reveal_strlit("unsubscribe-pipe");
    reveal_strlit("focus");
    reveal_strlit("cycle-focus");
    reveal_strlit("move");
    reveal_strlit("cycle-move");
    reveal_strlit("resize-axis");
    reveal_strlit("resize-edge");
    reveal_strlit("promote");
    reveal_strlit("promote-focus");
    reveal_strlit("toggle-float");
    reveal_strlit("toggle-float-override");
    reveal_strlit("toggle-maximize");
    reveal_strlit("toggle-monocle");
    reveal_strlit("minimize");
    reveal_strlit("close");
    reveal_strlit("manage");
    reveal_strlit("unmanage");
    reveal_strlit("stack");
    reveal_strlit("unstack");
    reveal_strlit("stack-all");
    reveal_strlit("focus-stack-window");
    reveal_strlit("unstack-all");
    reveal_strlit("cycle-stack");
    reveal_strlit("cycle-layout");
    reveal_strlit("change-layout");
    reveal_strlit("flip-layout");
    reveal_strlit("toggle-tiling");
    reveal_strlit("focus-workspace");
    reveal_strlit("move-to-workspace");
    reveal_strlit("send-to-workspace");
    reveal_strlit("cycle-workspace");
    reveal_strlit("focus-last-workspace");
    reveal_strlit("focus-named-workspace");
    reveal_strlit("move-to-named-workspace");
    reveal_strlit("send-to-named-workspace");
    reveal_strlit("workspace-padding");
    reveal_strlit("container-padding");
    reveal_strlit("focus-monitor");
    reveal_strlit("move-to-monitor");
    reveal_strlit("send-to-monitor");
    reveal_strlit("cycle-monitor");
    reveal_strlit("focus-follows-mouse");
    reveal_strlit("window-container-behaviour");
    reveal_strlit("toggle-window-container-behaviour");
    reveal_strlit("cross-monitor-move-behaviour");
    reveal_strlit("window-hiding-behaviour");
    reveal_strlit("unmanaged-window-operation-behaviour");
    reveal_strlit("mouse-follows-focus");
    reveal_strlit("set-hotkeys");
    reveal_strlit("toggle-transparency");
    reveal_strlit("border");
    reveal_strlit("border-width");
    reveal_strlit("border-offset");
    reveal_strlit("border-colour");
    reveal_strlit("border-style");
    reveal_strlit("animation");
    reveal_strlit("animation-duration");
    reveal_strlit("animation-style");
    reveal_strlit("animation-fps");
    reveal_strlit("manage-rule");
    reveal_strlit("workspace-rule");
    reveal_strlit("float-rule");
    reveal_strlit("ignore-rule");
}

proof fn words_of_4_are_distinct(a: Verb, b: Verb)
    requires
        a.word() == b.word(),
        word_len(a) == 4,
        word_len(b) == 4,
    ensures
        a.place() == b.place(),
{
    reveal_strlit("stop");
    reveal_strlit("move");
    assert("move"@[0] == 'm');
    assert("stop"@[0] == 's');
}

proof fn words_of_5_are_distinct(a: Verb, b: Verb)
    requires
        a.word() == b.word(),
        word_len(a) == 5,
        word_len(b) == 5,
    ensures
        a.place() == b.place(),
{
    reveal_strlit("start");
    reveal_strlit("check");
    reveal_strlit("state");
    reveal_strlit("query");
    reveal_strlit("focus");
    reveal_strlit("close");
    reveal_strlit("stack");
    assert("check"@[0] == 'c');
    assert("check"@[1] == 'h');
    assert("close"@[0] == 'c');
    assert("close"@[1] == 'l');
    assert("focus"@[0] == 'f');
    assert("query"@[0] == 'q');
    assert("stack"@[0] == 's');
    assert("stack"@[3] == 'c');
    assert("start"@[0] == 's');
    assert("start"@[3] == 'r');
    assert("state"@[0] == 's');
    assert("state"@[3] == 't');
}

proof fn words_of_6_are_distinct(a: Verb, b: Verb)
    requires
        a.word() == b.word(),
        word_len(a) == 6,
        word_len(b) == 6,
    ensures
        a.place() == b.place(),
{
    reveal_strlit("schema");
    reveal_strlit("retile");
    reveal_strlit("doctor");
    reveal_strlit("manage");
    reveal_strlit("border");
    assert("border"@[0] == 'b');
    assert("doctor"@[0] == 'd');
    assert("manage"@[0] == 'm');
    assert("retile"@[0] == 'r');
    assert("schema"@[0] == 's');
}

proof fn words_of_7_are_distinct(a: Verb, b: Verb)
    requires
        a.word() == b.word(),
        word_len(a) == 7,
        word_len(b) == 7,
    ensures
        a.place() == b.place(),
{
    reveal_strlit("hotkeys");
    reveal_strlit("promote");
    reveal_strlit("unstack");
    assert("hotkeys"@[0] == 'h');
    assert("promote"@[0] == 'p');
    assert("unstack"@[0] == 'u');
}

proof fn words_of_8_are_distinct(a: Verb, b: Verb)
    requires
        a.word() == b.word(),
        word_len(a) == 8,
        word_len(b) == 8,
    ensures
        a.place() == b.place(),
{
    reveal_strlit("minimize");
    reveal_strlit("unmanage");
    assert("minimize"@[0] == 'm');
    assert("unmanage"@[0] == 'u');
}

proof fn words_of_9_are_distinct(a: Verb, b: Verb)
    requires
        a.word() == b.word(),
        word_len(a) == 9,
        word_len(b) == 9,
    ensures
        a.place() == b.place(),
{
    reveal_strlit("subscribe");
    reveal_strlit("stack-all");
    reveal_strlit("animation");
    assert("animation"@[0] == 'a');
    assert("stack-all"@[0] == 's');
    assert("stack-all"@[1] == 't');
    assert("subscribe"@[0] == 's');
    assert("subscribe"@[1] == 'u');
}

proof fn words_of_10_are_distinct(a: Verb, b: Verb)
    requires
        a.word() == b.word(),
        word_len(a) == 10,
        word_len(b) == 10,
    ensures
        a.place() == b.place(),
{
    reveal_strlit("quickstart");
    reveal_strlit("cycle-move");
    reveal_strlit("float-rule");
    assert("cycle-move"@[0] == 'c');
    assert("float-rule"@[0] == 'f');
    assert("quickstart"@[0] == 'q');
}

proof fn words_of_11_are_distinct(a: Verb, b: Verb)
    requires
        a.word() == b.word(),
        word_len(a) == 11,
        word_len(b) == 11,
    ensures
        a.place() == b.place(),
{
    reveal_strlit("cycle-focus");
    reveal_strlit("resize-axis");
    reveal_strlit("resize-edge");
    reveal_strlit("unstack-all");
    reveal_strlit("cycle-stack");
    reveal_strlit("flip-layout");
    reveal_strlit("set-hotkeys");
    reveal_strlit("manage-rule");
    reveal_strlit("ignore-rule");
    assert("cycle-focus"@[0] == 'c');
    assert("cycle-focus"@[6] == 'f');
    assert("cycle-stack"@[0] == 'c');
    assert("cycle-stack"@[6] == 's');
    assert("flip-layout"@[0] == 'f');
    assert("ignore-rule"@[0] == 'i');
    assert("manage-rule"@[0] == 'm');
    assert("resize-axis"@[0] == 'r');
    assert("resize-axis"@[7] == 'a');
    assert("resize-edge"@[0] == 'r');
    assert("resize-edge"@[7] == 'e');
    assert("set-hotkeys"@[0] == 's');
    assert("unstack-all"@[0] == 'u');
}

proof fn words_of_12_are_distinct(a: Verb, b: Verb)
    requires
        a.word() == b.word(),
        word_len(a) == 12,
        word_len(b) == 12,
    ensures
        a.place() == b.place(),
{
    reveal_strlit("toggle-pause");
    reveal_strlit("toggle-float");
    reveal_strlit("cycle-layout");
    reveal_strlit("border-width");
    reveal_strlit("border-style");
    assert("border-style"@[0] == 'b');
    assert("border-style"@[7] == 's');
    assert("border-width"@[0] == 'b');
    assert("border-width"@[7] == 'w');
    assert("cycle-layout"@[0] == 'c');
    assert("toggle-float"@[0] == 't');
    assert("toggle-float"@[7] == 'f');
    assert("toggle-pause"@[0] == 't');
    assert("toggle-pause"@[7] == 'p');
}

proof fn words_of_13_are_distinct(a: Verb, b: Verb)
    requires
        a.word() == b.word(),
        word_len(a) == 13,
        word_len(b) == 13,
    ensures
        a.place() == b.place(),
{
    reveal_strlit("promote-focus");
    reveal_strlit("change-layout");
    reveal_strlit("toggle-tiling");
    reveal_strlit("focus-monitor");
    reveal_strlit("cycle-monitor");
    reveal_strlit("border-offset");
    reveal_strlit("border-colour");
    reveal_strlit("animation-fps");
    assert("animation-fps"@[0] == 'a');
    assert("border-colour"@[0] == 'b');
    assert("border-colour"@[7] == 'c');
    assert("border-offset"@[0] == 'b');
    assert("border-offset"@[7] == 'o');
    assert("change-layout"@[0] == 'c');
    assert("change-layout"@[1] == 'h');
    assert("cycle-monitor"@[0] == 'c');
    assert("cycle-monitor"@[1] == 'y');
    assert("focus-monitor"@[0] == 'f');
    assert("promote-focus"@[0] == 'p');
    assert("toggle-tiling"@[0] == 't');
}

proof fn words_of_14_are_distinct(a: Verb, b: Verb)
    requires
        a.word() == b.word(),
        word_len(a) == 14,
        word_len(b) == 14,
    ensures
        a.place() == b.place(),
{
    reveal_strlit("subscribe-pipe");
    reveal_strlit("toggle-monocle");
    reveal_strlit("workspace-rule");
    assert("subscribe-pipe"@[0] == 's');
    assert("toggle-monocle"@[0] == 't');
    assert("workspace-rule"@[0] == 'w');
}

proof fn words_of_15_are_distinct(a: Verb, b: Verb)
    requires
        a.word() == b.word(),
        word_len(a) == 15,
        word_len(b) == 15,
    ensures
        a.place() == b.place(),
{
    reveal_strlit("restore-windows");
    reveal_strlit("toggle-maximize");
    reveal_strlit("focus-workspace");
    reveal_strlit("cycle-workspace");
    reveal_strlit("move-to-monitor");
    reveal_strlit("send-to-monitor");
    reveal_strlit("animation-style");
    assert("animation-style"@[0] == 'a');
    assert("cycle-workspace"@[0] == 'c');
    assert("focus-workspace"@[0] == 'f');
    assert("move-to-monitor"@[0] == 'm');
    assert("restore-windows"@[0] == 'r');
    assert("send-to-monitor"@[0] == 's');
    assert("toggle-maximize"@[0] == 't');
}

proof fn words_of_16_are_distinct(a: Verb, b: Verb)
    requires
        a.word() == b.word(),
        word_len(a) == 16,
        word_len(b) == 16,
    ensures
        a.place() == b.place(),
{
    reveal_strlit("toggle-game-mode");
    reveal_strlit("unsubscribe-pipe");
    assert("toggle-game-mode"@[0] == 't');
    assert("unsubscribe-pipe"@[0] == 'u');
}

proof fn words_of_17_are_distinct(a: Verb, b: Verb)
    requires
        a.word() == b.word(),
        word_len(a) == 17,
        word_len(b) == 17,
    ensures
        a.place() == b.place(),
{
    reveal_strlit("move-to-workspace");
    reveal_strlit("send-to-workspace");
    reveal_strlit("workspace-padding");
    reveal_strlit("container-padding");
    assert("container-padding"@[0] == 'c');
    assert("move-to-workspace"@[0] == 'm');
    assert("send-to-workspace"@[0] == 's');
    assert("workspace-padding"@[0] == 'w');
}

proof fn words_of_18_are_distinct(a: Verb, b: Verb)
    requires
        a.word() == b.word(),
        word_len(a) == 18,
        word_len(b) == 18,
    ensures
        a.place() == b.place(),
{
    reveal_strlit("focus-stack-window");
    reveal_strlit("animation-duration");
    assert("animation-duration"@[0] == 'a');
    assert("focus-stack-window"@[0] == 'f');
}

proof fn words_of_19_are_distinct(a: Verb, b: Verb)
    requires
        a.word() == b.word(),
        word_len(a) == 19,
        word_len(b) == 19,
    ensures
        a.place() == b.place(),
{
    reveal_strlit("focus-follows-mouse");
    reveal_strlit("mouse-follows-focus");
    reveal_strlit("toggle-transparency");
    assert("focus-follows-mouse"@[0] == 'f');
    assert("mouse-follows-focus"@[0] == 'm');
    assert("toggle-transparency"@[0] == 't');
}

proof fn words_of_20_are_distinct(a: Verb, b: Verb)
    requires
        a.word() == b.word(),
        word_len(a) == 20,
        word_len(b) == 20,
    ensures
        a.place() == b.place(),
{
    reveal_strlit("reload-configuration");
    reveal_strlit("focus-last-workspace");
    assert("focus-last-workspace"@[0] == 'f');
    assert("reload-configuration"@[0] == 'r');
}

proof fn words_of_21_are_distinct(a: Verb, b: Verb)
    requires
        a.word() == b.word(),
        word_len(a) == 21,
        word_len(b) == 21,
    ensures
        a.place() == b.place(),
{
    reveal_strlit("toggle-float-override");
    reveal_strlit("focus-named-workspace");
    assert("focus-named-workspace"@[0] == 'f');
    assert("toggle-float-override"@[0] == 't');
}

proof fn words_of_23_are_distinct(a: Verb, b: Verb)
    requires
        a.word() == b.word(),
        word_len(a) == 23,
        word_len(b) == 23,
    ensures
        a.place() == b.place(),
{
    reveal_strlit("move-to-named-workspace");
    reveal_strlit("send-to-named-workspace");
    reveal_strlit("window-hiding-behaviour");
    assert("move-to-named-workspace"@[0] == 'm');
    assert("send-to-named-workspace"@[0] == 's');
    assert("window-hiding-behaviour"@[0] == 'w');
}

/// No two subcommands share a name.
pub proof fn verbs_are_distinct(a: Verb, b: Verb)
    requires
        a.word() == b.word(),
    ensures
        a == b,
{
    word_has_its_length(a);
    word_has_its_length(b);
    if word_len(a) == 4 {
        words_of_4_are_distinct(a, b);
    } else if word_len(a) == 5 {
        words_of_5_are_distinct(a, b);
    } else if word_len(a) == 6 {
        words_of_6_are_distinct(a, b);
    } else if word_len(a) == 7 {
        words_of_7_are_distinct(a, b);
    } else if word_len(a) == 8 {
        words_of_8_are_distinct(a, b);
    } else if word_len(a) == 9 {
        words_of_9_are_distinct(a, b);
    } else if word_len(a) == 10 {
        words_of_10_are_distinct(a, b);
    } else if word_len(a) == 11 {
        words_of_11_are_distinct(a, b);
    } else if word_len(a) == 12 {
        words_of_12_are_distinct(a, b);
    } else if word_len(a) == 13 {
        words_of_13_are_distinct(a, b);
    } else if word_len(a) == 14 {
        words_of_14_are_distinct(a, b);
    } else if word_len(a) == 15 {
        words_of_15_are_distinct(a, b);
    } else if word_len(a) == 16 {
        words_of_16_are_distinct(a, b);
    } else if word_len(a) == 17 {
        words_of_17_are_distinct(a, b);
    } else if word_len(a) == 18 {
        words_of_18_are_distinct(a, b);
    } else if word_len(a) == 19 {
        words_of_19_are_distinct(a, b);
    } else if word_len(a) == 20 {
        words_of_20_are_distinct(a, b);
    } else if word_len(a) == 21 {
        words_of_21_are_distinct(a, b);
    } else if word_len(a) == 23 {
        words_of_23_are_distinct(a, b);
    }
}

} // verus!
