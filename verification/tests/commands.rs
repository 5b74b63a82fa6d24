//! Commands and the words they are made of.

use std::collections::HashSet;

use mochi::client::{
    AnimationStyle, Axis, BooleanState, BorderStyle, Command, CycleDirection, Direction, Layout,
    MatchingStrategy, QueryTarget, RuleIdentifier, Sizing, WindowKind,
};

/// The kebab-case spelling of the name a variant has in the code.
fn tag(value: &impl std::fmt::Debug) -> String {
    let text = format!("{value:?}");
    let name = text.split(' ').next().unwrap();
    let mut tag = String::new();
    for c in name.chars() {
        if c.is_ascii_uppercase() && !tag.is_empty() {
            tag.push('-');
        }
        tag.push(c.to_ascii_lowercase());
    }
    tag
}

#[test]
fn every_command_name_matches_its_tag() {
    // A representative value for every variant, so `name()` cannot drift.
    let all = [
        Command::Start,
        Command::Stop,
        Command::Quickstart,
        Command::TogglePause,
        Command::ToggleGameMode,
        Command::ReloadConfiguration,
        Command::Retile,
        Command::State,
        Command::Query {
            target: QueryTarget::MonitorCount,
        },
        Command::Hotkeys,
        Command::Focus {
            direction: Direction::Up,
        },
        Command::CycleFocus {
            direction: CycleDirection::Next,
        },
        Command::Move {
            direction: Direction::Right,
        },
        Command::CycleMove {
            direction: CycleDirection::Previous,
        },
        Command::ResizeAxis {
            axis: Axis::Vertical,
            sizing: Sizing::Increase,
        },
        Command::ResizeEdge {
            direction: Direction::Left,
            sizing: Sizing::Decrease,
        },
        Command::Promote,
        Command::PromoteFocus,
        Command::ToggleFloat,
        Command::ToggleFloatOverride,
        Command::ToggleMaximize,
        Command::ToggleMonocle,
        Command::Minimize,
        Command::Close,
        Command::Manage,
        Command::Unmanage,
        Command::Stack {
            direction: Direction::Left,
        },
        Command::Unstack,
        Command::CycleStack {
            direction: CycleDirection::Next,
        },
        Command::CycleLayout {
            direction: CycleDirection::Next,
        },
        Command::ChangeLayout {
            layout: Layout::Bsp,
        },
        Command::FlipLayout {
            axis: Axis::Horizontal,
        },
        Command::ToggleTiling,
        Command::FocusWorkspace { index: 0 },
        Command::MoveToWorkspace { index: 0 },
        Command::SendToWorkspace { index: 0 },
        Command::CycleWorkspace {
            direction: CycleDirection::Next,
        },
        Command::FocusLastWorkspace,
        Command::WorkspacePadding {
            monitor: 0,
            workspace: 0,
            size: 0,
        },
        Command::ContainerPadding {
            monitor: 0,
            workspace: 0,
            size: 0,
        },
        Command::FocusMonitor { index: 0 },
        Command::MoveToMonitor { index: 0 },
        Command::SendToMonitor { index: 0 },
        Command::CycleMonitor {
            direction: CycleDirection::Next,
        },
        Command::FocusFollowsMouse {
            state: BooleanState::Enable,
        },
        Command::MouseFollowsFocus {
            state: BooleanState::Disable,
        },
        Command::SetHotkeys {
            state: BooleanState::Enable,
        },
        Command::ToggleTransparency,
        Command::Border {
            state: BooleanState::Enable,
        },
        Command::BorderWidth { width: 6 },
        Command::BorderOffset { offset: -1 },
        Command::BorderColour {
            kind: WindowKind::Single,
            r: 1,
            g: 2,
            b: 3,
        },
        Command::BorderStyle {
            style: BorderStyle::Rounded,
        },
        Command::Animation {
            state: BooleanState::Enable,
        },
        Command::AnimationDuration { duration: 250 },
        Command::AnimationStyle {
            style: AnimationStyle::EaseOutQuad,
        },
        Command::AnimationFps { fps: 60 },
        Command::FloatRule {
            identifier: RuleIdentifier::Exe,
            id: "a".into(),
            matching_strategy: MatchingStrategy::Equals,
        },
        Command::IgnoreRule {
            identifier: RuleIdentifier::Path,
            id: "a".into(),
            matching_strategy: MatchingStrategy::Contains,
        },
        Command::SubscribePipe { name: "bar".into() },
        Command::UnsubscribePipe { name: "bar".into() },
    ];

    assert_eq!(all.len(), 61, "add new variants to this list");
    let mut seen = HashSet::new();
    for cmd in &all {
        assert_eq!(tag(cmd), cmd.name(), "name() disagrees with the variant");
        assert!(seen.insert(cmd.name()), "duplicate tag {}", cmd.name());
    }
}

#[test]
fn wire_enums_parse_from_their_own_spelling() {
    for d in Direction::ALL {
        assert_eq!(d.as_str().parse::<Direction>().unwrap(), d);
    }
    for l in Layout::ALL {
        assert_eq!(l.as_str().parse::<Layout>().unwrap(), l);
        assert_eq!(tag(&l), l.as_str(), "the variant and as_str disagree for {l:?}");
    }
    for s in MatchingStrategy::ALL {
        assert_eq!(tag(&s), s.as_str());
    }
    assert_eq!("LEFT".parse::<Direction>().unwrap(), Direction::Left);
    assert!("sideways".parse::<Direction>().is_err());
}

#[test]
fn every_wire_enum_lists_its_variants() {
    for v in Axis::ALL {
        assert_eq!(Axis::parse(v.as_str()), Ok(v));
    }
    for v in Sizing::ALL {
        assert_eq!(Sizing::parse(v.as_str()), Ok(v));
    }
    for v in CycleDirection::ALL {
        assert_eq!(CycleDirection::parse(v.as_str()), Ok(v));
    }
    for v in AnimationStyle::ALL {
        assert_eq!(AnimationStyle::parse(&v.to_string().to_uppercase()), Ok(v));
    }
    for v in QueryTarget::ALL {
        assert_eq!(QueryTarget::parse(v.as_str()), Ok(v));
        assert_eq!(tag(&v), v.as_str());
    }
    for v in RuleIdentifier::ALL {
        assert_eq!(RuleIdentifier::parse(v.as_str()), Ok(v));
    }
    for v in WindowKind::ALL {
        assert_eq!(WindowKind::parse(v.as_str()), Ok(v));
    }
    for v in BorderStyle::ALL {
        assert_eq!(BorderStyle::parse(v.as_str()), Ok(v));
    }
    assert!(BooleanState::Enable.is_enabled());
    assert!(!BooleanState::Disable.is_enabled());
}

#[test]
fn a_word_that_names_nothing_is_reported() {
    let error = Direction::parse("sideways").unwrap_err();
    assert_eq!(error.kind, "Direction");
    assert_eq!(error.value, "sideways");
    assert_eq!(error.to_string(), "`sideways` is not a valid Direction");
}

#[test]
fn only_two_commands_need_no_daemon() {
    assert!(Command::Start.is_client_side());
    assert!(Command::Quickstart.is_client_side());
    assert!(!Command::Stop.is_client_side());
}
