//! The command line and the bindings that share its grammar.

use mochi::client::cli::grammar::Verb;
use mochi::client::cli::misuse::Misuse;
use mochi::client::cli::{command_from_args, is_bindable_subcommand, Cli, Cmd};
use mochi::client::{
    AnimationStyle, Axis, BooleanState, Command, CycleDirection, Direction, Layout,
    MatchingStrategy, QueryTarget, RuleIdentifier, Sizing, WindowKind,
};

fn try_parse_from(argv: &[&str]) -> Result<Cli, Misuse> {
    let argv: Vec<String> = argv.iter().map(|word| (*word).to_owned()).collect();
    Cli::parse_argv(&argv)
}

#[test]
fn the_values_that_are_meant_to_be_negative_can_be_typed() {
    // `-1` is the daemon's own default border offset, so a leading minus must
    // not be read as a flag there.
    assert_eq!(
        try_parse_from(&["mochic", "border-offset", "-1"])
            .unwrap()
            .command
            .to_command(),
        Some(Command::BorderOffset { offset: -1 })
    );
    assert_eq!(
        try_parse_from(&["mochic", "workspace-padding", "0", "0", "-5"])
            .unwrap()
            .command
            .to_command(),
        Some(Command::WorkspacePadding {
            monitor: 0,
            workspace: 0,
            size: -5
        })
    );
    // An index is still not allowed to be negative.
    assert!(try_parse_from(&["mochic", "focus-workspace", "-1"]).is_err());
}

#[test]
fn the_command_definition_is_valid() {
    let mut names: Vec<&str> = Verb::ALL.iter().map(|verb| verb.as_str()).collect();
    names.push("help");
    names.sort_unstable();
    names.windows(2).for_each(|pair| assert_ne!(pair[0], pair[1], "a name is there twice"));

    for verb in Verb::ALL {
        let shape = verb.form();
        let params = shape.param_list();
        let opts = shape.opt_list();
        let mut labels: Vec<&str> = params.iter().map(|param| param.label).collect();
        labels.extend(opts.iter().map(|opt| opt.label));
        labels.sort_unstable();
        for pair in labels.windows(2) {
            assert_ne!(pair[0], pair[1], "{verb:?} has an argument twice");
        }
        let mut longs: Vec<&str> = opts.iter().map(|opt| opt.long).collect();
        longs.push("help");
        longs.sort_unstable();
        for pair in longs.windows(2) {
            assert_ne!(pair[0], pair[1], "{verb:?} has an option twice");
        }
        let mut shorts: Vec<char> = opts.iter().filter_map(|opt| opt.short).collect();
        shorts.push('h');
        shorts.sort_unstable();
        for pair in shorts.windows(2) {
            assert_ne!(pair[0], pair[1], "{verb:?} has a letter twice");
        }
        for param in &params {
            let optional = param.label.starts_with('[') && param.label.ends_with(']');
            let required = param.label.starts_with('<') && param.label.ends_with('>');
            assert!(if shape.may_be_short() { optional } else { required }, "{verb:?}");
        }
        for opt in &opts {
            assert!(opt.label.starts_with(&format!("--{}", opt.long)), "{verb:?}");
            assert_eq!(opt.kind.is_some(), opt.label.ends_with('>'), "{verb:?}");
        }
        if let Some((a, b)) = shape.clash() {
            assert!(a < opts.len() && b < opts.len() && a != b, "{verb:?}");
        }
    }
}

fn parse(args: &[&str]) -> Command {
    let mut full = vec!["mochic"];
    full.extend_from_slice(args);
    try_parse_from(&full).unwrap().command.to_command().unwrap()
}

fn binding(line: &str) -> Result<Command, String> {
    let args: Vec<String> = line.split_whitespace().map(str::to_owned).collect();
    command_from_args(&args)
}

#[test]
fn every_binding_in_the_users_whkdrc_parses() {
    // The left column is what every binding in `.config/whkdrc` runs.
    let cases: &[(&[&str], Command)] = &[
        (
            &["focus", "left"],
            Command::Focus {
                direction: Direction::Left,
            },
        ),
        (
            &["focus", "down"],
            Command::Focus {
                direction: Direction::Down,
            },
        ),
        (
            &["move", "up"],
            Command::Move {
                direction: Direction::Up,
            },
        ),
        (
            &["move", "right"],
            Command::Move {
                direction: Direction::Right,
            },
        ),
        (
            &["resize-axis", "horizontal", "increase"],
            Command::ResizeAxis {
                axis: Axis::Horizontal,
                sizing: Sizing::Increase,
            },
        ),
        (
            &["resize-axis", "vertical", "decrease"],
            Command::ResizeAxis {
                axis: Axis::Vertical,
                sizing: Sizing::Decrease,
            },
        ),
        (&["toggle-float"], Command::ToggleFloat),
        (&["toggle-maximize"], Command::ToggleMaximize),
        (&["toggle-monocle"], Command::ToggleMonocle),
        (&["minimize"], Command::Minimize),
        (&["close"], Command::Close),
        (
            &["cycle-layout", "next"],
            Command::CycleLayout {
                direction: CycleDirection::Next,
            },
        ),
        (
            &["flip-layout", "horizontal"],
            Command::FlipLayout {
                axis: Axis::Horizontal,
            },
        ),
        (
            &["flip-layout", "vertical"],
            Command::FlipLayout {
                axis: Axis::Vertical,
            },
        ),
        (
            &["cycle-workspace", "previous"],
            Command::CycleWorkspace {
                direction: CycleDirection::Previous,
            },
        ),
        (&["focus-last-workspace"], Command::FocusLastWorkspace),
        (
            &["focus-workspace", "0"],
            Command::FocusWorkspace { index: 0 },
        ),
        (
            &["focus-workspace", "8"],
            Command::FocusWorkspace { index: 8 },
        ),
        (
            &["move-to-workspace", "5"],
            Command::MoveToWorkspace { index: 5 },
        ),
        (&["toggle-pause"], Command::TogglePause),
        (&["reload-configuration"], Command::ReloadConfiguration),
        (&["retile"], Command::Retile),
        (&["stop"], Command::Stop),
    ];

    for (args, expected) in cases {
        assert_eq!(&parse(args), expected, "for {args:?}");
    }
}

#[test]
fn the_extra_commands_parse_too() {
    assert_eq!(parse(&["state"]), Command::State);
    assert_eq!(parse(&["promote"]), Command::Promote);
    assert_eq!(parse(&["unstack"]), Command::Unstack);
    assert_eq!(
        parse(&["query", "monitor-count"]),
        Command::Query {
            target: QueryTarget::MonitorCount
        }
    );
    assert_eq!(
        parse(&["change-layout", "ultrawide-vertical-stack"]),
        Command::ChangeLayout {
            layout: Layout::UltrawideVerticalStack
        }
    );
    assert_eq!(
        parse(&["workspace-padding", "1", "2", "14"]),
        Command::WorkspacePadding {
            monitor: 1,
            workspace: 2,
            size: 14
        }
    );
    assert_eq!(
        parse(&["border-colour", "255", "187", "223"]),
        Command::BorderColour {
            kind: WindowKind::Single,
            r: 255,
            g: 187,
            b: 223
        }
    );
    assert_eq!(
        parse(&[
            "border-colour",
            "49",
            "50",
            "68",
            "--window-kind",
            "unfocused"
        ]),
        Command::BorderColour {
            kind: WindowKind::Unfocused,
            r: 49,
            g: 50,
            b: 68
        }
    );
    assert_eq!(
        parse(&["float-rule", "exe", "wt.exe"]),
        Command::FloatRule {
            identifier: RuleIdentifier::Exe,
            id: "wt.exe".into(),
            matching_strategy: MatchingStrategy::Equals
        }
    );
    assert_eq!(
        parse(&[
            "ignore-rule",
            "path",
            "steamapps\\common",
            "--matching-strategy",
            "contains"
        ]),
        Command::IgnoreRule {
            identifier: RuleIdentifier::Path,
            id: "steamapps\\common".into(),
            matching_strategy: MatchingStrategy::Contains
        }
    );
    assert_eq!(
        parse(&["subscribe-pipe", "bar"]),
        Command::SubscribePipe { name: "bar".into() }
    );
    assert_eq!(
        parse(&["unsubscribe-pipe", "bar"]),
        Command::UnsubscribePipe { name: "bar".into() }
    );
    assert_eq!(
        parse(&["focus-follows-mouse", "enable"]),
        Command::FocusFollowsMouse {
            state: BooleanState::Enable
        }
    );
    assert_eq!(
        parse(&["animation-style", "ease-out-quad"]),
        Command::AnimationStyle {
            style: AnimationStyle::EaseOutQuad
        }
    );
}

#[test]
fn the_commands_that_only_reached_the_model_from_rust_parse_too() {
    assert_eq!(parse(&["toggle-tiling"]), Command::ToggleTiling);
    assert_eq!(parse(&["promote-focus"]), Command::PromoteFocus);
    assert_eq!(
        parse(&["toggle-float-override"]),
        Command::ToggleFloatOverride
    );
    assert_eq!(
        parse(&["cycle-focus", "next"]),
        Command::CycleFocus {
            direction: CycleDirection::Next
        }
    );
    assert_eq!(
        parse(&["cycle-move", "previous"]),
        Command::CycleMove {
            direction: CycleDirection::Previous
        }
    );
    assert_eq!(
        parse(&["resize-edge", "left", "increase"]),
        Command::ResizeEdge {
            direction: Direction::Left,
            sizing: Sizing::Increase
        }
    );
    assert_eq!(
        parse(&["send-to-workspace", "3"]),
        Command::SendToWorkspace { index: 3 }
    );
    assert_eq!(
        parse(&["send-to-monitor", "1"]),
        Command::SendToMonitor { index: 1 }
    );

    // Every one of them is worth a key, which is the reason they exist.
    assert_eq!(binding("toggle-tiling").unwrap(), Command::ToggleTiling);
    assert_eq!(
        binding("send-to-workspace 3").unwrap(),
        Command::SendToWorkspace { index: 3 }
    );
    assert_eq!(
        binding("resize-edge down decrease").unwrap(),
        Command::ResizeEdge {
            direction: Direction::Down,
            sizing: Sizing::Decrease
        }
    );
}

#[test]
fn the_hotkey_subcommands_parse() {
    assert_eq!(parse(&["hotkeys"]), Command::Hotkeys);
    // --json changes what `mochic` prints, not what it sends.
    assert_eq!(parse(&["hotkeys", "--json"]), Command::Hotkeys);
    assert_eq!(
        parse(&["set-hotkeys", "disable"]),
        Command::SetHotkeys {
            state: BooleanState::Disable
        }
    );
    assert_eq!(parse(&["toggle-game-mode"]), Command::ToggleGameMode);
}

#[test]
fn bad_arguments_are_rejected() {
    assert!(try_parse_from(&["mochic", "focus", "sideways"]).is_err());
    assert!(try_parse_from(&["mochic", "focus"]).is_err());
    assert!(try_parse_from(&["mochic", "focus-workspace", "-1"]).is_err());
    assert!(try_parse_from(&["mochic", "not-a-command"]).is_err());
    assert!(try_parse_from(&["mochic"]).is_err());
}

#[test]
fn a_binding_sends_what_the_command_line_would_send() {
    assert_eq!(
        binding("focus left").unwrap(),
        Command::Focus {
            direction: Direction::Left
        }
    );
    assert_eq!(
        binding("resize-axis horizontal increase").unwrap(),
        Command::ResizeAxis {
            axis: Axis::Horizontal,
            sizing: Sizing::Increase
        }
    );
    assert_eq!(
        binding("move-to-workspace 5").unwrap(),
        Command::MoveToWorkspace { index: 5 }
    );
    assert_eq!(
        binding("toggle-game-mode").unwrap(),
        Command::ToggleGameMode
    );
    assert_eq!(binding("hotkeys").unwrap(), Command::Hotkeys);
}

#[test]
fn stopping_mochi_can_be_bound_to_a_key() {
    assert_eq!(binding("stop").unwrap(), Command::Stop);
}

#[test]
fn the_client_side_subcommands_cannot_be_bound_to_a_key() {
    // `subscribe` is in the list because `mochic` creates the pipe before
    // it registers it; bound to a key it would register a pipe that does
    // not exist, which is not what typing the same words does.
    for line in ["start", "quickstart", "schema", "subscribe bar"] {
        let message = binding(line).unwrap_err();
        assert!(
            message.contains("cannot be bound to a key"),
            "for {line}: {message}"
        );
    }
}

#[test]
fn a_broken_binding_fails_on_one_line() {
    for line in ["focus sideways", "focus", "not-a-command", "--help"] {
        let message = binding(line).unwrap_err();
        assert_eq!(message.lines().count(), 1, "for {line}: {message}");
        assert!(!message.contains("Usage:"), "for {line}: {message}");
    }
    assert!(binding("focus sideways").unwrap_err().contains("sideways"));
    assert!(
        command_from_args(&[])
            .unwrap_err()
            .contains("needs a command")
    );
}

#[test]
fn only_what_travels_to_the_daemon_can_be_bound() {
    for name in ["focus", "stop", "toggle-pause", "subscribe-pipe", "border-colour", "hotkeys"] {
        assert!(is_bindable_subcommand(name), "{name}");
    }
    for name in ["start", "quickstart", "schema", "check", "subscribe", "not-a-command", "help", ""] {
        assert!(!is_bindable_subcommand(name), "{name}");
    }
}

#[test]
fn the_start_options_are_read() {
    let cli = try_parse_from(&["mochic", "start", "--config", "a.json", "--no-hotkeys"]).unwrap();
    assert_eq!(
        cli.command,
        Cmd::Start {
            config: Some("a.json".to_owned()),
            hotkeys: None,
            no_hotkeys: true,
            dry_run: false
        }
    );
    let cli = try_parse_from(&["mochic", "schema", "-oout.json"]).unwrap();
    assert_eq!(cli.command, Cmd::Schema { output: Some("out.json".to_owned()) });
    let cli = try_parse_from(&["mochic", "check"]).unwrap();
    assert_eq!(cli.command, Cmd::Check { path: None });
}

#[test]
fn every_misuse_is_named() {
    let message = |words: &[&str]| {
        let mut argv = vec!["mochic"];
        argv.extend_from_slice(words);
        try_parse_from(&argv).unwrap_err().to_string()
    };
    assert_eq!(message(&[]), "expected a command, not a help or version flag");
    assert_eq!(message(&["--version"]), "expected a command, not a help or version flag");
    assert_eq!(try_parse_from(&["mochic", "-V"]), Err(Misuse::Version));
    assert_eq!(try_parse_from(&["mochic", "focus", "-h"]), Err(Misuse::Help));
    assert_eq!(message(&["jump"]), "unrecognized subcommand 'jump'");
    assert_eq!(message(&["stop", "now"]), "unexpected argument 'now' found");
    assert_eq!(message(&["focus", "sideways"]), "invalid value 'sideways' for '<DIRECTION>'");
    assert_eq!(
        message(&["border-colour", "256", "0", "0"]),
        "invalid value '256' for '<R>': 256 is not in 0..=255"
    );
    assert_eq!(
        message(&["focus-workspace", "one"]),
        "invalid value 'one' for '<INDEX>': invalid digit found in string"
    );
    assert_eq!(
        message(&["animation-duration", "99999999999999999999"]),
        "invalid value '99999999999999999999' for '<DURATION>': \
         number too large to fit in target type"
    );
    assert_eq!(
        message(&["border-offset", "-99999999999999999999"]),
        "invalid value '-99999999999999999999' for '<OFFSET>': \
         number too small to fit in target type"
    );
    assert_eq!(
        message(&["animation-fps", ""]),
        "invalid value '' for '<FPS>': cannot parse integer from empty string"
    );
    assert_eq!(
        message(&["focus", ""]),
        "a value is required for '<DIRECTION>' but none was supplied"
    );
    assert_eq!(
        message(&["hotkeys", "--json=yes"]),
        "unexpected value 'yes' for '--json' found; no more were expected"
    );
    assert_eq!(
        message(&["hotkeys", "--json", "--json"]),
        "the argument '--json' cannot be used multiple times"
    );
    assert_eq!(
        message(&["start", "--no-hotkeys", "--hotkeys", "x"]),
        "the argument '--no-hotkeys' cannot be used with '--hotkeys <PATH>'"
    );
    assert_eq!(
        message(&["start", "--hotkeys", "x", "--no-hotkeys"]),
        "the argument '--hotkeys <PATH>' cannot be used with '--no-hotkeys'"
    );
    assert_eq!(message(&["focus"]), "the following required arguments were not provided:");
}

#[test]
fn a_refused_binding_names_the_line() {
    assert_eq!(
        binding("focus sideways").unwrap_err(),
        "`focus sideways`: invalid value 'sideways' for '<DIRECTION>'"
    );
    assert_eq!(
        binding("start").unwrap_err(),
        "`start` cannot be bound to a key, `mochic` runs it itself"
    );
    assert_eq!(
        command_from_args(&[]).unwrap_err(),
        "a binding needs a command, `focus left` for example"
    );
    let broken = ["focus".to_owned(), "side\nways".to_owned()];
    assert_eq!(command_from_args(&broken).unwrap_err(), "`focus side\nways`: invalid value 'side");
}
