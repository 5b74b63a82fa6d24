//! The grammar follows the conventions clap has for command lines: on the same
//! grammar, both read the same lines and refuse the others in the same words.

use clap::builder::{
    PathBufValueParser, PossibleValuesParser, RangedI64ValueParser, RangedU64ValueParser,
    StringValueParser,
};
use clap::error::ErrorKind;
use clap::{Arg, ArgAction};
use mochi::client::cli::grammar::Verb;
use mochi::client::cli::misuse::one_line;
use mochi::client::cli::values::Kind;
use mochi::client::cli::{parse_words, Cmd};
use mochi::client::{
    AnimationStyle, Axis, BooleanState, BorderStyle, ContainerBehaviour, CycleDirection, Direction,
    HidingBehaviour, Layout, MatchingStrategy, MoveBehaviour, OperationBehaviour, QueryTarget,
    RuleIdentifier, Sizing, WindowKind,
};

fn with_kind(arg: Arg, kind: Kind) -> Arg {
    let words: Vec<&'static str> = match kind {
        Kind::Index => return arg.value_parser(|s: &str| s.parse::<usize>()),
        Kind::Pixels => {
            let range = i64::from(i32::MIN)..=i64::from(i32::MAX);
            return arg.value_parser(RangedI64ValueParser::<i32>::new().range(range));
        }
        Kind::Channel => {
            return arg.value_parser(RangedI64ValueParser::<u8>::new().range(0..=255));
        }
        Kind::Millis => return arg.value_parser(RangedU64ValueParser::<u64>::new()),
        Kind::Rate => {
            let range = 0..=i64::from(u32::MAX);
            return arg.value_parser(RangedI64ValueParser::<u32>::new().range(range));
        }
        Kind::Text => return arg.value_parser(StringValueParser::new()),
        Kind::Path => return arg.value_parser(PathBufValueParser::new()),
        Kind::Target => QueryTarget::ALL.iter().map(|v| v.as_str()).collect(),
        Kind::Direction => Direction::ALL.iter().map(|v| v.as_str()).collect(),
        Kind::Cycle => CycleDirection::ALL.iter().map(|v| v.as_str()).collect(),
        Kind::Axis => Axis::ALL.iter().map(|v| v.as_str()).collect(),
        Kind::Sizing => Sizing::ALL.iter().map(|v| v.as_str()).collect(),
        Kind::State => BooleanState::ALL.iter().map(|v| v.as_str()).collect(),
        Kind::Layout => Layout::ALL.iter().map(|v| v.as_str()).collect(),
        Kind::Container => ContainerBehaviour::ALL.iter().map(|v| v.as_str()).collect(),
        Kind::Crossing => MoveBehaviour::ALL.iter().map(|v| v.as_str()).collect(),
        Kind::Hiding => HidingBehaviour::ALL.iter().map(|v| v.as_str()).collect(),
        Kind::Operation => OperationBehaviour::ALL.iter().map(|v| v.as_str()).collect(),
        Kind::Border => BorderStyle::ALL.iter().map(|v| v.as_str()).collect(),
        Kind::Easing => AnimationStyle::ALL.iter().map(|v| v.as_str()).collect(),
        Kind::Window => WindowKind::ALL.iter().map(|v| v.as_str()).collect(),
        Kind::Identifier => RuleIdentifier::ALL.iter().map(|v| v.as_str()).collect(),
        Kind::Strategy => MatchingStrategy::ALL.iter().map(|v| v.as_str()).collect(),
    };
    arg.value_parser(PossibleValuesParser::new(words))
}

fn subcommand(verb: Verb) -> clap::Command {
    let shape = verb.form();
    let mut command = clap::Command::new(verb.as_str());
    for param in shape.param_list() {
        let name = &param.label[1..param.label.len() - 1];
        let arg = Arg::new(name)
            .value_name(name)
            .required(!shape.may_be_short())
            .allow_negative_numbers(shape.takes_negatives());
        command = command.arg(with_kind(arg, param.kind));
    }
    let opts = shape.opt_list();
    for (idx, opt) in opts.iter().enumerate() {
        let mut arg = Arg::new(opt.long).long(opt.long);
        if let Some(letter) = opt.short {
            arg = arg.short(letter);
        }
        arg = match opt.kind {
            Some(kind) => {
                let open = opt.label.find('<').unwrap();
                with_kind(arg.value_name(&opt.label[open + 1..opt.label.len() - 1]), kind)
            }
            None => arg.action(ArgAction::SetTrue),
        };
        if let Some((a, b)) = shape.clash() {
            if idx == b {
                arg = arg.conflicts_with(opts[a].long);
            }
        }
        command = command.arg(arg);
    }
    command
}

fn grammar() -> clap::Command {
    clap::Command::new("mochic")
        .version("0.1.0")
        .arg_required_else_help(true)
        .subcommand_required(true)
        .subcommands(Verb::ALL.into_iter().map(subcommand))
}

/// What clap says about a line it refuses.
fn complaint(error: &clap::Error) -> String {
    if matches!(
        error.kind(),
        ErrorKind::DisplayHelp
            | ErrorKind::DisplayVersion
            | ErrorKind::DisplayHelpOnMissingArgumentOrSubcommand
    ) {
        return "expected a command, not a help or version flag".to_owned();
    }
    let rendered = error.render().to_string();
    let first = rendered.lines().map(str::trim).find(|line| !line.is_empty()).unwrap();
    first.strip_prefix("error: ").unwrap_or(first).to_owned()
}

/// Both readings of one line, which have to be the same.
fn compare(grammar: &clap::Command, line: &[&str]) {
    let words: Vec<String> = line.iter().map(|word| (*word).to_owned()).collect();
    let mut argv = vec!["mochic".to_owned()];
    argv.extend(words.iter().cloned());
    let ours = parse_words(&words);
    match (ours, grammar.clone().try_get_matches_from(argv)) {
        (Ok(cli), Ok(matches)) => {
            let (name, matches) = matches.subcommand().unwrap();
            assert_eq!(verb_name(&cli.command), name, "{line:?}");
            let mut theirs: Vec<String> = Vec::new();
            for id in matches.ids() {
                if matches.value_source(id.as_str())
                    == Some(clap::parser::ValueSource::CommandLine)
                {
                    for raw in matches.get_raw(id.as_str()).unwrap() {
                        theirs.push(raw.to_str().unwrap().to_owned());
                    }
                }
            }
            assert!(holds_all(&cli.command, &theirs), "{line:?} {:?} {theirs:?}", cli.command);
        }
        (Err(misuse), Err(error)) => {
            assert_eq!(one_line(&misuse.to_string()), complaint(&error), "{line:?}");
        }
        (ours, theirs) => panic!("{line:?}: {ours:?} against {theirs:?}"),
    }
}

/// The name of the subcommand a value is of.
fn verb_name(command: &Cmd) -> &'static str {
    let text = format!("{command:?}");
    let name = text.split(' ').next().unwrap();
    let verb = Verb::ALL.into_iter().find(|verb| format!("{verb:?}") == name).unwrap();
    verb.as_str()
}

/// Every value that was read shows in the subcommand.
fn holds_all(command: &Cmd, values: &[String]) -> bool {
    let text = format!("{command:?}");
    let squashed: String =
        text.chars().filter(char::is_ascii_alphanumeric).collect::<String>().to_lowercase();
    values.iter().all(|value| {
        let plain: String =
            value.chars().filter(char::is_ascii_alphanumeric).collect::<String>().to_lowercase();
        let plain = plain.trim_start_matches('0');
        squashed.contains(plain)
    })
}

#[test]
fn lines_worth_a_look_are_read_alike() {
    let grammar = grammar();
    let lines: &[&[&str]] = &[
        &[],
        &["--help"],
        &["-h"],
        &["-hx"],
        &["--help=x"],
        &["--version"],
        &["-V"],
        &["--version=1"],
        &["--nope"],
        &["--nope=x"],
        &["--=x"],
        &["-x"],
        &["-xyz"],
        &["-"],
        &["--"],
        &["--", "focus"],
        &["--", "focus", "left"],
        &["--", "nope"],
        &["--", "help"],
        &["help"],
        &["help", "focus"],
        &["help", "help"],
        &["help", "nope"],
        &["help", "focus", "left"],
        &["help", "help", "focus"],
        &["nope"],
        &["Focus", "left"],
        &["focu"],
        &[""],
        &["focus"],
        &["focus", "left"],
        &["focus", "LEFT"],
        &["focus", ""],
        &["focus", "-"],
        &["focus", "help"],
        &["focus", "--", "left"],
        &["focus", "left", "--"],
        &["focus", "--", "--help"],
        &["focus", "--", "-h"],
        &["focus", "--", "--"],
        &["focus", "left", "right"],
        &["focus", "sideways", "right"],
        &["focus", "sideways", "--help"],
        &["focus", "sideways", "-h"],
        &["focus", "sideways", "--nope"],
        &["focus", "sideways", "-n"],
        &["focus", "sideways", "--help=x"],
        &["focus", "left", "--help"],
        &["focus", "--version"],
        &["focus", "-V"],
        &["resize-axis", "sideways", "grow"],
        &["resize-axis", "horizontal", "grow"],
        &["resize-axis", "horizontal"],
        &["resize-axis", "sideways"],
        &["stop", "now"],
        &["stop", "--", "now"],
        &["focus-workspace", "-1"],
        &["focus-workspace", "--", "-1"],
        &["focus-workspace", "+1"],
        &["focus-workspace", "+"],
        &["focus-workspace", "-"],
        &["focus-workspace", "18446744073709551615"],
        &["focus-workspace", "18446744073709551616"],
        &["focus-workspace", "99999999999999999999x"],
        &["focus-workspace", "x99999999999999999999"],
        &["border-width", "-5"],
        &["border-width", "--", "-5"],
        &["border-width", "2147483647"],
        &["border-width", "2147483648"],
        &["border-width", "9223372036854775808"],
        &["border-width", "1.5"],
        &["border-offset", "-1"],
        &["border-offset", "-1.5"],
        &["border-offset", "-1e5"],
        &["border-offset", "-1e"],
        &["border-offset", "-.5"],
        &["border-offset", "-1.2.3"],
        &["border-offset", "-0"],
        &["border-offset", "-2147483649"],
        &["border-offset", "-9223372036854775809"],
        &["border-offset", "-1", "-2"],
        &["border-offset", "-x"],
        &["border-offset", "--1"],
        &["workspace-padding", "0", "0", "-5"],
        &["workspace-padding", "-1", "0", "5"],
        &["workspace-padding", "0", "0", "-5", "-6"],
        &["border-colour", "1", "2", "3"],
        &["border-colour", "1", "2", "256"],
        &["border-colour", "1", "2", "--", "-1"],
        &["border-colour", "1", "2", "3", "--window-kind", "stack"],
        &["border-colour", "--window-kind", "stack", "1", "2", "3"],
        &["border-colour", "1", "--window-kind=stack", "2", "3"],
        &["border-colour", "1", "2", "3", "--window-kind="],
        &["border-colour", "1", "2", "3", "--window-kind", ""],
        &["border-colour", "1", "2", "3", "--window-kind", "all"],
        &["border-colour", "1", "2", "3", "--window-kind=all"],
        &["border-colour", "1", "2", "3", "--window-kind"],
        &["border-colour", "1", "2", "3", "--window-kind", "--"],
        &["border-colour", "1", "2", "--window-kind", "--", "3"],
        &["border-colour", "1", "2", "3", "--window-kind", "--", "3"],
        &["border-colour", "1", "2", "3", "--window-kind", "-"],
        &["border-colour", "1", "2", "3", "--window-kind", "-5"],
        &["border-colour", "1", "2", "3", "--window-kind", "--help"],
        &["border-colour", "1", "2", "3", "--window-kind", "--nope"],
        &["border-colour", "1", "2", "3", "--window-kind", "stack", "--window-kind", "single"],
        &["border-colour", "1", "2", "3", "--window-kind", "all", "--window-kind", "single"],
        &["border-colour", "1", "2", "3", "--window-kind=stack", "--window-kind=all"],
        &["border-colour", "1", "2", "3", "--window-kind", "--window-kind", "single"],
        &["border-colour", "1", "2", "3", "--window", "stack"],
        &["hotkeys", "--json"],
        &["hotkeys", "--json", "--json"],
        &["hotkeys", "--json="],
        &["hotkeys", "--json=true"],
        &["hotkeys", "-j"],
        &["why", "--", "--json"],
        &["schema", "-o", "x"],
        &["schema", "-ox"],
        &["schema", "-o=x"],
        &["schema", "-o="],
        &["schema", "-o"],
        &["schema", "-o", ""],
        &["schema", "-oh"],
        &["schema", "-ho"],
        &["schema", "--output", "x"],
        &["schema", "--output=x=y"],
        &["schema", "-o", "x", "--output", "y"],
        &["schema", "-o", "-h"],
        &["schema", "-o", "-"],
        &["schema", "x"],
        &["check"],
        &["check", "x"],
        &["check", ""],
        &["check", "x", "y"],
        &["start"],
        &["start", "--config", "x", "--dry-run"],
        &["start", "--hotkeys", "x", "--no-hotkeys"],
        &["start", "--no-hotkeys", "--hotkeys", "x"],
        &["start", "--no-hotkeys", "--hotkeys", ""],
        &["start", "--hotkeys=", "--no-hotkeys"],
        &["start", "--config", "x", "--no-hotkeys", "--dry-run", "--hotkeys=y"],
        &["subscribe", ""],
        &["subscribe"],
        &["float-rule", "exe", "wt.exe"],
        &["float-rule", "exe", "--matching-strategy", "contains", "wt.exe"],
        &["float-rule", "exe"],
        &["float-rule", "exe", "--matching-strategy", "contains"],
        &["workspace-rule", "exe", "a", "0", "1", "--initial-only"],
        &["workspace-rule", "exe", "a", "0", "1", "--initial-only", "--initial-only"],
        &["workspace-rule", "exe", "a", "0", "x", "--initial-only"],
    ];
    for line in lines {
        compare(&grammar, line);
    }
}

#[test]
fn random_lines_are_read_alike() {
    let grammar = grammar();
    let words = [
        "left", "next", "horizontal", "increase", "enable", "bsp", "single", "exe", "equals",
        "rounded", "linear", "paused", "0", "7", "-3", "300", "--", "-", "", "-h", "-o", "-ofile",
        "--help", "--json", "--window-kind", "--window-kind=stack", "--matching-strategy",
        "--matching-strategy=regex", "--initial-only", "--output", "--config=a", "--hotkeys",
        "--no-hotkeys", "--dry-run", "--nope", "--json=1", "a b", "create", "swap", "cloak", "op",
    ];
    let mut seed: u64 = 0x2545_f491_4f6c_dd1d;
    let mut next = |bound: usize| {
        seed ^= seed << 13;
        seed ^= seed >> 7;
        seed ^= seed << 17;
        (seed % bound as u64) as usize
    };
    for _ in 0..2_000 {
        let verb = Verb::ALL[next(Verb::ALL.len())];
        let mut line = vec![verb.as_str()];
        for _ in 0..next(6) {
            line.push(words[next(words.len())]);
        }
        compare(&grammar, &line);
    }
}
