//! A command is what was typed.

use vstd::prelude::*;

use crate::client::cli::grammar::{verbs_are_distinct, Verb};
use crate::client::cli::numbers::{digits_after, number_in, ranged, NumberFault};
use crate::client::cli::scan::FoundView;
use crate::client::cli::values::Kind;
use crate::client::cli::{reading, sends_command, verb_of, Cmd};
use crate::client::command::Command;
use crate::text::{decimal_of, digit, signed_of};

verus! {

/// One thing a command holds.
pub ghost enum Item {
    /// A text, or the word for a choice.
    Text(Seq<char>),
    /// A number.
    Number(int),
}

/// What a command holds, in the order it is typed in. What can be left out is not
/// among it.
pub open spec fn payload(command: Command) -> Seq<Item> {
    match command {
        Command::Query { target } => seq![Item::Text(target.word())],
        Command::Focus { direction } => seq![Item::Text(direction.word())],
        Command::CycleFocus { direction } => seq![Item::Text(direction.word())],
        Command::Move { direction } => seq![Item::Text(direction.word())],
        Command::CycleMove { direction } => seq![Item::Text(direction.word())],
        Command::ResizeAxis { axis, sizing } => seq![
            Item::Text(axis.word()),
            Item::Text(sizing.word()),
        ],
        Command::ResizeEdge { direction, sizing } => seq![
            Item::Text(direction.word()),
            Item::Text(sizing.word()),
        ],
        Command::Stack { direction } => seq![Item::Text(direction.word())],
        Command::FocusStackWindow { index } => seq![Item::Number(index as int)],
        Command::CycleStack { direction } => seq![Item::Text(direction.word())],
        Command::CycleLayout { direction } => seq![Item::Text(direction.word())],
        Command::ChangeLayout { layout } => seq![Item::Text(layout.word())],
        Command::FlipLayout { axis } => seq![Item::Text(axis.word())],
        Command::FocusWorkspace { index } => seq![Item::Number(index as int)],
        Command::MoveToWorkspace { index } => seq![Item::Number(index as int)],
        Command::SendToWorkspace { index } => seq![Item::Number(index as int)],
        Command::CycleWorkspace { direction } => seq![Item::Text(direction.word())],
        Command::FocusNamedWorkspace { name } => seq![Item::Text(name@)],
        Command::MoveToNamedWorkspace { name } => seq![Item::Text(name@)],
        Command::SendToNamedWorkspace { name } => seq![Item::Text(name@)],
        Command::WorkspacePadding { monitor, workspace, size } => seq![
            Item::Number(monitor as int),
            Item::Number(workspace as int),
            Item::Number(size as int),
        ],
        Command::ContainerPadding { monitor, workspace, size } => seq![
            Item::Number(monitor as int),
            Item::Number(workspace as int),
            Item::Number(size as int),
        ],
        Command::FocusMonitor { index } => seq![Item::Number(index as int)],
        Command::MoveToMonitor { index } => seq![Item::Number(index as int)],
        Command::SendToMonitor { index } => seq![Item::Number(index as int)],
        Command::CycleMonitor { direction } => seq![Item::Text(direction.word())],
        Command::FocusFollowsMouse { state } => seq![Item::Text(state.word())],
        Command::WindowContainerBehaviour { behaviour } => seq![Item::Text(behaviour.word())],
        Command::CrossMonitorMoveBehaviour { behaviour } => seq![Item::Text(behaviour.word())],
        Command::WindowHidingBehaviour { behaviour } => seq![Item::Text(behaviour.word())],
        Command::UnmanagedWindowOperationBehaviour { behaviour } => seq![
            Item::Text(behaviour.word()),
        ],
        Command::MouseFollowsFocus { state } => seq![Item::Text(state.word())],
        Command::SetHotkeys { state } => seq![Item::Text(state.word())],
        Command::Border { state } => seq![Item::Text(state.word())],
        Command::BorderWidth { width } => seq![Item::Number(width as int)],
        Command::BorderOffset { offset } => seq![Item::Number(offset as int)],
        Command::BorderColour { r, g, b, .. } => seq![
            Item::Number(r as int),
            Item::Number(g as int),
            Item::Number(b as int),
        ],
        Command::BorderStyle { style } => seq![Item::Text(style.word())],
        Command::Animation { state } => seq![Item::Text(state.word())],
        Command::AnimationDuration { duration } => seq![Item::Number(duration as int)],
        Command::AnimationStyle { style } => seq![Item::Text(style.word())],
        Command::AnimationFps { fps } => seq![Item::Number(fps as int)],
        Command::ManageRule { identifier, id, .. } => seq![
            Item::Text(identifier.word()),
            Item::Text(id@),
        ],
        Command::WorkspaceRule { identifier, id, monitor, workspace, .. } => seq![
            Item::Text(identifier.word()),
            Item::Text(id@),
            Item::Number(monitor as int),
            Item::Number(workspace as int),
        ],
        Command::FloatRule { identifier, id, .. } => seq![
            Item::Text(identifier.word()),
            Item::Text(id@),
        ],
        Command::IgnoreRule { identifier, id, .. } => seq![
            Item::Text(identifier.word()),
            Item::Text(id@),
        ],
        Command::SubscribePipe { name } => seq![Item::Text(name@)],
        Command::UnsubscribePipe { name } => seq![Item::Text(name@)],
        _ => Seq::empty(),
    }
}

/// `item` is what `text` says: the text itself, or the number it is the numeral of.
pub open spec fn is_typed(item: Item, text: Seq<char>) -> bool {
    match item {
        Item::Text(held) => held == text,
        Item::Number(held) => forall|n: int| text == #[trigger] signed_of(n) ==> held == n,
    }
}

/// The command a subcommand sends travels under the name of that subcommand.
pub proof fn a_command_is_sent_under_the_name_it_was_typed(cmd: Cmd)
    ensures
        cmd.sends() matches Some(command) ==> command.tag() == cmd.verb().word(),
{
}

/// Two different subcommands never send the same command.
pub proof fn different_subcommands_send_different_commands(a: Cmd, b: Cmd)
    requires
        a.verb() != b.verb(),
        a.sends() is Some,
        b.sends() is Some,
    ensures
        a.sends()->0 != b.sends()->0,
        a.sends()->0.tag() != b.sends()->0.tag(),
{
    a_command_is_sent_under_the_name_it_was_typed(a);
    a_command_is_sent_under_the_name_it_was_typed(b);
    if a.verb().word() == b.verb().word() {
        verbs_are_distinct(a.verb(), b.verb());
    }
}

proof fn digits_in_two_parts(
    a: Seq<char>,
    b: Seq<char>,
    so_far: int,
    negative: bool,
    low: int,
    high: int,
)
    ensures
        digits_after(a + b, so_far, negative, low, high) == match digits_after(
            a,
            so_far,
            negative,
            low,
            high,
        ) {
            Ok(value) => digits_after(b, value, negative, low, high),
            Err(fault) => Err(fault),
        },
    decreases a.len(),
{
    if a.len() == 0 {
        assert(a + b =~= b);
    } else {
        assert((a + b).skip(1) =~= a.skip(1) + b);
        let next = if negative {
            10 * so_far - (a[0] as int - 48)
        } else {
            10 * so_far + (a[0] as int - 48)
        };
        digits_in_two_parts(a.skip(1), b, next, negative, low, high);
    }
}

proof fn digits_are_digits(n: nat)
    ensures
        decimal_of(n).len() > 0,
        forall|i: int|
            0 <= i < decimal_of(n).len() ==> '0' <= #[trigger] decimal_of(n)[i] && decimal_of(n)[i]
                <= '9',
    decreases n,
{
    if n >= 10 {
        digits_are_digits(n / 10);
    }
}

/// The digits of a number are read as that number.
proof fn digits_are_read_back(n: nat, negative: bool, low: int, high: int)
    requires
        low <= 0 <= high,
        negative ==> low <= -n,
        !negative ==> n <= high,
    ensures
        digits_after(decimal_of(n), 0, negative, low, high) == Ok::<int, NumberFault>(
            if negative {
                -n
            } else {
                n as int
            },
        ),
    decreases n,
{
    if n < 10 {
        let s = decimal_of(n);
        assert(s.skip(1).len() == 0);
        assert(digits_after(s.skip(1), if negative { -n } else { n as int }, negative, low, high)
            == Ok::<int, NumberFault>(
            if negative {
                -n
            } else {
                n as int
            },
        ));
    } else {
        digits_are_read_back(n / 10, negative, low, high);
        let head = decimal_of(n / 10);
        let last = seq![digit((n % 10) as int)];
        assert(decimal_of(n) =~= head + last);
        let so_far = if negative {
            -(n / 10)
        } else {
            (n / 10) as int
        };
        digits_in_two_parts(head, last, 0, negative, low, high);
        assert(last.skip(1).len() == 0);
        let next = if negative {
            10 * so_far - (n % 10)
        } else {
            10 * so_far + (n % 10)
        };
        assert(next == if negative {
            -n
        } else {
            n as int
        });
        assert(digits_after(last.skip(1), next, negative, low, high) == Ok::<int, NumberFault>(
            next,
        ));
    }
}

/// A numeral is read as the number it is the numeral of, and refused when that
/// number is out of range.
pub proof fn a_numeral_is_read_back(n: int, low: int, high: int)
    requires
        low <= 0 <= high,
    ensures
        low <= n <= high ==> number_in(signed_of(n), low, high) == Ok::<int, NumberFault>(n),
        i64::MIN <= low <= n <= high <= i64::MAX ==> ranged(signed_of(n), low, high) == Ok::<
            int,
            NumberFault,
        >(n),
{
    digits_are_digits(
        if n < 0 {
            (-n) as nat
        } else {
            n as nat
        },
    );
    if low <= n <= high {
        numerals_are_read(n, low, high);
    }
    if i64::MIN <= n <= i64::MAX {
        numerals_are_read(n, i64::MIN as int, i64::MAX as int);
    }
}

proof fn numerals_are_read(n: int, low: int, high: int)
    requires
        low <= n <= high,
        low <= 0 <= high,
    ensures
        number_in(signed_of(n), low, high) == Ok::<int, NumberFault>(n),
{
    if n < 0 {
        digits_are_digits((-n) as nat);
        digits_are_read_back((-n) as nat, true, low, high);
        let s = signed_of(n);
        assert(s.skip(1) =~= decimal_of((-n) as nat));
        assert(s[0] == '-');
    } else {
        digits_are_digits(n as nat);
        digits_are_read_back(n as nat, false, low, high);
        let s = signed_of(n);
        assert('0' <= s[0] && s[0] <= '9');
    }
}

/// A number that was read from a numeral is the number of that numeral.
proof fn a_number_is_typed(kind: Kind, text: Seq<char>, number: int)
    requires
        kind.number(text) == Ok::<int, NumberFault>(number),
    ensures
        is_typed(Item::Number(number), text),
{
    assert forall|n: int| text == #[trigger] signed_of(n) implies number == n by {
        numerals_mean_one_number(kind, n, number);
    }
}

proof fn numerals_mean_one_number(kind: Kind, n: int, number: int)
    requires
        kind.number(signed_of(n)) == Ok::<int, NumberFault>(number),
    ensures
        n == number,
{
    let (low, high) = match kind {
        Kind::Index => (0, usize::MAX as int),
        Kind::Millis => (0, u64::MAX as int),
        _ => (i64::MIN as int, i64::MAX as int),
    };
    assert(number_in(signed_of(n), low, high) == Ok::<int, NumberFault>(number));
    a_read_numeral_fits(n, low, high, number);
    numerals_are_read(n, low, high);
}

proof fn a_read_numeral_fits(n: int, low: int, high: int, number: int)
    requires
        low <= 0 <= high,
        number_in(signed_of(n), low, high) == Ok::<int, NumberFault>(number),
    ensures
        low <= n <= high,
{
    let size = if n < 0 {
        (-n) as nat
    } else {
        n as nat
    };
    digits_are_digits(size);
    let s = signed_of(n);
    if n < 0 {
        assert(s.skip(1) =~= decimal_of(size));
        assert(s[0] == '-');
        if low < 0 {
            read_digits_fit(size, true, low, high);
        }
    } else {
        assert('0' <= s[0] && s[0] <= '9');
        read_digits_fit(size, false, low, high);
    }
}

proof fn read_digits_fit(n: nat, negative: bool, low: int, high: int)
    requires
        low <= 0 <= high,
        digits_after(decimal_of(n), 0, negative, low, high) is Ok,
    ensures
        negative ==> low <= -n,
        !negative ==> n <= high,
    decreases n,
{
    if n >= 10 {
        let head = decimal_of(n / 10);
        let last = seq![digit((n % 10) as int)];
        assert(decimal_of(n) =~= head + last);
        digits_in_two_parts(head, last, 0, negative, low, high);
        read_digits_fit(n / 10, negative, low, high);
        digits_are_read_back(n / 10, negative, low, high);
    }
}

/// What a command holds is what was typed, in the order it was typed in: texts and
/// words as they are, numbers by their numerals. What can be left out is what was
/// given for it, and stands for the usual when nothing was.
#[verifier::spinoff_prover]
#[verifier::rlimit(60)]
pub proof fn a_command_holds_what_was_typed(cmd: Cmd, verb: Verb, found: FoundView, i: int)
    requires
        cmd.says(verb, found),
        cmd.sends() is Some,
        0 <= i < payload(cmd.sends()->0).len(),
    ensures
        is_typed(payload(cmd.sends()->0)[i], found.values[i]),
{
    match cmd {
        Cmd::Query { .. } => {},
        Cmd::Focus { .. } => {},
        Cmd::CycleFocus { .. } => {},
        Cmd::Move { .. } => {},
        Cmd::CycleMove { .. } => {},
        Cmd::ResizeAxis { .. } => {},
        Cmd::ResizeEdge { .. } => {},
        Cmd::Stack { .. } => {},
        Cmd::FocusStackWindow { index } => {
            a_number_is_typed(Kind::Index, found.values[0], index as int);
        },
        Cmd::CycleStack { .. } => {},
        Cmd::CycleLayout { .. } => {},
        Cmd::ChangeLayout { .. } => {},
        Cmd::FlipLayout { .. } => {},
        Cmd::FocusWorkspace { index } => {
            a_number_is_typed(Kind::Index, found.values[0], index as int);
        },
        Cmd::MoveToWorkspace { index } => {
            a_number_is_typed(Kind::Index, found.values[0], index as int);
        },
        Cmd::SendToWorkspace { index } => {
            a_number_is_typed(Kind::Index, found.values[0], index as int);
        },
        Cmd::CycleWorkspace { .. } => {},
        Cmd::FocusNamedWorkspace { .. } => {},
        Cmd::MoveToNamedWorkspace { .. } => {},
        Cmd::SendToNamedWorkspace { .. } => {},
        Cmd::WorkspacePadding { monitor, workspace, size } => {
            a_number_is_typed(Kind::Index, found.values[0], monitor as int);
            a_number_is_typed(Kind::Index, found.values[1], workspace as int);
            a_number_is_typed(Kind::Pixels, found.values[2], size as int);
        },
        Cmd::ContainerPadding { monitor, workspace, size } => {
            a_number_is_typed(Kind::Index, found.values[0], monitor as int);
            a_number_is_typed(Kind::Index, found.values[1], workspace as int);
            a_number_is_typed(Kind::Pixels, found.values[2], size as int);
        },
        Cmd::FocusMonitor { index } => {
            a_number_is_typed(Kind::Index, found.values[0], index as int);
        },
        Cmd::MoveToMonitor { index } => {
            a_number_is_typed(Kind::Index, found.values[0], index as int);
        },
        Cmd::SendToMonitor { index } => {
            a_number_is_typed(Kind::Index, found.values[0], index as int);
        },
        Cmd::CycleMonitor { .. } => {},
        Cmd::FocusFollowsMouse { .. } => {},
        Cmd::WindowContainerBehaviour { .. } => {},
        Cmd::CrossMonitorMoveBehaviour { .. } => {},
        Cmd::WindowHidingBehaviour { .. } => {},
        Cmd::UnmanagedWindowOperationBehaviour { .. } => {},
        Cmd::MouseFollowsFocus { .. } => {},
        Cmd::SetHotkeys { .. } => {},
        Cmd::Border { .. } => {},
        Cmd::BorderWidth { width } => {
            a_number_is_typed(Kind::Pixels, found.values[0], width as int);
        },
        Cmd::BorderOffset { offset } => {
            a_number_is_typed(Kind::Pixels, found.values[0], offset as int);
        },
        Cmd::BorderColour { r, g, b, .. } => {
            a_number_is_typed(Kind::Channel, found.values[0], r as int);
            a_number_is_typed(Kind::Channel, found.values[1], g as int);
            a_number_is_typed(Kind::Channel, found.values[2], b as int);
        },
        Cmd::BorderStyle { .. } => {},
        Cmd::Animation { .. } => {},
        Cmd::AnimationDuration { duration } => {
            a_number_is_typed(Kind::Millis, found.values[0], duration as int);
        },
        Cmd::AnimationStyle { .. } => {},
        Cmd::AnimationFps { fps } => {
            a_number_is_typed(Kind::Rate, found.values[0], fps as int);
        },
        Cmd::ManageRule { .. } => {},
        Cmd::WorkspaceRule { monitor, workspace, .. } => {
            a_number_is_typed(Kind::Index, found.values[2], monitor as int);
            a_number_is_typed(Kind::Index, found.values[3], workspace as int);
        },
        Cmd::FloatRule { .. } => {},
        Cmd::IgnoreRule { .. } => {},
        Cmd::SubscribePipe { .. } => {},
        Cmd::UnsubscribePipe { .. } => {},
        _ => {},
    }
}

/// What can be left out of a rule or a border colour is what was given for it, and
/// stands for the usual when nothing was.
pub proof fn what_is_left_out_is_the_usual(cmd: Cmd, verb: Verb, found: FoundView)
    requires
        cmd.says(verb, found),
        cmd.sends() is Some,
    ensures
        match cmd.sends()->0 {
            Command::BorderColour { kind, .. } => match found.given[0] {
                Some(text) => kind.word() == text,
                None => kind is Single,
            },
            Command::ManageRule { matching_strategy, .. } => match found.given[0] {
                Some(text) => matching_strategy.word() == text,
                None => matching_strategy is Equals,
            },
            Command::FloatRule { matching_strategy, .. } => match found.given[0] {
                Some(text) => matching_strategy.word() == text,
                None => matching_strategy is Equals,
            },
            Command::IgnoreRule { matching_strategy, .. } => match found.given[0] {
                Some(text) => matching_strategy.word() == text,
                None => matching_strategy is Equals,
            },
            Command::WorkspaceRule { initial_only, matching_strategy, .. } => {
                &&& initial_only == (found.given[0] is Some)
                &&& match found.given[1] {
                    Some(text) => matching_strategy.word() == text,
                    None => matching_strategy is Equals,
                }
            },
            _ => true,
        },
{
}

/// Commands that agree travel under the same name and hold the same.
#[verifier::spinoff_prover]
#[verifier::rlimit(100)]
pub proof fn commands_that_agree_are_alike(a: Command, b: Command)
    requires
        a.agrees(b),
    ensures
        a.tag() == b.tag(),
        payload(a) == payload(b),
{
}

/// A command a line sends travels under the first word of the line, and holds what
/// was read behind it.
pub proof fn a_line_sends_what_it_says(words: Seq<Seq<char>>, command: Command)
    requires
        sends_command(words, command),
    ensures
        words.len() > 0,
        command.tag() == words[0],
        forall|i: int|
            0 <= i < payload(command).len() ==> is_typed(
                #[trigger] payload(command)[i],
                reading(words)->Ok_0.1.values[i],
            ),
{
    let (verb, found) = reading(words)->Ok_0;
    let cmd = choose|cmd: Cmd| #[trigger]
        cmd.says(verb, found) && (cmd.sends() matches Some(sent) && command.agrees(sent));
    a_command_is_sent_under_the_name_it_was_typed(cmd);
    commands_that_agree_are_alike(command, cmd.sends()->0);
    assert(verb_of(words[0]).word() == words[0]);
    assert forall|i: int| 0 <= i < payload(command).len() implies is_typed(
        #[trigger] payload(command)[i],
        found.values[i],
    ) by {
        a_command_holds_what_was_typed(cmd, verb, found, i);
    }
}

} // verus!
