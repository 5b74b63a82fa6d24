//! What can be wrong with a command line, and how that is said.

use vstd::prelude::*;

use crate::client::cli::numbers::NumberFault;
use crate::text::{append, chars_of, is_white_space, owned, text_of, trimmed_back, white_space};

verus! {

/// What is wrong with a command line.
#[derive(Debug, Clone, PartialEq, Eq)]
#[allow(inconsistent_fields)]
pub enum Misuse {
    /// It asks for help, or says nothing at all.
    Help,
    /// It asks for the version.
    Version,
    /// There is no such subcommand.
    Unrecognized(String),
    /// This argument does not belong there.
    Unexpected(String),
    /// This word is not a value of the argument.
    Invalid {
        /// The word.
        value: String,
        /// The argument.
        label: &'static str,
        /// Why it is not, for a number.
        reason: Option<NumberFault>,
    },
    /// The argument needs a value and got none.
    NoValue {
        /// The argument.
        label: &'static str,
    },
    /// The argument takes no value and got one.
    NoneExpected {
        /// The value.
        value: String,
        /// The argument.
        label: &'static str,
    },
    /// The argument is there twice.
    Repeated {
        /// The argument.
        label: &'static str,
    },
    /// Two arguments exclude each other.
    Together {
        /// The one that came first.
        first: &'static str,
        /// The other one.
        second: &'static str,
    },
    /// An argument is missing.
    Missing,
}

/// What a [`Misuse`] holds.
#[verifier::ext_equal]
#[allow(inconsistent_fields)]
pub ghost enum MisuseView {
    Help,
    Version,
    Unrecognized(Seq<char>),
    Unexpected(Seq<char>),
    Invalid { value: Seq<char>, label: Seq<char>, reason: Option<NumberFault> },
    NoValue { label: Seq<char> },
    NoneExpected { value: Seq<char>, label: Seq<char> },
    Repeated { label: Seq<char> },
    Together { first: Seq<char>, second: Seq<char> },
    Missing,
}

impl View for Misuse {
    type V = MisuseView;

    open spec fn view(&self) -> MisuseView {
        match *self {
            Misuse::Help => MisuseView::Help,
            Misuse::Version => MisuseView::Version,
            Misuse::Unrecognized(word) => MisuseView::Unrecognized(word@),
            Misuse::Unexpected(word) => MisuseView::Unexpected(word@),
            Misuse::Invalid { value, label, reason } => MisuseView::Invalid {
                value: value@,
                label: label@,
                reason,
            },
            Misuse::NoValue { label } => MisuseView::NoValue { label: label@ },
            Misuse::NoneExpected { value, label } => MisuseView::NoneExpected {
                value: value@,
                label: label@,
            },
            Misuse::Repeated { label } => MisuseView::Repeated { label: label@ },
            Misuse::Together { first, second } => MisuseView::Together {
                first: first@,
                second: second@,
            },
            Misuse::Missing => MisuseView::Missing,
        }
    }
}

impl MisuseView {
    /// What is wrong, in words.
    pub open spec fn message(self) -> Seq<char> {
        match self {
            MisuseView::Help | MisuseView::Version =>
                "expected a command, not a help or version flag"@,
            MisuseView::Unrecognized(word) => "unrecognized subcommand '"@ + word + "'"@,
            MisuseView::Unexpected(word) => "unexpected argument '"@ + word + "' found"@,
            MisuseView::Invalid { value, label, reason } => {
                let what = "invalid value '"@ + value + "' for '"@ + label + "'"@;
                match reason {
                    Some(fault) => what + ": "@ + fault.message(),
                    None => what,
                }
            },
            MisuseView::NoValue { label } => "a value is required for '"@ + label
                + "' but none was supplied"@,
            MisuseView::NoneExpected { value, label } => "unexpected value '"@ + value
                + "' for '"@ + label + "' found; no more were expected"@,
            MisuseView::Repeated { label } => "the argument '"@ + label
                + "' cannot be used multiple times"@,
            MisuseView::Together { first, second } => "the argument '"@ + first
                + "' cannot be used with '"@ + second + "'"@,
            MisuseView::Missing => "the following required arguments were not provided:"@,
        }
    }
}

fn quoted_between(before: &str, word: &str, after: &str) -> (r: String)
    ensures
        r@ == before@ + word@ + after@,
{
    let mut r = owned(before);
    append(&mut r, word);
    append(&mut r, after);
    r
}

impl Misuse {
    /// What is wrong, in words.
    #[must_use]
    pub fn to_string(&self) -> (r: String)
        ensures
            r@ == self@.message(),
    {
        match self {
            Misuse::Help | Misuse::Version => owned(
                "expected a command, not a help or version flag",
            ),
            Misuse::Unrecognized(word) => quoted_between(
                "unrecognized subcommand '",
                word.as_str(),
                "'",
            ),
            Misuse::Unexpected(word) => quoted_between(
                "unexpected argument '",
                word.as_str(),
                "' found",
            ),
            Misuse::Invalid { value, label, reason } => {
                let mut r = quoted_between("invalid value '", value.as_str(), "' for '");
                append(&mut r, label);
                append(&mut r, "'");
                if let Some(fault) = reason {
                    append(&mut r, ": ");
                    append(&mut r, fault.to_string().as_str());
                }
                r
            },
            Misuse::NoValue { label } => quoted_between(
                "a value is required for '",
                label,
                "' but none was supplied",
            ),
            Misuse::NoneExpected { value, label } => {
                let mut r = quoted_between("unexpected value '", value.as_str(), "' for '");
                append(&mut r, label);
                append(&mut r, "' found; no more were expected");
                r
            },
            Misuse::Repeated { label } => quoted_between(
                "the argument '",
                label,
                "' cannot be used multiple times",
            ),
            Misuse::Together { first, second } => {
                let mut r = quoted_between("the argument '", first, "' cannot be used with '");
                append(&mut r, second);
                append(&mut r, "'");
                r
            },
            Misuse::Missing => owned("the following required arguments were not provided:"),
        }
    }
}

/// A text up to its first line break.
pub open spec fn first_line(s: Seq<char>) -> Seq<char>
    decreases s.len(),
{
    if s.len() == 0 || s[0] == '\n' {
        Seq::empty()
    } else {
        seq![s[0]] + first_line(s.skip(1))
    }
}

/// A text on one line, the way a configuration error can afford it: its first
/// line, without the white space behind.
pub open spec fn on_one_line(s: Seq<char>) -> Seq<char> {
    trimmed_back(first_line(s))
}

/// A text on one line has no line break in it.
pub proof fn one_line_has_no_break(s: Seq<char>)
    ensures
        !on_one_line(s).contains('\n'),
{
    lemma_first_line_has_no_break(s);
    let line = first_line(s);
    lemma_trimmed_is_a_prefix(line);
    let short = trimmed_back(line);
    assert forall|i: int| 0 <= i < short.len() implies short[i] != '\n' by {
        assert(line.contains(line[i]));
    }
}

proof fn lemma_first_line_has_no_break(s: Seq<char>)
    ensures
        !first_line(s).contains('\n'),
    decreases s.len(),
{
    if s.len() > 0 && s[0] != '\n' {
        lemma_first_line_has_no_break(s.skip(1));
        let line = first_line(s);
        let rest = first_line(s.skip(1));
        assert forall|i: int| 0 <= i < line.len() implies line[i] != '\n' by {
            if i > 0 {
                assert(line[i] == rest[i - 1]);
                assert(rest.contains(rest[i - 1]));
            }
        }
    }
}

proof fn lemma_trimmed_is_a_prefix(s: Seq<char>)
    ensures
        trimmed_back(s).len() <= s.len(),
        forall|i: int| 0 <= i < trimmed_back(s).len() ==> trimmed_back(s)[i] == s[i],
    decreases s.len(),
{
    if s.len() > 0 && is_white_space(s.last()) {
        let shorter = s.drop_last();
        lemma_trimmed_is_a_prefix(shorter);
        assert forall|i: int| 0 <= i < trimmed_back(s).len() implies trimmed_back(s)[i] == s[i] by {
            assert(trimmed_back(shorter)[i] == shorter[i]);
        }
    }
}

/// A text on one line: its first line, without the white space behind.
#[must_use]
pub fn one_line(text: &str) -> (r: String)
    ensures
        r@ == on_one_line(text@),
{
    let chars = chars_of(text);
    let mut line: Vec<char> = Vec::new();
    let mut i: usize = 0;
    assert(line@ + first_line(chars@.skip(0)) =~= first_line(text@)) by {
        assert(chars@.skip(0) =~= text@);
    }
    while i < chars.len() && chars[i] != '\n'
        invariant
            i <= chars@.len(),
            line@ + first_line(chars@.skip(i as int)) == first_line(text@),
        decreases chars.len() - i,
    {
        let ghost before = line@;
        let ghost rest = chars@.skip(i as int);
        assert(rest[0] == chars@[i as int]);
        assert(rest.skip(1) =~= chars@.skip(i + 1));
        line.push(chars[i]);
        assert(line@ + first_line(rest.skip(1)) =~= before + first_line(rest));
        i = i + 1;
    }
    assert(first_line(chars@.skip(i as int)) =~= Seq::<char>::empty()) by {
        if i < chars@.len() {
            assert(chars@.skip(i as int)[0] == '\n');
        }
    }
    assert(line@ =~= first_line(text@));
    while line.len() > 0 && white_space(line[line.len() - 1])
        invariant
            trimmed_back(line@) == on_one_line(text@),
        decreases line@.len(),
    {
        let ghost before = line@;
        line.pop();
        assert(line@ =~= before.drop_last());
    }
    text_of(line.as_slice())
}

} // verus!
