//! How an option and its value are written on the command line.

use vstd::prelude::*;

use crate::client::cli::misuse::MisuseView;
use crate::client::cli::scan::{has_long, has_short, Awaited, Progress};
use crate::client::cli::token::{is_equals, token_of, TokenView};
use crate::seqs::first_is;

verus! {

/// Two dashes and the name of an option.
pub open spec fn dashed(name: Seq<char>) -> Seq<char> {
    seq!['-', '-'] + name
}

/// Two dashes, the name of an option, an equals sign and a value.
pub open spec fn assigned(name: Seq<char>, value: Seq<char>) -> Seq<char> {
    seq!['-', '-'] + name + seq!['='] + value
}

/// A name of an option: something without an equals sign in it, and not `help`.
pub open spec fn is_option_name(name: Seq<char>) -> bool {
    &&& name.len() > 0
    &&& name != "help"@
    &&& forall|i: int| 0 <= i < name.len() ==> #[trigger] name[i] != '='
}

/// The option at `idx` goes by that name, and none before it does.
pub open spec fn is_called(progress: Progress, idx: int, name: Seq<char>) -> bool {
    let opts = progress.shape.opts();
    &&& 0 <= idx < opts.len()
    &&& opts[idx].long == name
    &&& forall|i: int| 0 <= i < idx ==> (#[trigger] opts[i]).long != name
}

/// Everything that was read so far is settled, and options still count.
pub open spec fn is_between_words(progress: Progress) -> bool {
    progress.awaited is Nothing && !progress.escaped
}

/// The value can be the one of the option at `idx`.
pub open spec fn takes(progress: Progress, idx: int, value: Seq<char>) -> bool {
    let opt = progress.shape.opts()[idx];
    &&& opt.kind is Some
    &&& opt.kind->0.fault(value) is None
    &&& progress.given.len() == progress.shape.opts().len()
    &&& progress.given[idx] is None
}

proof fn a_dashed_name_is_a_name(name: Seq<char>, value: Seq<char>)
    requires
        is_option_name(name),
    ensures
        token_of(dashed(name)) == (TokenView::Long { name, value: None }),
        token_of(assigned(name, value)) == (TokenView::Long { name, value: Some(value) }),
{
    let p = is_equals();
    assert(dashed(name).skip(2) =~= name);
    assert forall|i: int| 0 <= i < name.len() implies !p(#[trigger] name[i]) by {}
    crate::seqs::first_is_none(name, p);
    let rest = name + seq!['='] + value;
    assert(assigned(name, value).skip(2) =~= rest);
    assert forall|i: int| 0 <= i < name.len() implies !p(#[trigger] rest[i]) by {
        assert(rest[i] == name[i]);
    }
    assert(p(rest[name.len() as int]));
    first_is(rest, p, name.len() as int);
    assert(rest.take(name.len() as int) =~= name);
    assert(rest.skip(name.len() as int + 1) =~= value);
}

proof fn the_option_is_found(progress: Progress, idx: int, name: Seq<char>)
    requires
        is_called(progress, idx, name),
    ensures
        crate::seqs::first_idx(progress.shape.opts(), has_long(name)) == Some(idx),
{
    let opts = progress.shape.opts();
    assert forall|i: int| 0 <= i < idx implies !has_long(name)(#[trigger] opts[i]) by {}
    first_is(opts, has_long(name), idx);
}

/// A value behind an equals sign is the value of its option: nothing else changes.
pub proof fn a_value_goes_to_its_option(
    progress: Progress,
    idx: int,
    name: Seq<char>,
    value: Seq<char>,
)
    requires
        is_between_words(progress),
        is_option_name(name),
        is_called(progress, idx, name),
        takes(progress, idx, value),
    ensures
        ({
            let next = progress.step(assigned(name, value));
            &&& next is Ok
            &&& next->Ok_0.given == progress.given.update(idx, Some(value))
            &&& next->Ok_0.values == progress.values
            &&& is_between_words(next->Ok_0)
            &&& next->Ok_0.shape == progress.shape
        }),
{
    a_dashed_name_is_a_name(name, value);
    the_option_is_found(progress, idx, name);
}

/// `late` is `early` but for one value that has been read and not looked at yet.
spec fn follows(late: Progress, early: Progress) -> bool {
    &&& late.shape == early.shape
    &&& late.values == early.values
    &&& late.escaped == early.escaped
    &&& early.awaited is Nothing
    &&& match late.awaited {
        Awaited::Argument { idx, value } => value is Some && late.settled() == Ok::<
            Progress,
            MisuseView,
        >(early),
        _ => false,
    }
}

proof fn the_rest_is_read_alike(late: Progress, early: Progress, words: Seq<Seq<char>>)
    requires
        follows(late, early),
    ensures
        late.scanned(words) == early.scanned(words),
    decreases words.len(),
{
    if words.len() > 0 {
        let word = words[0];
        if !early.escaped && token_of(word) is Escape {
            let (a, b) = (
                Progress { escaped: true, ..late },
                Progress { escaped: true, ..early },
            );
            assert(follows(a, b));
            the_rest_is_read_alike(a, b, words.skip(1));
        } else {
            assert(late.placed(word) == early.placed(word));
            assert(late.step(word) == early.step(word));
        }
    }
}

/// An option and its value are read alike in one word with an equals sign between them
/// and in two words.
pub proof fn a_value_is_written_in_two_ways(
    progress: Progress,
    idx: int,
    name: Seq<char>,
    value: Seq<char>,
    rest: Seq<Seq<char>>,
)
    requires
        is_between_words(progress),
        is_option_name(name),
        is_called(progress, idx, name),
        takes(progress, idx, value),
        value.len() > 0 ==> value[0] != '-',
    ensures
        progress.scanned(seq![dashed(name), value] + rest) == progress.scanned(
            seq![assigned(name, value)] + rest,
        ),
{
    a_dashed_name_is_a_name(name, value);
    the_option_is_found(progress, idx, name);
    let (two, one) = (seq![dashed(name), value] + rest, seq![assigned(name, value)] + rest);
    let early = progress.step(assigned(name, value))->Ok_0;
    let waiting = progress.step(dashed(name))->Ok_0;
    let late = waiting.step(value)->Ok_0;
    assert(one[0] == assigned(name, value));
    assert(one.skip(1) =~= rest);
    assert(two[0] == dashed(name));
    assert(two.skip(1) =~= seq![value] + rest);
    assert((seq![value] + rest)[0] == value);
    assert((seq![value] + rest).skip(1) =~= rest);
    assert(token_of(value) is Plain);
    assert(Progress { awaited: Awaited::Nothing, ..late } == Progress {
        awaited: Awaited::Nothing,
        ..progress
    });
    assert(follows(late, early));
    the_rest_is_read_alike(late, early, rest);
    assert(waiting.scanned(seq![value] + rest) == late.scanned(rest));
    assert(progress.scanned(two) == waiting.scanned(seq![value] + rest));
    assert(progress.scanned(one) == early.scanned(rest));
}

/// A letter behind one dash stands for the name of its option: with its value right
/// behind it, with or without an equals sign.
pub proof fn a_letter_stands_for_a_name(
    progress: Progress,
    idx: int,
    name: Seq<char>,
    letter: char,
    value: Seq<char>,
)
    requires
        is_between_words(progress),
        is_option_name(name),
        is_called(progress, idx, name),
        takes(progress, idx, value),
        progress.shape.opts()[idx].short == Some(letter),
        letter != 'h',
        letter != '-',
        forall|i: int|
            0 <= i < idx ==> (#[trigger] progress.shape.opts()[i]).short != Some(letter),
        !progress.shape.takes_negatives(),
        value.len() > 0,
    ensures
        progress.step(seq!['-', letter, '='] + value) == progress.step(assigned(name, value)),
        value[0] != '=' ==> progress.step(seq!['-', letter] + value) == progress.step(
            assigned(name, value),
        ),
{
    a_dashed_name_is_a_name(name, value);
    the_option_is_found(progress, idx, name);
    let opts = progress.shape.opts();
    let p = has_short(letter);
    assert forall|i: int| 0 <= i < idx implies !p(#[trigger] opts[i]) by {}
    first_is(opts, p, idx);
    let (a, b) = (seq!['-', letter, '='] + value, seq!['-', letter] + value);
    assert(a.skip(2) =~= seq!['='] + value);
    assert((seq!['='] + value).skip(1) =~= value);
    assert(b.skip(2) =~= value);
    assert(a[0] == '-' && a[1] == letter && b[0] == '-' && b[1] == letter);
}

/// Behind two dashes that stand alone, every word is taken as it is, whatever it looks
/// like.
pub proof fn behind_two_dashes_every_word_is_plain(progress: Progress, word: Seq<char>)
    requires
        is_between_words(progress),
        progress.values.len() < progress.shape.params().len(),
    ensures
        ({
            let escaped = progress.step(seq!['-', '-']);
            let next = escaped->Ok_0.step(word);
            &&& escaped is Ok
            &&& next is Ok
            &&& next->Ok_0.values == progress.values.push(word)
            &&& next->Ok_0.given == progress.given
        }),
{
}

} // verus!
