//! Reading the words behind the name of a subcommand.
//!
//! A word is looked at as it comes, and what it is for is settled before the next
//! argument begins: a value that does not fit is reported before anything behind
//! it is, and a word that belongs nowhere is reported at once.

use vstd::prelude::*;

use crate::client::cli::grammar::{opt_views, param_views, Opt, OptView, Param, Shape};
use crate::client::cli::misuse::{Misuse, MisuseView};
use crate::client::cli::numbers::{is_numeric, looks_numeric};
use crate::client::cli::token::{tail, text_view, token, token_of, Token, TokenView};
use crate::client::cli::values::Fault;
use crate::seqs::{first_idx, first_is, first_is_none, first_when_any, is_first};
use crate::text::{append, chars_of, owned, same};

verus! {

/// The words that were found behind the name of a subcommand.
pub struct Found {
    /// The words at their places.
    pub values: Vec<String>,
    /// For each option, its value when it is there. The value of a flag is empty.
    pub given: Vec<Option<String>>,
}

/// What a [`Found`] holds.
#[verifier::ext_equal]
pub ghost struct FoundView {
    pub values: Seq<Seq<char>>,
    pub given: Seq<Option<Seq<char>>>,
}

/// The characters of the texts of a list.
pub open spec fn texts(words: Seq<String>) -> Seq<Seq<char>> {
    words.map_values(|w: String| w@)
}

/// The characters of the texts of a list, some of which may not be there.
pub open spec fn text_views(words: Seq<Option<String>>) -> Seq<Option<Seq<char>>> {
    words.map_values(|w: Option<String>| text_view(w))
}

impl View for Found {
    type V = FoundView;

    open spec fn view(&self) -> FoundView {
        FoundView { values: texts(self.values@), given: text_views(self.given@) }
    }
}

/// What is not settled yet.
pub ghost enum Awaited {
    /// Nothing.
    Nothing,
    /// Whether the last word at its place fits.
    Word,
    /// The value of an option, or whether it fits.
    Argument { idx: int, value: Option<Seq<char>> },
}

/// How far the words behind the name have been read.
#[verifier::ext_equal]
pub ghost struct Progress {
    pub shape: Shape,
    pub values: Seq<Seq<char>>,
    pub given: Seq<Option<Seq<char>>>,
    pub leader: Option<int>,
    pub awaited: Awaited,
    pub escaped: bool,
}

/// How the fault of a value is reported.
pub open spec fn misuse_of(fault: Fault, value: Seq<char>, label: Seq<char>) -> MisuseView {
    match fault {
        Fault::Nothing => MisuseView::NoValue { label },
        Fault::NotAWord => MisuseView::Invalid { value, label, reason: None },
        Fault::Number(number) => MisuseView::Invalid { value, label, reason: Some(number) },
    }
}

/// The options with this name.
pub open spec fn has_long(name: Seq<char>) -> spec_fn(OptView) -> bool {
    |o: OptView| o.long == name
}

/// The options with this letter.
pub open spec fn has_short(letter: char) -> spec_fn(OptView) -> bool {
    |o: OptView| o.short == Some(letter)
}

/// The value a short option has right behind its letter, with or without an
/// equals sign between the two.
pub open spec fn attached(rest: Seq<char>) -> Option<Seq<char>> {
    if rest.len() == 0 {
        None
    } else if rest[0] == '=' {
        Some(rest.skip(1))
    } else {
        Some(rest)
    }
}

impl Progress {
    /// Nothing has been read yet.
    pub open spec fn start(shape: Shape) -> Progress {
        Progress {
            shape,
            values: Seq::empty(),
            given: Seq::new(shape.opts().len(), |i: int| None),
            leader: None,
            awaited: Awaited::Nothing,
            escaped: false,
        }
    }

    /// The first option that was given of the two that exclude each other, now
    /// that `idx` is given.
    pub open spec fn leader_with(self, idx: int) -> Option<int> {
        match (self.leader, self.shape.clash()) {
            (None, Some(pair)) => {
                let (a, b) = pair;
                if idx == a || idx == b {
                    Some(idx)
                } else {
                    None
                }
            },
            _ => self.leader,
        }
    }

    /// The option `idx` has this value, unless it had one already or the value
    /// does not fit.
    pub open spec fn with_value(self, idx: int, value: Seq<char>) -> Result<Progress, MisuseView> {
        let opt = self.shape.opts()[idx];
        if self.given[idx] is Some {
            Err(MisuseView::Repeated { label: opt.label })
        } else {
            let fault = match opt.kind {
                Some(kind) => kind.fault(value),
                None => None,
            };
            match fault {
                Some(fault) => Err(misuse_of(fault, value, opt.label)),
                None => Ok(
                    Progress {
                        given: self.given.update(idx, Some(value)),
                        leader: self.leader_with(idx),
                        awaited: Awaited::Nothing,
                        ..self
                    },
                ),
            }
        }
    }

    /// What was awaited is settled.
    pub open spec fn settled(self) -> Result<Progress, MisuseView> {
        match self.awaited {
            Awaited::Nothing => Ok(self),
            Awaited::Word => {
                let last = self.values.len() - 1;
                let param = self.shape.params()[last];
                match param.kind.fault(self.values[last]) {
                    Some(fault) => Err(misuse_of(fault, self.values[last], param.label)),
                    None => Ok(Progress { awaited: Awaited::Nothing, ..self }),
                }
            },
            Awaited::Argument { idx, value } => match value {
                None => Err(MisuseView::NoValue { label: self.shape.opts()[idx].label }),
                Some(value) => self.with_value(idx, value),
            },
        }
    }

    /// A word takes the next place, when there is one.
    pub open spec fn placed(self, word: Seq<char>) -> Result<Progress, MisuseView> {
        if self.values.len() < self.shape.params().len() {
            match self.settled() {
                Ok(settled) => Ok(
                    Progress { values: settled.values.push(word), awaited: Awaited::Word, ..settled },
                ),
                Err(misuse) => Err(misuse),
            }
        } else {
            Err(MisuseView::Unexpected(word))
        }
    }

    /// The option `idx` is there, with this value attached to it.
    pub open spec fn opted(self, idx: int, value: Option<Seq<char>>) -> Result<
        Progress,
        MisuseView,
    > {
        let opt = self.shape.opts()[idx];
        match (opt.kind, value) {
            (None, Some(value)) => Err(MisuseView::NoneExpected { value, label: opt.label }),
            _ => match self.settled() {
                Err(misuse) => Err(misuse),
                Ok(settled) => match (opt.kind, value) {
                    (None, _) => settled.with_value(idx, Seq::empty()),
                    (Some(_), Some(value)) => settled.with_value(idx, value),
                    (Some(_), None) => Ok(
                        Progress { awaited: Awaited::Argument { idx, value: None }, ..settled },
                    ),
                },
            },
        }
    }

    /// Help is asked for.
    pub open spec fn helped(self) -> Result<Progress, MisuseView> {
        match self.settled() {
            Ok(_) => Err(MisuseView::Help),
            Err(misuse) => Err(misuse),
        }
    }

    /// An argument `--name` or `--name=value` is there.
    pub open spec fn long(self, name: Seq<char>, value: Option<Seq<char>>) -> Result<
        Progress,
        MisuseView,
    > {
        if name == "help"@ {
            match value {
                Some(value) => Err(MisuseView::NoneExpected { value, label: "--help"@ }),
                None => self.helped(),
            }
        } else {
            match first_idx(self.shape.opts(), has_long(name)) {
                Some(idx) => self.opted(idx, value),
                None => Err(MisuseView::Unexpected("--"@ + name)),
            }
        }
    }

    /// An argument `-letter` is there, with `rest` behind the letter.
    pub open spec fn short(self, letter: char, rest: Seq<char>) -> Result<Progress, MisuseView> {
        if letter == 'h' {
            self.helped()
        } else {
            match first_idx(self.shape.opts(), has_short(letter)) {
                Some(idx) => self.opted(idx, attached(rest)),
                None => Err(MisuseView::Unexpected("-"@.push(letter))),
            }
        }
    }

    /// `true` when this word is a negative number for the next place.
    pub open spec fn expects_negative(self, word: Seq<char>) -> bool {
        &&& self.shape.takes_negatives()
        &&& self.values.len() < self.shape.params().len()
        &&& looks_numeric(word.skip(1), false, false, true)
    }

    /// One more word has been read.
    pub open spec fn step(self, word: Seq<char>) -> Result<Progress, MisuseView> {
        if self.escaped {
            self.placed(word)
        } else {
            match token_of(word) {
                TokenView::Escape => Ok(Progress { escaped: true, ..self }),
                TokenView::Long { name, value } => self.long(name, value),
                TokenView::Short { letter, rest } => if self.expects_negative(word) {
                    self.placed(word)
                } else {
                    self.short(letter, rest)
                },
                TokenView::Plain => match self.awaited {
                    Awaited::Argument { idx, value: None } => Ok(
                        Progress { awaited: Awaited::Argument { idx, value: Some(word) }, ..self },
                    ),
                    _ => self.placed(word),
                },
            }
        }
    }

    /// There are no more words: everything is settled, nothing excludes anything
    /// else and nothing is missing.
    pub open spec fn finished(self) -> Result<FoundView, MisuseView> {
        match self.settled() {
            Err(misuse) => Err(misuse),
            Ok(settled) => match settled.clashing() {
                Some(misuse) => Err(misuse),
                None => if settled.values.len() < self.shape.params().len()
                    && !self.shape.may_be_short() {
                    Err(MisuseView::Missing)
                } else {
                    Ok(FoundView { values: settled.values, given: settled.given })
                },
            },
        }
    }

    /// The two options that exclude each other, when both are there.
    pub open spec fn clashing(self) -> Option<MisuseView> {
        match self.shape.clash() {
            Some(pair) => {
                let (a, b) = pair;
                let (a, b) = (a as int, b as int);
                let opts = self.shape.opts();
                if self.given[a] is Some && self.given[b] is Some {
                    if self.leader == Some(a) {
                        Some(MisuseView::Together { first: opts[a].label, second: opts[b].label })
                    } else {
                        Some(MisuseView::Together { first: opts[b].label, second: opts[a].label })
                    }
                } else {
                    None
                }
            },
            None => None,
        }
    }

    /// The words from `words` on have been read.
    pub open spec fn scanned(self, words: Seq<Seq<char>>) -> Result<FoundView, MisuseView>
        decreases words.len(),
    {
        if words.len() == 0 {
            self.finished()
        } else {
            match self.step(words[0]) {
                Ok(next) => next.scanned(words.skip(1)),
                Err(misuse) => Err(misuse),
            }
        }
    }
}

/// What stands behind the name of a subcommand of this shape.
pub open spec fn scan_of(shape: Shape, words: Seq<Seq<char>>) -> Result<FoundView, MisuseView> {
    Progress::start(shape).scanned(words)
}

enum Await {
    Nothing,
    Word,
    Argument { idx: usize, value: Option<String> },
}

struct Scan {
    shape: Shape,
    params: Vec<Param>,
    opts: Vec<Opt>,
    values: Vec<String>,
    given: Vec<Option<String>>,
    leader: Option<usize>,
    awaited: Await,
    escaped: bool,
}

impl Await {
    spec fn what(self) -> Awaited {
        match self {
            Await::Nothing => Awaited::Nothing,
            Await::Word => Awaited::Word,
            Await::Argument { idx, value } => Awaited::Argument {
                idx: idx as int,
                value: text_view(value),
            },
        }
    }
}

impl View for Scan {
    type V = Progress;

    closed spec fn view(&self) -> Progress {
        Progress {
            shape: self.shape,
            values: texts(self.values@),
            given: text_views(self.given@),
            leader: match self.leader {
                Some(idx) => Some(idx as int),
                None => None,
            },
            awaited: self.awaited.what(),
            escaped: self.escaped,
        }
    }
}

fn misuse(fault: Fault, value: &str, label: &'static str) -> (r: Misuse)
    ensures
        r@ == misuse_of(fault, value@, label@),
{
    match fault {
        Fault::Nothing => Misuse::NoValue { label },
        Fault::NotAWord => Misuse::Invalid { value: owned(value), label, reason: None },
        Fault::Number(number) => Misuse::Invalid {
            value: owned(value),
            label,
            reason: Some(number),
        },
    }
}

impl Scan {
    spec fn wf(self) -> bool {
        &&& param_views(self.params@) == self.shape.params()
        &&& opt_views(self.opts@) == self.shape.opts()
        &&& self.given@.len() == self.opts@.len()
        &&& self.values@.len() <= self.params@.len()
        &&& self.awaited is Word ==> self.values@.len() > 0
        &&& self.awaited matches Await::Argument { idx, .. } ==> idx < self.opts@.len()
    }

    fn new(shape: Shape) -> (r: Scan)
        ensures
            r.wf(),
            r@ == Progress::start(shape),
    {
        let params = shape.param_list();
        let opts = shape.opt_list();
        assert(opt_views(opts@).len() == opts@.len());
        let mut given: Vec<Option<String>> = Vec::new();
        for i in 0..opts.len()
            invariant
                given@.len() == i,
                forall|j: int| 0 <= j < i ==> given@[j] is None,
        {
            given.push(None);
        }
        let scan = Scan {
            shape,
            params,
            opts,
            values: Vec::new(),
            given,
            leader: None,
            awaited: Await::Nothing,
            escaped: false,
        };
        assert(scan@.given =~= Progress::start(shape).given);
        assert(scan@.values =~= Seq::<Seq<char>>::empty());
        scan
    }

    fn put_value(&mut self, idx: usize, value: String) -> (r: Option<Misuse>)
        requires
            old(self).wf(),
            idx < old(self).opts@.len(),
        ensures
            match r {
                None => final(self).wf() && old(self)@.with_value(idx as int, value@) == Ok::<
                    Progress,
                    MisuseView,
                >(final(self)@),
                Some(m) => old(self)@.with_value(idx as int, value@) == Err::<Progress, MisuseView>(
                    m@,
                ),
            },
            final(self).shape == old(self).shape,
            r is None ==> final(self).values@ == old(self).values@,
    {
        let opt = self.opts[idx];
        assert(opt_views(self.opts@)[idx as int] == opt@);
        assert(self@.given[idx as int] == text_view(self.given@[idx as int]));
        if self.given[idx].is_some() {
            return Some(Misuse::Repeated { label: opt.label });
        }
        if let Some(kind) = opt.kind {
            if let Some(fault) = kind.check(value.as_str()) {
                return Some(misuse(fault, value.as_str(), opt.label));
            }
        }
        if self.leader.is_none() {
            if let Some((a, b)) = self.shape.clash() {
                if idx == a || idx == b {
                    self.leader = Some(idx);
                }
            }
        }
        let ghost before = self.given@;
        let ghost text = value@;
        self.given.set(idx, Some(value));
        assert(text_views(self.given@) =~= text_views(before).update(idx as int, Some(text)));
        self.awaited = Await::Nothing;
        None
    }

    fn settle(&mut self) -> (r: Option<Misuse>)
        requires
            old(self).wf(),
        ensures
            match r {
                None => final(self).wf() && old(self)@.settled() == Ok::<Progress, MisuseView>(
                    final(self)@,
                ),
                Some(m) => old(self)@.settled() == Err::<Progress, MisuseView>(m@),
            },
            final(self).shape == old(self).shape,
            r is None ==> final(self).values@ == old(self).values@,
    {
        let mut awaited = Await::Nothing;
        std::mem::swap(&mut awaited, &mut self.awaited);
        match awaited {
            Await::Nothing => None,
            Await::Word => {
                let last = self.values.len() - 1;
                let param = self.params[last];
                assert(param_views(self.params@)[last as int] == param@);
                assert(texts(self.values@)[last as int] == self.values@[last as int]@);
                match param.kind.check(self.values[last].as_str()) {
                    Some(fault) => Some(misuse(fault, self.values[last].as_str(), param.label)),
                    None => None,
                }
            },
            Await::Argument { idx, value } => {
                assert(opt_views(self.opts@)[idx as int] == self.opts@[idx as int]@);
                match value {
                    None => Some(Misuse::NoValue { label: self.opts[idx].label }),
                    Some(value) => self.put_value(idx, value),
                }
            },
        }
    }

    fn place(&mut self, word: &str) -> (r: Option<Misuse>)
        requires
            old(self).wf(),
        ensures
            match r {
                None => final(self).wf() && old(self)@.placed(word@) == Ok::<Progress, MisuseView>(
                    final(self)@,
                ),
                Some(m) => old(self)@.placed(word@) == Err::<Progress, MisuseView>(m@),
            },
            final(self).shape == old(self).shape,
    {
        assert(param_views(self.params@).len() == self.params@.len());
        if self.values.len() >= self.params.len() {
            return Some(Misuse::Unexpected(owned(word)));
        }
        let unsettled = self.settle();
        if unsettled.is_some() {
            return unsettled;
        }
        let ghost before = self.values@;
        assert(param_views(self.params@).len() == self.params@.len());
        self.values.push(owned(word));
        assert(texts(self.values@) =~= texts(before).push(word@));
        self.awaited = Await::Word;
        None
    }

    fn opt(&mut self, idx: usize, value: Option<String>) -> (r: Option<Misuse>)
        requires
            old(self).wf(),
            idx < old(self).opts@.len(),
        ensures
            match r {
                None => final(self).wf() && old(self)@.opted(idx as int, text_view(value)) == Ok::<
                    Progress,
                    MisuseView,
                >(final(self)@),
                Some(m) => old(self)@.opted(idx as int, text_view(value)) == Err::<
                    Progress,
                    MisuseView,
                >(m@),
            },
            final(self).shape == old(self).shape,
    {
        let opt = self.opts[idx];
        assert(opt_views(self.opts@)[idx as int] == opt@);
        if opt.kind.is_none() {
            if let Some(value) = value {
                return Some(Misuse::NoneExpected { value, label: opt.label });
            }
        }
        let unsettled = self.settle();
        if unsettled.is_some() {
            return unsettled;
        }
        assert(opt_views(self.opts@).len() == self.opts@.len());
        if opt.kind.is_none() {
            return self.put_value(idx, String::new());
        }
        match value {
            Some(value) => self.put_value(idx, value),
            None => {
                self.awaited = Await::Argument { idx, value: None };
                None
            },
        }
    }

    fn help(&mut self) -> (r: Option<Misuse>)
        requires
            old(self).wf(),
        ensures
            match r {
                None => false,
                Some(m) => old(self)@.helped() == Err::<Progress, MisuseView>(m@),
            },
            final(self).shape == old(self).shape,
    {
        let unsettled = self.settle();
        if unsettled.is_some() {
            return unsettled;
        }
        Some(Misuse::Help)
    }

    fn find_long(&self, name: &str) -> (r: Option<usize>)
        requires
            self.wf(),
        ensures
            match r {
                Some(idx) => idx < self.opts@.len() && first_idx(
                    self@.shape.opts(),
                    has_long(name@),
                ) == Some(idx as int),
                None => first_idx(self@.shape.opts(), has_long(name@)) is None,
            },
    {
        let ghost opts = self.shape.opts();
        for idx in 0..self.opts.len()
            invariant
                self.wf(),
                opts == self.shape.opts(),
                forall|j: int| 0 <= j < idx ==> (#[trigger] opts[j]).long != name@,
        {
            assert(opts[idx as int] == self.opts@[idx as int]@);
            if same(self.opts[idx].long, name) {
                proof {
                    assert(is_first(opts, has_long(name@), idx as int));
                    first_is(opts, has_long(name@), idx as int);
                }
                return Some(idx);
            }
        }
        proof {
            assert(opts.len() == self.opts@.len());
            first_is_none(opts, has_long(name@));
        }
        None
    }

    fn find_short(&self, letter: char) -> (r: Option<usize>)
        requires
            self.wf(),
        ensures
            match r {
                Some(idx) => idx < self.opts@.len() && first_idx(
                    self@.shape.opts(),
                    has_short(letter),
                ) == Some(idx as int),
                None => first_idx(self@.shape.opts(), has_short(letter)) is None,
            },
    {
        let ghost opts = self.shape.opts();
        for idx in 0..self.opts.len()
            invariant
                self.wf(),
                opts == self.shape.opts(),
                forall|j: int| 0 <= j < idx ==> (#[trigger] opts[j]).short != Some(letter),
        {
            assert(opts[idx as int] == self.opts@[idx as int]@);
            if let Some(short) = self.opts[idx].short {
                if short == letter {
                    proof {
                        assert(is_first(opts, has_short(letter), idx as int));
                        first_is(opts, has_short(letter), idx as int);
                    }
                    return Some(idx);
                }
            }
        }
        proof {
            assert(opts.len() == self.opts@.len());
            first_is_none(opts, has_short(letter));
        }
        None
    }

    fn long(&mut self, name: &str, value: Option<String>) -> (r: Option<Misuse>)
        requires
            old(self).wf(),
        ensures
            match r {
                None => final(self).wf() && old(self)@.long(name@, text_view(value)) == Ok::<
                    Progress,
                    MisuseView,
                >(final(self)@),
                Some(m) => old(self)@.long(name@, text_view(value)) == Err::<Progress, MisuseView>(
                    m@,
                ),
            },
            final(self).shape == old(self).shape,
    {
        if same(name, "help") {
            return match value {
                Some(value) => Some(Misuse::NoneExpected { value, label: "--help" }),
                None => self.help(),
            };
        }
        match self.find_long(name) {
            Some(idx) => self.opt(idx, value),
            None => {
                let mut argument = owned("--");
                append(&mut argument, name);
                Some(Misuse::Unexpected(argument))
            },
        }
    }

    fn short(&mut self, letter: char, rest: &str) -> (r: Option<Misuse>)
        requires
            old(self).wf(),
        ensures
            match r {
                None => final(self).wf() && old(self)@.short(letter, rest@) == Ok::<
                    Progress,
                    MisuseView,
                >(final(self)@),
                Some(m) => old(self)@.short(letter, rest@) == Err::<Progress, MisuseView>(m@),
            },
            final(self).shape == old(self).shape,
    {
        if letter == 'h' {
            return self.help();
        }
        match self.find_short(letter) {
            Some(idx) => {
                let value = attached_value(rest);
                self.opt(idx, value)
            },
            None => {
                let mut argument = owned("-");
                argument.push(letter);
                Some(Misuse::Unexpected(argument))
            },
        }
    }

    fn is_negative(&self, word: &str) -> (r: bool)
        requires
            self.wf(),
            word@.len() > 0,
        ensures
            r == self@.expects_negative(word@),
    {
        assert(param_views(self.params@).len() == self.params@.len());
        let chars = chars_of(word);
        self.shape.takes_negatives() && self.values.len() < self.params.len() && is_numeric(
            &chars,
            1,
        )
    }

    fn step(&mut self, word: &str) -> (r: Option<Misuse>)
        requires
            old(self).wf(),
        ensures
            match r {
                None => final(self).wf() && old(self)@.step(word@) == Ok::<Progress, MisuseView>(
                    final(self)@,
                ),
                Some(m) => old(self)@.step(word@) == Err::<Progress, MisuseView>(m@),
            },
            final(self).shape == old(self).shape,
    {
        if self.escaped {
            return self.place(word);
        }
        match token(word) {
            Token::Escape => {
                self.escaped = true;
                None
            },
            Token::Long { name, value } => self.long(name.as_str(), value),
            Token::Short { letter, rest } => if self.is_negative(word) {
                self.place(word)
            } else {
                self.short(letter, rest.as_str())
            },
            Token::Plain => {
                if let Await::Argument { idx, value: None } = &self.awaited {
                    let idx = *idx;
                    self.awaited = Await::Argument { idx, value: Some(owned(word)) };
                    None
                } else {
                    self.place(word)
                }
            },
        }
    }

    fn finish(self) -> (r: Result<Found, Misuse>)
        requires
            self.wf(),
        ensures
            match r {
                Ok(found) => self@.finished() == Ok::<FoundView, MisuseView>(found@),
                Err(m) => self@.finished() == Err::<FoundView, MisuseView>(m@),
            },
    {
        let mut scan = self;
        if let Some(unsettled) = scan.settle() {
            return Err(unsettled);
        }
        assert(param_views(scan.params@).len() == scan.params@.len());
        assert(opt_views(scan.opts@).len() == scan.opts@.len());
        if let Some((a, b)) = scan.shape.clash() {
            assert(opt_views(scan.opts@)[a as int] == scan.opts@[a as int]@);
            assert(opt_views(scan.opts@)[b as int] == scan.opts@[b as int]@);
            assert(text_views(scan.given@)[a as int] == text_view(scan.given@[a as int]));
            assert(text_views(scan.given@)[b as int] == text_view(scan.given@[b as int]));
            if scan.given[a].is_some() && scan.given[b].is_some() {
                let a_leads = match scan.leader {
                    Some(idx) => idx == a,
                    None => false,
                };
                if a_leads {
                    return Err(
                        Misuse::Together { first: scan.opts[a].label, second: scan.opts[b].label },
                    );
                }
                return Err(
                    Misuse::Together { first: scan.opts[b].label, second: scan.opts[a].label },
                );
            }
        }
        if scan.values.len() < scan.params.len() && !scan.shape.may_be_short() {
            return Err(Misuse::Missing);
        }
        Ok(Found { values: scan.values, given: scan.given })
    }
}

fn attached_value(rest: &str) -> (r: Option<String>)
    ensures
        text_view(r) == attached(rest@),
{
    let chars = chars_of(rest);
    if chars.len() == 0 {
        None
    } else if chars[0] == '=' {
        Some(tail(&chars, 1))
    } else {
        Some(owned(rest))
    }
}

/// Reads what stands behind the name of a subcommand of this shape.
///
/// # Errors
///
/// Returns the first [`Misuse`] there is.
pub fn scan(shape: Shape, words: &[String]) -> (r: Result<Found, Misuse>)
    ensures
        match r {
            Ok(found) => scan_of(shape, texts(words@)) == Ok::<FoundView, MisuseView>(found@),
            Err(m) => scan_of(shape, texts(words@)) == Err::<FoundView, MisuseView>(m@),
        },
{
    let mut scan = Scan::new(shape);
    let ghost all = texts(words@);
    let mut i: usize = 0;
    assert(all.skip(0) =~= all);
    while i < words.len()
        invariant
            i <= words@.len(),
            all == texts(words@),
            all.len() == words@.len(),
            scan.wf(),
            scan@.scanned(all.skip(i as int)) == scan_of(shape, all),
        decreases words.len() - i,
    {
        let ghost rest = all.skip(i as int);
        assert(rest[0] == words@[i as int]@);
        assert(rest.skip(1) =~= all.skip(i + 1));
        if let Some(misuse) = scan.step(words[i].as_str()) {
            return Err(misuse);
        }
        i = i + 1;
    }
    assert(all.skip(i as int).len() == 0);
    scan.finish()
}

// -- laws ------------------------------------------------------------------

/// The words fit the places they stand at and the options they belong to.
pub open spec fn fits(shape: Shape, found: FoundView) -> bool {
    &&& words_fit(shape, found.values)
    &&& options_fit(shape, found.given)
    &&& found.values.len() == shape.params().len() || shape.may_be_short()
}

/// The words at their places spell what they have to.
pub open spec fn words_fit(shape: Shape, values: Seq<Seq<char>>) -> bool {
    &&& values.len() <= shape.params().len()
    &&& forall|i: int|
        0 <= i < values.len() ==> shape.params()[i].kind.fault(#[trigger] values[i]) is None
}

/// The values of the options spell what they have to.
pub open spec fn options_fit(shape: Shape, given: Seq<Option<Seq<char>>>) -> bool {
    &&& given.len() == shape.opts().len()
    &&& forall|i: int|
        0 <= i < given.len() ==> (#[trigger] given[i] matches Some(value) ==> (
        shape.opts()[i].kind matches Some(kind) ==> kind.fault(value) is None))
}

impl Progress {
    spec fn sound(self) -> bool {
        &&& options_fit(self.shape, self.given)
        &&& self.values.len() <= self.shape.params().len()
        &&& match self.awaited {
            Awaited::Word => self.values.len() > 0 && words_fit(
                self.shape,
                self.values.drop_last(),
            ),
            Awaited::Nothing => words_fit(self.shape, self.values),
            Awaited::Argument { idx, .. } => words_fit(self.shape, self.values) && 0 <= idx
                < self.shape.opts().len(),
        }
    }
}

proof fn lemma_with_value_is_sound(p: Progress, idx: int, value: Seq<char>)
    requires
        options_fit(p.shape, p.given),
        words_fit(p.shape, p.values),
        0 <= idx < p.shape.opts().len(),
    ensures
        p.with_value(idx, value) matches Ok(next) ==> next.sound() && next.shape == p.shape
            && next.values == p.values,
{
}

proof fn lemma_settled_is_sound(p: Progress)
    requires
        p.sound(),
    ensures
        p.settled() matches Ok(next) ==> next.sound() && next.awaited is Nothing && next.shape
            == p.shape && next.values == p.values,
{
    match p.awaited {
        Awaited::Nothing => {},
        Awaited::Word => {
            if p.settled() is Ok {
                let last = p.values.len() - 1;
                assert forall|i: int| 0 <= i < p.values.len() implies p.shape.params()[i].kind.fault(
                    #[trigger] p.values[i],
                ) is None by {
                    if i < last {
                        assert(p.values.drop_last()[i] == p.values[i]);
                    }
                }
            }
        },
        Awaited::Argument { idx, value } => {
            if let Some(value) = value {
                lemma_with_value_is_sound(p, idx, value);
            }
        },
    }
}

proof fn lemma_placed_is_sound(p: Progress, word: Seq<char>)
    requires
        p.sound(),
    ensures
        p.placed(word) matches Ok(next) ==> next.sound() && next.shape == p.shape,
{
    lemma_settled_is_sound(p);
    if let Ok(settled) = p.settled() {
        assert(settled.values.push(word).drop_last() =~= settled.values);
    }
}

proof fn lemma_opted_is_sound(p: Progress, idx: int, value: Option<Seq<char>>)
    requires
        p.sound(),
        0 <= idx < p.shape.opts().len(),
    ensures
        p.opted(idx, value) matches Ok(next) ==> next.sound() && next.shape == p.shape,
{
    lemma_settled_is_sound(p);
    if let Ok(settled) = p.settled() {
        lemma_with_value_is_sound(settled, idx, Seq::empty());
        if let Some(value) = value {
            lemma_with_value_is_sound(settled, idx, value);
        }
    }
}

proof fn lemma_step_is_sound(p: Progress, word: Seq<char>)
    requires
        p.sound(),
    ensures
        p.step(word) matches Ok(next) ==> next.sound() && next.shape == p.shape,
{
    lemma_placed_is_sound(p, word);
    if !p.escaped {
        match token_of(word) {
            TokenView::Long { name, value } => {
                first_when_any(p.shape.opts(), has_long(name));
                if let Some(idx) = first_idx(p.shape.opts(), has_long(name)) {
                    lemma_opted_is_sound(p, idx, value);
                }
            },
            TokenView::Short { letter, rest } => {
                first_when_any(p.shape.opts(), has_short(letter));
                if let Some(idx) = first_idx(p.shape.opts(), has_short(letter)) {
                    lemma_opted_is_sound(p, idx, attached(rest));
                }
            },
            _ => {},
        }
    }
}

proof fn lemma_scanned_fits(p: Progress, words: Seq<Seq<char>>)
    requires
        p.sound(),
    ensures
        p.scanned(words) matches Ok(found) ==> fits(p.shape, found),
    decreases words.len(),
{
    if words.len() == 0 {
        lemma_settled_is_sound(p);
    } else {
        lemma_step_is_sound(p, words[0]);
        if let Ok(next) = p.step(words[0]) {
            lemma_scanned_fits(next, words.skip(1));
        }
    }
}

/// Words that were read fit: every place is taken by a word that spells what has
/// to stand there, and so does the value of every option.
pub proof fn what_was_read_fits(shape: Shape, words: Seq<Seq<char>>)
    ensures
        scan_of(shape, words) matches Ok(found) ==> fits(shape, found),
{
    let start = Progress::start(shape);
    assert(start.sound());
    lemma_scanned_fits(start, words);
}

/// The plain words of a command line take their places in order: as many words as
/// there are places, each spelling what has to stand there and none beginning
/// with a dash, are read as they are.
pub proof fn plain_words_take_their_places(shape: Shape, words: Seq<Seq<char>>)
    requires
        words.len() == shape.params().len(),
        words_fit(shape, words),
        forall|i: int| 0 <= i < words.len() ==> token_of(#[trigger] words[i]) is Plain,
    ensures
        scan_of(shape, words) == Ok::<FoundView, MisuseView>(
            FoundView { values: words, given: Progress::start(shape).given },
        ),
{
    let start = Progress::start(shape);
    assert(words.take(0) =~= start.values);
    assert(words.skip(0) =~= words);
    lemma_plain_words(start, words, 0);
}

proof fn lemma_plain_words(p: Progress, words: Seq<Seq<char>>, n: int)
    requires
        0 <= n <= words.len(),
        words.len() == p.shape.params().len(),
        words_fit(p.shape, words),
        forall|i: int| 0 <= i < words.len() ==> token_of(#[trigger] words[i]) is Plain,
        p == (Progress {
            values: words.take(n),
            awaited: if n == 0 {
                Awaited::Nothing
            } else {
                Awaited::Word
            },
            ..Progress::start(p.shape)
        }),
    ensures
        p.scanned(words.skip(n)) == Ok::<FoundView, MisuseView>(
            FoundView { values: words, given: Progress::start(p.shape).given },
        ),
    decreases words.len() - n,
{
    let rest = words.skip(n);
    if n > 0 {
        assert(p.values[n - 1] == words[n - 1]);
    }
    if n == words.len() {
        assert(words.take(n) =~= words);
    } else {
        assert(rest[0] == words[n]);
        assert(rest.skip(1) =~= words.skip(n + 1));
        assert(words.take(n).push(words[n]) =~= words.take(n + 1));
        let next = p.step(rest[0])->Ok_0;
        assert(p.step(rest[0]) is Ok);
        lemma_plain_words(next, words, n + 1);
    }
}

} // verus!
