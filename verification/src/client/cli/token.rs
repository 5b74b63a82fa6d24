//! The words of a command line, by what they look like.

use vstd::prelude::*;

use crate::seqs::{first_idx, first_is, first_is_none, is_first};
use crate::text::{chars_of, text_of};

verus! {

/// What a word of a command line looks like.
#[derive(Debug, Clone, PartialEq, Eq)]
pub enum Token {
    /// `--` alone: only plain words follow.
    Escape,
    /// `--name` or `--name=value`.
    Long {
        /// The name.
        name: String,
        /// The value behind the equals sign.
        value: Option<String>,
    },
    /// `-letter`, with more characters behind it or without.
    Short {
        /// The letter.
        letter: char,
        /// The characters behind it.
        rest: String,
    },
    /// Any other word, a single dash among them.
    Plain,
}

/// What a [`Token`] holds.
#[verifier::ext_equal]
pub ghost enum TokenView {
    Escape,
    Long { name: Seq<char>, value: Option<Seq<char>> },
    Short { letter: char, rest: Seq<char> },
    Plain,
}

/// The characters of a text that may not be there.
pub open spec fn text_view(text: Option<String>) -> Option<Seq<char>> {
    match text {
        Some(text) => Some(text@),
        None => None,
    }
}

impl View for Token {
    type V = TokenView;

    open spec fn view(&self) -> TokenView {
        match *self {
            Token::Escape => TokenView::Escape,
            Token::Long { name, value } => TokenView::Long { name: name@, value: text_view(value) },
            Token::Short { letter, rest } => TokenView::Short { letter, rest: rest@ },
            Token::Plain => TokenView::Plain,
        }
    }
}

/// `true` for an equals sign.
pub open spec fn is_equals() -> spec_fn(char) -> bool {
    |c: char| c == '='
}

/// A name and, behind the first equals sign, its value.
pub open spec fn split_value(s: Seq<char>) -> (Seq<char>, Option<Seq<char>>) {
    match first_idx(s, is_equals()) {
        Some(i) => (s.take(i), Some(s.skip(i + 1))),
        None => (s, None),
    }
}

/// What a word looks like.
pub open spec fn token_of(w: Seq<char>) -> TokenView {
    if w.len() < 2 || w[0] != '-' {
        TokenView::Plain
    } else if w[1] != '-' {
        TokenView::Short { letter: w[1], rest: w.skip(2) }
    } else if w.len() == 2 {
        TokenView::Escape
    } else {
        let (name, value) = split_value(w.skip(2));
        TokenView::Long { name, value }
    }
}

/// The characters from `from` on.
pub fn tail(chars: &Vec<char>, from: usize) -> (r: String)
    requires
        from <= chars@.len(),
    ensures
        r@ == chars@.skip(from as int),
{
    let mut rest: Vec<char> = Vec::new();
    for i in from..chars.len()
        invariant
            from <= chars@.len(),
            rest@ == chars@.subrange(from as int, i as int),
    {
        rest.push(chars[i]);
        assert(rest@ =~= chars@.subrange(from as int, i + 1));
    }
    assert(chars@.subrange(from as int, chars@.len() as int) =~= chars@.skip(from as int));
    text_of(rest.as_slice())
}

fn long(chars: &Vec<char>) -> (r: Token)
    requires
        chars@.len() > 2,
    ensures
        r@ == ({
            let (name, value) = split_value(chars@.skip(2));
            TokenView::Long { name, value }
        }),
{
    let ghost s = chars@.skip(2);
    let mut name: Vec<char> = Vec::new();
    for i in 2..chars.len()
        invariant
            chars@.len() > 2,
            s == chars@.skip(2),
            name@ == chars@.subrange(2, i as int),
            forall|j: int| 0 <= j < i - 2 ==> #[trigger] s[j] != '=',
    {
        if chars[i] == '=' {
            proof {
                assert(s[i - 2] == '=');
                assert(is_first(s, is_equals(), i - 2));
                first_is(s, is_equals(), i - 2);
                assert(s.take(i - 2) =~= name@);
                assert(s.skip(i - 1) =~= chars@.skip(i + 1));
            }
            return Token::Long {
                name: text_of(name.as_slice()),
                value: Some(tail(chars, i + 1)),
            };
        }
        name.push(chars[i]);
        assert(name@ =~= chars@.subrange(2, i + 1));
        assert(s[i - 2] == chars@[i as int]);
    }
    proof {
        assert forall|j: int| 0 <= j < s.len() implies !is_equals()(#[trigger] s[j]) by {}
        first_is_none(s, is_equals());
        assert(name@ =~= s);
    }
    Token::Long { name: text_of(name.as_slice()), value: None }
}

/// What a word looks like.
pub fn token(word: &str) -> (r: Token)
    ensures
        r@ == token_of(word@),
{
    let chars = chars_of(word);
    if chars.len() < 2 || chars[0] != '-' {
        Token::Plain
    } else if chars[1] != '-' {
        Token::Short { letter: chars[1], rest: tail(&chars, 2) }
    } else if chars.len() == 2 {
        Token::Escape
    } else {
        long(&chars)
    }
}

} // verus!
