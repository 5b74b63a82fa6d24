//! The words that directions, axes, sizings and layouts go by.

use vstd::prelude::*;

use crate::animation::{is_spelled, AnimationStyle};
use crate::geometry::{Axis, Direction};
use crate::layout::{Layout, Sizing};
use crate::model::ring::CycleDirection;
use crate::seqs::first_when_any;
use crate::text::{is_alphanumeric, lower, squashed};

verus! {

/// A direction is read back from its word, in any case.
pub proof fn a_direction_is_read_back(direction: Direction, text: Seq<char>)
    requires
        lower(text) == direction.name(),
    ensures
        Direction::named(text) == Some(direction),
{
    direction_words();
}

proof fn direction_words()
    ensures
        "left"@ =~= seq!['l', 'e', 'f', 't'],
        "right"@ =~= seq!['r', 'i', 'g', 'h', 't'],
        "up"@ =~= seq!['u', 'p'],
        "down"@ =~= seq!['d', 'o', 'w', 'n'],
        "h"@ =~= seq!['h'],
        "j"@ =~= seq!['j'],
        "k"@ =~= seq!['k'],
        "l"@ =~= seq!['l'],
        "left"@.len() == 4,
        "right"@.len() == 5,
        "up"@.len() == 2,
        "down"@.len() == 4,
        "left"@[0] == 'l',
        "down"@[0] == 'd',
        "h"@.len() == 1,
        "j"@.len() == 1,
        "k"@.len() == 1,
        "l"@.len() == 1,
{
    reveal_strlit("left");
    reveal_strlit("right");
    reveal_strlit("up");
    reveal_strlit("down");
    reveal_strlit("h");
    reveal_strlit("j");
    reveal_strlit("k");
    reveal_strlit("l");
}

/// The home row keys are the arrows of old.
pub proof fn the_home_row_keys_are_directions(text: Seq<char>)
    ensures
        lower(text) == seq!['h'] ==> Direction::named(text) == Some(Direction::Left),
        lower(text) == seq!['j'] ==> Direction::named(text) == Some(Direction::Down),
        lower(text) == seq!['k'] ==> Direction::named(text) == Some(Direction::Up),
        lower(text) == seq!['l'] ==> Direction::named(text) == Some(Direction::Right),
{
    direction_words();
    assert(seq!['h'][0] == 'h' && seq!['j'][0] == 'j' && seq!['k'][0] == 'k' && seq!['l'][0]
        == 'l');
}

/// An axis, a sizing and the direction of a cycle are read back from their words, in
/// any case.
pub proof fn the_other_words_are_read_back(
    axis: Axis,
    sizing: Sizing,
    cycle: CycleDirection,
    text: Seq<char>,
)
    ensures
        lower(text) == axis.name() ==> Axis::named(text) == Some(axis),
        lower(text) == sizing.name() ==> Sizing::named(text) == Some(sizing),
        lower(text) == cycle.name() ==> CycleDirection::named(text) == Some(cycle),
{
    reveal_strlit("horizontal");
    reveal_strlit("vertical");
    reveal_strlit("h");
    reveal_strlit("x");
    reveal_strlit("increase");
    reveal_strlit("decrease");
    reveal_strlit("grow");
    reveal_strlit("+");
    reveal_strlit("previous");
    reveal_strlit("prev");
    reveal_strlit("next");
    assert("increase"@[0] == 'i' && "decrease"@[0] == 'd');
    assert("next"@[0] == 'n' && "prev"@[0] == 'p' && "next"@.len() == 4 && "previous"@.len() == 8);
    assert("horizontal"@.len() == 10 && "vertical"@.len() == 8 && "h"@.len() == 1 && "x"@.len()
        == 1);
}

proof fn letters_are_kept(s: Seq<char>)
    requires
        forall|i: int| 0 <= i < s.len() ==> is_alphanumeric(#[trigger] s[i]),
    ensures
        s.filter(|c: char| is_alphanumeric(c)) == s,
    decreases s.len(),
{
    reveal(Seq::filter);
    if s.len() > 0 {
        letters_are_kept(s.drop_last());
        assert(s =~= s.drop_last().push(s.last()));
    }
}

/// A layout is read back from its word, in any case and with any punctuation.
pub proof fn a_layout_is_read_back(layout: Layout, text: Seq<char>)
    requires
        squashed(text) == squashed(layout.name()),
    ensures
        Layout::named(text) == Some(layout),
{
    reveal_strlit("BSP");
    reveal_strlit("Columns");
    reveal_strlit("Rows");
    reveal_strlit("VerticalStack");
    reveal_strlit("HorizontalStack");
    reveal_strlit("UltrawideVerticalStack");
    reveal_strlit("Grid");
    reveal_strlit("bsp");
    reveal_strlit("columns");
    reveal_strlit("rows");
    reveal_strlit("verticalstack");
    reveal_strlit("horizontalstack");
    reveal_strlit("ultrawideverticalstack");
    reveal_strlit("grid");
    letters_are_kept(layout.name());
    match layout {
        Layout::Bsp => assert(lower("BSP"@) =~= "bsp"@),
        Layout::Columns => assert(lower("Columns"@) =~= "columns"@),
        Layout::Rows => assert(lower("Rows"@) =~= "rows"@),
        Layout::VerticalStack => assert(lower("VerticalStack"@) =~= "verticalstack"@),
        Layout::HorizontalStack => assert(lower("HorizontalStack"@) =~= "horizontalstack"@),
        Layout::UltrawideVerticalStack => assert(lower("UltrawideVerticalStack"@)
            =~= "ultrawideverticalstack"@),
        Layout::Grid => assert(lower("Grid"@) =~= "grid"@),
    }
    assert("rows"@[0] == 'r' && "grid"@[0] == 'g');
}

/// The animation style that is read from a text is one that the text spells, in any case
/// and with any punctuation, and every text that spells a style is read.
pub proof fn an_animation_style_is_read_as_spelled(style: AnimationStyle, text: Seq<char>)
    ensures
        AnimationStyle::named(text) matches Some(read) ==> lower(read.name()) == lower(
            squashed(text),
        ),
        AnimationStyle::ALL@.contains(style) && lower(style.name()) == lower(squashed(text))
            ==> AnimationStyle::named(text) is Some,
{
    let all = AnimationStyle::ALL@;
    let p = is_spelled(text);
    first_when_any(all, p);
    if all.contains(style) && lower(style.name()) == lower(squashed(text)) {
        let i = choose|i: int| 0 <= i < all.len() && all[i] == style;
        assert(p(all[i]));
    }
}

} // verus!
