//! What is left of a text that is trimmed, squashed or put in lower case.

use vstd::prelude::*;

use crate::text::{
    is_alphanumeric, is_white_space, lower, lower_char, squashed, trimmed, trimmed_back,
    trimmed_front,
};

verus! {

proof fn the_front_is_cut(s: Seq<char>) -> (at: int)
    ensures
        0 <= at <= s.len(),
        trimmed_front(s) == s.skip(at),
        forall|i: int| 0 <= i < at ==> is_white_space(#[trigger] s[i]),
        at < s.len() ==> !is_white_space(s[at]),
    decreases s.len(),
{
    if s.len() > 0 && is_white_space(s[0]) {
        let rest = s.skip(1);
        let at = the_front_is_cut(rest);
        assert(rest.skip(at) =~= s.skip(at + 1));
        assert forall|i: int| 0 <= i < at + 1 implies is_white_space(#[trigger] s[i]) by {
            if i > 0 {
                assert(s[i] == rest[i - 1]);
            }
        }
        if at + 1 < s.len() {
            assert(s[at + 1] == rest[at]);
        }
        at + 1
    } else {
        assert(s.skip(0) =~= s);
        0
    }
}

proof fn the_back_is_cut(s: Seq<char>) -> (end: int)
    ensures
        0 <= end <= s.len(),
        trimmed_back(s) == s.take(end),
        forall|i: int| end <= i < s.len() ==> is_white_space(#[trigger] s[i]),
        end > 0 ==> !is_white_space(s[end - 1]),
    decreases s.len(),
{
    if s.len() > 0 && is_white_space(s.last()) {
        let rest = s.drop_last();
        let end = the_back_is_cut(rest);
        assert(rest.take(end) =~= s.take(end));
        assert forall|i: int| end <= i < s.len() implies is_white_space(#[trigger] s[i]) by {
            if i < s.len() - 1 {
                assert(s[i] == rest[i]);
            }
        }
        end
    } else {
        assert(s.take(s.len() as int) =~= s);
        s.len() as int
    }
}

/// Trimming cuts white space off both ends, all of it, and nothing else.
pub proof fn trimming_cuts_the_white_space_around(s: Seq<char>) -> (ends: (int, int))
    ensures
        0 <= ends.0 <= ends.1 <= s.len(),
        trimmed(s) == s.subrange(ends.0, ends.1),
        forall|i: int| 0 <= i < ends.0 ==> is_white_space(#[trigger] s[i]),
        forall|i: int| ends.1 <= i < s.len() ==> is_white_space(#[trigger] s[i]),
        trimmed(s).len() > 0 ==> !is_white_space(trimmed(s)[0]) && !is_white_space(
            trimmed(s).last(),
        ),
{
    let at = the_front_is_cut(s);
    let rest = s.skip(at);
    let end = the_back_is_cut(rest);
    assert(rest.take(end) =~= s.subrange(at, at + end));
    assert forall|i: int| at + end <= i < s.len() implies is_white_space(#[trigger] s[i]) by {
        assert(s[i] == rest[i - at]);
    }
    if trimmed(s).len() > 0 {
        assert(trimmed(s)[0] == s[at]);
        assert(trimmed(s).last() == rest[end - 1]);
    }
    (at, at + end)
}

/// Lower case changes capital letters into the small ones of the same place in the
/// alphabet, and nothing else, and has nothing left to do on a text in lower case.
pub proof fn lower_case_only_changes_capitals(s: Seq<char>, i: int)
    requires
        0 <= i < s.len(),
    ensures
        lower(s).len() == s.len(),
        'A' <= s[i] && s[i] <= 'Z' ==> 'a' <= lower(s)[i] && lower(s)[i] <= 'z' && lower(s)[i] as int
            - 'a' as int == s[i] as int - 'A' as int,
        !('A' <= s[i] && s[i] <= 'Z') ==> lower(s)[i] == s[i],
        lower(lower(s)) == lower(s),
{
    assert forall|k: int| 0 <= k < s.len() implies #[trigger] lower(lower(s))[k] == lower(s)[k] by {
        assert(lower(s)[k] == lower_char(s[k]));
    }
    assert(lower(lower(s)) =~= lower(s));
}

/// Punctuation anywhere in a text makes no difference to what it is squashed to.
pub proof fn squashing_drops_the_punctuation(a: Seq<char>, b: Seq<char>, c: char)
    requires
        !is_alphanumeric(c),
    ensures
        squashed(a + seq![c] + b) == squashed(a + b),
{
    let p = |x: char| is_alphanumeric(x);
    let middle = a + seq![c];
    Seq::filter_distributes_over_add(a, b, p);
    Seq::filter_distributes_over_add(middle, b, p);
    Seq::filter_distributes_over_add(a, seq![c], p);
    assert(seq![c].filter(p) =~= Seq::empty()) by {
        reveal_with_fuel(Seq::filter, 2);
        assert(seq![c].drop_last() =~= Seq::<char>::empty());
    }
    assert(a.filter(p) + Seq::empty() =~= a.filter(p));
}

} // verus!
