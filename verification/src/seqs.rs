//! Sequence helpers shared by the model's specifications.

use vstd::prelude::*;

verus! {

/// `i` is the index of the first element that `p` holds of.
pub open spec fn is_first<V>(s: Seq<V>, p: spec_fn(V) -> bool, i: int) -> bool {
    &&& 0 <= i < s.len()
    &&& p(s[i])
    &&& forall|j: int| 0 <= j < i ==> !p(#[trigger] s[j])
}

/// The index of the first element that `p` holds of, if there is one.
pub open spec fn first_idx<V>(s: Seq<V>, p: spec_fn(V) -> bool) -> Option<int> {
    if exists|i: int| is_first(s, p, i) {
        Some(choose|i: int| is_first(s, p, i))
    } else {
        None
    }
}

/// `true` when `p` holds of some element.
pub open spec fn any<V>(s: Seq<V>, p: spec_fn(V) -> bool) -> bool {
    exists|i: int| 0 <= i < s.len() && p(#[trigger] s[i])
}

/// An index with nothing before it that `p` holds of is the first one.
pub proof fn first_is<V>(s: Seq<V>, p: spec_fn(V) -> bool, i: int)
    requires
        is_first(s, p, i),
    ensures
        first_idx(s, p) == Some(i),
        any(s, p),
{
    let c = choose|c: int| is_first(s, p, c);
    assert(is_first(s, p, c));
    if c < i {
        assert(!p(s[c]));
    } else if i < c {
        assert(!p(s[i]));
    }
}

/// There is no first element when `p` holds of none.
pub proof fn first_is_none<V>(s: Seq<V>, p: spec_fn(V) -> bool)
    requires
        forall|j: int| 0 <= j < s.len() ==> !p(#[trigger] s[j]),
    ensures
        first_idx(s, p) is None,
        !any(s, p),
{
}

/// There is a first element exactly when `p` holds of one.
pub proof fn first_when_any<V>(s: Seq<V>, p: spec_fn(V) -> bool)
    ensures
        first_idx(s, p) is Some <==> any(s, p),
        first_idx(s, p) matches Some(i) ==> is_first(s, p, i),
{
    if any(s, p) {
        let k = choose|k: int| 0 <= k < s.len() && p(#[trigger] s[k]);
        first_from(s, p, k);
    }
    if first_idx(s, p) is Some {
        let i = first_idx(s, p)->0;
        assert(p(s[i]));
    }
}

proof fn first_from<V>(s: Seq<V>, p: spec_fn(V) -> bool, k: int)
    requires
        0 <= k < s.len(),
        p(s[k]),
    ensures
        exists|i: int| is_first(s, p, i),
    decreases k,
{
    if exists|j: int| 0 <= j < k && p(#[trigger] s[j]) {
        let j = choose|j: int| 0 <= j < k && p(#[trigger] s[j]);
        first_from(s, p, j);
    } else {
        assert(is_first(s, p, k));
    }
}

} // verus!
