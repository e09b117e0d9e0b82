//! The first element of a sequence that meets a condition.

use vstd::prelude::*;

verus! {

/// Whether `s[i]` meets `p` and nothing before it does.
pub open spec fn is_first<T>(s: Seq<T>, p: spec_fn(T) -> bool, i: int) -> bool {
    &&& 0 <= i < s.len()
    &&& p(s[i])
    &&& forall|j: int| 0 <= j < i ==> !p(#[trigger] s[j])
}

/// Whether some element of `s` meets `p`.
pub open spec fn any<T>(s: Seq<T>, p: spec_fn(T) -> bool) -> bool {
    exists|i: int| 0 <= i < s.len() && p(#[trigger] s[i])
}

/// The index of the first element of `s` that meets `p`.
pub open spec fn first<T>(s: Seq<T>, p: spec_fn(T) -> bool) -> int {
    choose|i: int| is_first(s, p, i)
}

proof fn lemma_first_exists<T>(s: Seq<T>, p: spec_fn(T) -> bool, k: int)
    requires
        0 <= k < s.len(),
        p(s[k]),
    ensures
        exists|i: int| is_first(s, p, i),
    decreases k,
{
    if forall|j: int| 0 <= j < k ==> !p(#[trigger] s[j]) {
        assert(is_first(s, p, k));
    } else {
        let j = choose|j: int| 0 <= j < k && p(#[trigger] s[j]);
        lemma_first_exists(s, p, j);
    }
}

/// Where some element meets `p`, `first` is the index of the first that
/// does, and the only index that [`is_first`] holds of.
pub proof fn lemma_first<T>(s: Seq<T>, p: spec_fn(T) -> bool)
    requires
        any(s, p),
    ensures
        is_first(s, p, first(s, p)),
        forall|i: int| is_first(s, p, i) ==> i == first(s, p),
{
    let k = choose|i: int| 0 <= i < s.len() && p(#[trigger] s[i]);
    lemma_first_exists(s, p, k);
    let f = first(s, p);
    assert forall|i: int| is_first(s, p, i) implies i == f by {
        if i < f {
            assert(!p(s[i]));
        } else if f < i {
            assert(!p(s[f]));
        }
    }
}

} // verus!
