//! Searching sequences: the first element that satisfies a predicate.
use vstd::prelude::*;

verus! {

/// `i` is the index of the first element of `s` that satisfies `p`.
pub open spec fn is_first<T>(s: Seq<T>, p: spec_fn(T) -> bool, i: int) -> bool {
    &&& 0 <= i < s.len()
    &&& p(s[i])
    &&& forall|k: int| 0 <= k < i ==> !p(#[trigger] s[k])
}

/// The index of the first element of `s` that satisfies `p`, if any.
pub open spec fn first_index<T>(s: Seq<T>, p: spec_fn(T) -> bool) -> Option<int> {
    if exists|i: int| is_first(s, p, i) {
        Some(choose|i: int| is_first(s, p, i))
    } else {
        None
    }
}

/// The first satisfying index is unique.
pub proof fn lemma_first_index_is<T>(s: Seq<T>, p: spec_fn(T) -> bool, i: int)
    requires
        is_first(s, p, i),
    ensures
        first_index(s, p) == Some(i),
{
    let j = choose|j: int| is_first(s, p, j);
    assert(is_first(s, p, j));
    if j < i {
        assert(!p(s[j]));
    }
    if i < j {
        assert(!p(s[i]));
    }
}

/// No element satisfies `p`, so there is no first one.
pub proof fn lemma_first_index_none<T>(s: Seq<T>, p: spec_fn(T) -> bool)
    requires
        forall|k: int| 0 <= k < s.len() ==> !p(#[trigger] s[k]),
    ensures
        first_index(s, p) is None,
{
    if exists|i: int| is_first(s, p, i) {
        let i = choose|i: int| is_first(s, p, i);
        assert(p(s[i]));
    }
}

/// An element satisfies `p`, so there is a first one, and it is no later.
pub proof fn lemma_first_index_exists<T>(s: Seq<T>, p: spec_fn(T) -> bool, j: int)
    requires
        0 <= j < s.len(),
        p(s[j]),
    ensures
        first_index(s, p) matches Some(i) && is_first(s, p, i) && i <= j,
    decreases j,
{
    if exists|k: int| 0 <= k < j && p(#[trigger] s[k]) {
        let k = choose|k: int| 0 <= k < j && p(#[trigger] s[k]);
        lemma_first_index_exists(s, p, k);
    } else {
        assert(is_first(s, p, j));
        lemma_first_index_is(s, p, j);
    }
}

/// There is a first element satisfying `p` exactly when some element does; the
/// first one satisfies it and no earlier one does.
pub proof fn lemma_first_index_some<T>(s: Seq<T>, p: spec_fn(T) -> bool)
    ensures
        first_index(s, p) is Some <==> exists|j: int| 0 <= j < s.len() && p(#[trigger] s[j]),
        first_index(s, p) matches Some(i) ==> is_first(s, p, i),
{
    if exists|j: int| 0 <= j < s.len() && p(#[trigger] s[j]) {
        let j = choose|j: int| 0 <= j < s.len() && p(#[trigger] s[j]);
        lemma_first_index_exists(s, p, j);
    } else {
        lemma_first_index_none(s, p);
    }
}

/// `i` is the first index below `n` at which `p` holds.
pub open spec fn is_first_at(n: int, p: spec_fn(int) -> bool, i: int) -> bool {
    &&& 0 <= i < n
    &&& p(i)
    &&& forall|k: int| 0 <= k < i ==> !#[trigger] p(k)
}

/// The first index below `n` at which `p` holds, if any.
pub open spec fn first_at(n: int, p: spec_fn(int) -> bool) -> Option<int> {
    if exists|i: int| is_first_at(n, p, i) {
        Some(choose|i: int| is_first_at(n, p, i))
    } else {
        None
    }
}

/// The first index at which a predicate holds is unique.
pub proof fn lemma_first_at_is(n: int, p: spec_fn(int) -> bool, i: int)
    requires
        is_first_at(n, p, i),
    ensures
        first_at(n, p) == Some(i),
{
    let j = choose|j: int| is_first_at(n, p, j);
    assert(is_first_at(n, p, j));
    if j < i {
        assert(!p(j));
    }
    if i < j {
        assert(!p(i));
    }
}

/// The predicate holds at no index below `n`.
pub proof fn lemma_first_at_none(n: int, p: spec_fn(int) -> bool)
    requires
        forall|k: int| 0 <= k < n ==> !#[trigger] p(k),
    ensures
        first_at(n, p) is None,
{
    if exists|i: int| is_first_at(n, p, i) {
        let i = choose|i: int| is_first_at(n, p, i);
        assert(p(i));
    }
}

} // verus!
