//! The first item of a sequence that satisfies a predicate.

use vstd::prelude::*;

verus! {

/// `i` is the position of the first item of `s` that satisfies `p`.
pub open spec fn is_first_at<T>(s: Seq<T>, p: spec_fn(T) -> bool, i: int) -> bool {
    &&& 0 <= i < s.len()
    &&& p(s[i])
    &&& forall|j: int| 0 <= j < i ==> !p(s[j])
}

/// Some item of `s` satisfies `p`.
pub open spec fn has_where<T>(s: Seq<T>, p: spec_fn(T) -> bool) -> bool {
    exists|i: int| 0 <= i < s.len() && p(s[i])
}

/// The position of the first item of `s` that satisfies `p`, if there is one.
pub open spec fn first_where<T>(s: Seq<T>, p: spec_fn(T) -> bool) -> Option<int> {
    if exists|i: int| is_first_at(s, p, i) {
        Some(choose|i: int| is_first_at(s, p, i))
    } else {
        None
    }
}

/// The first position is the only one that is first.
pub proof fn lemma_first_found<T>(s: Seq<T>, p: spec_fn(T) -> bool, i: int)
    requires
        is_first_at(s, p, i),
    ensures
        first_where(s, p) == Some(i),
{
    let k = choose|k: int| is_first_at(s, p, k);
    if k < i {
        assert(!p(s[k]));
    } else if i < k {
        assert(!p(s[i]));
    }
}

/// Where no item satisfies `p`, nothing is found.
pub proof fn lemma_first_absent<T>(s: Seq<T>, p: spec_fn(T) -> bool)
    requires
        forall|j: int| 0 <= j < s.len() ==> !p(s[j]),
    ensures
        first_where(s, p) is None,
        !has_where(s, p),
{
}

/// What `first_where` returns is a first position, and it returns one
/// exactly when some item satisfies `p`.
pub proof fn lemma_first_where<T>(s: Seq<T>, p: spec_fn(T) -> bool)
    ensures
        first_where(s, p) is Some <==> has_where(s, p),
        first_where(s, p) is Some ==> is_first_at(s, p, first_where(s, p)->0),
{
    if has_where(s, p) {
        let w = choose|i: int| 0 <= i < s.len() && p(s[i]);
        lemma_least(s, p, w);
    }
}

proof fn lemma_least<T>(s: Seq<T>, p: spec_fn(T) -> bool, w: int)
    requires
        0 <= w < s.len(),
        p(s[w]),
    ensures
        exists|i: int| is_first_at(s, p, i),
    decreases w,
{
    if exists|j: int| 0 <= j < w && p(s[j]) {
        let j = choose|j: int| 0 <= j < w && p(s[j]);
        lemma_least(s, p, j);
    } else {
        assert(is_first_at(s, p, w));
    }
}

} // verus!
