//! Stable ordering of a sequence by a relation: the definition, the facts
//! about it that the tables of this library rely on, and the one routine
//! that orders a vector.

use vstd::prelude::*;
use crate::text::views_of;

verus! {

/// Any two items are related one way or the other.
pub open spec fn is_total<T>(le: spec_fn(T, T) -> bool) -> bool {
    forall|x: T, y: T| #[trigger] le(x, y) || #[trigger] le(y, x)
}

/// What is related through a third item is related.
pub open spec fn is_transitive<T>(le: spec_fn(T, T) -> bool) -> bool {
    forall|x: T, y: T, z: T| #[trigger] le(x, y) && #[trigger] le(y, z) ==> le(x, z)
}

/// Every item is related to every item behind it.
pub open spec fn is_sorted_with<T>(s: Seq<T>, le: spec_fn(T, T) -> bool) -> bool {
    forall|i: int, j: int| 0 <= i < j < s.len() ==> le(s[i], s[j])
}

/// `x` placed into `s` behind the last item that is related to it.
pub open spec fn insert_with<T>(s: Seq<T>, x: T, le: spec_fn(T, T) -> bool) -> Seq<T>
    decreases s.len(),
{
    if s.len() == 0 {
        seq![x]
    } else if le(s.last(), x) {
        s.push(x)
    } else {
        insert_with(s.drop_last(), x, le).push(s.last())
    }
}

/// `s` ordered by `le`, items that are related both ways in the order they
/// had in `s`.
pub open spec fn sort_with<T>(s: Seq<T>, le: spec_fn(T, T) -> bool) -> Seq<T>
    decreases s.len(),
{
    if s.len() == 0 {
        s
    } else {
        insert_with(sort_with(s.drop_last(), le), s.last(), le)
    }
}

/// Where `insert_with` puts the new item: at `j`, when nothing from `j` on
/// is related to it and the item before `j`, if any, is.
pub proof fn lemma_insert_with_position<T>(s: Seq<T>, x: T, le: spec_fn(T, T) -> bool, j: int)
    requires
        0 <= j <= s.len(),
        forall|k: int| j <= k < s.len() ==> !le(s[k], x),
        j > 0 ==> le(s[j - 1], x),
    ensures
        insert_with(s, x, le) == s.insert(j, x),
    decreases s.len() - j,
{
    if s.len() == 0 {
        assert(s.insert(0, x) =~= seq![x]);
    } else if j == s.len() {
        assert(s.insert(j, x) =~= s.push(x));
    } else {
        lemma_insert_with_position(s.drop_last(), x, le, j);
        assert(s.drop_last().insert(j, x).push(s.last()) =~= s.insert(j, x));
    }
}

/// Insertion adds one item.
pub proof fn lemma_insert_with_len<T>(s: Seq<T>, x: T, le: spec_fn(T, T) -> bool)
    ensures
        insert_with(s, x, le).len() == s.len() + 1,
    decreases s.len(),
{
    if s.len() > 0 && !le(s.last(), x) {
        lemma_insert_with_len(s.drop_last(), x, le);
    }
}

/// Sorting keeps the length.
pub proof fn lemma_sort_with_len<T>(s: Seq<T>, le: spec_fn(T, T) -> bool)
    ensures
        sort_with(s, le).len() == s.len(),
    decreases s.len(),
{
    if s.len() > 0 {
        lemma_sort_with_len(s.drop_last(), le);
        lemma_insert_with_len(sort_with(s.drop_last(), le), s.last(), le);
    }
}

/// Insertion keeps every item and adds the new one.
pub proof fn lemma_insert_with_multiset<T>(s: Seq<T>, x: T, le: spec_fn(T, T) -> bool)
    ensures
        insert_with(s, x, le).to_multiset() == s.to_multiset().insert(x),
    decreases s.len(),
{
    broadcast use vstd::seq_lib::group_to_multiset_ensures;

    if s.len() == 0 {
        assert(seq![x] =~= Seq::<T>::empty().push(x));
        assert(s =~= Seq::<T>::empty());
    } else if le(s.last(), x) {
    } else {
        let d = s.drop_last();
        lemma_insert_with_multiset(d, x, le);
        assert(s =~= d.push(s.last()));
        assert(d.to_multiset().insert(x).insert(s.last()) =~= d.to_multiset().insert(s.last()).insert(x));
    }
}

/// Sorting keeps every item, as often as it occurred.
pub proof fn lemma_sort_with_multiset<T>(s: Seq<T>, le: spec_fn(T, T) -> bool)
    ensures
        sort_with(s, le).to_multiset() == s.to_multiset(),
    decreases s.len(),
{
    broadcast use vstd::seq_lib::group_to_multiset_ensures;

    if s.len() > 0 {
        let d = s.drop_last();
        lemma_sort_with_multiset(d, le);
        lemma_insert_with_multiset(sort_with(d, le), s.last(), le);
        assert(s =~= d.push(s.last()));
    }
}

/// Every item of `insert_with(s, x, le)` is `x` or an item of `s`.
proof fn lemma_insert_with_items<T>(s: Seq<T>, x: T, le: spec_fn(T, T) -> bool)
    ensures
        forall|i: int|
            0 <= i < insert_with(s, x, le).len() ==> {
                ||| #[trigger] insert_with(s, x, le)[i] == x
                ||| s.contains(insert_with(s, x, le)[i])
            },
    decreases s.len(),
{
    let r = insert_with(s, x, le);
    lemma_insert_with_len(s, x, le);
    if s.len() == 0 {
    } else if le(s.last(), x) {
        assert forall|i: int| 0 <= i < r.len() implies (#[trigger] r[i] == x || s.contains(r[i])) by {
            if i < s.len() {
                assert(s[i] == r[i]);
            }
        }
    } else {
        let t = insert_with(s.drop_last(), x, le);
        lemma_insert_with_items(s.drop_last(), x, le);
        lemma_insert_with_len(s.drop_last(), x, le);
        assert forall|i: int| 0 <= i < r.len() implies (#[trigger] r[i] == x || s.contains(r[i])) by {
            if i < t.len() {
                assert(r[i] == t[i]);
                if t[i] != x {
                    let k = choose|k: int| 0 <= k < s.drop_last().len() && s.drop_last()[k] == t[i];
                    assert(s[k] == t[i]);
                }
            } else {
                assert(r[i] == s[s.len() - 1]);
            }
        }
    }
}

proof fn lemma_insert_with_sorted<T>(s: Seq<T>, x: T, le: spec_fn(T, T) -> bool)
    requires
        is_total(le),
        is_transitive(le),
        is_sorted_with(s, le),
    ensures
        is_sorted_with(insert_with(s, x, le), le),
    decreases s.len(),
{
    let r = insert_with(s, x, le);
    lemma_insert_with_len(s, x, le);
    if s.len() == 0 {
    } else if le(s.last(), x) {
        assert forall|i: int, j: int| 0 <= i < j < r.len() implies le(r[i], r[j]) by {
            if j == s.len() {
                if i < s.len() - 1 {
                    assert(le(s[i], s[s.len() - 1]));
                    assert(le(s[s.len() - 1], x));
                }
            }
        }
    } else {
        let d = s.drop_last();
        let t = insert_with(d, x, le);
        assert(is_sorted_with(d, le)) by {
            assert forall|i: int, j: int| 0 <= i < j < d.len() implies le(d[i], d[j]) by {
                assert(d[i] == s[i] && d[j] == s[j]);
            }
        }
        lemma_insert_with_sorted(d, x, le);
        lemma_insert_with_items(d, x, le);
        lemma_insert_with_len(d, x, le);
        let last = s.last();
        assert(le(x, last)) by {
            assert(le(last, x) || le(x, last));
        }
        assert forall|i: int, j: int| 0 <= i < j < r.len() implies le(r[i], r[j]) by {
            if j < t.len() {
                assert(r[i] == t[i] && r[j] == t[j]);
            } else {
                assert(r[j] == last);
                assert(r[i] == t[i]);
                if t[i] != x {
                    let k = choose|k: int| 0 <= k < d.len() && d[k] == t[i];
                    assert(s[k] == t[i]);
                    assert(le(s[k], s[s.len() - 1]));
                }
            }
        }
    }
}

/// Under a relation that is total and transitive the result of sorting is
/// sorted.
pub proof fn lemma_sort_with_sorted<T>(s: Seq<T>, le: spec_fn(T, T) -> bool)
    requires
        is_total(le),
        is_transitive(le),
    ensures
        is_sorted_with(sort_with(s, le), le),
    decreases s.len(),
{
    if s.len() > 0 {
        lemma_sort_with_sorted(s.drop_last(), le);
        lemma_insert_with_sorted(sort_with(s.drop_last(), le), s.last(), le);
    }
}

/// Orders `items` by the relation that `le` decides, keeping the order of
/// items that are related both ways.
pub fn sort_vec<T: View, F: Fn(&T, &T) -> bool>(
    items: &mut Vec<T>,
    le: F,
    Ghost(rel): Ghost<spec_fn(T::V, T::V) -> bool>,
)
    requires
        forall|a: &T, b: &T| call_requires(le, (a, b)),
        forall|a: &T, b: &T, r: bool| call_ensures(le, (a, b), r) ==> r == rel(a@, b@),
    ensures
        views_of(final(items)@) == sort_with(views_of(old(items)@), rel),
        final(items).len() == old(items).len(),
{
    let ghost orig = views_of(items@);
    let n = items.len();
    let mut i: usize = 0;
    proof {
        assert(orig.take(0) =~= Seq::<T::V>::empty());
        assert(sort_with(orig.take(0), rel) + orig.skip(0) =~= orig);
    }
    while i < n
        invariant
            i <= n,
            n == orig.len(),
            items.len() == n,
            forall|a: &T, b: &T| call_requires(le, (a, b)),
            forall|a: &T, b: &T, r: bool| call_ensures(le, (a, b), r) ==> r == rel(a@, b@),
            views_of(items@) == sort_with(orig.take(i as int), rel) + orig.skip(i as int),
        decreases n - i,
    {
        let ghost prefix = sort_with(orig.take(i as int), rel);
        proof {
            lemma_sort_with_len(orig.take(i as int), rel);
        }
        let ghost before = items@;
        let x = items.remove(i);
        proof {
            assert(x@ == orig[i as int]) by {
                assert(views_of(before)[i as int] == x@);
                assert((prefix + orig.skip(i as int))[i as int] == orig.skip(i as int)[0]);
            }
            assert(views_of(items@) =~= prefix + orig.skip(i + 1)) by {
                assert(views_of(items@) =~= views_of(before).remove(i as int));
            }
        }
        let mut j: usize = i;
        while j > 0 && !le(&items[j - 1], &x)
            invariant
                j <= i,
                i < n,
                items.len() == n - 1,
                prefix.len() == i,
                forall|a: &T, b: &T| call_requires(le, (a, b)),
                forall|a: &T, b: &T, r: bool| call_ensures(le, (a, b), r) ==> r == rel(a@, b@),
                views_of(items@) == prefix + orig.skip(i + 1),
                forall|k: int| j <= k < i ==> !rel(prefix[k], x@),
            decreases j,
        {
            proof {
                assert(views_of(items@)[j - 1] == prefix[j - 1]);
            }
            j -= 1;
        }
        proof {
            if j > 0 {
                assert(views_of(items@)[j - 1] == prefix[j - 1]);
            }
            lemma_insert_with_position(prefix, x@, rel, j as int);
            assert(orig.take(i + 1).drop_last() =~= orig.take(i as int));
            assert(orig.take(i + 1).last() == orig[i as int]);
        }
        let ghost mid = items@;
        let ghost xv = x@;
        items.insert(j, x);
        proof {
            assert(views_of(items@) =~= views_of(mid).insert(j as int, xv));
            assert((prefix + orig.skip(i + 1)).insert(j as int, xv) =~= prefix.insert(j as int, xv)
                + orig.skip(i + 1));
        }
        i += 1;
    }
    proof {
        assert(orig.take(n as int) =~= orig);
        assert(sort_with(orig, rel) + orig.skip(n as int) =~= sort_with(orig, rel));
        lemma_sort_with_len(orig, rel);
    }
}

/// Every item of an ordered sequence is an item of the sequence it was
/// ordered from, and the other way round.
pub proof fn lemma_sort_with_same_items<T>(s: Seq<T>, le: spec_fn(T, T) -> bool)
    ensures
        forall|x: T| sort_with(s, le).contains(x) <==> s.contains(x),
{
    broadcast use vstd::seq_lib::group_to_multiset_ensures;

    lemma_sort_with_multiset(s, le);
    assert forall|x: T| sort_with(s, le).contains(x) <==> s.contains(x) by {
        assert(sort_with(s, le).to_multiset().count(x) == s.to_multiset().count(x));
    }
}

/// `insert_with` puts the new item somewhere and moves nothing else.
pub proof fn lemma_insert_with_somewhere<T>(s: Seq<T>, x: T, le: spec_fn(T, T) -> bool)
    ensures
        exists|k: int| 0 <= k <= s.len() && insert_with(s, x, le) == s.insert(k, x),
    decreases s.len(),
{
    if s.len() == 0 {
        assert(s.insert(0, x) =~= seq![x]);
    } else if le(s.last(), x) {
        assert(s.insert(s.len() as int, x) =~= s.push(x));
    } else {
        lemma_insert_with_somewhere(s.drop_last(), x, le);
        let k = choose|k: int|
            0 <= k <= s.drop_last().len() && insert_with(s.drop_last(), x, le)
                == s.drop_last().insert(k, x);
        assert(s.drop_last().insert(k, x).push(s.last()) =~= s.insert(k, x));
    }
}

/// A sequence that is already sorted is left as it is.
pub proof fn lemma_sort_with_of_sorted<T>(s: Seq<T>, le: spec_fn(T, T) -> bool)
    requires
        is_sorted_with(s, le),
    ensures
        sort_with(s, le) == s,
    decreases s.len(),
{
    if s.len() > 0 {
        let d = s.drop_last();
        assert(is_sorted_with(d, le)) by {
            assert forall|i: int, j: int| 0 <= i < j < d.len() implies le(d[i], d[j]) by {
                assert(d[i] == s[i] && d[j] == s[j]);
            }
        }
        lemma_sort_with_of_sorted(d, le);
        if d.len() > 0 {
            assert(le(d.last(), s.last())) by {
                assert(d.last() == s[s.len() - 2]);
                assert(s.last() == s[s.len() - 1]);
            }
        }
        assert(d.push(s.last()) =~= s);
    }
}

/// Under a relation that is total and transitive, sorting twice is sorting
/// once.
pub proof fn lemma_sort_with_idempotent<T>(s: Seq<T>, le: spec_fn(T, T) -> bool)
    requires
        is_total(le),
        is_transitive(le),
    ensures
        sort_with(sort_with(s, le), le) == sort_with(s, le),
{
    lemma_sort_with_sorted(s, le);
    lemma_sort_with_of_sorted(sort_with(s, le), le);
}

/// No two items of `s` have the same key.
pub open spec fn distinct_by<T, K>(s: Seq<T>, key: spec_fn(T) -> K) -> bool {
    forall|i: int, j: int|
        #![trigger s[i], s[j]]
        0 <= i < s.len() && 0 <= j < s.len() && i != j ==> key(s[i]) != key(s[j])
}

/// Sorting a sequence without two items of one key leaves no two such
/// items.
pub proof fn lemma_sort_with_distinct<T, K>(
    s: Seq<T>,
    le: spec_fn(T, T) -> bool,
    key: spec_fn(T) -> K,
)
    requires
        distinct_by(s, key),
    ensures
        distinct_by(sort_with(s, le), key),
    decreases s.len(),
{
    if s.len() > 0 {
        let d = s.drop_last();
        let x = s.last();
        assert(distinct_by(d, key)) by {
            assert forall|i: int, j: int|
                #![trigger d[i], d[j]]
                0 <= i < d.len() && 0 <= j < d.len() && i != j implies key(d[i]) != key(d[j]) by {
                assert(d[i] == s[i] && d[j] == s[j]);
            }
        }
        lemma_sort_with_distinct(d, le, key);
        let sd = sort_with(d, le);
        lemma_sort_with_same_items(d, le);
        lemma_sort_with_len(d, le);
        lemma_insert_with_somewhere(sd, x, le);
        let k = choose|k: int| 0 <= k <= sd.len() && insert_with(sd, x, le) == sd.insert(k, x);
        let r = sd.insert(k, x);
        assert forall|i: int, j: int|
            #![trigger r[i], r[j]]
            0 <= i < r.len() && 0 <= j < r.len() && i != j implies key(r[i]) != key(r[j]) by {
            let a = if i < k { i } else { i - 1 };
            let b = if j < k { j } else { j - 1 };
            if i == k {
                assert(sd.contains(sd[b]));
                assert(d.contains(sd[b]));
                let m = choose|m: int| 0 <= m < d.len() && d[m] == sd[b];
                assert(s[m] == sd[b]);
                assert(s[s.len() - 1] == x);
            } else if j == k {
                assert(sd.contains(sd[a]));
                assert(d.contains(sd[a]));
                let m = choose|m: int| 0 <= m < d.len() && d[m] == sd[a];
                assert(s[m] == sd[a]);
                assert(s[s.len() - 1] == x);
            } else {
                assert(r[i] == sd[a] && r[j] == sd[b]);
            }
        }
    }
}

} // verus!
