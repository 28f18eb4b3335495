//! A keyed table of last-known records: one record per key, replaced as a
//! whole, removed as a whole.

use vstd::prelude::*;
use crate::text::same_text;

verus! {

struct Slot<T> {
    key: String,
    value: T,
}

/// Records by string key. A key occurs at most once; records keep the order
/// in which their keys first came.
pub struct Cache<T> {
    slots: Vec<Slot<T>>,
}

impl<T> Cache<T> {
    /// The keys, in the order in which they were first stored.
    pub closed spec fn keys(&self) -> Seq<Seq<char>> {
        self.slots@.map_values(|s: Slot<T>| s.key@)
    }

    /// No key occurs twice. Every table made by this module is well formed.
    pub open spec fn wf(&self) -> bool {
        self.keys().no_duplicates()
    }
}

impl<T: View> Cache<T> {
    /// The records, each at the position of its key.
    pub closed spec fn values(&self) -> Seq<T::V> {
        self.slots@.map_values(|s: Slot<T>| s.value@)
    }

    /// The table as a map from key to record.
    pub open spec fn view(&self) -> Map<Seq<char>, T::V> {
        Map::new(
            |k: Seq<char>| self.keys().contains(k),
            |k: Seq<char>| self.values()[self.keys().index_of(k)],
        )
    }

    /// Keys and records stand side by side, and the map holds, under each
    /// key, the record at the key's position.
    pub proof fn lemma_values_by_key(&self)
        requires
            self.wf(),
        ensures
            self.keys().len() == self.values().len(),
            self.keys().no_duplicates(),
            forall|k: Seq<char>| self@.dom().contains(k) <==> self.keys().contains(k),
            forall|i: int|
                0 <= i < self.keys().len() ==> self@[#[trigger] self.keys()[i]] == self.values()[i],
    {
        assert forall|i: int| 0 <= i < self.keys().len() implies self@[#[trigger] self.keys()[i]]
            == self.values()[i] by {
            let k = self.keys()[i];
            assert(self.keys().contains(k));
            let j = self.keys().index_of(k);
            assert(self.keys()[j] == k);
        }
    }

    /// An empty table.
    pub fn new() -> (r: Self)
        ensures
            r.wf(),
            r.keys() == Seq::<Seq<char>>::empty(),
            r.values() == Seq::<T::V>::empty(),
            r@ == Map::<Seq<char>, T::V>::empty(),
    {
        let r = Cache { slots: Vec::new() };
        proof {
            assert(r.keys() =~= Seq::<Seq<char>>::empty());
            assert(r.values() =~= Seq::<T::V>::empty());
            assert(r@ =~= Map::<Seq<char>, T::V>::empty());
        }
        r
    }

    /// The number of records.
    pub fn len(&self) -> (n: usize)
        ensures
            n == self.keys().len(),
            n == self.values().len(),
    {
        self.slots.len()
    }

    /// The record at position `i`.
    pub fn value_at(&self, i: usize) -> (r: &T)
        requires
            self.wf(),
            i < self.keys().len(),
        ensures
            r@ == self.values()[i as int],
            self@.dom().contains(self.keys()[i as int]),
            self@[self.keys()[i as int]] == r@,
    {
        proof {
            let k = self.keys()[i as int];
            assert(self.keys().contains(k));
        }
        &self.slots[i].value
    }

    /// The key at position `i`.
    pub fn key_at(&self, i: usize) -> (r: &str)
        requires
            i < self.keys().len(),
        ensures
            r@ == self.keys()[i as int],
    {
        self.slots[i].key.as_str()
    }

    /// The position of `key`, if the table holds it.
    pub fn position(&self, key: &str) -> (r: Option<usize>)
        requires
            self.wf(),
        ensures
            r is Some == self.keys().contains(key@),
            r is Some ==> r->0 < self.keys().len() && self.keys()[r->0 as int] == key@
                && self.keys().index_of(key@) == r->0,
    {
        let mut i: usize = 0;
        while i < self.slots.len()
            invariant
                self.wf(),
                i <= self.slots.len(),
                forall|j: int| 0 <= j < i ==> self.keys()[j] != key@,
            decreases self.slots.len() - i,
        {
            if same_text(self.slots[i].key.as_str(), key) {
                proof {
                    assert(self.keys()[i as int] == key@);
                    let j = self.keys().index_of(key@);
                    assert(0 <= j < self.keys().len() && self.keys()[j] == key@);
                }
                return Some(i);
            }
            i += 1;
        }
        None
    }

    /// The record stored under `key`, if any.
    pub fn get(&self, key: &str) -> (r: Option<&T>)
        requires
            self.wf(),
        ensures
            r is Some == self@.dom().contains(key@),
            r is Some ==> r->0@ == self@[key@],
    {
        match self.position(key) {
            Some(i) => Some(&self.slots[i].value),
            None => None,
        }
    }

    /// Drops every record.
    pub fn clear(&mut self)
        ensures
            final(self).wf(),
            final(self).keys() == Seq::<Seq<char>>::empty(),
            final(self).values() == Seq::<T::V>::empty(),
            final(self)@ == Map::<Seq<char>, T::V>::empty(),
    {
        self.slots.clear();
        proof {
            assert(self.keys() =~= Seq::<Seq<char>>::empty());
            assert(self.values() =~= Seq::<T::V>::empty());
            assert(self@ =~= Map::<Seq<char>, T::V>::empty());
        }
    }

    /// Stores `value` under `key`, in place of what was there.
    pub fn upsert(&mut self, key: String, value: T)
        requires
            old(self).wf(),
        ensures
            final(self).wf(),
            final(self)@ == old(self)@.insert(key@, value@),
            old(self).keys().contains(key@) ==> final(self).keys() == old(self).keys()
                && final(self).values() == old(self).values().update(
                old(self).keys().index_of(key@),
                value@,
            ),
            !old(self).keys().contains(key@) ==> final(self).keys() == old(self).keys().push(key@)
                && final(self).values() == old(self).values().push(value@),
    {
        let ghost before = *self;
        let found = self.position(key.as_str());
        match found {
            Some(i) => {
                self.slots.set(i, Slot { key, value });
                proof {
                    assert(self.keys() =~= before.keys());
                    assert(self.values() =~= before.values().update(i as int, value@));
                    assert(self@ =~= before@.insert(key@, value@)) by {
                        assert forall|k: Seq<char>| self.keys().contains(k) implies
                            #[trigger] self@[k] == before@.insert(key@, value@)[k] by {
                            if k != key@ {
                                assert(self.keys().index_of(k) != i);
                            }
                        }
                    }
                }
            },
            None => {
                self.slots.push(Slot { key, value });
                proof {
                    assert(self.keys() =~= before.keys().push(key@));
                    assert(self.values() =~= before.values().push(value@));
                    let n = before.keys().len() as int;
                    assert(self.keys()[n] == key@);
                    assert(self@ =~= before@.insert(key@, value@)) by {
                        assert forall|k: Seq<char>| #[trigger]
                            before@.insert(key@, value@).dom().contains(k) implies self.keys().contains(
                            k,
                        ) by {
                            if k == key@ {
                                assert(self.keys()[n] == k);
                            } else {
                                let j = before.keys().index_of(k);
                                assert(self.keys()[j] == k);
                            }
                        }
                        assert forall|k: Seq<char>| self.keys().contains(k) implies
                            #[trigger] self@[k] == before@.insert(key@, value@)[k] by {
                            let j = self.keys().index_of(k);
                            if k == key@ {
                                assert(j == n);
                            } else {
                                assert(j != n);
                                assert(before.keys()[j] == k);
                                assert(before.keys().index_of(k) == j);
                            }
                        }
                    }
                }
            },
        }
    }

    /// Drops the record stored under `key`, if any.
    pub fn remove(&mut self, key: &str)
        requires
            old(self).wf(),
        ensures
            final(self).wf(),
            final(self)@ == old(self)@.remove(key@),
            !old(self).keys().contains(key@) ==> final(self).keys() == old(self).keys()
                && final(self).values() == old(self).values(),
            old(self).keys().contains(key@) ==> final(self).keys() == old(self).keys().remove(
                old(self).keys().index_of(key@),
            ) && final(self).values() == old(self).values().remove(old(self).keys().index_of(key@)),
    {
        let ghost before = *self;
        let found = self.position(key);
        match found {
            Some(i) => {
                let _ = self.slots.remove(i);
                proof {
                    let bk = before.keys();
                    assert(self.keys() =~= bk.remove(i as int));
                    assert(self.values() =~= before.values().remove(i as int));
                    assert(!self.keys().contains(key@)) by {
                        if self.keys().contains(key@) {
                            let j = self.keys().index_of(key@);
                            if j < i {
                                assert(bk[j] == key@);
                            } else {
                                assert(bk[j + 1] == key@);
                            }
                        }
                    }
                    assert(self@ =~= before@.remove(key@)) by {
                        assert forall|k: Seq<char>| #[trigger]
                            before@.remove(key@).dom().contains(k) implies self.keys().contains(k) by {
                            let j = bk.index_of(k);
                            if j < i {
                                assert(self.keys()[j] == k);
                            } else {
                                assert(self.keys()[j - 1] == k);
                            }
                        }
                        assert forall|k: Seq<char>| self.keys().contains(k) implies
                            before@.remove(key@).dom().contains(k) && #[trigger] self@[k]
                            == before@.remove(key@)[k] by {
                            let j = self.keys().index_of(k);
                            if j < i {
                                assert(bk[j] == k);
                                assert(bk.index_of(k) == j);
                            } else {
                                assert(bk[j + 1] == k);
                                assert(bk.index_of(k) == j + 1);
                            }
                        }
                    }
                }
            },
            None => {
                proof {
                    assert(self@ =~= before@.remove(key@));
                }
            },
        }
    }
}

} // verus!
