//! A map from 32-byte keys to values, kept in key order.

use vstd::prelude::*;

use crate::primitives::lex::{
    lemma_lex_asymmetric, lemma_lex_irreflexive, lemma_lex_transitive, lex_compare, lex_lt, Order,
};

verus! {

/// A map from 32-byte keys to values.
///
/// The entries lie in two vectors, in ascending lexicographic order of the
/// keys, so that a key is found by halving.
pub struct KeyTable<V> {
    keys: Vec<[u8; 32]>,
    values: Vec<V>,
}

impl<V> View for KeyTable<V> {
    type V = Map<Seq<u8>, V>;

    closed spec fn view(&self) -> Map<Seq<u8>, V> {
        Map::new(
            |k: Seq<u8>| exists|i: int| self.holds_at(k, i),
            |k: Seq<u8>| self.values@[choose|i: int| self.holds_at(k, i)],
        )
    }
}

impl<V> KeyTable<V> {
    /// The keys are in strictly ascending order, each with its value.
    pub closed spec fn wf(&self) -> bool {
        &&& self.keys@.len() == self.values@.len()
        &&& forall|i: int, j: int|
            0 <= i < j < self.keys@.len() ==> lex_lt(#[trigger] self.keys@[i]@, #[trigger] self.keys@[j]@)
    }

    spec fn holds_at(&self, key: Seq<u8>, i: int) -> bool {
        0 <= i < self.keys@.len() && self.keys@[i]@ == key
    }

    /// The number of entries.
    pub closed spec fn size(&self) -> nat {
        self.keys@.len()
    }

    /// The key of the entry at position `i` of the key order.
    pub closed spec fn key_in_order(&self, i: int) -> Seq<u8> {
        self.keys@[i]@
    }

    proof fn lemma_entry(&self, i: int)
        requires
            self.wf(),
            0 <= i < self.keys@.len(),
        ensures
            self@.dom().contains(self.keys@[i]@),
            self@[self.keys@[i]@] == self.values@[i],
    {
        let key = self.keys@[i]@;
        assert(self.holds_at(key, i));
        let j = choose|j: int| self.holds_at(key, j);
        assert(self.holds_at(key, j));
        if j < i {
            assert(lex_lt(self.keys@[j]@, self.keys@[i]@));
            lemma_lex_irreflexive(key);
        }
        if i < j {
            assert(lex_lt(self.keys@[i]@, self.keys@[j]@));
            lemma_lex_irreflexive(key);
        }
    }

    /// The entries, by position: every position holds a key of the map with
    /// its value, every key stands at some position, and positions are in key
    /// order.
    pub proof fn lemma_positions(&self)
        requires
            self.wf(),
        ensures
            forall|i: int|
                0 <= i < self.size() ==> self@.dom().contains(#[trigger] self.key_in_order(i))
                    && self.key_in_order(i).len() == 32,
            forall|k: Seq<u8>| #[trigger]
                self@.dom().contains(k) ==> exists|i: int|
                    0 <= i < self.size() && self.key_in_order(i) == k,
            forall|i: int, j: int|
                0 <= i < j < self.size() ==> lex_lt(
                    #[trigger] self.key_in_order(i),
                    #[trigger] self.key_in_order(j),
                ),
    {
        assert forall|i: int| 0 <= i < self.size() implies self@.dom().contains(
            #[trigger] self.key_in_order(i),
        ) && self.key_in_order(i).len() == 32 by {
            self.lemma_entry(i);
        }
        assert forall|k: Seq<u8>| #[trigger] self@.dom().contains(k) implies exists|i: int|
            0 <= i < self.size() && self.key_in_order(i) == k by {
            let i = choose|i: int| self.holds_at(k, i);
            assert(self.key_in_order(i) == k);
        }
    }

    /// The map has as many keys as there are entries.
    pub proof fn lemma_size(&self)
        requires
            self.wf(),
        ensures
            self@.dom().finite(),
            self@.dom().len() == self.size(),
    {
        let ks: Seq<Seq<u8>> = self.keys@.map_values(|k: [u8; 32]| k@);
        assert(ks.no_duplicates()) by {
            assert forall|i: int, j: int|
                0 <= i < ks.len() && 0 <= j < ks.len() && i != j implies ks[i] != ks[j] by {
                if i < j {
                    assert(lex_lt(self.keys@[i]@, self.keys@[j]@));
                    lemma_lex_asymmetric(self.keys@[i]@, self.keys@[j]@);
                } else {
                    assert(lex_lt(self.keys@[j]@, self.keys@[i]@));
                    lemma_lex_asymmetric(self.keys@[j]@, self.keys@[i]@);
                }
            }
        }
        ks.unique_seq_to_set();
        assert(self@.dom() =~= ks.to_set()) by {
            assert forall|k: Seq<u8>| self@.dom().contains(k) implies ks.to_set().contains(k) by {
                let i = choose|i: int| self.holds_at(k, i);
                assert(ks[i] == k);
            }
            assert forall|k: Seq<u8>| ks.to_set().contains(k) implies self@.dom().contains(k) by {
                let i = choose|i: int| 0 <= i < ks.len() && ks[i] == k;
                assert(self.holds_at(k, i));
            }
        }
    }

    /// A table without entries.
    pub fn new() -> (r: Self)
        ensures
            r.wf(),
            r@ == Map::<Seq<u8>, V>::empty(),
            r.size() == 0,
    {
        let r = KeyTable { keys: Vec::new(), values: Vec::new() };
        assert(r@ =~= Map::<Seq<u8>, V>::empty());
        r
    }

    /// The number of entries.
    pub fn len(&self) -> (r: usize)
        requires
            self.wf(),
        ensures
            r == self.size(),
            r == self@.dom().len(),
    {
        proof {
            self.lemma_size();
        }
        self.keys.len()
    }

    /// Where the key stands, or where it would have to be inserted.
    fn find(&self, key: &[u8; 32]) -> (r: (bool, usize))
        requires
            self.wf(),
        ensures
            r.1 <= self.keys@.len(),
            r.0 ==> self.holds_at(key@, r.1 as int),
            !r.0 ==> {
                &&& forall|j: int| 0 <= j < r.1 ==> lex_lt(#[trigger] self.keys@[j]@, key@)
                &&& forall|j: int| r.1 <= j < self.keys@.len() ==> lex_lt(key@, #[trigger] self.keys@[j]@)
            },
    {
        let mut lo: usize = 0;
        let mut hi: usize = self.keys.len();
        while lo < hi
            invariant
                self.wf(),
                lo <= hi <= self.keys@.len(),
                forall|j: int| 0 <= j < lo ==> lex_lt(#[trigger] self.keys@[j]@, key@),
                forall|j: int| hi <= j < self.keys@.len() ==> lex_lt(key@, #[trigger] self.keys@[j]@),
            decreases hi - lo,
        {
            let mid: usize = lo + (hi - lo) / 2;
            match lex_compare(self.keys[mid].as_slice(), key.as_slice()) {
                Order::Equal => {
                    return (true, mid);
                },
                Order::Less => {
                    proof {
                        assert forall|j: int| 0 <= j < mid + 1 implies lex_lt(
                            #[trigger] self.keys@[j]@,
                            key@,
                        ) by {
                            if j < mid {
                                lemma_lex_transitive(self.keys@[j]@, self.keys@[mid as int]@, key@);
                            }
                        }
                    }
                    lo = mid + 1;
                },
                Order::Greater => {
                    proof {
                        assert forall|j: int| mid <= j < self.keys@.len() implies lex_lt(
                            key@,
                            #[trigger] self.keys@[j]@,
                        ) by {
                            if mid < j {
                                lemma_lex_transitive(key@, self.keys@[mid as int]@, self.keys@[j]@);
                            }
                        }
                    }
                    hi = mid;
                },
            }
        }
        (false, lo)
    }

    proof fn lemma_absent(&self, key: Seq<u8>, at: int)
        requires
            self.wf(),
            0 <= at <= self.keys@.len(),
            forall|j: int| 0 <= j < at ==> lex_lt(#[trigger] self.keys@[j]@, key),
            forall|j: int| at <= j < self.keys@.len() ==> lex_lt(key, #[trigger] self.keys@[j]@),
        ensures
            !self@.dom().contains(key),
    {
        if self@.dom().contains(key) {
            let i = choose|i: int| self.holds_at(key, i);
            assert(self.keys@[i]@ == key);
            lemma_lex_irreflexive(key);
        }
    }

    /// The value of a key.
    pub fn get(&self, key: &[u8; 32]) -> (r: Option<&V>)
        requires
            self.wf(),
        ensures
            match r {
                Some(v) => self@.dom().contains(key@) && self@[key@] == *v,
                None => !self@.dom().contains(key@),
            },
    {
        let (found, at) = self.find(key);
        if found {
            proof {
                self.lemma_entry(at as int);
            }
            Some(&self.values[at])
        } else {
            proof {
                self.lemma_absent(key@, at as int);
            }
            None
        }
    }

    /// The key of the entry at position `i`.
    pub fn key_at(&self, i: usize) -> (r: [u8; 32])
        requires
            self.wf(),
            i < self.size(),
        ensures
            r@ == self.key_in_order(i as int),
            self@.dom().contains(r@),
    {
        proof {
            self.lemma_entry(i as int);
        }
        self.keys[i]
    }

    /// The value of the entry at position `i`.
    pub fn value_at(&self, i: usize) -> (r: &V)
        requires
            self.wf(),
            i < self.size(),
        ensures
            *r == self@[self.key_in_order(i as int)],
    {
        proof {
            self.lemma_entry(i as int);
        }
        &self.values[i]
    }

    /// Gives the key the value, in place of any earlier one.
    pub fn insert(&mut self, key: &[u8; 32], value: V)
        requires
            old(self).wf(),
        ensures
            final(self).wf(),
            final(self)@ == old(self)@.insert(key@, value),
    {
        let (found, at) = self.find(key);
        let ghost before = *self;
        if found {
            self.values.set(at, value);
            proof {
                assert(self.keys@ == before.keys@);
                assert forall|k: Seq<u8>| self@.dom().contains(k) == before@.insert(
                    key@,
                    value,
                ).dom().contains(k) by {
                    if before@.dom().contains(k) {
                        let i = choose|i: int| before.holds_at(k, i);
                        assert(self.holds_at(k, i));
                    }
                    if self@.dom().contains(k) {
                        let i = choose|i: int| self.holds_at(k, i);
                        assert(before.holds_at(k, i));
                    }
                    assert(self.holds_at(key@, at as int));
                }
                assert forall|k: Seq<u8>| #[trigger] self@.dom().contains(k) implies self@[k]
                    == before@.insert(key@, value)[k] by {
                    let i = choose|i: int| self.holds_at(k, i);
                    self.lemma_entry(i);
                    before.lemma_entry(i);
                    self.lemma_entry(at as int);
                }
                assert(self@ =~= before@.insert(key@, value));
            }
        } else {
            self.keys.insert(at, *key);
            self.values.insert(at, value);
            proof {
                assert(self.keys@ == before.keys@.insert(at as int, *key));
                assert(self.values@ == before.values@.insert(at as int, value));
                assert forall|i: int, j: int| 0 <= i < j < self.keys@.len() implies lex_lt(
                    #[trigger] self.keys@[i]@,
                    #[trigger] self.keys@[j]@,
                ) by {
                    let i0 = if i < at {
                        i
                    } else {
                        i - 1
                    };
                    let j0 = if j < at {
                        j
                    } else {
                        j - 1
                    };
                    if i != at {
                        assert(self.keys@[i] == before.keys@[i0]);
                    }
                    if j != at {
                        assert(self.keys@[j] == before.keys@[j0]);
                    }
                }
                before.lemma_absent(key@, at as int);
                assert forall|k: Seq<u8>| self@.dom().contains(k) == before@.insert(
                    key@,
                    value,
                ).dom().contains(k) by {
                    assert(self.holds_at(key@, at as int));
                    if before@.dom().contains(k) {
                        let i = choose|i: int| before.holds_at(k, i);
                        if i < at {
                            assert(self.holds_at(k, i));
                        } else {
                            assert(self.holds_at(k, i + 1));
                        }
                    }
                    if self@.dom().contains(k) && k != key@ {
                        let i = choose|i: int| self.holds_at(k, i);
                        if i < at {
                            assert(before.holds_at(k, i));
                        } else {
                            assert(before.holds_at(k, i - 1));
                        }
                    }
                }
                assert forall|k: Seq<u8>| #[trigger] self@.dom().contains(k) implies self@[k]
                    == before@.insert(key@, value)[k] by {
                    let i = choose|i: int| self.holds_at(k, i);
                    self.lemma_entry(i);
                    if i < at {
                        before.lemma_entry(i);
                        assert(before.keys@[i] == self.keys@[i]);
                        assert(before@.dom().contains(k));
                    } else if i > at {
                        before.lemma_entry(i - 1);
                        assert(before.keys@[i - 1] == self.keys@[i]);
                        assert(before@.dom().contains(k));
                    }
                }
                assert(self@ =~= before@.insert(key@, value));
            }
        }
    }

    /// Appends an entry whose key comes after all others.
    pub fn push_last(&mut self, key: &[u8; 32], value: V)
        requires
            old(self).wf(),
            forall|k: Seq<u8>| #[trigger] old(self)@.dom().contains(k) ==> lex_lt(k, key@),
        ensures
            final(self).wf(),
            final(self)@ == old(self)@.insert(key@, value),
            final(self).size() == old(self).size() + 1,
    {
        let ghost before = *self;
        let ghost n = self.keys@.len() as int;
        self.keys.push(*key);
        self.values.push(value);
        proof {
            assert forall|i: int, j: int| 0 <= i < j < self.keys@.len() implies lex_lt(
                #[trigger] self.keys@[i]@,
                #[trigger] self.keys@[j]@,
            ) by {
                before.lemma_entry(i);
                if j < n {
                    assert(lex_lt(before.keys@[i]@, before.keys@[j]@));
                }
            }
            assert forall|k: Seq<u8>| self@.dom().contains(k) == before@.insert(
                key@,
                value,
            ).dom().contains(k) by {
                assert(self.holds_at(key@, n));
                if before@.dom().contains(k) {
                    let i = choose|i: int| before.holds_at(k, i);
                    assert(self.holds_at(k, i));
                }
                if self@.dom().contains(k) && k != key@ {
                    let i = choose|i: int| self.holds_at(k, i);
                    assert(before.holds_at(k, i));
                }
            }
            assert forall|k: Seq<u8>| #[trigger] self@.dom().contains(k) implies self@[k]
                == before@.insert(key@, value)[k] by {
                let i = choose|i: int| self.holds_at(k, i);
                self.lemma_entry(i);
                if i < n {
                    before.lemma_entry(i);
                    assert(before.keys@[i] == self.keys@[i]);
                    lemma_lex_irreflexive(key@);
                }
            }
            assert(self@ =~= before@.insert(key@, value));
        }
    }

    /// Removes a key and hands out its value.
    pub fn remove(&mut self, key: &[u8; 32]) -> (r: Option<V>)
        requires
            old(self).wf(),
        ensures
            final(self).wf(),
            final(self)@ == old(self)@.remove(key@),
            match r {
                Some(v) => old(self)@.dom().contains(key@) && old(self)@[key@] == v,
                None => !old(self)@.dom().contains(key@),
            },
    {
        let (found, at) = self.find(key);
        let ghost before = *self;
        if !found {
            proof {
                before.lemma_absent(key@, at as int);
                assert(before@.remove(key@) =~= before@);
            }
            return None;
        }
        proof {
            before.lemma_entry(at as int);
        }
        let _ = self.keys.remove(at);
        let value = self.values.remove(at);
        proof {
            assert(self.keys@ == before.keys@.remove(at as int));
            assert(self.values@ == before.values@.remove(at as int));
            assert forall|i: int, j: int| 0 <= i < j < self.keys@.len() implies lex_lt(
                #[trigger] self.keys@[i]@,
                #[trigger] self.keys@[j]@,
            ) by {
                let i0 = if i < at {
                    i
                } else {
                    i + 1
                };
                let j0 = if j < at {
                    j
                } else {
                    j + 1
                };
                assert(self.keys@[i] == before.keys@[i0]);
                assert(self.keys@[j] == before.keys@[j0]);
                assert(lex_lt(before.keys@[i0]@, before.keys@[j0]@));
            }
            assert forall|k: Seq<u8>| self@.dom().contains(k) == before@.remove(
                key@,
            ).dom().contains(k) by {
                if before@.dom().contains(k) && k != key@ {
                    let i = choose|i: int| before.holds_at(k, i);
                    if i < at {
                        assert(self.holds_at(k, i));
                    } else {
                        assert(self.holds_at(k, i - 1));
                    }
                }
                if self@.dom().contains(k) {
                    let i = choose|i: int| self.holds_at(k, i);
                    let i0 = if i < at {
                        i
                    } else {
                        i + 1
                    };
                    assert(before.holds_at(k, i0));
                    if k == key@ {
                        if i0 < at {
                            assert(lex_lt(before.keys@[i0]@, before.keys@[at as int]@));
                        } else {
                            assert(lex_lt(before.keys@[at as int]@, before.keys@[i0]@));
                        }
                        lemma_lex_irreflexive(k);
                    }
                }
            }
            assert forall|k: Seq<u8>| #[trigger] self@.dom().contains(k) implies self@[k]
                == before@.remove(key@)[k] by {
                let i = choose|i: int| self.holds_at(k, i);
                let i0 = if i < at {
                    i
                } else {
                    i + 1
                };
                self.lemma_entry(i);
                before.lemma_entry(i0);
                assert(before.keys@[i0] == self.keys@[i]);
                assert(before@.remove(key@).dom().contains(k));
            }
            assert(self@ =~= before@.remove(key@));
        }
        Some(value)
    }
}

} // verus!
