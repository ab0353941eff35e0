use vstd::prelude::*;

use crate::types::Address;

verus! {

/// A finite map keyed by [`Address`], held as a list of entries in which no
/// address occurs twice.
pub struct AddressBook<V> {
    entries: Vec<(Address, V)>,
}

/// Whether `a` is the key of some entry of `s`.
pub open spec fn has_key<V>(s: Seq<(Address, V)>, a: Address) -> bool {
    exists|i: int| 0 <= i < s.len() && (#[trigger] s[i]).0 == a
}

/// No address is the key of two entries of `s`.
pub open spec fn keys_unique<V>(s: Seq<(Address, V)>) -> bool {
    forall|i: int, j: int|
        0 <= i < s.len() && 0 <= j < s.len() && i != j ==> (#[trigger] s[i]).0 != (#[trigger] s[j]).0
}

/// The map that the entries of `s` describe.
pub open spec fn entries_map<V>(s: Seq<(Address, V)>) -> Map<Address, V> {
    Map::new(
        |a: Address| has_key(s, a),
        |a: Address| s[choose|i: int| 0 <= i < s.len() && (#[trigger] s[i]).0 == a].1,
    )
}

impl<V> View for AddressBook<V> {
    type V = Map<Address, V>;

    closed spec fn view(&self) -> Map<Address, V> {
        entries_map(self.entries@)
    }
}

proof fn lemma_entry_value<V>(s: Seq<(Address, V)>, i: int)
    requires
        keys_unique(s),
        0 <= i < s.len(),
    ensures
        entries_map(s).contains_key(s[i].0),
        entries_map(s)[s[i].0] == s[i].1,
{
    let a = s[i].0;
    assert(has_key(s, a));
    let j = choose|j: int| 0 <= j < s.len() && (#[trigger] s[j]).0 == a;
    assert(j == i);
}

impl<V: Copy> AddressBook<V> {
    /// The well-formedness of the entry list: no duplicate keys.
    pub closed spec fn wf(&self) -> bool {
        keys_unique(self.entries@)
    }

    pub fn new() -> (r: Self)
        ensures
            r.wf(),
            r@ == Map::<Address, V>::empty(),
    {
        let r = AddressBook { entries: Vec::new() };
        assert(r@ =~= Map::<Address, V>::empty());
        r
    }

    fn find(&self, a: &Address) -> (r: Option<usize>)
        ensures
            match r {
                Some(i) => i < self.entries@.len() && self.entries@[i as int].0 == *a,
                None => !has_key(self.entries@, *a),
            },
    {
        let mut i: usize = 0;
        while i < self.entries.len()
            invariant
                i <= self.entries@.len(),
                forall|j: int| 0 <= j < i ==> (#[trigger] self.entries@[j]).0 != *a,
            decreases self.entries@.len() - i,
        {
            if self.entries[i].0 == *a {
                return Some(i);
            }
            i = i + 1;
        }
        None
    }

    /// The value stored under `a`, if any.
    pub fn get(&self, a: &Address) -> (r: Option<V>)
        requires
            self.wf(),
        ensures
            r == (if self@.contains_key(*a) {
                Some(self@[*a])
            } else {
                None
            }),
    {
        match self.find(a) {
            Some(i) => {
                proof {
                    lemma_entry_value(self.entries@, i as int);
                }
                Some(self.entries[i].1)
            },
            None => None,
        }
    }

    /// The entries of the book, each address once, in insertion order.
    pub fn entries(&self) -> (r: Vec<(Address, V)>)
        requires
            self.wf(),
        ensures
            keys_unique(r@),
            entries_map(r@) == self@,
    {
        let mut out: Vec<(Address, V)> = Vec::new();
        let mut i: usize = 0;
        while i < self.entries.len()
            invariant
                i <= self.entries@.len(),
                out@ == self.entries@.take(i as int),
            decreases self.entries@.len() - i,
        {
            out.push(self.entries[i]);
            i = i + 1;
            assert(out@ =~= self.entries@.take(i as int));
        }
        assert(out@ =~= self.entries@);
        out
    }

    /// Stores `v` under `a`, replacing any earlier value.
    pub fn insert(&mut self, a: Address, v: V)
        requires
            old(self).wf(),
        ensures
            final(self).wf(),
            final(self)@ == old(self)@.insert(a, v),
    {
        let ghost s0 = self.entries@;
        match self.find(&a) {
            Some(i) => {
                self.entries.set(i, (a, v));
                let ghost s1 = self.entries@;
                assert(keys_unique(s1)) by {
                    assert forall|p: int, q: int|
                        0 <= p < s1.len() && 0 <= q < s1.len() && p != q implies (#[trigger] s1[p]).0
                        != (#[trigger] s1[q]).0 by {
                        assert(s1[p].0 == s0[p].0);
                        assert(s1[q].0 == s0[q].0);
                    }
                }
                assert forall|k: Address| #[trigger] entries_map(s1).contains_key(k) <==> entries_map(s0).insert(a, v).contains_key(k) by {
                    if has_key(s0, k) {
                        let j = choose|j: int| 0 <= j < s0.len() && (#[trigger] s0[j]).0 == k;
                        assert(s1[j].0 == k);
                    }
                    if has_key(s1, k) {
                        let j = choose|j: int| 0 <= j < s1.len() && (#[trigger] s1[j]).0 == k;
                        assert(s0[j].0 == k);
                    }
                }
                assert forall|k: Address| #[trigger] entries_map(s1).contains_key(k) implies entries_map(s1)[k] == entries_map(s0).insert(a, v)[k] by {
                    let j = choose|j: int| 0 <= j < s1.len() && (#[trigger] s1[j]).0 == k;
                    lemma_entry_value(s1, j);
                    if k != a {
                        assert(s0[j].0 == k);
                        lemma_entry_value(s0, j);
                    }
                }
                assert(entries_map(s1) =~= entries_map(s0).insert(a, v));
            },
            None => {
                self.entries.push((a, v));
                let ghost s1 = self.entries@;
                assert(keys_unique(s1)) by {
                    assert forall|p: int, q: int|
                        0 <= p < s1.len() && 0 <= q < s1.len() && p != q implies (#[trigger] s1[p]).0
                        != (#[trigger] s1[q]).0 by {
                        if p == s0.len() as int {
                            assert(s1[q] == s0[q]);
                        } else if q == s0.len() as int {
                            assert(s1[p] == s0[p]);
                        } else {
                            assert(s1[p] == s0[p]);
                            assert(s1[q] == s0[q]);
                        }
                    }
                }
                assert forall|k: Address| #[trigger] entries_map(s1).contains_key(k) <==> entries_map(s0).insert(a, v).contains_key(k) by {
                    if has_key(s0, k) {
                        let j = choose|j: int| 0 <= j < s0.len() && (#[trigger] s0[j]).0 == k;
                        assert(s1[j].0 == k);
                    }
                    if k == a {
                        assert(s1[s0.len() as int].0 == a);
                    }
                    if has_key(s1, k) && k != a {
                        let j = choose|j: int| 0 <= j < s1.len() && (#[trigger] s1[j]).0 == k;
                        assert(s0[j].0 == k);
                    }
                }
                assert forall|k: Address| #[trigger] entries_map(s1).contains_key(k) implies entries_map(s1)[k] == entries_map(s0).insert(a, v)[k] by {
                    let j = choose|j: int| 0 <= j < s1.len() && (#[trigger] s1[j]).0 == k;
                    lemma_entry_value(s1, j);
                    if k != a {
                        assert(s0[j].0 == k);
                        lemma_entry_value(s0, j);
                    }
                }
                assert(entries_map(s1) =~= entries_map(s0).insert(a, v));
            },
        }
    }
}

} // verus!
