use crate::identity::Identity;
use vstd::prelude::*;

verus! {

/// Storage of records keyed by their derived address; each address holds at
/// most one record.
#[derive(Debug)]
pub struct Ledger<T> {
    entries: Vec<(Identity, T)>,
}

pub open spec fn holds_key<T>(s: Seq<(Identity, T)>, k: Seq<u8>) -> bool {
    exists|i: int| 0 <= i < s.len() && s[i].0@ == k
}

pub open spec fn slot<T>(s: Seq<(Identity, T)>, k: Seq<u8>) -> int {
    choose|i: int| 0 <= i < s.len() && s[i].0@ == k
}

pub open spec fn keys_unique<T>(s: Seq<(Identity, T)>) -> bool {
    forall|i: int, j: int| 0 <= i < s.len() && 0 <= j < s.len() && i != j ==> s[i].0@ != s[j].0@
}

proof fn lemma_slot<T>(s: Seq<(Identity, T)>, i: int)
    requires
        keys_unique(s),
        0 <= i < s.len(),
    ensures
        holds_key(s, s[i].0@),
        slot(s, s[i].0@) == i,
{
    assert(holds_key(s, s[i].0@));
}

impl<T: View> View for Ledger<T> {
    type V = Map<Seq<u8>, T::V>;

    closed spec fn view(&self) -> Map<Seq<u8>, T::V> {
        Map::new(
            |k: Seq<u8>| holds_key(self.entries@, k),
            |k: Seq<u8>| self.entries@[slot(self.entries@, k)].1@,
        )
    }
}

impl<T: View> Ledger<T> {
    pub closed spec fn wf(&self) -> bool {
        keys_unique(self.entries@)
    }

    pub fn new() -> (r: Self)
        ensures
            r.wf(),
            r@ == Map::<Seq<u8>, T::V>::empty(),
    {
        let r = Ledger { entries: Vec::new() };
        assert(r@ =~= Map::<Seq<u8>, T::V>::empty());
        r
    }

    fn position(&self, k: &Identity) -> (r: Option<usize>)
        requires
            self.wf(),
        ensures
            r is None <==> !holds_key(self.entries@, k@),
            r matches Some(i) ==> i < self.entries@.len() && self.entries@[i as int].0@ == k@
                && i == slot(self.entries@, k@),
    {
        let mut i: usize = 0;
        while i < self.entries.len()
            invariant
                0 <= i <= self.entries@.len(),
                keys_unique(self.entries@),
                forall|j: int| 0 <= j < i ==> self.entries@[j].0@ != k@,
            decreases self.entries@.len() - i,
        {
            if self.entries[i].0.same(k) {
                proof {
                    lemma_slot(self.entries@, i as int);
                }
                return Some(i);
            }
            i = i + 1;
        }
        None
    }

    /// Whether a record is stored at `k`.
    pub fn contains(&self, k: &Identity) -> (r: bool)
        requires
            self.wf(),
        ensures
            r == self@.contains_key(k@),
    {
        self.position(k).is_some()
    }

    /// The record stored at `k`, if any.
    pub fn get(&self, k: &Identity) -> (r: Option<&T>)
        requires
            self.wf(),
        ensures
            r is Some <==> self@.contains_key(k@),
            r matches Some(v) ==> v@ == self@[k@],
    {
        match self.position(k) {
            Some(i) => Some(&self.entries[i].1),
            None => None,
        }
    }

    /// Stores `v` at the unoccupied address `k`.
    pub fn insert(&mut self, k: Identity, v: T)
        requires
            old(self).wf(),
            !old(self)@.contains_key(k@),
        ensures
            final(self).wf(),
            final(self)@ == old(self)@.insert(k@, v@),
    {
        let ghost s0 = self.entries@;
        self.entries.push((k, v));
        let ghost s1 = self.entries@;
        assert(keys_unique(s1)) by {
            assert forall|i: int, j: int|
                0 <= i < s1.len() && 0 <= j < s1.len() && i != j implies s1[i].0@ != s1[j].0@ by {
                if i < s0.len() && j < s0.len() {
                    assert(s1[i] == s0[i] && s1[j] == s0[j]);
                } else if i < s0.len() {
                    assert(s1[i] == s0[i]);
                    assert(!holds_key(s0, k@));
                } else {
                    assert(s1[j] == s0[j]);
                    assert(!holds_key(s0, k@));
                }
            }
        }
        proof {
            lemma_slot(s1, s0.len() as int);
            assert forall|q: Seq<u8>| #[trigger] holds_key(s1, q) && q != k@ implies holds_key(s0, q)
                && slot(s1, q) == slot(s0, q) by {
                let i = slot(s1, q);
                assert(i < s0.len());
                assert(s1[i] == s0[i]);
                lemma_slot(s0, i);
            }
            assert forall|q: Seq<u8>| #[trigger] holds_key(s0, q) implies holds_key(s1, q) by {
                let i = slot(s0, q);
                assert(s1[i] == s0[i]);
            }
        }
        assert(self@ =~= old(self)@.insert(k@, v@));
    }

    /// Replaces the record stored at the occupied address `k` by `v`.
    pub fn replace(&mut self, k: &Identity, v: T)
        requires
            old(self).wf(),
            old(self)@.contains_key(k@),
        ensures
            final(self).wf(),
            final(self)@ == old(self)@.insert(k@, v@),
    {
        let i = self.position(k).unwrap();
        let ghost s0 = self.entries@;
        let key = self.entries[i].0;
        self.entries[i] = (key, v);
        let ghost s1 = self.entries@;
        assert(keys_unique(s1)) by {
            assert forall|a: int, b: int|
                0 <= a < s1.len() && 0 <= b < s1.len() && a != b implies s1[a].0@ != s1[b].0@ by {
                assert(s1[a].0@ == s0[a].0@ && s1[b].0@ == s0[b].0@);
            }
        }
        proof {
            assert forall|q: Seq<u8>| holds_key(s1, q) <==> #[trigger] holds_key(s0, q) by {
                if holds_key(s1, q) {
                    let j = slot(s1, q);
                    assert(s0[j].0@ == q);
                }
                if holds_key(s0, q) {
                    let j = slot(s0, q);
                    assert(s1[j].0@ == q);
                }
            }
            assert forall|q: Seq<u8>| #[trigger] holds_key(s0, q) implies slot(s1, q) == slot(s0, q) by {
                let j = slot(s0, q);
                lemma_slot(s0, j);
                assert(s1[j].0@ == s0[j].0@);
                lemma_slot(s1, j);
            }
            lemma_slot(s1, i as int);
        }
        assert(self@ =~= old(self)@.insert(k@, v@));
    }
}

} // verus!
