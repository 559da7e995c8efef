//! A finite map kept as a list of distinct keys with their values, and the sum
//! of its values under a weight.

use vstd::prelude::*;
use crate::address::Address;

verus! {

/// Keys whose equality can be decided at run time.
pub trait LedgerKey: Sized {
    /// Whether `self` and `other` are the same key.
    fn same_key(&self, other: &Self) -> (r: bool)
        ensures
            r <==> *self == *other,
    ;
}

impl LedgerKey for Address {
    fn same_key(&self, other: &Address) -> (r: bool) {
        self.same(other)
    }
}

impl LedgerKey for (Address, Address) {
    fn same_key(&self, other: &(Address, Address)) -> (r: bool) {
        self.0.same(&other.0) && self.1.same(&other.1)
    }
}

/// The sum of `w(v)` over the values `v` of a list of entries.
pub open spec fn sum_by<K, V>(s: Seq<(K, V)>, w: spec_fn(V) -> nat) -> nat
    decreases s.len(),
{
    if s.len() == 0 {
        0
    } else {
        sum_by(s.drop_last(), w) + w(s.last().1)
    }
}

proof fn lemma_sum_by_push<K, V>(s: Seq<(K, V)>, x: (K, V), w: spec_fn(V) -> nat)
    ensures
        sum_by(s.push(x), w) == sum_by(s, w) + w(x.1),
{
    assert(s.push(x).drop_last() =~= s);
}

proof fn lemma_sum_by_update<K, V>(s: Seq<(K, V)>, i: int, x: (K, V), w: spec_fn(V) -> nat)
    requires
        0 <= i < s.len(),
    ensures
        sum_by(s.update(i, x), w) == sum_by(s, w) - w(s[i].1) + w(x.1),
        sum_by(s, w) >= w(s[i].1),
    decreases s.len(),
{
    if i == s.len() - 1 {
        assert(s.update(i, x).drop_last() =~= s.drop_last());
    } else {
        lemma_sum_by_update(s.drop_last(), i, x, w);
        assert(s.update(i, x).drop_last() =~= s.drop_last().update(i, x));
    }
}

/// The keys of a list of entries.
pub open spec fn keys_of<K, V>(s: Seq<(K, V)>) -> Set<K> {
    Set::new(|k: K| exists|i: int| 0 <= i < s.len() && s[i].0 == k)
}

/// Over entries with distinct keys, `sum_by` agrees with folding, over the
/// set of keys, a commutative `f` that adds the weight of each key's value.
proof fn lemma_sum_by_is_fold<K, V>(s: Seq<(K, V)>, w: spec_fn(V) -> nat, f: spec_fn(nat, K) -> nat)
    requires
        forall|i: int, j: int| 0 <= i < j < s.len() ==> #[trigger] s[i].0 != #[trigger] s[j].0,
        forall|acc: nat, i: int| 0 <= i < s.len() ==> #[trigger] f(acc, s[i].0) == acc + w(s[i].1),
        vstd::set::fold::is_fun_commutative(f),
    ensures
        keys_of(s).finite(),
        sum_by(s, w) == keys_of(s).fold(0nat, f),
    decreases s.len(),
{
    if s.len() == 0 {
        assert(keys_of(s) =~= Set::<K>::empty());
        vstd::set::fold::lemma_fold_empty(0nat, f);
    } else {
        let p = s.drop_last();
        let x = s.last();
        assert forall|acc: nat, i: int| 0 <= i < p.len() implies #[trigger] f(acc, p[i].0) == acc
            + w(p[i].1) by {
            assert(p[i] == s[i]);
        }
        lemma_sum_by_is_fold(p, w, f);
        assert(keys_of(s) =~= keys_of(p).insert(x.0)) by {
            assert forall|k: K| keys_of(s).contains(k) implies keys_of(p).insert(x.0).contains(
                k,
            ) by {
                let i = choose|i: int| 0 <= i < s.len() && s[i].0 == k;
                if i < p.len() {
                    assert(p[i].0 == k);
                }
            }
            assert forall|k: K| keys_of(p).insert(x.0).contains(k) implies keys_of(s).contains(
                k,
            ) by {
                if k != x.0 {
                    let i = choose|i: int| 0 <= i < p.len() && p[i].0 == k;
                    assert(s[i].0 == k);
                } else {
                    assert(s[s.len() - 1].0 == k);
                }
            }
        }
        assert(!keys_of(p).contains(x.0)) by {
            if keys_of(p).contains(x.0) {
                let i = choose|i: int| 0 <= i < p.len() && p[i].0 == x.0;
                assert(s[i].0 == s[s.len() - 1].0);
            }
        }
        vstd::set::fold::lemma_fold_insert(keys_of(p), 0nat, f, x.0);
        assert(f(keys_of(p).fold(0nat, f), s[s.len() - 1].0) == keys_of(p).fold(0nat, f) + w(
            s[s.len() - 1].1,
        ));
    }
}

/// A finite map from keys to values, stored as a list of distinct keys.
#[verifier::reject_recursive_types(K)]
pub struct Ledger<K, V> {
    entries: Vec<(K, V)>,
    contents: Ghost<Map<K, V>>,
}

impl<K, V> View for Ledger<K, V> {
    type V = Map<K, V>;

    closed spec fn view(&self) -> Map<K, V> {
        self.contents@
    }
}

impl<K: LedgerKey, V: Copy> Ledger<K, V> {
    /// The ledger is well formed: its list holds each key of the map once,
    /// with the map's value.
    pub closed spec fn wf(&self) -> bool {
        &&& forall|i: int, j: int|
            0 <= i < j < self.entries@.len() ==> #[trigger] self.entries@[i].0
                != #[trigger] self.entries@[j].0
        &&& forall|i: int|
            0 <= i < self.entries@.len() ==> self.contents@.contains_key(
                #[trigger] self.entries@[i].0,
            ) && self.contents@[self.entries@[i].0] == self.entries@[i].1
        &&& forall|k: K|
            #[trigger] self.contents@.contains_key(k) ==> exists|i: int|
                0 <= i < self.entries@.len() && self.entries@[i].0 == k
    }

    /// The sum of `w(v)` over the values `v` of the ledger.
    pub closed spec fn total(&self, w: spec_fn(V) -> nat) -> nat {
        sum_by(self.entries@, w)
    }

    /// An empty ledger.
    pub fn new() -> (r: Ledger<K, V>)
        ensures
            r.wf(),
            r@ == Map::<K, V>::empty(),
            forall|w: spec_fn(V) -> nat| #[trigger] r.total(w) == 0,
    {
        Ledger { entries: Vec::new(), contents: Ghost(Map::empty()) }
    }

    /// The position of `k` in the list, if the ledger holds it.
    fn find(&self, k: &K) -> (r: Option<usize>)
        requires
            self.wf(),
        ensures
            match r {
                Some(i) => i < self.entries@.len() && self.entries@[i as int].0 == *k,
                None => !self@.contains_key(*k),
            },
    {
        let mut i: usize = 0;
        while i < self.entries.len()
            invariant
                i <= self.entries@.len(),
                forall|j: int| 0 <= j < i ==> self.entries@[j].0 != *k,
            decreases self.entries@.len() - i,
        {
            if self.entries[i].0.same_key(k) {
                return Some(i);
            }
            i = i + 1;
        }
        None
    }

    /// The value stored under `k`, if any.
    pub fn get(&self, k: &K) -> (r: Option<V>)
        requires
            self.wf(),
        ensures
            r == if self@.contains_key(*k) {
                Some(self@[*k])
            } else {
                None::<V>
            },
    {
        match self.find(k) {
            Some(i) => Some(self.entries[i].1),
            None => None,
        }
    }

    /// Stores `v` under `k`, replacing any earlier value.
    pub fn set(&mut self, k: K, v: V)
        requires
            old(self).wf(),
        ensures
            final(self).wf(),
            final(self)@ == old(self)@.insert(k, v),
            forall|w: spec_fn(V) -> nat|
                #[trigger] final(self).total(w) + (if old(self)@.contains_key(k) {
                    w(old(self)@[k])
                } else {
                    0
                }) == old(self).total(w) + w(v),
    {
        match self.find(&k) {
            Some(i) => {
                let ghost before = self.entries@;
                self.entries.set(i, (k, v));
                self.contents = Ghost(self.contents@.insert(k, v));
                assert forall|w: spec_fn(V) -> nat|
                    #[trigger] sum_by(self.entries@, w) + w(old(self)@[k]) == sum_by(before, w)
                        + w(v) by {
                    lemma_sum_by_update(before, i as int, (k, v), w);
                }
                assert forall|kk: K| #[trigger] self.contents@.contains_key(kk) implies exists|
                    j: int,
                | 0 <= j < self.entries@.len() && self.entries@[j].0 == kk by {
                    if kk != k {
                        let j = choose|j: int| 0 <= j < before.len() && before[j].0 == kk;
                        assert(self.entries@[j].0 == kk);
                    } else {
                        assert(self.entries@[i as int].0 == kk);
                    }
                }
            },
            None => {
                let ghost before = self.entries@;
                self.entries.push((k, v));
                self.contents = Ghost(self.contents@.insert(k, v));
                assert forall|w: spec_fn(V) -> nat|
                    #[trigger] sum_by(self.entries@, w) == sum_by(before, w) + w(v) by {
                    lemma_sum_by_push(before, (k, v), w);
                }
                assert forall|kk: K| #[trigger] self.contents@.contains_key(kk) implies exists|
                    j: int,
                | 0 <= j < self.entries@.len() && self.entries@[j].0 == kk by {
                    if kk != k {
                        let j = choose|j: int| 0 <= j < before.len() && before[j].0 == kk;
                        assert(self.entries@[j].0 == kk);
                    } else {
                        assert(self.entries@[before.len() as int].0 == kk);
                    }
                }
            },
        }
    }

    /// The total of the values is the fold, over the ledger's keys, of any
    /// commutative `f` that adds the weight of each key's value.
    pub proof fn lemma_total_is_fold(&self, w: spec_fn(V) -> nat, f: spec_fn(nat, K) -> nat)
        requires
            self.wf(),
            forall|acc: nat, k: K| self@.contains_key(k) ==> #[trigger] f(acc, k) == acc + w(self@[k]),
            vstd::set::fold::is_fun_commutative(f),
        ensures
            self@.dom().finite(),
            self.total(w) == self@.dom().fold(0nat, f),
    {
        let s = self.entries@;
        assert forall|acc: nat, i: int| 0 <= i < s.len() implies #[trigger] f(acc, s[i].0) == acc
            + w(s[i].1) by {
            assert(self@.contains_key(s[i].0));
        }
        lemma_sum_by_is_fold(s, w, f);
        assert(keys_of(s) =~= self@.dom()) by {
            assert forall|k: K| self@.dom().contains(k) implies keys_of(s).contains(k) by {
                let i = choose|i: int| 0 <= i < s.len() && s[i].0 == k;
            }
        }
    }

    /// No single value exceeds the sum of all values.
    pub proof fn lemma_value_at_most_total(&self, k: K, w: spec_fn(V) -> nat)
        requires
            self.wf(),
            self@.contains_key(k),
        ensures
            w(self@[k]) <= self.total(w),
    {
        let i = choose|i: int| 0 <= i < self.entries@.len() && self.entries@[i].0 == k;
        lemma_sum_by_update(self.entries@, i, self.entries@[i], w);
    }

    /// Removes `k` and its value, if present.
    pub fn remove(&mut self, k: &K)
        requires
            old(self).wf(),
        ensures
            final(self).wf(),
            final(self)@ == old(self)@.remove(*k),
    {
        match self.find(k) {
            Some(i) => {
                let ghost before = self.entries@;
                self.entries.remove(i);
                self.contents = Ghost(self.contents@.remove(*k));
                assert forall|kk: K| #[trigger] self.contents@.contains_key(kk) implies exists|
                    j: int,
                | 0 <= j < self.entries@.len() && self.entries@[j].0 == kk by {
                    let j = choose|j: int| 0 <= j < before.len() && before[j].0 == kk;
                    if j < i {
                        assert(self.entries@[j].0 == kk);
                    } else {
                        assert(j != i);
                        assert(self.entries@[j - 1].0 == kk);
                    }
                }
            },
            None => {
                assert(self.contents@.remove(*k) =~= self.contents@);
            },
        }
    }
}

} // verus!
