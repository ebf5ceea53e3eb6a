//! A small verified map: an association list with distinct keys, viewed as a
//! `Map`. The ledger's keyed state (profiles, balances, beneficiaries, limits)
//! is held in these.

use vstd::prelude::*;

verus! {

/// Keys of a [`KVMap`]: executable equality must coincide with
/// specification-level equality.
pub trait MapKey: Sized + Copy {
    fn key_eq(&self, other: &Self) -> (r: bool)
        ensures
            r == (*self == *other),
    ;
}

impl MapKey for crate::types::AccountId {
    fn key_eq(&self, other: &Self) -> (r: bool)
        ensures
            r == (*self == *other),
    {
        self.hi == other.hi && self.lo == other.lo
    }
}

impl MapKey for crate::types::BalanceKey {
    fn key_eq(&self, other: &Self) -> (r: bool)
        ensures
            r == (*self == *other),
    {
        self.user.key_eq(&other.user) && self.token.key_eq(&other.token)
    }
}

impl MapKey for crate::types::BeneficiaryKey {
    fn key_eq(&self, other: &Self) -> (r: bool)
        ensures
            r == (*self == *other),
    {
        self.user.key_eq(&other.user) && self.index == other.index
    }
}

impl MapKey for crate::types::SpendKey {
    fn key_eq(&self, other: &Self) -> (r: bool)
        ensures
            r == (*self == *other),
    {
        self.user.key_eq(&other.user) && self.day == other.day
    }
}

/// The map denoted by an association list: later entries shadow earlier ones
/// (irrelevant once keys are distinct).
pub closed spec fn list_to_map<K, V>(s: Seq<(K, V)>) -> Map<K, V>
    decreases s.len(),
{
    if s.len() == 0 {
        Map::empty()
    } else {
        list_to_map(s.drop_last()).insert(s.last().0, s.last().1)
    }
}

/// All keys of the list are distinct.
pub closed spec fn distinct_keys<K, V>(s: Seq<(K, V)>) -> bool {
    forall|i: int, j: int| 0 <= i < j < s.len() ==> s[i].0 != s[j].0
}

proof fn lemma_absent_key<K, V>(s: Seq<(K, V)>, k: K)
    requires
        forall|j: int| 0 <= j < s.len() ==> s[j].0 != k,
    ensures
        !list_to_map(s).contains_key(k),
    decreases s.len(),
{
    if s.len() > 0 {
        assert(forall|j: int| 0 <= j < s.drop_last().len() ==> s.drop_last()[j].0 != k);
        lemma_absent_key(s.drop_last(), k);
    }
}

proof fn lemma_present_key<K, V>(s: Seq<(K, V)>, i: int)
    requires
        0 <= i < s.len(),
        forall|j: int| i < j < s.len() ==> s[j].0 != s[i].0,
    ensures
        list_to_map(s).contains_key(s[i].0),
        list_to_map(s)[s[i].0] == s[i].1,
    decreases s.len(),
{
    if i < s.len() - 1 {
        assert(forall|j: int| i < j < s.drop_last().len() ==> s.drop_last()[j].0 != s.drop_last()[i].0);
        lemma_present_key(s.drop_last(), i);
    }
}

proof fn lemma_update_entry<K, V>(s: Seq<(K, V)>, i: int, v: V)
    requires
        0 <= i < s.len(),
        forall|j: int| i < j < s.len() ==> s[j].0 != s[i].0,
    ensures
        list_to_map(s.update(i, (s[i].0, v))) == list_to_map(s).insert(s[i].0, v),
    decreases s.len(),
{
    let k = s[i].0;
    let su = s.update(i, (k, v));
    if i == s.len() - 1 {
        assert(su.drop_last() =~= s.drop_last());
        assert(list_to_map(s).insert(k, v) =~= list_to_map(s.drop_last()).insert(k, v));
    } else {
        assert(su.drop_last() =~= s.drop_last().update(i, (k, v)));
        assert(forall|j: int| i < j < s.drop_last().len()
            ==> s.drop_last()[j].0 != s.drop_last()[i].0);
        lemma_update_entry(s.drop_last(), i, v);
        assert(su.last() == s.last());
        assert(s.last().0 != k);
        assert(list_to_map(s.drop_last()).insert(k, v).insert(s.last().0, s.last().1)
            =~= list_to_map(s.drop_last()).insert(s.last().0, s.last().1).insert(k, v));
    }
}

/// An association list with distinct keys.
pub struct KVMap<K, V> {
    entries: Vec<(K, V)>,
}

impl<K: MapKey, V> View for KVMap<K, V> {
    type V = Map<K, V>;

    closed spec fn view(&self) -> Map<K, V> {
        list_to_map(self.entries@)
    }
}

impl<K: MapKey, V> KVMap<K, V> {
    pub closed spec fn wf(self) -> bool {
        distinct_keys(self.entries@)
    }

    pub fn new() -> (r: KVMap<K, V>)
        ensures
            r.wf(),
            r@ == Map::<K, V>::empty(),
    {
        KVMap { entries: Vec::new() }
    }

    pub fn get(&self, k: &K) -> (r: Option<&V>)
        requires
            self.wf(),
        ensures
            match r {
                Some(v) => self@.contains_key(*k) && *v == self@[*k],
                None => !self@.contains_key(*k),
            },
    {
        let n = self.entries.len();
        for i in 0..n
            invariant
                n == self.entries.len(),
                self.wf(),
                forall|j: int| 0 <= j < i ==> self.entries@[j].0 != *k,
        {
            if self.entries[i].0.key_eq(k) {
                proof {
                    lemma_present_key(self.entries@, i as int);
                }
                return Some(&self.entries[i].1);
            }
        }
        proof {
            lemma_absent_key(self.entries@, *k);
        }
        None
    }

    pub fn contains(&self, k: &K) -> (r: bool)
        requires
            self.wf(),
        ensures
            r == self@.contains_key(*k),
    {
        self.get(k).is_some()
    }

    /// Inserts or replaces the binding of `k`.
    pub fn set(&mut self, k: K, v: V)
        requires
            old(self).wf(),
        ensures
            final(self).wf(),
            final(self)@ == old(self)@.insert(k, v),
    {
        let n = self.entries.len();
        for i in 0..n
            invariant
                n == self.entries.len(),
                self.wf(),
                self@ == old(self)@,
                self.entries@ == old(self).entries@,
                forall|j: int| 0 <= j < i ==> self.entries@[j].0 != k,
        {
            if self.entries[i].0.key_eq(&k) {
                proof {
                    lemma_update_entry(self.entries@, i as int, v);
                }
                self.entries[i] = (k, v);
                return;
            }
        }
        proof {
            lemma_absent_key(self.entries@, k);
            assert(self.entries@.push((k, v)).drop_last() =~= self.entries@);
        }
        self.entries.push((k, v));
    }
}

} // verus!
