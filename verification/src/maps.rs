//! Key-value tables backed by vectors of pairs with distinct keys, viewed in
//! specifications as `Map`s. Storage is keyed by 256-bit words, the account
//! table by addresses and the code table by hashes; insertion order carries
//! no meaning, only key uniqueness.

use vstd::prelude::*;
use crate::primitives::{Address, StorageSlot, B256, U256};

verus! {

/// No key appears twice in the association list.
pub open spec fn keys_distinct<K, V>(s: Seq<(K, V)>) -> bool {
    forall|i: int, j: int|
        0 <= i < j < s.len() ==> (#[trigger] s[i]).0 != (#[trigger] s[j]).0
}

/// The map an association list denotes; later entries would win, though the
/// tables below never hold a key twice.
pub open spec fn assoc_map<K, V>(s: Seq<(K, V)>) -> Map<K, V>
    decreases s.len(),
{
    if s.len() == 0 {
        Map::empty()
    } else {
        assoc_map(s.drop_last()).insert(s.last().0, s.last().1)
    }
}

pub proof fn lemma_keys_distinct_drop_last<K, V>(s: Seq<(K, V)>)
    requires
        keys_distinct(s),
        s.len() > 0,
    ensures
        keys_distinct(s.drop_last()),
{
    assert forall|i: int, j: int|
        0 <= i < j < s.drop_last().len() implies (#[trigger] s.drop_last()[i]).0
        != (#[trigger] s.drop_last()[j]).0 by {
        assert(s.drop_last()[i] == s[i]);
        assert(s.drop_last()[j] == s[j]);
    }
}

/// A key is in the denoted map exactly when some entry carries it.
pub proof fn lemma_assoc_map_dom<K, V>(s: Seq<(K, V)>)
    ensures
        forall|k: K|
            #[trigger] assoc_map(s).dom().contains(k) <==> exists|i: int|
                0 <= i < s.len() && (#[trigger] s[i]).0 == k,
    decreases s.len(),
{
    if s.len() > 0 {
        lemma_assoc_map_dom(s.drop_last());
        assert forall|k: K| #[trigger] assoc_map(s).dom().contains(k) implies exists|i: int|
            0 <= i < s.len() && (#[trigger] s[i]).0 == k by {
            if k == s.last().0 {
                assert(s[s.len() - 1].0 == k);
            } else {
                assert(assoc_map(s.drop_last()).dom().contains(k));
                let i = choose|i: int|
                    0 <= i < s.drop_last().len() && (#[trigger] s.drop_last()[i]).0 == k;
                assert(s[i].0 == k);
            }
        }
        assert forall|k: K|
            (exists|i: int| 0 <= i < s.len() && (#[trigger] s[i]).0 == k) implies #[trigger]
        assoc_map(s).dom().contains(k) by {
            let i = choose|i: int| 0 <= i < s.len() && (#[trigger] s[i]).0 == k;
            if i < s.len() - 1 {
                assert(s.drop_last()[i].0 == k);
                assert(exists|j: int|
                    0 <= j < s.drop_last().len() && (#[trigger] s.drop_last()[j]).0 == k);
                assert(assoc_map(s.drop_last()).dom().contains(k));
            } else {
                assert(assoc_map(s).dom().contains(s.last().0));
            }
        }
    }
}

/// With distinct keys, the entry at any index gives the map's value there.
pub proof fn lemma_assoc_map_index<K, V>(s: Seq<(K, V)>, i: int)
    requires
        keys_distinct(s),
        0 <= i < s.len(),
    ensures
        assoc_map(s).dom().contains(s[i].0),
        assoc_map(s)[s[i].0] == s[i].1,
    decreases s.len(),
{
    if i < s.len() - 1 {
        lemma_keys_distinct_drop_last(s);
        assert(s.drop_last()[i] == s[i]);
        lemma_assoc_map_index(s.drop_last(), i);
        assert(s.last().0 != s[i].0);
    }
}

/// Appending an entry inserts it into the denoted map.
pub proof fn lemma_assoc_map_push<K, V>(s: Seq<(K, V)>, k: K, v: V)
    ensures
        assoc_map(s.push((k, v))) == assoc_map(s).insert(k, v),
{
    assert(s.push((k, v)).drop_last() =~= s);
    assert(s.push((k, v)).last() == (k, v));
}

/// Appending an entry whose key is fresh keeps the keys distinct.
pub proof fn lemma_keys_distinct_push<K, V>(s: Seq<(K, V)>, k: K, v: V)
    requires
        keys_distinct(s),
        forall|j: int| 0 <= j < s.len() ==> (#[trigger] s[j]).0 != k,
    ensures
        keys_distinct(s.push((k, v))),
{
    let t = s.push((k, v));
    assert forall|i: int, j: int|
        0 <= i < j < t.len() implies (#[trigger] t[i]).0 != (#[trigger] t[j]).0 by {
        if j < s.len() {
            assert(t[i] == s[i]);
            assert(t[j] == s[j]);
        } else {
            assert(t[i] == s[i]);
            assert(t[j] == (k, v));
        }
    }
}

/// With distinct keys, an entry's key never occurs among the entries before
/// it.
pub proof fn lemma_prefix_key_absent<K, V>(s: Seq<(K, V)>, i: int)
    requires
        keys_distinct(s),
        0 <= i < s.len(),
    ensures
        !assoc_map(s.take(i)).dom().contains(s[i].0),
{
    lemma_assoc_map_dom(s.take(i));
    if assoc_map(s.take(i)).dom().contains(s[i].0) {
        let j = choose|j: int| 0 <= j < s.take(i).len() && (#[trigger] s.take(i)[j]).0 == s[i].0;
        assert(s[j].0 == s[i].0);
    }
}

/// With distinct keys, removing the entry at an index removes its key from
/// the denoted map.
pub proof fn lemma_assoc_map_remove<K, V>(s: Seq<(K, V)>, i: int)
    requires
        keys_distinct(s),
        0 <= i < s.len(),
    ensures
        assoc_map(s.remove(i)) == assoc_map(s).remove(s[i].0),
        keys_distinct(s.remove(i)),
    decreases s.len(),
{
    let k = s[i].0;
    assert forall|a: int, b: int|
        0 <= a < b < s.remove(i).len() implies (#[trigger] s.remove(i)[a]).0 != (#[trigger] s.remove(
        i,
    )[b]).0 by {
        let a0: int = if a < i {
            a
        } else {
            a + 1
        };
        let b0: int = if b < i {
            b
        } else {
            b + 1
        };
        assert(s.remove(i)[a] == s[a0]);
        assert(s.remove(i)[b] == s[b0]);
    }
    if i == s.len() - 1 {
        assert(s.remove(i) =~= s.drop_last());
        lemma_keys_distinct_drop_last(s);
        lemma_assoc_map_dom(s.drop_last());
        assert(!assoc_map(s.drop_last()).dom().contains(k)) by {
            if assoc_map(s.drop_last()).dom().contains(k) {
                let j = choose|j: int|
                    0 <= j < s.drop_last().len() && (#[trigger] s.drop_last()[j]).0 == k;
                assert(s[j].0 == k);
            }
        }
        assert(assoc_map(s.drop_last()).insert(k, s[i].1).remove(k) =~= assoc_map(s.drop_last()));
    } else {
        lemma_keys_distinct_drop_last(s);
        lemma_assoc_map_remove(s.drop_last(), i);
        assert(s.drop_last()[i] == s[i]);
        assert(s.remove(i).drop_last() =~= s.drop_last().remove(i));
        assert(s.remove(i).last() == s.last());
        assert(s.last().0 != k);
        assert(assoc_map(s.drop_last()).remove(k).insert(s.last().0, s.last().1) =~= assoc_map(
            s.drop_last(),
        ).insert(s.last().0, s.last().1).remove(k));
    }
}

/// A table keyed by 256-bit storage words.
#[derive(Debug)]
pub struct U256Map<V> {
    pub entries: Vec<(U256, V)>,
}

impl<V> View for U256Map<V> {
    type V = Map<U256, V>;

    open spec fn view(&self) -> Map<U256, V> {
        assoc_map(self.entries@)
    }
}

impl<V> U256Map<V> {
    /// The table's single invariant: its keys are distinct.
    pub open spec fn wf(self) -> bool {
        keys_distinct(self.entries@)
    }

    pub fn new() -> (r: Self)
        ensures
            r@ == Map::<U256, V>::empty(),
            r.wf(),
            r.entries@.len() == 0,
    {
        U256Map { entries: Vec::new() }
    }

    /// The index holding a key, if any entry does.
    pub fn find(&self, key: &U256) -> (r: Option<usize>)
        ensures
            match r {
                Option::Some(i) => i < self.entries@.len() && self.entries@[i as int].0 == *key,
                Option::None => forall|j: int|
                    0 <= j < self.entries@.len() ==> (#[trigger] self.entries@[j]).0 != *key,
            },
    {
        let mut i: usize = 0;
        while i < self.entries.len()
            invariant
                i <= self.entries@.len(),
                forall|j: int| 0 <= j < i ==> (#[trigger] self.entries@[j]).0 != *key,
            decreases self.entries@.len() - i,
        {
            if self.entries[i].0 == *key {
                return Option::Some(i);
            }
            i = i + 1;
        }
        Option::None
    }

    pub fn get(&self, key: &U256) -> (r: Option<&V>)
        requires
            self.wf(),
        ensures
            match r {
                Option::Some(v) => self@.dom().contains(*key) && *v == self@[*key],
                Option::None => !self@.dom().contains(*key),
            },
    {
        match self.find(key) {
            Option::Some(i) => {
                proof {
                    lemma_assoc_map_index(self.entries@, i as int);
                }
                Option::Some(&self.entries[i].1)
            },
            Option::None => {
                proof {
                    lemma_assoc_map_dom(self.entries@);
                }
                Option::None
            },
        }
    }

    /// Insert or overwrite.
    pub fn insert(&mut self, key: U256, value: V)
        requires
            old(self).wf(),
        ensures
            final(self).wf(),
            final(self)@ == old(self)@.insert(key, value),
    {
        match self.find(&key) {
            Option::Some(i) => {
                proof {
                    lemma_assoc_map_remove(self.entries@, i as int);
                }
                let ghost pre = self.entries@;
                self.entries.remove(i);
                proof {
                    assert forall|j: int|
                        0 <= j < self.entries@.len() implies (#[trigger] self.entries@[j]).0
                        != key by {
                        let j0: int = if j < i as int {
                            j
                        } else {
                            j + 1
                        };
                        assert(self.entries@[j] == pre[j0]);
                    }
                    lemma_keys_distinct_push(self.entries@, key, value);
                    lemma_assoc_map_push(self.entries@, key, value);
                    assert(assoc_map(pre).remove(key).insert(key, value) =~= assoc_map(pre).insert(
                        key,
                        value,
                    ));
                }
                self.entries.push((key, value));
            },
            Option::None => {
                proof {
                    lemma_keys_distinct_push(self.entries@, key, value);
                    lemma_assoc_map_push(self.entries@, key, value);
                }
                self.entries.push((key, value));
            },
        }
    }

    /// Remove a key, handing back what it held.
    pub fn remove(&mut self, key: &U256) -> (r: Option<V>)
        requires
            old(self).wf(),
        ensures
            final(self).wf(),
            final(self)@ == old(self)@.remove(*key),
            match r {
                Option::Some(v) => old(self)@.dom().contains(*key) && v == old(self)@[*key],
                Option::None => !old(self)@.dom().contains(*key),
            },
    {
        match self.find(key) {
            Option::Some(i) => {
                proof {
                    lemma_assoc_map_index(self.entries@, i as int);
                    lemma_assoc_map_remove(self.entries@, i as int);
                }
                let p = self.entries.remove(i);
                Option::Some(p.1)
            },
            Option::None => {
                proof {
                    lemma_assoc_map_dom(self.entries@);
                    assert(self@.remove(*key) =~= self@);
                }
                Option::None
            },
        }
    }

    pub fn clear(&mut self)
        ensures
            final(self)@ == Map::<U256, V>::empty(),
            final(self).wf(),
            final(self).entries@.len() == 0,
    {
        self.entries.clear();
    }

    /// Hand the whole table out, leaving this one empty.
    pub fn take(&mut self) -> (r: Self)
        ensures
            r == *old(self),
            final(self)@ == Map::<U256, V>::empty(),
            final(self).wf(),
            final(self).entries@.len() == 0,
    {
        let mut other = U256Map { entries: Vec::new() };
        core::mem::swap(self, &mut other);
        other
    }

    pub fn len(&self) -> (r: usize)
        ensures
            r == self.entries@.len(),
    {
        self.entries.len()
    }
}

impl<V: Copy> U256Map<V> {
    /// A copy, entry for entry.
    pub fn duplicate(&self) -> (r: Self)
        ensures
            r.entries@ == self.entries@,
            r@ == self@,
            self.wf() ==> r.wf(),
    {
        let mut out: Vec<(U256, V)> = Vec::new();
        let mut i: usize = 0;
        while i < self.entries.len()
            invariant
                i <= self.entries@.len(),
                out@ == self.entries@.take(i as int),
            decreases self.entries@.len() - i,
        {
            out.push(self.entries[i]);
            proof {
                assert(self.entries@.take(i + 1 as int) =~= self.entries@.take(i as int).push(
                    self.entries@[i as int],
                ));
            }
            i = i + 1;
        }
        proof {
            assert(self.entries@.take(self.entries@.len() as int) =~= self.entries@);
        }
        U256Map { entries: out }
    }
}

impl U256Map<StorageSlot> {
    /// Look up or insert a slot for this key, then overwrite its present
    /// value: the merge step that keeps a pre-existing original value.
    pub fn merge_slot(&mut self, key: U256, original_if_new: U256, present: U256)
        requires
            old(self).wf(),
        ensures
            final(self).wf(),
            final(self)@ == old(self)@.insert(
                key,
                StorageSlot {
                    original_value: if old(self)@.dom().contains(key) {
                        old(self)@[key].original_value
                    } else {
                        original_if_new
                    },
                    present_value: present,
                },
            ),
    {
        let original_value = match self.get(&key) {
            Option::Some(s) => s.original_value,
            Option::None => original_if_new,
        };
        self.insert(key, StorageSlot { original_value, present_value: present });
    }
}

/// A table keyed by account address.
#[derive(Debug)]
pub struct AddressMap<V> {
    pub entries: Vec<(Address, V)>,
}

impl<V> View for AddressMap<V> {
    type V = Map<Address, V>;

    open spec fn view(&self) -> Map<Address, V> {
        assoc_map(self.entries@)
    }
}

impl<V> AddressMap<V> {
    pub open spec fn wf(self) -> bool {
        keys_distinct(self.entries@)
    }

    pub fn new() -> (r: Self)
        ensures
            r@ == Map::<Address, V>::empty(),
            r.wf(),
            r.entries@.len() == 0,
    {
        AddressMap { entries: Vec::new() }
    }

    pub fn find(&self, key: &Address) -> (r: Option<usize>)
        ensures
            match r {
                Option::Some(i) => i < self.entries@.len() && self.entries@[i as int].0 == *key,
                Option::None => forall|j: int|
                    0 <= j < self.entries@.len() ==> (#[trigger] self.entries@[j]).0 != *key,
            },
    {
        let mut i: usize = 0;
        while i < self.entries.len()
            invariant
                i <= self.entries@.len(),
                forall|j: int| 0 <= j < i ==> (#[trigger] self.entries@[j]).0 != *key,
            decreases self.entries@.len() - i,
        {
            if self.entries[i].0 == *key {
                return Option::Some(i);
            }
            i = i + 1;
        }
        Option::None
    }

    pub fn get(&self, key: &Address) -> (r: Option<&V>)
        requires
            self.wf(),
        ensures
            match r {
                Option::Some(v) => self@.dom().contains(*key) && *v == self@[*key],
                Option::None => !self@.dom().contains(*key),
            },
    {
        match self.find(key) {
            Option::Some(i) => {
                proof {
                    lemma_assoc_map_index(self.entries@, i as int);
                }
                Option::Some(&self.entries[i].1)
            },
            Option::None => {
                proof {
                    lemma_assoc_map_dom(self.entries@);
                }
                Option::None
            },
        }
    }

    pub fn insert(&mut self, key: Address, value: V)
        requires
            old(self).wf(),
        ensures
            final(self).wf(),
            final(self)@ == old(self)@.insert(key, value),
    {
        match self.find(&key) {
            Option::Some(i) => {
                proof {
                    lemma_assoc_map_remove(self.entries@, i as int);
                }
                let ghost pre = self.entries@;
                self.entries.remove(i);
                proof {
                    assert forall|j: int|
                        0 <= j < self.entries@.len() implies (#[trigger] self.entries@[j]).0
                        != key by {
                        let j0: int = if j < i as int {
                            j
                        } else {
                            j + 1
                        };
                        assert(self.entries@[j] == pre[j0]);
                    }
                    lemma_keys_distinct_push(self.entries@, key, value);
                    lemma_assoc_map_push(self.entries@, key, value);
                    assert(assoc_map(pre).remove(key).insert(key, value) =~= assoc_map(pre).insert(
                        key,
                        value,
                    ));
                }
                self.entries.push((key, value));
            },
            Option::None => {
                proof {
                    lemma_keys_distinct_push(self.entries@, key, value);
                    lemma_assoc_map_push(self.entries@, key, value);
                }
                self.entries.push((key, value));
            },
        }
    }

    pub fn remove(&mut self, key: &Address) -> (r: Option<V>)
        requires
            old(self).wf(),
        ensures
            final(self).wf(),
            final(self)@ == old(self)@.remove(*key),
            match r {
                Option::Some(v) => old(self)@.dom().contains(*key) && v == old(self)@[*key],
                Option::None => !old(self)@.dom().contains(*key),
            },
    {
        match self.find(key) {
            Option::Some(i) => {
                proof {
                    lemma_assoc_map_index(self.entries@, i as int);
                    lemma_assoc_map_remove(self.entries@, i as int);
                }
                let p = self.entries.remove(i);
                Option::Some(p.1)
            },
            Option::None => {
                proof {
                    lemma_assoc_map_dom(self.entries@);
                    assert(self@.remove(*key) =~= self@);
                }
                Option::None
            },
        }
    }

    pub fn len(&self) -> (r: usize)
        ensures
            r == self.entries@.len(),
    {
        self.entries.len()
    }
}

/// A table keyed by 256-bit hash, for bytecode keyed by its code hash.
#[derive(Debug)]
pub struct B256Map<V> {
    pub entries: Vec<(B256, V)>,
}

impl<V> View for B256Map<V> {
    type V = Map<B256, V>;

    open spec fn view(&self) -> Map<B256, V> {
        assoc_map(self.entries@)
    }
}

impl<V> B256Map<V> {
    pub open spec fn wf(self) -> bool {
        keys_distinct(self.entries@)
    }

    pub fn new() -> (r: Self)
        ensures
            r@ == Map::<B256, V>::empty(),
            r.wf(),
            r.entries@.len() == 0,
    {
        B256Map { entries: Vec::new() }
    }

    pub fn find(&self, key: &B256) -> (r: Option<usize>)
        ensures
            match r {
                Option::Some(i) => i < self.entries@.len() && self.entries@[i as int].0 == *key,
                Option::None => forall|j: int|
                    0 <= j < self.entries@.len() ==> (#[trigger] self.entries@[j]).0 != *key,
            },
    {
        let mut i: usize = 0;
        while i < self.entries.len()
            invariant
                i <= self.entries@.len(),
                forall|j: int| 0 <= j < i ==> (#[trigger] self.entries@[j]).0 != *key,
            decreases self.entries@.len() - i,
        {
            if self.entries[i].0 == *key {
                return Option::Some(i);
            }
            i = i + 1;
        }
        Option::None
    }

    pub fn get(&self, key: &B256) -> (r: Option<&V>)
        requires
            self.wf(),
        ensures
            match r {
                Option::Some(v) => self@.dom().contains(*key) && *v == self@[*key],
                Option::None => !self@.dom().contains(*key),
            },
    {
        match self.find(key) {
            Option::Some(i) => {
                proof {
                    lemma_assoc_map_index(self.entries@, i as int);
                }
                Option::Some(&self.entries[i].1)
            },
            Option::None => {
                proof {
                    lemma_assoc_map_dom(self.entries@);
                }
                Option::None
            },
        }
    }

    pub fn insert(&mut self, key: B256, value: V)
        requires
            old(self).wf(),
        ensures
            final(self).wf(),
            final(self)@ == old(self)@.insert(key, value),
    {
        match self.find(&key) {
            Option::Some(i) => {
                proof {
                    lemma_assoc_map_remove(self.entries@, i as int);
                }
                let ghost pre = self.entries@;
                self.entries.remove(i);
                proof {
                    assert forall|j: int|
                        0 <= j < self.entries@.len() implies (#[trigger] self.entries@[j]).0
                        != key by {
                        let j0: int = if j < i as int {
                            j
                        } else {
                            j + 1
                        };
                        assert(self.entries@[j] == pre[j0]);
                    }
                    lemma_keys_distinct_push(self.entries@, key, value);
                    lemma_assoc_map_push(self.entries@, key, value);
                    assert(assoc_map(pre).remove(key).insert(key, value) =~= assoc_map(pre).insert(
                        key,
                        value,
                    ));
                }
                self.entries.push((key, value));
            },
            Option::None => {
                proof {
                    lemma_keys_distinct_push(self.entries@, key, value);
                    lemma_assoc_map_push(self.entries@, key, value);
                }
                self.entries.push((key, value));
            },
        }
    }

    pub fn len(&self) -> (r: usize)
        ensures
            r == self.entries@.len(),
    {
        self.entries.len()
    }
}

} // verus!
