//! A keyed table that keeps its entries in the order in which their keys first
//! came. The entries lie in vectors; a hash map from the keys' numbers to the
//! entries' places finds them.

use vstd::prelude::*;
use bevy::utils::HashMap;

verus! {

/// A hash map from numbers to places: a `HashMap<u64, usize>` of `bevy::utils`,
/// which is `hashbrown`'s map with a fixed hasher. It is opaque to the proofs;
/// [`id_index_entries`] names what it holds.
#[verifier::external_body]
pub struct IdIndex {
    map: HashMap<u64, usize>,
}

/// What an index holds: the place stored under each number.
pub uninterp spec fn id_index_entries(index: IdIndex) -> Map<u64, usize>;

/// `HashMap::default`: a map that holds nothing.
#[verifier::external_body]
fn id_index_new() -> (index: IdIndex)
    ensures
        id_index_entries(index).dom() == Set::<u64>::empty(),
{
    IdIndex { map: HashMap::default() }
}

/// `HashMap::get`: the place stored under `id`, if there is one.
#[verifier::external_body]
fn id_index_get(index: &IdIndex, id: u64) -> (place: Option<usize>)
    ensures
        place == (if id_index_entries(*index).dom().contains(id) {
            Some(id_index_entries(*index)[id])
        } else {
            None
        }),
{
    index.map.get(&id).copied()
}

/// `HashMap::insert`: stores `place` under `id`, in place of what was stored
/// there; what is stored under other numbers stays.
#[verifier::external_body]
fn id_index_insert(index: &mut IdIndex, id: u64, place: usize)
    ensures
        id_index_entries(*final(index)) == id_index_entries(*old(index)).insert(id, place),
{
    index.map.insert(id, place);
}

/// `HashMap::remove`: forgets what is stored under `id`; what is stored under
/// other numbers stays.
#[verifier::external_body]
fn id_index_remove(index: &mut IdIndex, id: u64)
    ensures
        id_index_entries(*final(index)) == id_index_entries(*old(index)).remove(id),
{
    index.map.remove(&id);
}

/// `HashMap::clear`: forgets everything.
#[verifier::external_body]
fn id_index_clear(index: &mut IdIndex)
    ensures
        id_index_entries(*final(index)).dom() == Set::<u64>::empty(),
{
    index.map.clear();
}

/// A key of a [`Table`]: a plain value that has a number of its own.
pub trait TableKey: Copy + Sized {
    /// The number of the key.
    spec fn spec_code(self) -> u64;

    fn code(&self) -> (code: u64)
        ensures
            code == self.spec_code(),
    ;

    /// Different keys have different numbers.
    proof fn lemma_code_is_injective(a: Self, b: Self)
        requires
            a.spec_code() == b.spec_code(),
        ensures
            a == b,
    ;
}

/// Maps keys to values. No key occurs twice; entries stay in the order in which
/// their keys were first inserted.
pub struct Table<K: TableKey, V> {
    index: IdIndex,
    keys: Vec<K>,
    values: Vec<V>,
}

impl<K: TableKey, V> Table<K, V> {
    /// The keys, in insertion order.
    pub closed spec fn keys(&self) -> Seq<K> {
        self.keys@
    }

    /// The values, each at the index of its key.
    pub closed spec fn values(&self) -> Seq<V> {
        self.values@
    }

    /// The index holds, for each key, the number of the key with the place of
    /// the key, and nothing else.
    pub closed spec fn indexed(&self) -> bool {
        spec_indexes(id_index_entries(self.index), self.keys@)
    }

    /// The table is in good order: every key has its value, no key occurs twice,
    /// and the index knows the place of each key.
    pub open spec fn wf(&self) -> bool {
        &&& self.keys().len() == self.values().len()
        &&& self.keys().no_duplicates()
        &&& self.indexed()
    }

    /// Whether the table holds `key`.
    pub open spec fn contains(&self, key: K) -> bool {
        self.keys().contains(key)
    }

    /// The value stored under `key`.
    pub open spec fn value_of(&self, key: K) -> V
        recommends
            self.contains(key),
    {
        self.values()[self.keys().index_of(key)]
    }

    /// The table as a finite map.
    pub open spec fn entries(&self) -> Map<K, V> {
        Map::new(|key: K| self.contains(key), |key: K| self.value_of(key))
    }

    /// In a well-formed table a key at index `i` has the value at index `i`.
    pub proof fn lemma_value_at(&self, i: int)
        requires
            self.wf(),
            0 <= i < self.keys().len(),
        ensures
            self.contains(self.keys()[i]),
            self.keys().index_of(self.keys()[i]) == i,
            self.value_of(self.keys()[i]) == self.values()[i],
    {
        let key = self.keys()[i];
        let j = self.keys().index_of(key);
        assert(0 <= j < self.keys().len() && self.keys()[j] == key);
    }

    /// The index knows exactly the keys of the table.
    proof fn lemma_index_knows(&self, key: K)
        requires
            self.wf(),
        ensures
            id_index_entries(self.index).dom().contains(key.spec_code()) <==> self.contains(key),
    {
        let entries = id_index_entries(self.index);
        if entries.dom().contains(key.spec_code()) {
            let i = entries[key.spec_code()] as int;
            K::lemma_code_is_injective(self.keys@[i], key);
        }
        if self.contains(key) {
            let i = self.keys().index_of(key);
            assert(0 <= i < self.keys@.len() && self.keys@[i] == key);
        }
    }

    pub fn new() -> (table: Self)
        ensures
            table.wf(),
            table.keys() == Seq::<K>::empty(),
            table.values() == Seq::<V>::empty(),
            table.entries() == Map::<K, V>::empty(),
    {
        let table = Table { index: id_index_new(), keys: Vec::new(), values: Vec::new() };
        assert(table.entries() =~= Map::<K, V>::empty());
        table
    }

    pub fn len(&self) -> (len: usize)
        requires
            self.wf(),
        ensures
            len == self.keys().len(),
    {
        self.keys.len()
    }

    pub fn is_empty(&self) -> (empty: bool)
        requires
            self.wf(),
        ensures
            empty == (self.keys().len() == 0),
    {
        self.keys.len() == 0
    }

    /// The index of `key`, if the table holds it.
    pub fn position(&self, key: &K) -> (position: Option<usize>)
        requires
            self.wf(),
        ensures
            position is Some <==> self.contains(*key),
            position matches Some(i) ==> i < self.keys().len() && self.keys()[i as int] == *key
                && self.keys().index_of(*key) == i,
    {
        let position = id_index_get(&self.index, key.code());
        proof {
            match position {
                Some(i) => {
                    K::lemma_code_is_injective(self.keys@[i as int], *key);
                    self.lemma_value_at(i as int);
                },
                None => {
                    if self.contains(*key) {
                        let i = self.keys().index_of(*key);
                        assert(0 <= i < self.keys@.len() && self.keys@[i] == *key);
                    }
                },
            }
        }
        position
    }

    pub fn contains_key(&self, key: &K) -> (found: bool)
        requires
            self.wf(),
        ensures
            found == self.contains(*key),
    {
        self.position(key).is_some()
    }

    pub fn get(&self, key: &K) -> (value: Option<&V>)
        requires
            self.wf(),
        ensures
            value is Some <==> self.contains(*key),
            value matches Some(v) ==> *v == self.value_of(*key),
    {
        match self.position(key) {
            Some(i) => Some(&self.values[i]),
            None => None,
        }
    }

    pub fn key_at(&self, i: usize) -> (key: K)
        requires
            self.wf(),
            i < self.keys().len(),
        ensures
            key == self.keys()[i as int],
    {
        self.keys[i]
    }

    pub fn value_at(&self, i: usize) -> (value: &V)
        requires
            self.wf(),
            i < self.keys().len(),
        ensures
            *value == self.values()[i as int],
    {
        &self.values[i]
    }

    /// The value at index `i`, to be changed in place.
    pub fn value_at_mut(&mut self, i: usize) -> (value: &mut V)
        requires
            old(self).wf(),
            i < old(self).keys().len(),
        ensures
            *value == old(self).values()[i as int],
            final(self).wf(),
            final(self).keys() == old(self).keys(),
            final(self).values() == old(self).values().update(i as int, *final(value)),
    {
        &mut self.values[i]
    }

    /// Replaces the value at index `i` and hands out the value that was there.
    pub fn replace_at(&mut self, i: usize, value: V) -> (previous: V)
        requires
            old(self).wf(),
            i < old(self).keys().len(),
        ensures
            final(self).wf(),
            final(self).keys() == old(self).keys(),
            final(self).values() == old(self).values().update(i as int, value),
            previous == old(self).values()[i as int],
    {
        let mut value = value;
        core::mem::swap(&mut self.values[i], &mut value);
        value
    }

    /// Stores `value` under `key`. A key that is new goes to the end; for a key
    /// that is there the value is replaced and the old one handed out.
    pub fn insert(&mut self, key: K, value: V) -> (previous: Option<V>)
        requires
            old(self).wf(),
        ensures
            final(self).wf(),
            final(self).entries() == old(self).entries().insert(key, value),
            forall|k: K| final(self).contains(k) <==> old(self).contains(k) || k == key,
            final(self).value_of(key) == value,
            forall|k: K|
                k != key && old(self).contains(k) ==> final(self).value_of(k) == old(self).value_of(
                    k,
                ),
            old(self).contains(key) ==> {
                &&& previous == Some(old(self).value_of(key))
                &&& final(self).keys() == old(self).keys()
                &&& final(self).values() == old(self).values().update(
                    old(self).keys().index_of(key),
                    value,
                )
            },
            !old(self).contains(key) ==> {
                &&& previous is None
                &&& final(self).keys() == old(self).keys().push(key)
                &&& final(self).values() == old(self).values().push(value)
            },
    {
        match self.position(&key) {
            Some(i) => {
                let previous = self.replace_at(i, value);
                proof {
                    lemma_entries_update(*old(self), *self, i as int, value);
                }
                Some(previous)
            },
            None => {
                proof {
                    self.lemma_index_knows(key);
                }
                let place = self.keys.len();
                id_index_insert(&mut self.index, key.code(), place);
                self.keys.push(key);
                self.values.push(value);
                proof {
                    lemma_indexes_push(
                        id_index_entries(old(self).index),
                        old(self).keys@,
                        key,
                        place,
                    );
                    lemma_entries_push(*old(self), *self, key, value);
                }
                None
            },
        }
    }

    /// Takes `key` and its value out; the other entries keep their order.
    pub fn remove(&mut self, key: &K) -> (removed: Option<V>)
        requires
            old(self).wf(),
        ensures
            final(self).wf(),
            final(self).entries() == old(self).entries().remove(*key),
            forall|k: K| final(self).contains(k) <==> old(self).contains(k) && k != *key,
            forall|k: K|
                final(self).contains(k) ==> final(self).value_of(k) == old(self).value_of(k),
            old(self).contains(*key) ==> {
                &&& removed == Some(old(self).value_of(*key))
                &&& final(self).keys() == old(self).keys().remove(old(self).keys().index_of(*key))
                &&& final(self).values() == old(self).values().remove(
                    old(self).keys().index_of(*key),
                )
            },
            !old(self).contains(*key) ==> {
                &&& removed is None
                &&& final(self).keys() == old(self).keys()
                &&& final(self).values() == old(self).values()
            },
    {
        match self.position(key) {
            Some(i) => {
                id_index_remove(&mut self.index, key.code());
                self.keys.remove(i);
                let removed = self.values.remove(i);
                proof {
                    let before = id_index_entries(old(self).index);
                    let gone = old(self).keys@[i as int].spec_code();
                    assert(before.remove(gone).insert(gone, i) =~= before);
                }
                self.reindex_from(i, Ghost(old(self).keys@));
                proof {
                    lemma_entries_remove(*old(self), *self, i as int);
                }
                Some(removed)
            },
            None => {
                assert(self.entries() =~= old(self).entries().remove(*key));
                None
            },
        }
    }

    pub fn clear(&mut self)
        requires
            old(self).wf(),
        ensures
            final(self).wf(),
            final(self).keys() == Seq::<K>::empty(),
            final(self).values() == Seq::<V>::empty(),
            final(self).entries() == Map::<K, V>::empty(),
    {
        id_index_clear(&mut self.index);
        self.keys.clear();
        self.values.clear();
        assert(self.entries() =~= Map::<K, V>::empty());
    }

    /// Stores the places of the keys from place `from` on in the index, after
    /// the key at that place was taken out and the keys behind it moved up.
    fn reindex_from(&mut self, from: usize, Ghost(before): Ghost<Seq<K>>)
        requires
            before.no_duplicates(),
            from < before.len(),
            old(self).keys@ == before.remove(from as int),
            spec_indexes(id_index_entries(old(self).index).insert(
                before[from as int].spec_code(),
                from,
            ), before),
            id_index_entries(old(self).index).dom().contains(before[from as int].spec_code())
                == false,
        ensures
            final(self).keys@ == old(self).keys@,
            final(self).values@ == old(self).values@,
            final(self).indexed(),
    {
        let ghost gone = before[from as int].spec_code();
        let ghost start = id_index_entries(self.index);
        let mut place: usize = from;
        while place < self.keys.len()
            invariant
                before.no_duplicates(),
                from <= place <= self.keys.len(),
                from < before.len(),
                self.keys@ == before.remove(from as int),
                self.keys@ == old(self).keys@,
                self.values@ == old(self).values@,
                gone == before[from as int].spec_code(),
                spec_indexes(start.insert(gone, from), before),
                !start.dom().contains(gone),
                id_index_entries(self.index).dom() == start.dom(),
                forall|j: int|
                    0 <= j < before.len() && j != from ==> #[trigger] id_index_entries(
                        self.index,
                    )[before[j].spec_code()] == (if j <= place {
                        if j < from {
                            j
                        } else {
                            j - 1
                        }
                    } else {
                        j
                    }),
            decreases self.keys.len() - place,
        {
            let ghost entries = id_index_entries(self.index);
            let key = self.keys[place];
            assert(key == before[place + 1]);
            assert(start.insert(gone, from).dom().contains(key.spec_code()));
            assert(key.spec_code() != gone) by {
                if key.spec_code() == gone {
                    K::lemma_code_is_injective(before[place + 1], before[from as int]);
                }
            }
            id_index_insert(&mut self.index, key.code(), place);
            proof {
                let after = id_index_entries(self.index);
                assert(after.dom() =~= start.dom());
                assert forall|j: int|
                    0 <= j < before.len() && j != from implies #[trigger] after[before[j].spec_code()]
                    == (if j <= place + 1 {
                    if j < from {
                        j
                    } else {
                        j - 1
                    }
                } else {
                    j
                }) by {
                    if j != place + 1 {
                        assert(before[j].spec_code() != key.spec_code()) by {
                            if before[j].spec_code() == key.spec_code() {
                                K::lemma_code_is_injective(before[j], before[place + 1]);
                            }
                        }
                        assert(after[before[j].spec_code()] == entries[before[j].spec_code()]);
                    }
                }
            }
            place = place + 1;
        }
        proof {
            let entries = id_index_entries(self.index);
            let keys = self.keys@;
            assert forall|i: int| 0 <= i < keys.len() implies entries.dom().contains(
                (#[trigger] keys[i]).spec_code(),
            ) && entries[keys[i].spec_code()] == i by {
                let j = if i < from {
                    i
                } else {
                    i + 1
                };
                assert(keys[i] == before[j]);
                assert(start.insert(gone, from).dom().contains(before[j].spec_code()));
                assert(before[j].spec_code() != gone) by {
                    if before[j].spec_code() == gone {
                        K::lemma_code_is_injective(before[j], before[from as int]);
                    }
                }
                assert(entries[before[j].spec_code()] == i);
            }
            assert forall|id: u64| #[trigger] entries.dom().contains(id) implies 0 <= entries[id]
                < keys.len() && keys[entries[id] as int].spec_code() == id by {
                assert(start.insert(gone, from).dom().contains(id));
                let j = start.insert(gone, from)[id] as int;
                assert(0 <= j < before.len() && before[j].spec_code() == id);
                assert(j != from);
                assert(entries[before[j].spec_code()] == (if j < from {
                    j
                } else {
                    j - 1
                }));
                let i = if j < from {
                    j
                } else {
                    j - 1
                };
                assert(keys[i] == before[j]);
            }
        }
    }
}

/// `entries` holds, for each of `keys`, the number of the key with the place
/// of the key, and nothing else.
pub open spec fn spec_indexes<K: TableKey>(entries: Map<u64, usize>, keys: Seq<K>) -> bool {
    &&& forall|i: int|
        0 <= i < keys.len() ==> entries.dom().contains((#[trigger] keys[i]).spec_code())
            && entries[keys[i].spec_code()] == i
    &&& forall|id: u64| #[trigger]
        entries.dom().contains(id) ==> {
            &&& 0 <= entries[id] < keys.len()
            &&& keys[entries[id] as int].spec_code() == id
        }
}

proof fn lemma_indexes_push<K: TableKey>(
    entries: Map<u64, usize>,
    keys: Seq<K>,
    key: K,
    place: usize,
)
    requires
        spec_indexes(entries, keys),
        !entries.dom().contains(key.spec_code()),
        place == keys.len(),
    ensures
        spec_indexes(entries.insert(key.spec_code(), place), keys.push(key)),
{
    let after = entries.insert(key.spec_code(), place);
    let pushed = keys.push(key);
    assert forall|i: int| 0 <= i < pushed.len() implies after.dom().contains(
        (#[trigger] pushed[i]).spec_code(),
    ) && after[pushed[i].spec_code()] == i by {
        if i < keys.len() {
            assert(pushed[i] == keys[i]);
            assert(entries.dom().contains(keys[i].spec_code()));
            assert(keys[i].spec_code() != key.spec_code());
        }
    }
    assert forall|id: u64| #[trigger] after.dom().contains(id) implies 0 <= after[id] < pushed.len()
        && pushed[after[id] as int].spec_code() == id by {
        if id != key.spec_code() {
            assert(entries.dom().contains(id));
            assert(pushed[entries[id] as int] == keys[entries[id] as int]);
        }
    }
}

proof fn lemma_entries_update<K: TableKey, V>(
    before: Table<K, V>,
    after: Table<K, V>,
    i: int,
    value: V,
)
    requires
        before.wf(),
        0 <= i < before.keys().len(),
        after.keys() == before.keys(),
        after.values() == before.values().update(i, value),
    ensures
        after.keys().no_duplicates(),
        after.entries() == before.entries().insert(before.keys()[i], value),
        forall|k: K| after.contains(k) <==> before.contains(k),
        after.value_of(before.keys()[i]) == value,
        forall|k: K|
            k != before.keys()[i] && before.contains(k) ==> after.value_of(k) == before.value_of(k),
{
    before.lemma_value_at(i);
    assert forall|key: K| before.contains(key) implies #[trigger] after.value_of(key) == (if key
        == before.keys()[i] {
        value
    } else {
        before.value_of(key)
    }) by {
        let j = before.keys().index_of(key);
        assert(0 <= j < before.keys().len() && before.keys()[j] == key);
    }
    assert(after.entries() =~= before.entries().insert(before.keys()[i], value));
}

proof fn lemma_entries_push<K: TableKey, V>(
    before: Table<K, V>,
    after: Table<K, V>,
    key: K,
    value: V,
)
    requires
        before.wf(),
        !before.contains(key),
        after.keys() == before.keys().push(key),
        after.values() == before.values().push(value),
    ensures
        after.keys().no_duplicates(),
        after.entries() == before.entries().insert(key, value),
        forall|k: K| after.contains(k) <==> before.contains(k) || k == key,
        after.value_of(key) == value,
        forall|k: K| k != key && before.contains(k) ==> after.value_of(k) == before.value_of(k),
{
    let n = before.keys().len() as int;
    assert(after.keys().no_duplicates()) by {
        assert forall|a: int, b: int|
            0 <= a < after.keys().len() && 0 <= b < after.keys().len() && a
                != b implies after.keys()[a] != after.keys()[b] by {
            if a < n && b < n {
                assert(before.keys()[a] != before.keys()[b]);
            } else if a < n {
                assert(before.keys()[a] == after.keys()[a]);
            } else {
                assert(before.keys()[b] == after.keys()[b]);
            }
        }
    }
    assert forall|k: K| after.contains(k) <==> (before.contains(k) || k == key) by {
        if before.contains(k) {
            let j = before.keys().index_of(k);
            assert(0 <= j < n && before.keys()[j] == k);
            assert(after.keys()[j] == k);
        }
        if k == key {
            assert(after.keys()[n] == k);
        }
        if after.contains(k) {
            let j = after.keys().index_of(k);
            assert(0 <= j <= n && after.keys()[j] == k);
            if j < n {
                assert(before.keys()[j] == k);
            }
        }
    }
    assert forall|k: K| after.contains(k) implies #[trigger] after.value_of(k) == (if k == key {
        value
    } else {
        before.value_of(k)
    }) by {
        let j = after.keys().index_of(k);
        assert(0 <= j <= n && after.keys()[j] == k);
        if j < n {
            assert(before.keys()[j] == k);
            before.lemma_value_at(j);
        }
    }
    assert(after.entries() =~= before.entries().insert(key, value));
}

proof fn lemma_entries_remove<K: TableKey, V>(before: Table<K, V>, after: Table<K, V>, i: int)
    requires
        before.wf(),
        0 <= i < before.keys().len(),
        after.keys() == before.keys().remove(i),
        after.values() == before.values().remove(i),
    ensures
        after.keys().no_duplicates(),
        after.entries() == before.entries().remove(before.keys()[i]),
        forall|k: K| after.contains(k) <==> before.contains(k) && k != before.keys()[i],
        forall|k: K| after.contains(k) ==> after.value_of(k) == before.value_of(k),
{
    let key = before.keys()[i];
    let n = before.keys().len() as int;
    assert forall|a: int| 0 <= a < n - 1 implies #[trigger] after.keys()[a] == before.keys()[if a
        < i {
        a
    } else {
        a + 1
    }] by {}
    assert(after.keys().no_duplicates());
    assert forall|k: K| after.contains(k) <==> (before.contains(k) && k != key) by {
        if before.contains(k) && k != key {
            let j = before.keys().index_of(k);
            assert(0 <= j < n && before.keys()[j] == k);
            if j < i {
                assert(after.keys()[j] == k);
            } else {
                assert(after.keys()[j - 1] == k);
            }
        }
        if after.contains(k) {
            let j = after.keys().index_of(k);
            assert(0 <= j < n - 1 && after.keys()[j] == k);
            let b = if j < i {
                j
            } else {
                j + 1
            };
            assert(before.keys()[b] == k);
        }
    }
    assert forall|k: K| after.contains(k) implies #[trigger] after.value_of(k) == before.value_of(
        k,
    ) by {
        let j = after.keys().index_of(k);
        assert(0 <= j < n - 1 && after.keys()[j] == k);
        let b = if j < i {
            j
        } else {
            j + 1
        };
        assert(before.keys()[b] == k);
        before.lemma_value_at(b);
    }
    assert(after.entries() =~= before.entries().remove(key));
}

/// A copy of `items`.
pub fn copy_vec<T: Copy>(items: &Vec<T>) -> (copy: Vec<T>)
    ensures
        copy@ == items@,
{
    let mut copy: Vec<T> = Vec::new();
    let mut i: usize = 0;
    while i < items.len()
        invariant
            i <= items.len(),
            copy@ == items@.take(i as int),
        decreases items.len() - i,
    {
        copy.push(items[i]);
        assert(copy@ =~= items@.take(i + 1));
        i = i + 1;
    }
    assert(copy@ =~= items@);
    copy
}

/// A copy of `items`, each inner vector copied.
pub fn copy_nested<T: Copy>(items: &Vec<Vec<T>>) -> (copy: Vec<Vec<T>>)
    ensures
        copy@.len() == items@.len(),
        forall|i: int| 0 <= i < items@.len() ==> copy@[i]@ == items@[i]@,
{
    let mut copy: Vec<Vec<T>> = Vec::new();
    let mut i: usize = 0;
    while i < items.len()
        invariant
            i <= items.len(),
            copy@.len() == i,
            forall|j: int| 0 <= j < i ==> copy@[j]@ == items@[j]@,
        decreases items.len() - i,
    {
        copy.push(copy_vec(&items[i]));
        i = i + 1;
    }
    copy
}

} // verus!
