//! Keyed tables: finite maps with at most one value under each key.

use vstd::prelude::*;

verus! {

/// A key of a [`Table`]: a value that can be told apart from every other value of
/// its type.
pub trait TableKey: Sized {
    /// Whether the two keys are the same key.
    fn same(&self, other: &Self) -> (r: bool)
        ensures
            r == (*self == *other),
    ;
}

impl TableKey for u32 {
    fn same(&self, other: &Self) -> (r: bool) {
        *self == *other
    }
}

impl TableKey for u64 {
    fn same(&self, other: &Self) -> (r: bool) {
        *self == *other
    }
}

impl TableKey for (u32, u32) {
    fn same(&self, other: &Self) -> (r: bool) {
        self.0 == other.0 && self.1 == other.1
    }
}

impl TableKey for (u32, u64) {
    fn same(&self, other: &Self) -> (r: bool) {
        self.0 == other.0 && self.1 == other.1
    }
}

impl TableKey for (u32, u32, u32) {
    fn same(&self, other: &Self) -> (r: bool) {
        self.0 == other.0 && self.1 == other.1 && self.2 == other.2
    }
}

impl TableKey for (u64, u32, u32) {
    fn same(&self, other: &Self) -> (r: bool) {
        self.0 == other.0 && self.1 == other.1 && self.2 == other.2
    }
}

/// Whether `key` is the key of one of `entries`.
spec fn has_key<K, V>(entries: Seq<(K, V)>, key: K) -> bool {
    exists|i: int| 0 <= i < entries.len() && (#[trigger] entries[i]).0 == key
}

/// A place in `entries` that holds `key`.
spec fn place_of<K, V>(entries: Seq<(K, V)>, key: K) -> int {
    choose|i: int| 0 <= i < entries.len() && (#[trigger] entries[i]).0 == key
}

/// Whether no key stands twice in `entries`.
spec fn distinct_keys<K, V>(entries: Seq<(K, V)>) -> bool {
    forall|i: int, j: int|
        0 <= i < entries.len() && 0 <= j < entries.len() && i != j ==> (#[trigger] entries[i]).0
            != (#[trigger] entries[j]).0
}

/// The map that `entries` stand for.
spec fn entries_map<K, V>(entries: Seq<(K, V)>) -> Map<K, V> {
    Map::new(|k: K| has_key(entries, k), |k: K| entries[place_of(entries, k)].1)
}

/// What `entries_map` holds under the key of each entry.
proof fn lemma_entry_in_map<K, V>(entries: Seq<(K, V)>, i: int)
    requires
        distinct_keys(entries),
        0 <= i < entries.len(),
    ensures
        entries_map(entries).contains_key(entries[i].0),
        entries_map(entries)[entries[i].0] == entries[i].1,
        place_of(entries, entries[i].0) == i,
{
    let key = entries[i].0;
    assert(has_key(entries, key));
    let p = place_of(entries, key);
    assert(0 <= p < entries.len() && entries[p].0 == key);
}

/// The items of `keys` other than `key`, in their order.
pub open spec fn without<K>(keys: Seq<K>, key: K) -> Seq<K> {
    keys.filter(|k: K| k != key)
}

/// The first place in `ids` whose identifier is above `id`: the length of `ids`
/// where none is.
pub open spec fn place_above(ids: Seq<u64>, id: u64) -> int
    decreases ids.len(),
{
    if ids.len() == 0 || ids[0] > id {
        0
    } else {
        1 + place_above(ids.drop_first(), id)
    }
}

/// `ids` with `id` among them: as they are where it is one of them, else with `id`
/// before the first identifier above it. Identifiers that are put in this way, one
/// after the other, stand in ascending order.
pub open spec fn with_id(ids: Seq<u64>, id: u64) -> Seq<u64> {
    if ids.contains(id) {
        ids
    } else {
        ids.insert(place_above(ids, id), id)
    }
}

/// The first place above an identifier is a place of the sequence, or its length.
pub proof fn lemma_place_above_bounds(ids: Seq<u64>, id: u64)
    ensures
        0 <= place_above(ids, id) <= ids.len(),
    decreases ids.len(),
{
    if !(ids.len() == 0 || ids[0] > id) {
        lemma_place_above_bounds(ids.drop_first(), id);
    }
}

/// Past `i` identifiers that are not above `id`, the first place above `id` is `i`
/// places beyond the first such place in the rest.
pub proof fn lemma_place_above_skips(ids: Seq<u64>, id: u64, i: int)
    requires
        0 <= i <= ids.len(),
        forall|j: int| 0 <= j < i ==> ids[j] <= id,
    ensures
        place_above(ids, id) == i + place_above(ids.subrange(i, ids.len() as int), id),
    decreases i,
{
    if i == 0 {
        assert(ids.subrange(0, ids.len() as int) =~= ids);
    } else {
        let rest = ids.drop_first();
        assert forall|j: int| 0 <= j < i - 1 implies rest[j] <= id by {
            assert(rest[j] == ids[j + 1]);
        }
        lemma_place_above_skips(rest, id, i - 1);
        assert(rest.subrange(i - 1, rest.len() as int) =~= ids.subrange(i, ids.len() as int));
    }
}

/// Whether the identifiers stand in ascending order, none twice.
pub open spec fn ascending(ids: Seq<u64>) -> bool {
    forall|i: int, j: int| 0 <= i < j < ids.len() ==> ids[i] < ids[j]
}

/// No identifier before the first place above `id` is above `id`, and the
/// identifier at that place is.
pub proof fn lemma_place_above_parts(ids: Seq<u64>, id: u64)
    ensures
        forall|j: int| 0 <= j < place_above(ids, id) ==> ids[j] <= id,
        place_above(ids, id) < ids.len() ==> ids[place_above(ids, id)] > id,
    decreases ids.len(),
{
    if !(ids.len() == 0 || ids[0] > id) {
        let rest = ids.drop_first();
        lemma_place_above_parts(rest, id);
        lemma_place_above_bounds(rest, id);
        assert forall|j: int| 0 <= j < place_above(ids, id) implies ids[j] <= id by {
            if j > 0 {
                assert(rest[j - 1] == ids[j]);
            }
        }
        if place_above(ids, id) < ids.len() {
            assert(rest[place_above(rest, id)] == ids[place_above(ids, id)]);
        }
    }
}

/// Putting an identifier among identifiers in ascending order leaves them in
/// ascending order.
pub proof fn lemma_with_id_keeps_ascending(ids: Seq<u64>, id: u64)
    requires
        ascending(ids),
    ensures
        ascending(with_id(ids, id)),
{
    if !ids.contains(id) {
        lemma_place_above_bounds(ids, id);
        lemma_place_above_parts(ids, id);
        let p = place_above(ids, id);
        let after = ids.insert(p, id);
        assert forall|i: int, j: int| 0 <= i < j < after.len() implies after[i] < after[j] by {
            if i < p {
                assert(after[i] == ids[i]);
                assert(ids[i] != id);
            }
            if i > p {
                assert(after[i] == ids[i - 1]);
            }
            if j > p {
                assert(after[j] == ids[j - 1]);
                if i == p {
                    assert(ids[p] <= ids[j - 1]);
                }
            }
            if j < p {
                assert(after[j] == ids[j]);
            }
        }
    }
}

/// Putting an identifier among others adds it and nothing else.
pub proof fn lemma_with_id_contains(ids: Seq<u64>, id: u64, other: u64)
    ensures
        with_id(ids, id).contains(other) <==> (ids.contains(other) || other == id),
{
    if !ids.contains(id) {
        lemma_place_above_bounds(ids, id);
        let p = place_above(ids, id);
        let after = ids.insert(p, id);
        if ids.contains(other) {
            let j = choose|j: int| 0 <= j < ids.len() && ids[j] == other;
            if j < p {
                assert(after[j] == other);
            } else {
                assert(after[j + 1] == other);
            }
        }
        if other == id {
            assert(after[p] == other);
        }
        if after.contains(other) && other != id {
            let j = choose|j: int| 0 <= j < after.len() && after[j] == other;
            if j < p {
                assert(ids[j] == other);
            } else {
                assert(ids[j - 1] == other);
            }
        }
    }
}

/// A finite map from keys to values.
pub struct Table<K: TableKey, V> {
    entries: Vec<(K, V)>,
}

impl<K: TableKey, V> View for Table<K, V> {
    type V = Map<K, V>;

    closed spec fn view(&self) -> Map<K, V> {
        entries_map(self.entries@)
    }
}

impl<K: TableKey, V> Table<K, V> {
    #[verifier::type_invariant]
    spec fn distinct(&self) -> bool {
        distinct_keys(self.entries@)
    }

    /// The keys of the table, each once, in the order in which the table is walked.
    pub closed spec fn keys(&self) -> Seq<K> {
        Seq::new(self.entries@.len(), |i: int| self.entries@[i].0)
    }

    /// The keys are the domain of the map, and none stands twice.
    proof fn lemma_keys(&self)
        requires
            self.distinct(),
        ensures
            self.keys().no_duplicates(),
            forall|k: K| self.keys().contains(k) <==> self@.contains_key(k),
            self@.dom().finite(),
            self@.dom().len() == self.keys().len(),
    {
        let keys = self.keys();
        assert forall|k: K| keys.contains(k) <==> self@.contains_key(k) by {
            if keys.contains(k) {
                let i = choose|i: int| 0 <= i < keys.len() && keys[i] == k;
                assert(self.entries@[i].0 == k);
            }
            if self@.contains_key(k) {
                let i = place_of(self.entries@, k);
                assert(keys[i] == k);
            }
        }
        assert(keys.to_set() =~= self@.dom());
        keys.unique_seq_to_set();
        vstd::seq_lib::seq_to_set_is_finite(keys);
    }

    /// An empty table.
    pub fn new() -> (table: Self)
        ensures
            table@ == Map::<K, V>::empty(),
            table.keys().len() == 0,
    {
        let table = Table { entries: Vec::new() };
        assert(table@ =~= Map::<K, V>::empty());
        table
    }

    /// The place of `key` among the entries, if it has one.
    fn find(&self, key: &K) -> (place: Option<usize>)
        ensures
            match place {
                Some(i) => i < self.entries@.len() && self.entries@[i as int].0 == *key,
                None => !has_key(self.entries@, *key),
            },
    {
        let mut i: usize = 0;
        while i < self.entries.len()
            invariant
                i <= self.entries@.len(),
                forall|j: int| 0 <= j < i ==> (#[trigger] self.entries@[j]).0 != *key,
            decreases self.entries@.len() - i,
        {
            if self.entries[i].0.same(key) {
                return Some(i);
            }
            i = i + 1;
        }
        None
    }

    /// The number of keys.
    pub fn len(&self) -> (n: usize)
        ensures
            n == self.keys().len(),
            n == self@.dom().len(),
            self@.dom().finite(),
            self.keys().no_duplicates(),
            forall|k: K| self.keys().contains(k) <==> self@.contains_key(k),
    {
        proof {
            use_type_invariant(self);
            self.lemma_keys();
        }
        self.entries.len()
    }

    /// The key at place `i` of the walk.
    pub fn key_at(&self, i: usize) -> (key: &K)
        requires
            i < self.keys().len(),
        ensures
            *key == self.keys()[i as int],
            self@.contains_key(*key),
    {
        proof {
            use_type_invariant(self);
            lemma_entry_in_map(self.entries@, i as int);
        }
        &self.entries[i].0
    }

    /// Whether the table holds a value under `key`.
    pub fn contains_key(&self, key: &K) -> (r: bool)
        ensures
            r == self@.contains_key(*key),
    {
        self.find(key).is_some()
    }

    /// The value under `key`, if there is one.
    pub fn get(&self, key: &K) -> (value: Option<&V>)
        ensures
            match value {
                Some(v) => self@.contains_key(*key) && *v == self@[*key],
                None => !self@.contains_key(*key),
            },
    {
        match self.find(key) {
            Some(i) => {
                proof {
                    use_type_invariant(self);
                    lemma_entry_in_map(self.entries@, i as int);
                }
                Some(&self.entries[i].1)
            },
            None => None,
        }
    }

    /// Puts `value` under `key`, in place of the value that was there, if any.
    pub fn insert(&mut self, key: K, value: V)
        ensures
            final(self)@ == old(self)@.insert(key, value),
            old(self)@.contains_key(key) ==> final(self).keys() == old(self).keys(),
            !old(self)@.contains_key(key) ==> final(self).keys() == old(self).keys().push(key),
    {
        proof {
            use_type_invariant(&*self);
        }
        let ghost before = self.entries@;
        let place = self.find(&key);
        let mut entries: Vec<(K, V)> = Vec::new();
        core::mem::swap(&mut self.entries, &mut entries);
        match place {
            Some(i) => {
                entries.set(i, (key, value));
                let ghost after = entries@;
                core::mem::swap(&mut self.entries, &mut entries);
                proof {
                    assert(distinct_keys(after));
                    assert forall|k: K| has_key(after, k) == has_key(before, k) by {
                        if has_key(before, k) {
                            let p = place_of(before, k);
                            assert(after[p].0 == k);
                        }
                        if has_key(after, k) {
                            let p = place_of(after, k);
                            assert(before[p].0 == k);
                        }
                    }
                    lemma_entry_in_map(before, i as int);
                    assert forall|k: K| has_key(after, k) implies entries_map(after)[k]
                        == entries_map(before).insert(key, value)[k] by {
                        let p = place_of(after, k);
                        lemma_entry_in_map(after, p);
                        if k != key {
                            lemma_entry_in_map(before, p);
                        } else {
                            lemma_entry_in_map(after, i as int);
                        }
                    }
                    assert(entries_map(after) =~= entries_map(before).insert(key, value));
                    assert(self.keys() =~= old(self).keys());
                }
            },
            None => {
                entries.push((key, value));
                let ghost after = entries@;
                proof {
                    assert(distinct_keys(after)) by {
                        assert forall|i: int, j: int|
                            0 <= i < after.len() && 0 <= j < after.len() && i != j implies (
                        #[trigger] after[i]).0 != (#[trigger] after[j]).0 by {
                            if i < before.len() {
                                assert(before[i].0 == after[i].0);
                            }
                            if j < before.len() {
                                assert(before[j].0 == after[j].0);
                            }
                        }
                    }
                    assert forall|k: K| has_key(after, k) == (has_key(before, k) || k == key) by {
                        if has_key(before, k) {
                            let p = place_of(before, k);
                            assert(after[p].0 == k);
                        }
                        if k == key {
                            assert(after[before.len() as int].0 == k);
                        }
                        if has_key(after, k) {
                            let p = place_of(after, k);
                            if p < before.len() {
                                assert(before[p].0 == k);
                            }
                        }
                    }
                    assert forall|k: K| has_key(after, k) implies entries_map(after)[k]
                        == entries_map(before).insert(key, value)[k] by {
                        let p = place_of(after, k);
                        lemma_entry_in_map(after, p);
                        if k != key {
                            assert(p < before.len());
                            assert(before[p] == after[p]);
                            lemma_entry_in_map(before, p);
                        } else {
                            lemma_entry_in_map(after, before.len() as int);
                        }
                    }
                    assert(entries_map(after) =~= entries_map(before).insert(key, value));
                }
                core::mem::swap(&mut self.entries, &mut entries);
                proof {
                    assert(self.keys() =~= old(self).keys().push(key));
                }
            },
        }
    }

    /// Takes the value under `key` out of the table, if there is one.
    pub fn remove(&mut self, key: &K) -> (value: Option<V>)
        ensures
            final(self)@ == old(self)@.remove(*key),
            match value {
                Some(v) => old(self)@.contains_key(*key) && v == old(self)@[*key],
                None => !old(self)@.contains_key(*key),
            },
            final(self).keys() == without(old(self).keys(), *key),
    {
        proof {
            use_type_invariant(&*self);
        }
        let ghost before = self.entries@;
        match self.find(key) {
            Some(i) => {
                let mut entries: Vec<(K, V)> = Vec::new();
                core::mem::swap(&mut self.entries, &mut entries);
                let entry = entries.remove(i);
                let ghost after = entries@;
                proof {
                    lemma_entry_in_map(before, i as int);
                    assert forall|a: int, b: int|
                        0 <= a < after.len() && 0 <= b < after.len() && a != b implies (
                    #[trigger] after[a]).0 != (#[trigger] after[b]).0 by {
                        let a0 = if a < i { a } else { a + 1 };
                        let b0 = if b < i { b } else { b + 1 };
                        assert(after[a] == before[a0]);
                        assert(after[b] == before[b0]);
                    }
                    assert forall|k: K| has_key(after, k) == (has_key(before, k) && k != *key) by {
                        if has_key(before, k) && k != *key {
                            let p = place_of(before, k);
                            let q = if p < i { p } else { p - 1 };
                            assert(after[q] == before[p]);
                        }
                        if has_key(after, k) {
                            let q = place_of(after, k);
                            let p = if q < i { q } else { q + 1 };
                            assert(after[q] == before[p]);
                        }
                    }
                    assert forall|k: K| has_key(after, k) implies entries_map(after)[k]
                        == entries_map(before)[k] by {
                        let q = place_of(after, k);
                        let p = if q < i { q } else { q + 1 };
                        assert(after[q] == before[p]);
                        lemma_entry_in_map(after, q);
                        lemma_entry_in_map(before, p);
                    }
                    assert(entries_map(after) =~= entries_map(before).remove(*key));
                }
                core::mem::swap(&mut self.entries, &mut entries);
                proof {
                    old(self).lemma_keys();
                    lemma_keys_without(old(self).keys(), i as int);
                    assert(self.keys() =~= old(self).keys().remove(i as int));
                }
                Some(entry.1)
            },
            None => {
                proof {
                    assert(entries_map(before) =~= entries_map(before).remove(*key));
                    let keys = old(self).keys();
                    assert forall|j: int| 0 <= j < keys.len() implies keys[j] != *key by {
                        assert(before[j].0 == keys[j]);
                    }
                    lemma_filter_keeps_all(keys, *key);
                }
                None
            },
        }
    }

    /// Takes the first entry of the walk out of the table, if there is one.
    pub fn pop_first(&mut self) -> (entry: Option<(K, V)>)
        ensures
            match entry {
                Some((key, value)) => {
                    &&& old(self).keys().len() > 0
                    &&& key == old(self).keys()[0]
                    &&& old(self)@.contains_key(key)
                    &&& value == old(self)@[key]
                    &&& final(self)@ == old(self)@.remove(key)
                    &&& final(self).keys() == old(self).keys().drop_first()
                },
                None => old(self).keys().len() == 0 && final(self)@ == old(self)@ && final(self).keys() == old(self).keys(),
            },
    {
        proof {
            use_type_invariant(&*self);
        }
        if self.entries.len() == 0 {
            return None;
        }
        let ghost before = self.entries@;
        let mut entries: Vec<(K, V)> = Vec::new();
        core::mem::swap(&mut self.entries, &mut entries);
        let entry = entries.remove(0);
        let ghost after = entries@;
        proof {
            lemma_entry_in_map(before, 0);
            assert forall|a: int, b: int|
                0 <= a < after.len() && 0 <= b < after.len() && a != b implies (
            #[trigger] after[a]).0 != (#[trigger] after[b]).0 by {
                assert(after[a] == before[a + 1]);
                assert(after[b] == before[b + 1]);
            }
            assert forall|k: K| has_key(after, k) == (has_key(before, k) && k != entry.0) by {
                if has_key(before, k) && k != entry.0 {
                    let p = place_of(before, k);
                    assert(after[p - 1] == before[p]);
                }
                if has_key(after, k) {
                    let q = place_of(after, k);
                    assert(after[q] == before[q + 1]);
                }
            }
            assert forall|k: K| has_key(after, k) implies entries_map(after)[k] == entries_map(
                before,
            )[k] by {
                let q = place_of(after, k);
                assert(after[q] == before[q + 1]);
                lemma_entry_in_map(after, q);
                lemma_entry_in_map(before, q + 1);
            }
            assert(entries_map(after) =~= entries_map(before).remove(entry.0));
        }
        core::mem::swap(&mut self.entries, &mut entries);
        proof {
            assert(self.keys() =~= old(self).keys().drop_first());
        }
        Some(entry)
    }

    /// Takes every value out of the table.
    pub fn clear(&mut self)
        ensures
            final(self)@ == Map::<K, V>::empty(),
            final(self).keys().len() == 0,
    {
        let mut entries: Vec<(K, V)> = Vec::new();
        core::mem::swap(&mut self.entries, &mut entries);
        assert(self@ =~= Map::<K, V>::empty());
    }
}

impl<V> Table<u64, V> {
    /// Puts `value` under `key`, in place of the value that was there, if any. A
    /// new key takes its place in the walk before the first key above it.
    pub fn insert_ascending(&mut self, key: u64, value: V)
        ensures
            final(self)@ == old(self)@.insert(key, value),
            final(self).keys() == with_id(old(self).keys(), key),
    {
        proof {
            use_type_invariant(&*self);
            self.lemma_keys();
        }
        let ghost before = self.entries@;
        let ghost keys = self.keys();
        match self.find(&key) {
            Some(i) => {
                proof {
                    assert(keys[i as int] == key);
                }
                self.insert(key, value);
            },
            None => {
                let mut p: usize = 0;
                while p < self.entries.len() && self.entries[p].0 <= key
                    invariant
                        p <= self.entries@.len(),
                        self.entries@ == before,
                        forall|j: int| 0 <= j < p ==> (#[trigger] before[j]).0 <= key,
                    decreases self.entries@.len() - p,
                {
                    p = p + 1;
                }
                let mut entries: Vec<(u64, V)> = Vec::new();
                core::mem::swap(&mut self.entries, &mut entries);
                entries.insert(p, (key, value));
                let ghost after = entries@;
                proof {
                    assert(after.len() == before.len() + 1);
                    assert forall|j: int| 0 <= j < after.len() implies #[trigger] after[j] == (if j
                        < p {
                        before[j]
                    } else if j == p {
                        (key, value)
                    } else {
                        before[j - 1]
                    }) by {}
                    assert(distinct_keys(after)) by {
                        assert forall|i: int, j: int|
                            0 <= i < after.len() && 0 <= j < after.len() && i != j implies (
                        #[trigger] after[i]).0 != (#[trigger] after[j]).0 by {
                            let a = if i < p {
                                i
                            } else {
                                i - 1
                            };
                            let b = if j < p {
                                j
                            } else {
                                j - 1
                            };
                            if i != p {
                                assert(before[a].0 == after[i].0);
                            }
                            if j != p {
                                assert(before[b].0 == after[j].0);
                            }
                        }
                    }
                    assert forall|k: u64| has_key(after, k) == (has_key(before, k) || k == key) by {
                        if has_key(before, k) {
                            let q = place_of(before, k);
                            if q < p {
                                assert(after[q].0 == k);
                            } else {
                                assert(after[q + 1].0 == k);
                            }
                        }
                        if k == key {
                            assert(after[p as int].0 == k);
                        }
                        if has_key(after, k) {
                            let q = place_of(after, k);
                            if q < p {
                                assert(before[q].0 == k);
                            } else if q > p {
                                assert(before[q - 1].0 == k);
                            }
                        }
                    }
                    assert forall|k: u64| has_key(after, k) implies entries_map(after)[k]
                        == entries_map(before).insert(key, value)[k] by {
                        let q = place_of(after, k);
                        lemma_entry_in_map(after, q);
                        if k != key {
                            if q < p {
                                assert(before[q] == after[q]);
                                lemma_entry_in_map(before, q);
                            } else {
                                assert(q != p);
                                assert(before[q - 1] == after[q]);
                                lemma_entry_in_map(before, q - 1);
                            }
                        } else {
                            lemma_entry_in_map(after, p as int);
                        }
                    }
                    assert(entries_map(after) =~= entries_map(before).insert(key, value));
                }
                core::mem::swap(&mut self.entries, &mut entries);
                proof {
                    assert forall|j: int| 0 <= j < p implies keys[j] <= key by {
                        assert(keys[j] == before[j].0);
                    }
                    lemma_place_above_skips(keys, key, p as int);
                    let rest = keys.subrange(p as int, keys.len() as int);
                    if rest.len() > 0 {
                        assert(rest[0] == before[p as int].0);
                    }
                    assert(place_above(keys, key) == p);
                    assert(!keys.contains(key)) by {
                        if keys.contains(key) {
                            let j = choose|j: int| 0 <= j < keys.len() && keys[j] == key;
                            assert(before[j].0 == key);
                        }
                    }
                    assert(self.keys() =~= keys.insert(p as int, key));
                }
            },
        }
    }
}

/// A set of identifiers: each identifier at most once. Identifiers that are put
/// into an empty set stand in ascending order.
pub struct IdSet {
    ids: Table<u64, ()>,
}

impl View for IdSet {
    type V = Seq<u64>;

    closed spec fn view(&self) -> Seq<u64> {
        self.ids.keys()
    }
}

impl IdSet {
    /// An empty set.
    pub fn new() -> (set: IdSet)
        ensures
            set@.len() == 0,
    {
        IdSet { ids: Table::new() }
    }

    /// The number of identifiers.
    pub fn len(&self) -> (n: usize)
        ensures
            n == self@.len(),
            self@.no_duplicates(),
    {
        self.ids.len()
    }

    /// The identifier at place `i`.
    pub fn get(&self, i: usize) -> (id: u64)
        requires
            i < self@.len(),
        ensures
            id == self@[i as int],
    {
        *self.ids.key_at(i)
    }

    /// Whether `id` is in the set.
    pub fn contains(&self, id: u64) -> (r: bool)
        ensures
            r == self@.contains(id),
    {
        let n = self.ids.len();
        self.ids.contains_key(&id)
    }

    /// Puts `id` into the set, before the first identifier above it if it was not in
    /// the set.
    pub fn insert(&mut self, id: u64)
        ensures
            final(self)@ == with_id(old(self)@, id),
    {
        self.ids.insert_ascending(id, ());
    }

    /// Takes `id` out of the set.
    pub fn remove(&mut self, id: u64)
        ensures
            final(self)@ == without(old(self)@, id),
    {
        self.ids.remove(&id);
    }
}

/// Taking the one place of a key out of a sequence without duplicates leaves the
/// other keys, in their order.
proof fn lemma_keys_without<K>(keys: Seq<K>, i: int)
    requires
        keys.no_duplicates(),
        0 <= i < keys.len(),
    ensures
        keys.remove(i) == without(keys, keys[i]),
    decreases keys.len(),
{
    let key = keys[i];
    let pred = |k: K| k != key;
    reveal(Seq::filter);
    let front = keys.drop_last();
    if i == keys.len() - 1 {
        assert forall|j: int| 0 <= j < front.len() implies front[j] != key by {
            assert(keys[j] != keys[i]);
        }
        lemma_filter_keeps_all(front, key);
        assert(keys.remove(i) =~= front);
    } else {
        assert(front.no_duplicates());
        lemma_keys_without(front, i);
        assert(front[i] == key);
        assert(keys.last() != key);
        assert(keys.remove(i) =~= front.remove(i).push(keys.last()));
    }
}

/// A filter that no item fails keeps the sequence as it is.
proof fn lemma_filter_keeps_all<K>(keys: Seq<K>, key: K)
    requires
        forall|j: int| 0 <= j < keys.len() ==> keys[j] != key,
    ensures
        without(keys, key) == keys,
    decreases keys.len(),
{
    reveal(Seq::filter);
    if keys.len() > 0 {
        lemma_filter_keeps_all(keys.drop_last(), key);
        assert(keys.drop_last().push(keys.last()) =~= keys);
    }
}

} // verus!
