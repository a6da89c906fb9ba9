//! A small map from names to values, kept as a list of entries in which no
//! name occurs twice.

use vstd::prelude::*;
use crate::text::str_eq;

verus! {

/// A name together with the value stored for it.
#[derive(Debug)]
pub struct Keyed<T> {
    pub key: String,
    pub value: T,
}

/// The names of a list of entries, in order.
pub open spec fn keys_of<T>(entries: Seq<Keyed<T>>) -> Seq<Seq<char>> {
    entries.map_values(|e: Keyed<T>| e.key@)
}

/// The map that a list of entries with distinct names stands for.
pub open spec fn map_of<T: View>(entries: Seq<Keyed<T>>) -> Map<Seq<char>, T::V> {
    Map::new(
        |k: Seq<char>| keys_of(entries).contains(k),
        |k: Seq<char>| entries[keys_of(entries).index_of(k)].value@,
    )
}

/// The map built by inserting a list of entries one after another, so that
/// of two entries with the same name the later one stays.
pub open spec fn inserted_all<T: View>(entries: Seq<Keyed<T>>) -> Map<Seq<char>, T::V>
    decreases entries.len(),
{
    if entries.len() == 0 {
        Map::empty()
    } else {
        inserted_all(entries.drop_last()).insert(entries.last().key@, entries.last().value@)
    }
}

/// What a map holds for a name.
pub open spec fn lookup<V>(m: Map<Seq<char>, V>, key: Seq<char>) -> Option<V> {
    if m.dom().contains(key) {
        Some(m[key])
    } else {
        None
    }
}

/// The entries of a list as pairs of a name and a value, in order.
pub open spec fn pairs_of<T: View>(entries: Seq<Keyed<T>>) -> Seq<(Seq<char>, T::V)> {
    entries.map_values(|e: Keyed<T>| (e.key@, e.value@))
}

/// The view of an optional value.
pub open spec fn opt_value_view<T: View>(value: Option<T>) -> Option<T::V> {
    match value {
        Some(v) => Some(v@),
        None => None,
    }
}

/// The view of an optional borrowed value.
pub open spec fn opt_ref_view<T: View>(value: Option<&T>) -> Option<T::V> {
    match value {
        Some(v) => Some(v@),
        None => None,
    }
}

/// Each entry of a list with distinct names is found in the list's map under
/// its own name.
pub proof fn lemma_entry_lookup<T: View>(entries: Seq<Keyed<T>>, i: int)
    requires
        keys_of(entries).no_duplicates(),
        0 <= i < entries.len(),
    ensures
        map_of(entries).dom().contains(entries[i].key@),
        map_of(entries)[entries[i].key@] == entries[i].value@,
{
    let keys = keys_of(entries);
    assert(keys[i] == entries[i].key@);
    assert(keys.contains(keys[i]));
    let j = keys.index_of(keys[i]);
    assert(0 <= j < keys.len() && keys[j] == keys[i]);
}

/// A list with distinct names stands for a finite map with one name per
/// entry.
pub proof fn lemma_entry_count<T: View>(entries: Seq<Keyed<T>>)
    requires
        keys_of(entries).no_duplicates(),
    ensures
        map_of(entries).dom().finite(),
        map_of(entries).dom().len() == entries.len(),
{
    let keys = keys_of(entries);
    assert(map_of(entries).dom() =~= keys.to_set());
    vstd::seq_lib::seq_to_set_is_finite(keys);
    keys.unique_seq_to_set();
}

proof fn lemma_entry_push<T: View>(entries: Seq<Keyed<T>>, e: Keyed<T>)
    requires
        keys_of(entries).no_duplicates(),
        !keys_of(entries).contains(e.key@),
    ensures
        keys_of(entries.push(e)).no_duplicates(),
        map_of(entries.push(e)) == map_of(entries).insert(e.key@, e.value@),
{
    let after = entries.push(e);
    assert(keys_of(after) =~= keys_of(entries).push(e.key@));
    assert(keys_of(after).no_duplicates());
    assert forall|k: Seq<char>| #[trigger]
        map_of(after).dom().contains(k) == map_of(entries).insert(e.key@, e.value@).dom().contains(
            k,
        ) by {
        if keys_of(after).contains(k) {
            let j = choose|j: int| 0 <= j < after.len() && keys_of(after)[j] == k;
            if j < entries.len() {
                assert(keys_of(entries)[j] == k);
            }
        }
        if keys_of(entries).contains(k) {
            let j = choose|j: int| 0 <= j < entries.len() && keys_of(entries)[j] == k;
            assert(keys_of(after)[j] == k);
        }
        if k == e.key@ {
            assert(keys_of(after)[entries.len() as int] == k);
        }
    }
    assert forall|k: Seq<char>| #[trigger] map_of(after).dom().contains(k) implies map_of(after)[k]
        == map_of(entries).insert(e.key@, e.value@)[k] by {
        let j = choose|j: int| 0 <= j < after.len() && keys_of(after)[j] == k;
        lemma_entry_lookup(after, j);
        if j < entries.len() {
            assert(keys_of(entries)[j] == k);
            lemma_entry_lookup(entries, j);
        }
    }
    assert(map_of(after) =~= map_of(entries).insert(e.key@, e.value@));
}

proof fn lemma_entry_update<T: View>(entries: Seq<Keyed<T>>, i: int, e: Keyed<T>)
    requires
        keys_of(entries).no_duplicates(),
        0 <= i < entries.len(),
        entries[i].key@ == e.key@,
    ensures
        keys_of(entries.update(i, e)) == keys_of(entries),
        map_of(entries.update(i, e)) == map_of(entries).insert(e.key@, e.value@),
{
    let after = entries.update(i, e);
    assert(keys_of(after) =~= keys_of(entries));
    assert(keys_of(entries)[i] == e.key@);
    assert forall|k: Seq<char>| #[trigger] map_of(after).dom().contains(k) implies map_of(after)[k]
        == map_of(entries).insert(e.key@, e.value@)[k] by {
        let j = choose|j: int| 0 <= j < after.len() && keys_of(after)[j] == k;
        lemma_entry_lookup(after, j);
        lemma_entry_lookup(entries, j);
    }
    assert(map_of(after) =~= map_of(entries).insert(e.key@, e.value@));
}

proof fn lemma_entry_remove<T: View>(entries: Seq<Keyed<T>>, i: int)
    requires
        keys_of(entries).no_duplicates(),
        0 <= i < entries.len(),
    ensures
        keys_of(entries.remove(i)).no_duplicates(),
        map_of(entries.remove(i)) == map_of(entries).remove(entries[i].key@),
{
    let after = entries.remove(i);
    let keys = keys_of(entries);
    assert(keys_of(after) =~= keys.remove(i));
    assert(keys_of(after).no_duplicates()) by {
        assert forall|a: int, b: int|
            0 <= a < after.len() && 0 <= b < after.len() && a != b implies keys_of(after)[a]
            != keys_of(after)[b] by {
            let a0 = if a < i { a } else { a + 1 };
            let b0 = if b < i { b } else { b + 1 };
            assert(keys_of(after)[a] == keys[a0]);
            assert(keys_of(after)[b] == keys[b0]);
        }
    }
    assert(keys[i] == entries[i].key@);
    assert forall|k: Seq<char>| #[trigger]
        map_of(after).dom().contains(k) == map_of(entries).remove(entries[i].key@).dom().contains(
            k,
        ) by {
        if keys_of(after).contains(k) {
            let j = choose|j: int| 0 <= j < after.len() && keys_of(after)[j] == k;
            let j0 = if j < i { j } else { j + 1 };
            assert(keys[j0] == k);
        }
        if keys.contains(k) && k != entries[i].key@ {
            let j = choose|j: int| 0 <= j < entries.len() && keys[j] == k;
            let j1 = if j < i { j } else { j - 1 };
            assert(keys_of(after)[j1] == k);
        }
    }
    assert forall|k: Seq<char>| #[trigger] map_of(after).dom().contains(k) implies map_of(after)[k]
        == map_of(entries).remove(entries[i].key@)[k] by {
        let j = choose|j: int| 0 <= j < after.len() && keys_of(after)[j] == k;
        let j0 = if j < i { j } else { j + 1 };
        lemma_entry_lookup(after, j);
        assert(keys[j0] == k);
        lemma_entry_lookup(entries, j0);
    }
    assert(map_of(after) =~= map_of(entries).remove(entries[i].key@));
}

/// Entries with distinct names stand for the same map whether they are read
/// as a list or inserted one by one, whatever their order.
pub proof fn lemma_inserted_all_of_distinct<T: View>(entries: Seq<Keyed<T>>)
    requires
        keys_of(entries).no_duplicates(),
    ensures
        inserted_all(entries) == map_of(entries),
    decreases entries.len(),
{
    if entries.len() == 0 {
        assert(map_of(entries) =~= Map::<Seq<char>, T::V>::empty());
    } else {
        let front = entries.drop_last();
        assert(keys_of(front) =~= keys_of(entries).drop_last());
        assert(!keys_of(front).contains(entries.last().key@)) by {
            if keys_of(front).contains(entries.last().key@) {
                let j = choose|j: int| 0 <= j < front.len() && keys_of(front)[j] == entries.last().key@;
                assert(keys_of(entries)[j] == keys_of(entries)[entries.len() - 1]);
            }
        }
        lemma_inserted_all_of_distinct(front);
        lemma_entry_push(front, entries.last());
        assert(front.push(entries.last()) =~= entries);
    }
}

/// A finite map from names to values.
#[derive(Debug)]
pub struct NameMap<T: View> {
    entries: Vec<Keyed<T>>,
}

impl<T: View> View for NameMap<T> {
    type V = Map<Seq<char>, T::V>;

    closed spec fn view(&self) -> Map<Seq<char>, T::V> {
        map_of(self.entries@)
    }
}

impl<T: View> NameMap<T> {
    /// The entries in the order in which the map hands them out. The order
    /// carries no meaning; it is named so that what is written from the
    /// entries one by one can be stated.
    pub closed spec fn listing(&self) -> Seq<(Seq<char>, T::V)> {
        pairs_of(self.entries@)
    }

    #[verifier::type_invariant]
    spec fn distinct_keys(self) -> bool {
        keys_of(self.entries@).no_duplicates()
    }

    /// The empty map.
    pub fn new() -> (m: NameMap<T>)
        ensures
            m@ == Map::<Seq<char>, T::V>::empty(),
    {
        let m = NameMap { entries: Vec::new() };
        proof {
            assert(map_of(m.entries@) =~= Map::<Seq<char>, T::V>::empty());
        }
        m
    }

    /// The position of `key` among the entries.
    fn position(&self, key: &str) -> (at: Option<usize>)
        ensures
            match at {
                Some(i) => i < self.entries@.len() && self.entries@[i as int].key@ == key@,
                None => !keys_of(self.entries@).contains(key@),
            },
    {
        let mut i: usize = 0;
        while i < self.entries.len()
            invariant
                i <= self.entries@.len(),
                forall|j: int| 0 <= j < i ==> (#[trigger] keys_of(self.entries@)[j]) != key@,
            decreases self.entries@.len() - i,
        {
            if str_eq(self.entries[i].key.as_str(), key) {
                return Some(i);
            }
            i += 1;
        }
        None
    }

    /// Stores `value` under `key`, in place of whatever was stored there.
    pub fn insert(&mut self, key: &str, value: T)
        ensures
            final(self)@ == old(self)@.insert(key@, value@),
    {
        proof {
            use_type_invariant(&*self);
        }
        let entry = Keyed { key: key.to_owned(), value };
        let at = self.position(key);
        let mut entries: Vec<Keyed<T>> = Vec::new();
        core::mem::swap(&mut self.entries, &mut entries);
        match at {
            Some(i) => {
                proof {
                    lemma_entry_update(entries@, i as int, entry);
                }
                entries.set(i, entry);
            },
            None => {
                proof {
                    lemma_entry_push(entries@, entry);
                }
                entries.push(entry);
            },
        }
        core::mem::swap(&mut self.entries, &mut entries);
    }

    /// Takes out what is stored under `key` and returns it.
    pub fn remove(&mut self, key: &str) -> (removed: Option<T>)
        ensures
            final(self)@ == old(self)@.remove(key@),
            opt_value_view(removed) == lookup(old(self)@, key@),
    {
        proof {
            use_type_invariant(&*self);
        }
        match self.position(key) {
            Some(i) => {
                let mut entries: Vec<Keyed<T>> = Vec::new();
                core::mem::swap(&mut self.entries, &mut entries);
                proof {
                    lemma_entry_lookup(entries@, i as int);
                    lemma_entry_remove(entries@, i as int);
                }
                let entry = entries.remove(i);
                core::mem::swap(&mut self.entries, &mut entries);
                Some(entry.value)
            },
            None => {
                proof {
                    assert(map_of(self.entries@).remove(key@) =~= map_of(self.entries@));
                }
                None
            },
        }
    }

    /// What is stored under `key`.
    pub fn get(&self, key: &str) -> (found: Option<&T>)
        ensures
            opt_ref_view(found) == lookup(self@, key@),
    {
        proof {
            use_type_invariant(self);
        }
        match self.position(key) {
            Some(i) => {
                proof {
                    lemma_entry_lookup(self.entries@, i as int);
                }
                Some(&self.entries[i].value)
            },
            None => None,
        }
    }

    /// The number of names in the map.
    pub fn len(&self) -> (n: usize)
        ensures
            n == self@.dom().len(),
            self@.dom().finite(),
    {
        proof {
            use_type_invariant(self);
            lemma_entry_count(self.entries@);
        }
        self.entries.len()
    }

    /// The map that decoded entries stand for. Where two entries have the
    /// same name, the later one stays.
    pub fn from_entries(entries: Vec<Keyed<T>>) -> (m: NameMap<T>)
        ensures
            m@ == inserted_all(entries@),
    {
        let ghost all = entries@;
        let mut entries = entries;
        let mut reversed: Vec<Keyed<T>> = Vec::new();
        while entries.len() > 0
            invariant
                reversed@.len() + entries@.len() == all.len(),
                entries@ == all.take(entries@.len() as int),
                forall|j: int| 0 <= j < reversed@.len() ==> reversed@[j] == all[all.len() - 1 - j],
            decreases entries@.len(),
        {
            let ghost before = entries@;
            let e = entries.pop().unwrap();
            proof {
                assert(before.last() == all[before.len() - 1]);
                assert(entries@ =~= all.take(entries@.len() as int));
            }
            reversed.push(e);
        }
        let mut m: NameMap<T> = NameMap::new();
        while reversed.len() > 0
            invariant
                reversed@.len() <= all.len(),
                forall|j: int| 0 <= j < reversed@.len() ==> reversed@[j] == all[all.len() - 1 - j],
                m@ == inserted_all(all.take(all.len() - reversed@.len())),
            decreases reversed@.len(),
        {
            let ghost done = all.len() - reversed@.len();
            let e = reversed.pop().unwrap();
            proof {
                assert(e == all[done as int]);
                assert(all.take(done + 1).drop_last() =~= all.take(done as int));
                assert(all.take(done + 1).last() == e);
            }
            let Keyed { key, value } = e;
            m.insert(key.as_str(), value);
        }
        proof {
            assert(all.take(all.len() as int) =~= all);
        }
        m
    }

    /// The entries of the map, each name once, in no particular order.
    pub fn entries(&self) -> (entries: &Vec<Keyed<T>>)
        ensures
            keys_of(entries@).no_duplicates(),
            map_of(entries@) == self@,
            pairs_of(entries@) == self.listing(),
    {
        proof {
            use_type_invariant(self);
        }
        &self.entries
    }
}

} // verus!
