//! A map from texts to values that remembers the order in which its keys
//! came in.

use vstd::prelude::*;

verus! {

/// One key of the map with its value.
#[derive(Debug)]
struct Entry<V> {
    key: String,
    value: V,
}

/// A map keyed by text. No key is held twice; keys stay in the order of
/// their first insertion.
#[derive(Debug)]
pub struct TextMap<V> {
    entries: Vec<Entry<V>>,
}

/// Whether no two entries share a key.
spec fn distinct<V>(entries: Seq<Entry<V>>) -> bool {
    forall|i: int, j: int|
        0 <= i < j < entries.len() ==> (#[trigger] entries[i]).key@ != (#[trigger] entries[j]).key@
}

/// The values of a run of entries by key.
spec fn map_of<V>(entries: Seq<Entry<V>>) -> Map<Seq<char>, V> {
    Map::new(
        |k: Seq<char>| exists|i: int| 0 <= i < entries.len() && entries[i].key@ == k,
        |k: Seq<char>| entries[choose|i: int| 0 <= i < entries.len() && entries[i].key@ == k].value,
    )
}

/// The keys of a run of entries, in order.
spec fn keys_of<V>(entries: Seq<Entry<V>>) -> Seq<Seq<char>> {
    entries.map_values(|e: Entry<V>| e.key@)
}

/// The value kept at `i` is the one the map holds under the key kept there.
proof fn lemma_at<V>(entries: Seq<Entry<V>>, i: int)
    requires
        distinct(entries),
        0 <= i < entries.len(),
    ensures
        map_of(entries).contains_key(entries[i].key@),
        map_of(entries)[entries[i].key@] == entries[i].value,
{
    let g = entries[i].key@;
    let k = choose|k: int| 0 <= k < entries.len() && entries[k].key@ == g;
    assert(k == i) by {
        if k < i {
            assert(entries[k].key@ != entries[i].key@);
        } else if i < k {
            assert(entries[i].key@ != entries[k].key@);
        }
    }
}

/// Replacing the value kept at `i` replaces it in the map.
proof fn lemma_replaced<V>(entries: Seq<Entry<V>>, i: int, entry: Entry<V>)
    requires
        distinct(entries),
        0 <= i < entries.len(),
        entry.key@ == entries[i].key@,
    ensures
        distinct(entries.update(i, entry)),
        map_of(entries.update(i, entry)) == map_of(entries).insert(entry.key@, entry.value),
        keys_of(entries.update(i, entry)) == keys_of(entries),
{
    let after = entries.update(i, entry);
    assert(distinct(after)) by {
        assert forall|a: int, b: int| 0 <= a < b < after.len() implies (#[trigger] after[a]).key@
            != (#[trigger] after[b]).key@ by {
            assert(entries[a].key@ != entries[b].key@);
        }
    }
    let m = map_of(entries).insert(entry.key@, entry.value);
    assert forall|g: Seq<char>| map_of(after).contains_key(g) == m.contains_key(g) by {
        if map_of(after).contains_key(g) {
            let k = choose|k: int| 0 <= k < after.len() && after[k].key@ == g;
            assert(entries[k].key@ == g);
        }
        if m.contains_key(g) {
            if g == entry.key@ {
                assert(after[i].key@ == g);
            } else {
                let k = choose|k: int| 0 <= k < entries.len() && entries[k].key@ == g;
                assert(after[k].key@ == g);
            }
        }
    }
    assert forall|g: Seq<char>| m.contains_key(g) implies map_of(after)[g] == m[g] by {
        let k = choose|k: int| 0 <= k < after.len() && after[k].key@ == g;
        lemma_at(after, k);
        if k != i {
            assert(entries[k].key@ == g);
            lemma_at(entries, k);
            assert(g != entry.key@) by {
                if k < i {
                    assert(entries[k].key@ != entries[i].key@);
                } else {
                    assert(entries[i].key@ != entries[k].key@);
                }
            }
        }
    }
    assert(map_of(after) =~= m);
    assert(keys_of(after) =~= keys_of(entries));
}

/// Appending a value under a new key puts it into the map.
proof fn lemma_appended<V>(entries: Seq<Entry<V>>, entry: Entry<V>)
    requires
        distinct(entries),
        !map_of(entries).contains_key(entry.key@),
    ensures
        distinct(entries.push(entry)),
        map_of(entries.push(entry)) == map_of(entries).insert(entry.key@, entry.value),
        keys_of(entries.push(entry)) == keys_of(entries).push(entry.key@),
{
    let after = entries.push(entry);
    assert(distinct(after)) by {
        assert forall|a: int, b: int| 0 <= a < b < after.len() implies (#[trigger] after[a]).key@
            != (#[trigger] after[b]).key@ by {
            if b < entries.len() {
                assert(entries[a].key@ != entries[b].key@);
            } else {
                assert(entries[a].key@ == after[a].key@);
            }
        }
    }
    let m = map_of(entries).insert(entry.key@, entry.value);
    assert forall|g: Seq<char>| map_of(after).contains_key(g) == m.contains_key(g) by {
        if map_of(after).contains_key(g) {
            let k = choose|k: int| 0 <= k < after.len() && after[k].key@ == g;
            if k < entries.len() {
                assert(entries[k].key@ == g);
            }
        }
        if m.contains_key(g) {
            if g == entry.key@ {
                assert(after[after.len() - 1].key@ == g);
            } else {
                let k = choose|k: int| 0 <= k < entries.len() && entries[k].key@ == g;
                assert(after[k].key@ == g);
            }
        }
    }
    assert forall|g: Seq<char>| m.contains_key(g) implies map_of(after)[g] == m[g] by {
        let k = choose|k: int| 0 <= k < after.len() && after[k].key@ == g;
        lemma_at(after, k);
        if k < entries.len() {
            assert(entries[k].key@ == g);
            lemma_at(entries, k);
        }
    }
    assert(map_of(after) =~= m);
    assert(keys_of(after) =~= keys_of(entries).push(entry.key@));
}

/// Taking out the value kept at `i` takes it out of the map.
proof fn lemma_removed<V>(entries: Seq<Entry<V>>, i: int)
    requires
        distinct(entries),
        0 <= i < entries.len(),
    ensures
        distinct(entries.remove(i)),
        map_of(entries.remove(i)) == map_of(entries).remove(entries[i].key@),
        keys_of(entries.remove(i)) == keys_of(entries).remove(i),
{
    let after = entries.remove(i);
    let gone = entries[i].key@;
    assert(distinct(after)) by {
        assert forall|a: int, b: int| 0 <= a < b < after.len() implies (#[trigger] after[a]).key@
            != (#[trigger] after[b]).key@ by {
            let a0 = if a < i {
                a
            } else {
                a + 1
            };
            let b0 = if b < i {
                b
            } else {
                b + 1
            };
            assert(entries[a0].key@ != entries[b0].key@);
        }
    }
    let m = map_of(entries).remove(gone);
    assert forall|g: Seq<char>| map_of(after).contains_key(g) == m.contains_key(g) by {
        if map_of(after).contains_key(g) {
            let k = choose|k: int| 0 <= k < after.len() && after[k].key@ == g;
            let k0 = if k < i {
                k
            } else {
                k + 1
            };
            assert(entries[k0].key@ == g);
            if k0 < i {
                assert(entries[k0].key@ != entries[i].key@);
            } else {
                assert(entries[i].key@ != entries[k0].key@);
            }
        }
        if m.contains_key(g) {
            let k = choose|k: int| 0 <= k < entries.len() && entries[k].key@ == g;
            let k1 = if k < i {
                k
            } else {
                k - 1
            };
            assert(after[k1].key@ == g);
        }
    }
    assert forall|g: Seq<char>| m.contains_key(g) implies map_of(after)[g] == m[g] by {
        let k = choose|k: int| 0 <= k < after.len() && after[k].key@ == g;
        lemma_at(after, k);
        let k0 = if k < i {
            k
        } else {
            k + 1
        };
        assert(entries[k0].key@ == g);
        lemma_at(entries, k0);
    }
    assert(map_of(after) =~= m);
    assert(keys_of(after) =~= keys_of(entries).remove(i));
}

/// Entries with distinct keys make a map of as many keys as there are
/// entries.
proof fn lemma_size<V>(entries: Seq<Entry<V>>)
    requires
        distinct(entries),
    ensures
        map_of(entries).dom().finite(),
        map_of(entries).dom().len() == entries.len(),
    decreases entries.len(),
{
    if entries.len() == 0 {
        assert(map_of(entries).dom() =~= Set::<Seq<char>>::empty());
    } else {
        let rest = entries.drop_last();
        let last = entries.last();
        assert(distinct(rest)) by {
            assert forall|a: int, b: int| 0 <= a < b < rest.len() implies (#[trigger] rest[a]).key@
                != (#[trigger] rest[b]).key@ by {
                assert(entries[a].key@ != entries[b].key@);
            }
        }
        lemma_size(rest);
        assert(!map_of(rest).contains_key(last.key@)) by {
            if map_of(rest).contains_key(last.key@) {
                let i = choose|i: int| 0 <= i < rest.len() && rest[i].key@ == last.key@;
                assert(entries[i].key@ != entries[entries.len() - 1].key@);
            }
        }
        lemma_appended(rest, last);
        assert(rest.push(last) =~= entries);
        assert(map_of(entries).dom() =~= map_of(rest).dom().insert(last.key@));
    }
}

impl<V> View for TextMap<V> {
    type V = Map<Seq<char>, V>;

    closed spec fn view(&self) -> Map<Seq<char>, V> {
        map_of(self.entries@)
    }
}

impl<V> TextMap<V> {
    #[verifier::type_invariant]
    spec fn well_formed(&self) -> bool {
        distinct(self.entries@)
    }

    /// The keys in the order of their first insertion.
    pub closed spec fn order(&self) -> Seq<Seq<char>> {
        keys_of(self.entries@)
    }

    /// The keys of the map are the keys of its order.
    pub proof fn lemma_order_covers(&self)
        ensures
            forall|k: Seq<char>| self@.contains_key(k) <==> self.order().contains(k),
    {
        let entries = self.entries@;
        assert forall|k: Seq<char>| self@.contains_key(k) <==> self.order().contains(k) by {
            if self@.contains_key(k) {
                let i = choose|i: int| 0 <= i < entries.len() && entries[i].key@ == k;
                assert(self.order()[i] == k);
            }
            if self.order().contains(k) {
                let i = choose|i: int| 0 <= i < self.order().len() && self.order()[i] == k;
                assert(entries[i].key@ == k);
            }
        }
    }

    /// A map that holds nothing.
    pub fn new() -> (map: Self)
        ensures
            map@ == Map::<Seq<char>, V>::empty(),
            map.order() == Seq::<Seq<char>>::empty(),
    {
        let map = TextMap { entries: Vec::new() };
        assert(map@ =~= Map::<Seq<char>, V>::empty());
        assert(map.order() =~= Seq::<Seq<char>>::empty());
        map
    }

    /// Where `key` is kept, if it is.
    fn position(&self, key: &String) -> (found: Option<usize>)
        ensures
            match found {
                Some(i) => i < self.entries.len() && self.entries[i as int].key@ == key@,
                None => forall|i: int| 0 <= i < self.entries.len() ==> self.entries[i].key@ != key@,
            },
    {
        let mut i: usize = 0;
        while i < self.entries.len()
            invariant
                i <= self.entries.len(),
                forall|k: int| 0 <= k < i ==> self.entries[k].key@ != key@,
            decreases self.entries.len() - i,
        {
            if self.entries[i].key == *key {
                return Some(i);
            }
            i += 1;
        }
        None
    }

    /// How many keys the map holds.
    pub fn len(&self) -> (count: usize)
        ensures
            count == self.order().len(),
            count == self@.dom().len(),
            self@.dom().finite(),
            self.order().no_duplicates(),
    {
        proof {
            use_type_invariant(self);
            lemma_size(self.entries@);
            assert forall|i: int, j: int|
                0 <= i < self.order().len() && 0 <= j < self.order().len() && i
                    != j implies self.order()[i] != self.order()[j] by {
                if i < j {
                    assert(self.entries@[i].key@ != self.entries@[j].key@);
                } else {
                    assert(self.entries@[j].key@ != self.entries@[i].key@);
                }
            }
        }
        self.entries.len()
    }

    /// Whether the map holds nothing.
    pub fn is_empty(&self) -> (empty: bool)
        ensures
            empty == (self.order().len() == 0),
            empty == (self@.dom().len() == 0),
    {
        self.len() == 0
    }

    /// Whether the map holds `key`.
    pub fn contains_key(&self, key: &String) -> (found: bool)
        ensures
            found == self@.contains_key(key@),
    {
        self.position(key).is_some()
    }

    /// The value kept under `key`.
    pub fn get(&self, key: &String) -> (found: Option<&V>)
        ensures
            match found {
                Some(value) => self@.contains_key(key@) && *value == self@[key@],
                None => !self@.contains_key(key@),
            },
    {
        proof {
            use_type_invariant(self);
        }
        match self.position(key) {
            Some(i) => {
                proof {
                    lemma_at(self.entries@, i as int);
                }
                Some(&self.entries[i].value)
            },
            None => None,
        }
    }

    /// The key at place `i` of the order.
    pub fn key_at(&self, i: usize) -> (key: &String)
        requires
            i < self.order().len(),
        ensures
            key@ == self.order()[i as int],
            self@.contains_key(key@),
    {
        proof {
            use_type_invariant(self);
            lemma_at(self.entries@, i as int);
        }
        &self.entries[i].key
    }

    /// The value of the key at place `i` of the order.
    pub fn value_at(&self, i: usize) -> (value: &V)
        requires
            i < self.order().len(),
        ensures
            self@.contains_key(self.order()[i as int]),
            *value == self@[self.order()[i as int]],
    {
        proof {
            use_type_invariant(self);
            lemma_at(self.entries@, i as int);
        }
        &self.entries[i].value
    }

    /// Puts `value` under `key` and hands back what was kept there before. A
    /// key that was held keeps its place in the order; a new key goes to the
    /// end.
    pub fn insert(&mut self, key: String, value: V) -> (before: Option<V>)
        ensures
            final(self)@ == old(self)@.insert(key@, value),
            before == if old(self)@.contains_key(key@) {
                Some(old(self)@[key@])
            } else {
                None
            },
            final(self).order() == if old(self)@.contains_key(key@) {
                old(self).order()
            } else {
                old(self).order().push(key@)
            },
    {
        proof {
            use_type_invariant(&*self);
        }
        let found = self.position(&key);
        let mut entries: Vec<Entry<V>> = Vec::new();
        core::mem::swap(&mut entries, &mut self.entries);
        let ghost held = entries@;
        let entry = Entry { key, value };
        match found {
            Some(i) => {
                proof {
                    lemma_at(held, i as int);
                    lemma_replaced(held, i as int, entry);
                }
                let gone = entries.remove(i);
                entries.insert(i, entry);
                assert(entries@ =~= held.update(i as int, entry));
                self.entries = entries;
                Some(gone.value)
            },
            None => {
                proof {
                    lemma_appended(held, entry);
                }
                entries.push(entry);
                self.entries = entries;
                None
            },
        }
    }

    /// Takes `key` out of the map and hands back what was kept under it.
    pub fn remove(&mut self, key: &String) -> (before: Option<V>)
        ensures
            final(self)@ == old(self)@.remove(key@),
            before == if old(self)@.contains_key(key@) {
                Some(old(self)@[key@])
            } else {
                None
            },
            !old(self)@.contains_key(key@) ==> final(self).order() == old(self).order(),
            old(self)@.contains_key(key@) ==> exists|i: int|
                0 <= i < old(self).order().len() && old(self).order()[i] == key@ && final(self).order() == #[trigger] old(self).order().remove(i),
    {
        proof {
            use_type_invariant(&*self);
        }
        match self.position(key) {
            Some(i) => {
                let mut entries: Vec<Entry<V>> = Vec::new();
                core::mem::swap(&mut entries, &mut self.entries);
                proof {
                    lemma_at(entries@, i as int);
                    lemma_removed(entries@, i as int);
                    assert(keys_of(entries@)[i as int] == key@);
                }
                let gone = entries.remove(i);
                self.entries = entries;
                assert(old(self).order()[i as int] == key@);
                assert(self.order() == old(self).order().remove(i as int));
                Some(gone.value)
            },
            None => {
                assert(self@ =~= self@.remove(key@));
                None
            },
        }
    }
}

} // verus!
