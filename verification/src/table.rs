//! A small map from names to values that keeps the order of insertion.

use vstd::prelude::*;

verus! {

/// Equality of string slices as `str::eq` decides it: the two hold the same
/// characters.
pub assume_specification[ <str as PartialEq>::eq ](a: &str, b: &str) -> (r: bool)
    ensures
        r == (a@ == b@),
;

/// The keys of a list of entries.
pub open spec fn keys_of<V>(entries: Seq<(String, V)>) -> Seq<Seq<char>> {
    entries.map_values(|entry: (String, V)| entry.0@)
}

/// The values of a list of entries.
pub open spec fn values_of<V>(entries: Seq<(String, V)>) -> Seq<V> {
    entries.map_values(|entry: (String, V)| entry.1)
}

/// A map keyed by text. No key occurs twice; a key that is set again keeps
/// its place.
#[derive(Debug)]
pub struct Table<V> {
    entries: Vec<(String, V)>,
}

impl<V> Table<V> {
    /// The keys, in the order in which they were first set.
    pub closed spec fn keys(&self) -> Seq<Seq<char>> {
        keys_of(self.entries@)
    }

    /// The values, each at the place of its key.
    pub closed spec fn values(&self) -> Seq<V> {
        values_of(self.entries@)
    }

    #[verifier::type_invariant]
    spec fn distinct_keys(&self) -> bool {
        self.keys().no_duplicates()
    }

    /// Whether `key` is set.
    pub open spec fn contains(&self, key: Seq<char>) -> bool {
        self.keys().contains(key)
    }

    /// The place of `key`, where it is set.
    pub open spec fn place_of(&self, key: Seq<char>) -> int {
        self.keys().index_of(key)
    }

    /// The value of `key`, where it is set.
    pub open spec fn value_of(&self, key: Seq<char>) -> V {
        self.values()[self.place_of(key)]
    }

    /// The table as a map from its keys to their values.
    pub open spec fn map(&self) -> Map<Seq<char>, V> {
        Map::new(|key: Seq<char>| self.contains(key), |key: Seq<char>| self.value_of(key))
    }

    /// The empty table.
    pub fn new() -> (r: Self)
        ensures
            r.keys() == Seq::<Seq<char>>::empty(),
            r.values() == Seq::<V>::empty(),
            r.map() == Map::<Seq<char>, V>::empty(),
    {
        let table = Table { entries: Vec::new() };
        assert(table.keys() =~= Seq::empty());
        assert(table.values() =~= Seq::empty());
        assert(table.map() =~= Map::empty());
        table
    }

    /// The number of keys.
    pub fn len(&self) -> (r: usize)
        ensures
            r == self.keys().len(),
            r == self.values().len(),
            self.keys().no_duplicates(),
    {
        proof {
            use_type_invariant(self);
        }
        self.entries.len()
    }

    /// The place of `key`, if it is set.
    pub fn position(&self, key: &str) -> (r: Option<usize>)
        ensures
            match r {
                Some(i) => self.contains(key@) && i == self.place_of(key@) && i < self.keys().len(),
                None => !self.contains(key@),
            },
    {
        proof {
            use_type_invariant(self);
        }
        let mut i: usize = 0;
        while i < self.entries.len()
            invariant
                i <= self.entries.len(),
                self.keys().no_duplicates(),
                forall|j: int| 0 <= j < i ==> self.keys()[j] != key@,
            decreases self.entries.len() - i,
        {
            if self.entries[i].0.as_str().eq(key) {
                assert(self.keys()[i as int] == key@);
                proof {
                    let keys = self.keys();
                    let place = keys.index_of(key@);
                    assert(keys.contains(key@));
                    assert(0 <= place < keys.len() && keys[place] == key@);
                    assert(place == i);
                }
                return Some(i);
            }
            i = i + 1;
        }
        None
    }

    /// The key at place `i`.
    pub fn key_at(&self, i: usize) -> (r: &String)
        requires
            i < self.keys().len(),
        ensures
            r@ == self.keys()[i as int],
    {
        &self.entries[i].0
    }

    /// The value at place `i`.
    pub fn value_at(&self, i: usize) -> (r: &V)
        requires
            i < self.keys().len(),
        ensures
            *r == self.values()[i as int],
    {
        &self.entries[i].1
    }

    /// The value of `key`, if it is set.
    pub fn get(&self, key: &str) -> (r: Option<&V>)
        ensures
            match r {
                Some(value) => self.contains(key@) && *value == self.value_of(key@),
                None => !self.contains(key@),
            },
    {
        match self.position(key) {
            Some(i) => Some(&self.entries[i].1),
            None => None,
        }
    }

    /// Sets `key` to `value`. A key that was set keeps its place and hands
    /// back its former value; a new key goes to the end.
    pub fn insert(&mut self, key: String, value: V) -> (r: Option<V>)
        ensures
            final(self).map() == old(self).map().insert(key@, value),
            match r {
                Some(former) => {
                    &&& old(self).contains(key@)
                    &&& former == old(self).value_of(key@)
                    &&& final(self).keys() == old(self).keys()
                    &&& final(self).values() == old(self).values().update(
                        old(self).place_of(key@),
                        value,
                    )
                },
                None => {
                    &&& !old(self).contains(key@)
                    &&& final(self).keys() == old(self).keys().push(key@)
                    &&& final(self).values() == old(self).values().push(value)
                },
            },
    {
        proof {
            use_type_invariant(&*self);
        }
        match self.position(key.as_str()) {
            Some(i) => {
                let mut entries: Vec<(String, V)> = Vec::new();
                std::mem::swap(&mut self.entries, &mut entries);
                let former = entries.remove(i);
                entries.insert(i, (key, value));
                assert(keys_of(entries@) =~= old(self).keys());
                std::mem::swap(&mut self.entries, &mut entries);
                assert(self.keys() =~= old(self).keys());
                assert(self.values() =~= old(self).values().update(i as int, value));
                proof {
                    lemma_same_keys(old(self).keys());
                    assert(self.map() =~= old(self).map().insert(key@, value));
                }
                Some(former.1)
            },
            None => {
                let mut entries: Vec<(String, V)> = Vec::new();
                std::mem::swap(&mut self.entries, &mut entries);
                entries.push((key, value));
                assert(keys_of(entries@) =~= old(self).keys().push(key@));
                std::mem::swap(&mut self.entries, &mut entries);
                assert(self.keys() =~= old(self).keys().push(key@));
                assert(self.values() =~= old(self).values().push(value));
                proof {
                    lemma_pushed_key(old(self).keys(), key@);
                    assert(self.map() =~= old(self).map().insert(key@, value));
                }
                None
            },
        }
    }

    /// Takes `key` out and hands back its value, if it was set. The keys
    /// behind it move up by one place.
    pub fn remove(&mut self, key: &str) -> (r: Option<V>)
        ensures
            final(self).map() == old(self).map().remove(key@),
            match r {
                Some(former) => {
                    &&& old(self).contains(key@)
                    &&& former == old(self).value_of(key@)
                    &&& final(self).keys() == old(self).keys().remove(old(self).place_of(key@))
                    &&& final(self).values() == old(self).values().remove(
                        old(self).place_of(key@),
                    )
                },
                None => !old(self).contains(key@) && *final(self) == *old(self),
            },
    {
        proof {
            use_type_invariant(&*self);
        }
        match self.position(key) {
            Some(i) => {
                let mut entries: Vec<(String, V)> = Vec::new();
                std::mem::swap(&mut self.entries, &mut entries);
                let former = entries.remove(i);
                assert(keys_of(entries@) =~= old(self).keys().remove(i as int));
                assert(keys_of(entries@).no_duplicates()) by {
                    old(self).keys().remove_ensures(i as int);
                }
                std::mem::swap(&mut self.entries, &mut entries);
                assert(self.keys() =~= old(self).keys().remove(i as int));
                assert(self.values() =~= old(self).values().remove(i as int));
                proof {
                    lemma_removed_key(old(self).keys(), i as int);
                    assert(self.map() =~= old(self).map().remove(key@));
                }
                Some(former.1)
            },
            None => {
                assert(self.map() =~= old(self).map().remove(key@));
                None
            },
        }
    }
}

/// In keys without duplicates, a key stands at the one place where it is found.
proof fn lemma_same_keys(keys: Seq<Seq<char>>)
    requires
        keys.no_duplicates(),
    ensures
        forall|i: int| 0 <= i < keys.len() ==> keys.index_of(#[trigger] keys[i]) == i,
{
    assert forall|i: int| 0 <= i < keys.len() implies keys.index_of(#[trigger] keys[i]) == i by {
        let place = keys.index_of(keys[i]);
        assert(keys.contains(keys[i]));
        assert(0 <= place < keys.len() && keys[place] == keys[i]);
    }
}

/// A new key behind keys without duplicates: the old keys keep their
/// places, and the new key is found at the end.
proof fn lemma_pushed_key(keys: Seq<Seq<char>>, key: Seq<char>)
    requires
        keys.no_duplicates(),
        !keys.contains(key),
    ensures
        keys.push(key).no_duplicates(),
        keys.push(key).index_of(key) == keys.len(),
        forall|other: Seq<char>|
            keys.contains(other) ==> #[trigger] keys.push(key).index_of(other) == keys.index_of(
                other,
            ),
        forall|other: Seq<char>|
            #[trigger] keys.push(key).contains(other) <==> keys.contains(other) || other == key,
{
    let pushed = keys.push(key);
    assert(pushed[keys.len() as int] == key);
    lemma_same_keys(pushed);
    lemma_same_keys(keys);
    assert forall|other: Seq<char>| keys.contains(other) implies #[trigger] pushed.index_of(other)
        == keys.index_of(other) by {
        let place = keys.index_of(other);
        assert(pushed[place] == other);
    }
    assert forall|other: Seq<char>| #[trigger]
        pushed.contains(other) <==> keys.contains(other) || other == key by {
        if pushed.contains(other) {
            let place = pushed.index_of(other);
            if place < keys.len() {
                assert(keys[place] == other);
            }
        }
        if keys.contains(other) {
            let place = keys.index_of(other);
            assert(pushed[place] == other);
        }
    }
}

/// A key taken out of keys without duplicates: it is gone, and every other
/// key is found one place up if it stood behind.
proof fn lemma_removed_key(keys: Seq<Seq<char>>, place: int)
    requires
        keys.no_duplicates(),
        0 <= place < keys.len(),
    ensures
        keys.remove(place).no_duplicates(),
        !keys.remove(place).contains(keys[place]),
        forall|other: Seq<char>|
            #[trigger] keys.remove(place).contains(other) <==> keys.contains(other) && other
                != keys[place],
        forall|other: Seq<char>|
            keys.contains(other) && other != keys[place] ==> #[trigger] keys.remove(
                place,
            ).index_of(other) == if keys.index_of(other) < place {
                keys.index_of(other)
            } else {
                keys.index_of(other) - 1
            },
{
    let removed = keys.remove(place);
    keys.remove_ensures(place);
    lemma_same_keys(keys);
    lemma_same_keys(removed);
    assert forall|other: Seq<char>| #[trigger]
        removed.contains(other) <==> keys.contains(other) && other != keys[place] by {
        if removed.contains(other) {
            let at = removed.index_of(other);
            if at < place {
                assert(keys[at] == other);
            } else {
                assert(keys[at + 1] == other);
            }
        }
        if keys.contains(other) && other != keys[place] {
            let at = keys.index_of(other);
            if at < place {
                assert(removed[at] == other);
            } else {
                assert(removed[at - 1] == other);
            }
        }
    }
    assert forall|other: Seq<char>| keys.contains(other) && other != keys[place] implies #[trigger]
        removed.index_of(other) == if keys.index_of(other) < place {
        keys.index_of(other)
    } else {
        keys.index_of(other) - 1
    } by {
        let at = keys.index_of(other);
        if at < place {
            assert(removed[at] == other);
        } else {
            assert(removed[at - 1] == other);
        }
    }
}

} // verus!
