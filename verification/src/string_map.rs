//! A map from strings to values, kept as a listing with distinct keys.

use vstd::prelude::*;

verus! {

/// Whether no two entries of a listing have the same key.
pub open spec fn distinct_keys<V>(entries: Seq<(String, V)>) -> bool {
    forall|i: int, j: int| 0 <= i < j < entries.len() ==> entries[i].0@ != entries[j].0@
}

/// Whether some entry of a listing has the given key.
pub open spec fn has_key<V>(entries: Seq<(String, V)>, key: Seq<char>) -> bool {
    exists|i: int| 0 <= i < entries.len() && (#[trigger] entries[i]).0@ == key
}

/// The place of an entry with the given key, where there is one.
pub open spec fn position_of<V>(entries: Seq<(String, V)>, key: Seq<char>) -> int {
    choose|i: int| 0 <= i < entries.len() && (#[trigger] entries[i]).0@ == key
}

/// The map that a listing denotes: from each key to the value listed with it.
pub open spec fn listing_map<V>(entries: Seq<(String, V)>) -> Map<Seq<char>, V> {
    Map::new(
        |key: Seq<char>| has_key(entries, key),
        |key: Seq<char>| entries[position_of(entries, key)].1,
    )
}

/// The listing after `value` is put under `key`: the entry takes the place of the one
/// with that key, or the end of the listing where the key is new.
pub open spec fn listing_with<V>(entries: Seq<(String, V)>, key: String, value: V) -> Seq<
    (String, V),
> {
    if has_key(entries, key@) {
        entries.update(position_of(entries, key@), (key, value))
    } else {
        entries.push((key, value))
    }
}

/// In a listing with distinct keys, the entry at `index` is the one found under its key.
pub proof fn lemma_listing_lookup<V>(entries: Seq<(String, V)>, index: int)
    requires
        distinct_keys(entries),
        0 <= index < entries.len(),
    ensures
        has_key(entries, entries[index].0@),
        position_of(entries, entries[index].0@) == index,
        listing_map(entries).contains_key(entries[index].0@),
        listing_map(entries)[entries[index].0@] == entries[index].1,
{
    let found = position_of(entries, entries[index].0@);
    assert(found == index) by {
        assert(entries[found].0@ == entries[index].0@);
    }
}

/// A map from strings to values of type `V`.
///
/// Its view is a `Map` keyed by the characters of each key. The entries are also listed,
/// in the order in which their keys first came in.
pub struct StringMap<V> {
    entries: Vec<(String, V)>,
}

impl<V> View for StringMap<V> {
    type V = Map<Seq<char>, V>;

    closed spec fn view(&self) -> Map<Seq<char>, V> {
        listing_map(self.entries@)
    }
}

impl<V> StringMap<V> {
    #[verifier::type_invariant]
    spec fn keys_are_distinct(self) -> bool {
        distinct_keys(self.entries@)
    }

    /// The entries in the order in which they are kept.
    pub closed spec fn listing(self) -> Seq<(String, V)> {
        self.entries@
    }

    /// The map is the one that the listing denotes.
    pub proof fn lemma_view_of_listing(self)
        ensures
            self@ == listing_map(self.listing()),
    {
    }

    /// An empty map.
    pub fn new() -> (map: Self)
        ensures
            map@ == Map::<Seq<char>, V>::empty(),
            map.listing().len() == 0,
    {
        let map = StringMap { entries: Vec::new() };
        assert(map@ =~= Map::<Seq<char>, V>::empty());
        map
    }

    /// The map that a listing with distinct keys denotes, kept in the order of the listing.
    pub(crate) fn from_distinct(entries: Vec<(String, V)>) -> (map: Self)
        requires
            distinct_keys(entries@),
        ensures
            map@ == listing_map(entries@),
            map.listing() == entries@,
    {
        StringMap { entries }
    }

    /// The entries as they are listed: their keys are distinct, and the map is the one that
    /// they denote.
    pub fn entries(&self) -> (entries: &Vec<(String, V)>)
        ensures
            entries@ == self.listing(),
            distinct_keys(entries@),
            self@ == listing_map(entries@),
    {
        proof {
            use_type_invariant(self);
        }
        &self.entries
    }

    /// Where in the listing `key` stands, if it is a key of the map.
    pub fn position(&self, key: &str) -> (found: Option<usize>)
        ensures
            found is Some <==> self@.contains_key(key@),
            found matches Some(index) ==> index < self.listing().len() && self.listing()[index as int].0@
                == key@ && self@[key@] == self.listing()[index as int].1,
    {
        proof {
            use_type_invariant(self);
        }
        let mut index: usize = 0;
        while index < self.entries.len()
            invariant
                index <= self.entries.len(),
                distinct_keys(self.entries@),
                forall|i: int| 0 <= i < index ==> (#[trigger] self.entries@[i]).0@ != key@,
            decreases self.entries.len() - index,
        {
            if self.entries[index].0.as_str().eq(key) {
                proof {
                    lemma_listing_lookup(self.entries@, index as int);
                }
                return Some(index);
            }
            index += 1;
        }
        None
    }

    /// Whether `key` is a key of the map.
    pub fn contains_key(&self, key: &str) -> (found: bool)
        ensures
            found == self@.contains_key(key@),
    {
        self.position(key).is_some()
    }

    /// The value under `key`, if there is one.
    pub fn get(&self, key: &str) -> (found: Option<&V>)
        ensures
            found is Some <==> self@.contains_key(key@),
            found matches Some(value) ==> *value == self@[key@],
    {
        match self.position(key) {
            Some(index) => Some(&self.entries[index].1),
            None => None,
        }
    }

    /// Puts `value` under `key`, in the place of the value that was there, or at the end
    /// of the listing where the key is new. Returns the value that was there.
    pub fn insert(&mut self, key: String, value: V) -> (previous: Option<V>)
        ensures
            final(self)@ == old(self)@.insert(key@, value),
            previous == if old(self)@.contains_key(key@) {
                Some(old(self)@[key@])
            } else {
                None
            },
            final(self).listing() == listing_with(old(self).listing(), key, value),
    {
        proof {
            use_type_invariant(&*self);
        }
        let found = self.position(key.as_str());
        let ghost before = self.entries@;
        let ghost added = (key, value);
        let mut entries: Vec<(String, V)> = Vec::new();
        core::mem::swap(&mut self.entries, &mut entries);
        entries.push((key, value));
        let previous = match found {
            Some(index) => {
                let replaced = entries.swap_remove(index);
                proof {
                    lemma_listing_lookup(before, index as int);
                    lemma_replace(before, index as int, added);
                }
                Some(replaced.1)
            },
            None => {
                proof {
                    lemma_append(before, added);
                }
                None
            },
        };
        self.entries = entries;
        previous
    }

    /// Takes `key` and its value out of the map. Returns the value that was there.
    pub fn remove(&mut self, key: &str) -> (removed: Option<V>)
        ensures
            final(self)@ == old(self)@.remove(key@),
            removed == if old(self)@.contains_key(key@) {
                Some(old(self)@[key@])
            } else {
                None
            },
    {
        proof {
            use_type_invariant(&*self);
        }
        match self.position(key) {
            Some(index) => {
                let ghost before = self.entries@;
                let mut entries: Vec<(String, V)> = Vec::new();
                core::mem::swap(&mut self.entries, &mut entries);
                let entry = entries.remove(index);
                proof {
                    lemma_listing_lookup(before, index as int);
                    lemma_delete(before, index as int);
                }
                self.entries = entries;
                Some(entry.1)
            },
            None => {
                assert(self@ =~= self@.remove(key@));
                None
            },
        }
    }
}

/// Appending an entry under a new key inserts it into the map.
pub proof fn lemma_append<V>(entries: Seq<(String, V)>, added: (String, V))
    requires
        distinct_keys(entries),
        !has_key(entries, added.0@),
    ensures
        distinct_keys(entries.push(added)),
        listing_map(entries.push(added)) == listing_map(entries).insert(added.0@, added.1),
{
    let after = entries.push(added);
    assert(distinct_keys(after)) by {
        assert forall|i: int, j: int| 0 <= i < j < after.len() implies after[i].0@
            != after[j].0@ by {
            assert(has_key(entries, entries[i].0@));
        }
    }
    assert forall|key: Seq<char>|
        listing_map(entries).insert(added.0@, added.1).contains_key(key) implies #[trigger]
        listing_map(after).contains_key(key) by {
        if key == added.0@ {
            assert(after[entries.len() as int].0@ == key);
        } else {
            assert(after[position_of(entries, key)].0@ == key);
        }
    }
    assert forall|key: Seq<char>| #[trigger] listing_map(after).contains_key(key) implies listing_map(
        after,
    )[key] == listing_map(entries).insert(added.0@, added.1)[key] by {
        let index = position_of(after, key);
        lemma_listing_lookup(after, index);
        if index < entries.len() {
            lemma_listing_lookup(entries, index);
        }
    }
    assert(listing_map(after) =~= listing_map(entries).insert(added.0@, added.1));
}

/// Putting an entry in the place of the one with the same key updates the map.
proof fn lemma_replace<V>(entries: Seq<(String, V)>, index: int, added: (String, V))
    requires
        distinct_keys(entries),
        0 <= index < entries.len(),
        entries[index].0@ == added.0@,
    ensures
        entries.push(added).update(index, added).drop_last() == entries.update(index, added),
        distinct_keys(entries.update(index, added)),
        listing_map(entries.update(index, added)) == listing_map(entries).insert(
            added.0@,
            added.1,
        ),
{
    let after = entries.update(index, added);
    assert(entries.push(added).update(index, added).drop_last() =~= after);
    assert(distinct_keys(after)) by {
        assert forall|i: int, j: int| 0 <= i < j < after.len() implies after[i].0@
            != after[j].0@ by {
            assert(after[i].0@ == entries[i].0@ && after[j].0@ == entries[j].0@);
        }
    }
    assert forall|key: Seq<char>|
        listing_map(entries).insert(added.0@, added.1).contains_key(key) implies #[trigger]
        listing_map(after).contains_key(key) by {
        if key == added.0@ {
            assert(after[index].0@ == key);
        } else {
            assert(after[position_of(entries, key)].0@ == key);
        }
    }
    assert forall|key: Seq<char>| #[trigger] listing_map(after).contains_key(key) implies listing_map(
        entries,
    ).insert(added.0@, added.1).contains_key(key) && listing_map(after)[key] == listing_map(
        entries,
    ).insert(added.0@, added.1)[key] by {
        let found = position_of(after, key);
        assert(entries[found].0@ == key);
        lemma_listing_lookup(after, found);
        lemma_listing_lookup(entries, found);
    }
    assert(listing_map(after) =~= listing_map(entries).insert(added.0@, added.1));
}

/// Taking an entry out of the listing removes its key from the map.
proof fn lemma_delete<V>(entries: Seq<(String, V)>, index: int)
    requires
        distinct_keys(entries),
        0 <= index < entries.len(),
    ensures
        distinct_keys(entries.remove(index)),
        listing_map(entries.remove(index)) == listing_map(entries).remove(entries[index].0@),
{
    let after = entries.remove(index);
    let gone = entries[index].0@;
    // Where the entry at a place of `after` stands in `entries`.
    let origin = |place: int| if place < index { place } else { place + 1 };
    assert(distinct_keys(after)) by {
        assert forall|i: int, j: int| 0 <= i < j < after.len() implies after[i].0@
            != after[j].0@ by {
            assert(entries[origin(i)].0@ != entries[origin(j)].0@);
        }
    }
    assert forall|key: Seq<char>|
        listing_map(entries).remove(gone).contains_key(key) implies #[trigger] listing_map(
        after,
    ).contains_key(key) by {
        let found = position_of(entries, key);
        lemma_listing_lookup(entries, index);
        let place = if found < index { found } else { found - 1 };
        assert(after[place].0@ == key);
    }
    assert forall|key: Seq<char>| #[trigger] listing_map(after).contains_key(key) implies listing_map(
        entries,
    ).remove(gone).contains_key(key) && listing_map(after)[key] == listing_map(entries).remove(
        gone,
    )[key] by {
        let place = position_of(after, key);
        assert(entries[origin(place)].0@ == key);
        lemma_listing_lookup(after, place);
        lemma_listing_lookup(entries, origin(place));
        lemma_listing_lookup(entries, index);
    }
    assert(listing_map(after) =~= listing_map(entries).remove(gone));
}

} // verus!
