//! A small map that keeps its entries in the order in which their keys came.

use vstd::prelude::*;

use crate::text::same_text;

verus! {

/// What can be a key of a `Table`: keys are the same when they stand for the same value.
pub trait Key: Sized {
    /// What a key stands for.
    type Id;

    spec fn id(&self) -> Self::Id;

    fn same(&self, other: &Self) -> (result: bool)
        ensures
            result == (self.id() == other.id()),
    ;
}

impl Key for String {
    type Id = Seq<char>;

    open spec fn id(&self) -> Seq<char> {
        self@
    }

    fn same(&self, other: &Self) -> (result: bool) {
        same_text(self.as_str(), other.as_str())
    }
}

/// Values by their keys. Its view is that map.
#[derive(Debug)]
pub struct Table<K: Key, V> {
    entries: Vec<(K, V)>,
}

spec fn holds_key_at<K: Key, V>(entries: Seq<(K, V)>, id: K::Id, place: int) -> bool {
    0 <= place < entries.len() && entries[place].0.id() == id
}

spec fn holds_key<K: Key, V>(entries: Seq<(K, V)>, id: K::Id) -> bool {
    exists|place: int| #[trigger] holds_key_at(entries, id, place)
}

spec fn place_of<K: Key, V>(entries: Seq<(K, V)>, id: K::Id) -> int {
    choose|place: int| #[trigger] holds_key_at(entries, id, place)
}

spec fn distinct<K: Key, V>(entries: Seq<(K, V)>) -> bool {
    forall|i: int, j: int|
        0 <= i < j < entries.len() ==> (#[trigger] entries[i]).0.id() != (
        #[trigger] entries[j]).0.id()
}

spec fn entry_map<K: Key, V>(entries: Seq<(K, V)>) -> Map<K::Id, V> {
    Map::new(|id: K::Id| holds_key(entries, id), |id: K::Id| entries[place_of(entries, id)].1)
}

proof fn lemma_place_of<K: Key, V>(entries: Seq<(K, V)>, id: K::Id, place: int)
    requires
        distinct(entries),
        holds_key_at(entries, id, place),
    ensures
        holds_key(entries, id),
        place_of(entries, id) == place,
        entry_map(entries)[id] == entries[place].1,
{
    let found = place_of(entries, id);
    assert(holds_key_at(entries, id, found));
    if found < place {
        assert(entries[found].0.id() != entries[place].0.id());
    }
    if place < found {
        assert(entries[place].0.id() != entries[found].0.id());
    }
}

impl<K: Key, V> View for Table<K, V> {
    type V = Map<K::Id, V>;

    closed spec fn view(&self) -> Map<K::Id, V> {
        entry_map(self.entries@)
    }
}

impl<K: Key, V> Table<K, V> {
    #[verifier::type_invariant]
    spec fn well_formed(self) -> bool {
        distinct(self.entries@)
    }

    /// The keys in the order in which they came.
    pub closed spec fn keys(self) -> Seq<K::Id> {
        self.entries@.map_values(|entry: (K, V)| entry.0.id())
    }

    /// A value is a part of the table that holds it.
    pub proof fn values_are_parts(self, id: K::Id)
        requires
            self@.dom().contains(id),
        ensures
            decreases_to!(self => self@[id]),
    {
        let place = place_of(self.entries@, id);
        assert(holds_key_at(self.entries@, id, place));
        assert(decreases_to!(self => self.entries));
        assert(decreases_to!(self.entries => self.entries@));
        assert(decreases_to!(self.entries@ => self.entries@[place]));
        assert(decreases_to!(self.entries@[place] => self.entries@[place].1));
    }

    /// A table without entries.
    pub fn new() -> (result: Self)
        ensures
            result@ == Map::<K::Id, V>::empty(),
            result.keys() == Seq::<K::Id>::empty(),
    {
        let result = Table { entries: Vec::new() };
        assert(result@ =~= Map::<K::Id, V>::empty());
        assert(result.keys() =~= Seq::<K::Id>::empty());
        result
    }

    /// The number of entries; every key is in the list of keys once.
    pub fn len(&self) -> (result: usize)
        ensures
            result == self.keys().len(),
            self.keys().no_duplicates(),
            self.keys().to_set() == self@.dom(),
    {
        proof {
            use_type_invariant(self);
            let keys = self.keys();
            assert forall|i: int, j: int|
                0 <= i < keys.len() && 0 <= j < keys.len() && i != j implies keys[i] != keys[j] by {
                if i < j {
                    assert(self.entries@[i].0.id() != self.entries@[j].0.id());
                } else {
                    assert(self.entries@[j].0.id() != self.entries@[i].0.id());
                }
            }
            assert forall|id: K::Id| keys.to_set().contains(id) <==> self@.dom().contains(id) by {
                if keys.contains(id) {
                    let place = choose|place: int| 0 <= place < keys.len() && keys[place] == id;
                    assert(holds_key_at(self.entries@, id, place));
                }
                if holds_key(self.entries@, id) {
                    let place = place_of(self.entries@, id);
                    assert(holds_key_at(self.entries@, id, place));
                    assert(keys[place] == id);
                }
            }
            assert(keys.to_set() =~= self@.dom());
        }
        self.entries.len()
    }

    /// The entry at an index.
    pub fn entry(&self, index: usize) -> (result: (&K, &V))
        requires
            index < self.keys().len(),
        ensures
            result.0.id() == self.keys()[index as int],
            self@.dom().contains(result.0.id()),
            self@[result.0.id()] == *result.1,
    {
        proof {
            use_type_invariant(self);
            lemma_place_of(self.entries@, self.entries@[index as int].0.id(), index as int);
        }
        (&self.entries[index].0, &self.entries[index].1)
    }

    fn find(&self, key: &K) -> (result: Option<usize>)
        ensures
            match result {
                Some(place) => holds_key_at(self.entries@, key.id(), place as int),
                None => !holds_key(self.entries@, key.id()),
            },
    {
        let mut index: usize = 0;
        while index < self.entries.len()
            invariant
                index <= self.entries@.len(),
                forall|i: int| 0 <= i < index ==> !#[trigger] holds_key_at(self.entries@, key.id(), i),
            decreases self.entries@.len() - index,
        {
            if self.entries[index].0.same(key) {
                return Some(index);
            }
            index += 1;
        }
        None
    }

    /// The value of a key.
    pub fn get(&self, key: &K) -> (result: Option<&V>)
        ensures
            match result {
                Some(value) => self@.dom().contains(key.id()) && *value == self@[key.id()],
                None => !self@.dom().contains(key.id()),
            },
    {
        proof {
            use_type_invariant(self);
        }
        match self.find(key) {
            Some(place) => {
                proof {
                    lemma_place_of(self.entries@, key.id(), place as int);
                }
                Some(&self.entries[place].1)
            },
            None => None,
        }
    }

    /// Gives a key a value, in place of the one it had; whether it had none.
    pub fn insert(&mut self, key: K, value: V) -> (result: bool)
        ensures
            final(self)@ == old(self)@.insert(key.id(), value),
            result == !old(self)@.dom().contains(key.id()),
            final(self).keys() == if result {
                old(self).keys().push(key.id())
            } else {
                old(self).keys()
            },
    {
        proof {
            use_type_invariant(&*self);
        }
        let ghost id = key.id();
        let mut entries: Vec<(K, V)> = Vec::new();
        let found = self.find(&key);
        let ghost before = self.entries@;
        std::mem::swap(&mut entries, &mut self.entries);
        match found {
            Some(place) => {
                entries.set(place, (key, value));
                let ghost after = entries@;
                proof {
                    assert forall|i: int, j: int| 0 <= i < j < after.len() implies (
                    #[trigger] after[i]).0.id() != (#[trigger] after[j]).0.id() by {
                        assert(before[i].0.id() != before[j].0.id());
                    }
                    assert forall|other: K::Id| holds_key(after, other) <==> holds_key(before, other) by {
                        if holds_key(after, other) {
                            assert(holds_key_at(before, other, place_of(after, other)));
                        }
                        if holds_key(before, other) {
                            assert(holds_key_at(after, other, place_of(before, other)));
                        }
                    }
                    assert(holds_key_at(before, id, place as int));
                    assert(holds_key_at(after, id, place as int));
                    assert forall|other: K::Id| holds_key(after, other) implies #[trigger] entry_map(
                        after,
                    )[other] == entry_map(before).insert(id, value)[other] by {
                        let at = place_of(after, other);
                        assert(holds_key_at(after, other, at));
                        if other == id {
                            lemma_place_of(after, other, place as int);
                        } else {
                            assert(holds_key_at(before, other, at));
                            lemma_place_of(before, other, at);
                        }
                    }
                    assert(entry_map(after) =~= entry_map(before).insert(id, value));
                    assert(after.map_values(|entry: (K, V)| entry.0.id()) =~= before.map_values(
                        |entry: (K, V)| entry.0.id(),
                    ));
                }
                self.entries = entries;
                false
            },
            None => {
                entries.push((key, value));
                let ghost after = entries@;
                proof {
                    assert forall|i: int, j: int| 0 <= i < j < after.len() implies (
                    #[trigger] after[i]).0.id() != (#[trigger] after[j]).0.id() by {
                        if j == before.len() {
                            assert(!holds_key_at(before, id, i));
                        } else {
                            assert(before[i].0.id() != before[j].0.id());
                        }
                    }
                    assert(holds_key_at(after, id, before.len() as int));
                    lemma_place_of(after, id, before.len() as int);
                    assert forall|other: K::Id| other != id implies (holds_key(after, other) <==> holds_key(
                        before,
                        other,
                    )) by {
                        if holds_key(after, other) {
                            assert(holds_key_at(before, other, place_of(after, other)));
                        }
                        if holds_key(before, other) {
                            assert(holds_key_at(after, other, place_of(before, other)));
                        }
                    }
                    assert forall|other: K::Id| holds_key(after, other) implies #[trigger] entry_map(
                        after,
                    )[other] == entry_map(before).insert(id, value)[other] by {
                        if other != id {
                            let at = place_of(before, other);
                            assert(holds_key_at(before, other, at));
                            assert(holds_key_at(after, other, at));
                            lemma_place_of(after, other, at);
                        }
                    }
                    assert(entry_map(after) =~= entry_map(before).insert(id, value));
                    assert(after.map_values(|entry: (K, V)| entry.0.id()) =~= before.map_values(
                        |entry: (K, V)| entry.0.id(),
                    ).push(id));
                }
                self.entries = entries;
                true
            },
        }
    }

    /// Takes a key out, and says what its value was.
    pub fn remove(&mut self, key: &K) -> (result: Option<V>)
        ensures
            final(self)@ == old(self)@.remove(key.id()),
            match result {
                Some(value) => old(self)@.dom().contains(key.id()) && value == old(self)@[key.id()],
                None => !old(self)@.dom().contains(key.id()),
            },
    {
        proof {
            use_type_invariant(&*self);
        }
        let ghost id = key.id();
        let found = self.find(key);
        let ghost before = self.entries@;
        match found {
            Some(place) => {
                let mut entries: Vec<(K, V)> = Vec::new();
                std::mem::swap(&mut entries, &mut self.entries);
                let (_, value) = entries.remove(place);
                let ghost after = entries@;
                proof {
                    lemma_place_of(before, id, place as int);
                    assert(after =~= before.remove(place as int));
                    assert forall|i: int, j: int| 0 <= i < j < after.len() implies (
                    #[trigger] after[i]).0.id() != (#[trigger] after[j]).0.id() by {
                        let first = if i < place {
                            i
                        } else {
                            i + 1
                        };
                        let second = if j < place {
                            j
                        } else {
                            j + 1
                        };
                        assert(before[first].0.id() != before[second].0.id());
                    }
                    assert(!holds_key(after, id)) by {
                        if holds_key(after, id) {
                            let at = place_of(after, id);
                            assert(holds_key_at(after, id, at));
                            let origin = if at < place {
                                at
                            } else {
                                at + 1
                            };
                            assert(holds_key_at(before, id, origin));
                            lemma_place_of(before, id, origin);
                        }
                    }
                    assert forall|other: K::Id| other != id implies (holds_key(after, other)
                        <==> holds_key(before, other)) by {
                        if holds_key(after, other) {
                            let at = place_of(after, other);
                            assert(holds_key_at(after, other, at));
                            let origin = if at < place {
                                at
                            } else {
                                at + 1
                            };
                            assert(holds_key_at(before, other, origin));
                        }
                        if holds_key(before, other) {
                            let at = place_of(before, other);
                            assert(holds_key_at(before, other, at));
                            let target = if at < place {
                                at
                            } else {
                                at - 1
                            };
                            assert(holds_key_at(after, other, target));
                        }
                    }
                    assert forall|other: K::Id| holds_key(after, other) implies #[trigger] entry_map(
                        after,
                    )[other] == entry_map(before)[other] by {
                        let at = place_of(after, other);
                        assert(holds_key_at(after, other, at));
                        let origin = if at < place {
                            at
                        } else {
                            at + 1
                        };
                        assert(holds_key_at(before, other, origin));
                        lemma_place_of(before, other, origin);
                    }
                    assert(entry_map(after) =~= entry_map(before).remove(id));
                }
                self.entries = entries;
                Some(value)
            },
            None => {
                assert(entry_map(before) =~= entry_map(before).remove(id));
                None
            },
        }
    }
}

} // verus!
