//! A map from names to values that remembers the order of its entries.

use vstd::prelude::*;

verus! {

/// Values by name. A name occurs at most once.
#[derive(Debug)]
pub struct NameMap<V> {
    entries: Vec<(String, V)>,
}

/// No two entries have the same name.
spec fn distinct_names<V>(entries: Seq<(String, V)>) -> bool {
    forall|i: int, j: int|
        0 <= i < entries.len() && 0 <= j < entries.len() && #[trigger] entries[i].0@
            == #[trigger] entries[j].0@ ==> i == j
}

/// The entry at position `i` has the name `name`.
spec fn named<V>(entries: Seq<(String, V)>, i: int, name: Seq<char>) -> bool {
    0 <= i < entries.len() && entries[i].0@ == name
}

/// The map that the entries make up.
spec fn map_of<V>(entries: Seq<(String, V)>) -> Map<Seq<char>, V> {
    Map::new(
        |name: Seq<char>| exists|i: int| #[trigger] named(entries, i, name),
        |name: Seq<char>| entries[choose|i: int| #[trigger] named(entries, i, name)].1,
    )
}

impl<V> View for NameMap<V> {
    type V = Map<Seq<char>, V>;

    closed spec fn view(&self) -> Map<Seq<char>, V> {
        map_of(self.entries@)
    }
}

impl<V> NameMap<V> {
    #[verifier::type_invariant]
    spec fn wf(self) -> bool {
        distinct_names(self.entries@)
    }

    /// The names in the order of their entries.
    pub closed spec fn order(&self) -> Seq<Seq<char>> {
        self.entries@.map_values(|entry: (String, V)| entry.0@)
    }

    /// A map without entries.
    pub fn new() -> (map: NameMap<V>)
        ensures
            map@ == Map::<Seq<char>, V>::empty(),
            map.order() == Seq::<Seq<char>>::empty(),
    {
        let map = NameMap { entries: Vec::new() };
        assert(map.order() =~= Seq::<Seq<char>>::empty());
        assert(map@ =~= Map::<Seq<char>, V>::empty()) by {
            assert forall|name: Seq<char>| !map@.contains_key(name) by {
                assert(forall|i: int| !named(map.entries@, i, name));
            }
        }
        map
    }

    /// The number of entries.
    pub fn len(&self) -> (len: usize)
        ensures
            len == self.order().len(),
            self.order().no_duplicates(),
            forall|name: Seq<char>| #[trigger]
                self@.contains_key(name) <==> self.order().contains(name),
    {
        proof {
            use_type_invariant(self);
            lemma_order(self.entries@, self.order());
        }
        self.entries.len()
    }

    /// The entry at position `i`.
    pub fn entry(&self, i: usize) -> (entry: (&String, &V))
        requires
            i < self.order().len(),
        ensures
            entry.0@ == self.order()[i as int],
            self@.contains_key(entry.0@),
            *entry.1 == self@[entry.0@],
    {
        proof {
            use_type_invariant(self);
            lemma_at(self.entries@, i as int);
        }
        let entry = &self.entries[i];
        (&entry.0, &entry.1)
    }

    /// The position of the entry named `name`.
    fn find(&self, name: &str) -> (position: Option<usize>)
        ensures
            match position {
                Some(i) => named(self.entries@, i as int, name@),
                None => forall|i: int| !named(self.entries@, i, name@),
            },
    {
        let wanted = name.to_owned();
        let mut i: usize = 0;
        while i < self.entries.len()
            invariant
                wanted@ == name@,
                i <= self.entries@.len(),
                forall|j: int| 0 <= j < i ==> !named(self.entries@, j, name@),
            decreases self.entries@.len() - i,
        {
            if self.entries[i].0 == wanted {
                return Some(i);
            }
            i = i + 1;
        }
        None
    }

    /// The value under `name`, if there is one.
    pub fn get(&self, name: &str) -> (value: Option<&V>)
        ensures
            match value {
                Some(v) => self@.contains_key(name@) && *v == self@[name@],
                None => !self@.contains_key(name@),
            },
    {
        proof {
            use_type_invariant(self);
        }
        match self.find(name) {
            Some(i) => {
                proof {
                    lemma_at(self.entries@, i as int);
                }
                Some(&self.entries[i].1)
            },
            None => None,
        }
    }

    /// Puts `value` under `name`, in place of what was there before.
    pub fn insert(&mut self, name: String, value: V)
        ensures
            final(self)@ == old(self)@.insert(name@, value),
            final(self).order() == (if old(self)@.contains_key(name@) {
                old(self).order()
            } else {
                old(self).order().push(name@)
            }),
    {
        proof {
            use_type_invariant(&*self);
        }
        let position = self.find(name.as_str());
        let mut entries: Vec<(String, V)> = Vec::new();
        std::mem::swap(&mut entries, &mut self.entries);
        let ghost before = entries@;
        let ghost entry = (name, value);
        match position {
            Some(i) => {
                entries.set(i, (name, value));
                proof {
                    lemma_replace(before, i as int, entry);
                    lemma_at(before, i as int);
                    assert(entries@.map_values(|e: (String, V)| e.0@) =~= before.map_values(
                        |e: (String, V)| e.0@,
                    ));
                }
            },
            None => {
                entries.push((name, value));
                proof {
                    lemma_append(before, entry);
                    assert(entries@.map_values(|e: (String, V)| e.0@) =~= before.map_values(
                        |e: (String, V)| e.0@,
                    ).push(name@));
                }
            },
        }
        self.entries = entries;
    }
}

impl<V: Clone> Clone for NameMap<V> {
    /// A map with the same names in the same order, each with a clone of its
    /// value.
    fn clone(&self) -> (copy: NameMap<V>)
        ensures
            copy.order() == self.order(),
            copy@.dom() == self@.dom(),
            forall|name: Seq<char>| #[trigger]
                self@.contains_key(name) ==> cloned::<V>(self@[name], copy@[name]),
    {
        proof {
            use_type_invariant(self);
        }
        let mut entries: Vec<(String, V)> = Vec::new();
        let mut i: usize = 0;
        while i < self.entries.len()
            invariant
                i == entries@.len(),
                i <= self.entries@.len(),
                forall|j: int|
                    0 <= j < i ==> (#[trigger] entries@[j]).0 == self.entries@[j].0 && cloned::<V>(
                        self.entries@[j].1,
                        entries@[j].1,
                    ),
            decreases self.entries@.len() - i,
        {
            let value = self.entries[i].1.clone();
            entries.push((self.entries[i].0.clone(), value));
            i = i + 1;
        }
        assert(distinct_names(entries@)) by {
            assert forall|a: int, b: int|
                0 <= a < entries@.len() && 0 <= b < entries@.len() && #[trigger] entries@[a].0@
                    == #[trigger] entries@[b].0@ implies a == b by {
                assert(self.entries@[a].0@ == self.entries@[b].0@);
            }
        }
        let copy = NameMap { entries };
        proof {
            assert(copy.order() =~= self.order());
            assert forall|name: Seq<char>| #[trigger]
                self@.contains_key(name) <==> copy@.contains_key(name) by {
                if self@.contains_key(name) {
                    let j = choose|j: int| #[trigger] named(self.entries@, j, name);
                    assert(named(copy.entries@, j, name));
                }
                if copy@.contains_key(name) {
                    let j = choose|j: int| #[trigger] named(copy.entries@, j, name);
                    assert(named(self.entries@, j, name));
                }
            }
            assert(copy@.dom() =~= self@.dom());
            assert forall|name: Seq<char>| #[trigger] self@.contains_key(name) implies cloned::<V>(
                self@[name],
                copy@[name],
            ) by {
                let j = choose|j: int| #[trigger] named(self.entries@, j, name);
                lemma_at(self.entries@, j);
                lemma_at(copy.entries@, j);
            }
        }
        copy
    }
}

proof fn lemma_at<V>(entries: Seq<(String, V)>, i: int)
    requires
        distinct_names(entries),
        0 <= i < entries.len(),
    ensures
        map_of(entries).contains_key(entries[i].0@),
        map_of(entries)[entries[i].0@] == entries[i].1,
{
    assert(named(entries, i, entries[i].0@));
}

proof fn lemma_order<V>(entries: Seq<(String, V)>, order: Seq<Seq<char>>)
    requires
        distinct_names(entries),
        order == entries.map_values(|entry: (String, V)| entry.0@),
    ensures
        order.no_duplicates(),
        forall|name: Seq<char>| #[trigger]
            map_of(entries).contains_key(name) <==> order.contains(name),
{
    assert forall|name: Seq<char>| #[trigger]
        map_of(entries).contains_key(name) <==> order.contains(name) by {
        if map_of(entries).contains_key(name) {
            let i = choose|i: int| #[trigger] named(entries, i, name);
            assert(order[i] == name);
        }
        if order.contains(name) {
            let i = choose|i: int| 0 <= i < order.len() && order[i] == name;
            assert(named(entries, i, name));
        }
    }
    assert forall|i: int, j: int|
        0 <= i < order.len() && 0 <= j < order.len() && i != j implies order[i] != order[j] by {
        assert(entries[i].0@ != entries[j].0@);
    }
}

proof fn lemma_append<V>(before: Seq<(String, V)>, entry: (String, V))
    requires
        distinct_names(before),
        forall|i: int| !named(before, i, entry.0@),
    ensures
        distinct_names(before.push(entry)),
        map_of(before.push(entry)) == map_of(before).insert(entry.0@, entry.1),
        !map_of(before).contains_key(entry.0@),
{
    let after = before.push(entry);
    assert(distinct_names(after)) by {
        assert forall|i: int, j: int|
            0 <= i < after.len() && 0 <= j < after.len() && #[trigger] after[i].0@
                == #[trigger] after[j].0@ implies i == j by {
            assert(!named(before, i, entry.0@));
            assert(!named(before, j, entry.0@));
            if i < before.len() && j < before.len() {
                assert(before[i].0@ == before[j].0@);
            }
        }
    }
    let expected = map_of(before).insert(entry.0@, entry.1);
    assert forall|name: Seq<char>| #[trigger]
        map_of(after).contains_key(name) <==> expected.contains_key(name) by {
        if map_of(after).contains_key(name) {
            let i = choose|i: int| #[trigger] named(after, i, name);
            if i < before.len() {
                assert(named(before, i, name));
            }
        }
        if map_of(before).contains_key(name) {
            let i = choose|i: int| #[trigger] named(before, i, name);
            assert(named(after, i, name));
        }
        if name == entry.0@ {
            assert(named(after, before.len() as int, name));
        }
    }
    assert forall|name: Seq<char>| #[trigger] map_of(after).contains_key(name) implies map_of(
        after,
    )[name] == expected[name] by {
        let i = choose|i: int| #[trigger] named(after, i, name);
        lemma_at(after, i);
        if i < before.len() {
            assert(!named(before, i, entry.0@));
            lemma_at(before, i);
        }
    }
    assert(map_of(after) =~= expected);
}

proof fn lemma_replace<V>(before: Seq<(String, V)>, i: int, entry: (String, V))
    requires
        distinct_names(before),
        named(before, i, entry.0@),
    ensures
        distinct_names(before.update(i, entry)),
        map_of(before.update(i, entry)) == map_of(before).insert(entry.0@, entry.1),
{
    let after = before.update(i, entry);
    assert(forall|j: int| 0 <= j < before.len() ==> #[trigger] after[j].0@ == before[j].0@);
    assert(distinct_names(after)) by {
        assert forall|a: int, b: int|
            0 <= a < after.len() && 0 <= b < after.len() && #[trigger] after[a].0@
                == #[trigger] after[b].0@ implies a == b by {
            assert(before[a].0@ == before[b].0@);
        }
    }
    let expected = map_of(before).insert(entry.0@, entry.1);
    assert forall|name: Seq<char>| #[trigger]
        map_of(after).contains_key(name) <==> expected.contains_key(name) by {
        if map_of(after).contains_key(name) {
            let j = choose|j: int| #[trigger] named(after, j, name);
            assert(named(before, j, name));
        }
        if map_of(before).contains_key(name) {
            let j = choose|j: int| #[trigger] named(before, j, name);
            assert(named(after, j, name));
        }
        if name == entry.0@ {
            assert(named(after, i, name));
        }
    }
    assert forall|name: Seq<char>| #[trigger] map_of(after).contains_key(name) implies map_of(
        after,
    )[name] == expected[name] by {
        let j = choose|j: int| #[trigger] named(after, j, name);
        lemma_at(after, j);
        if j != i {
            assert(before[j].0@ != before[i].0@);
            lemma_at(before, j);
        }
    }
    assert(map_of(after) =~= expected);
}

/// What is put under a name is found under this name, and under every other
/// name is found what was found before.
pub proof fn law_map_gives_back_what_was_put_in<V>(
    map: &mut NameMap<V>,
    name: String,
    value: V,
)
    requires
        call_ensures(NameMap::<V>::insert, (map, name, value), ()),
    ensures
        forall|asked: &str, found: Option<&V>| #[trigger]
            call_ensures(NameMap::<V>::get, (final(map), asked), found) && asked@ == name@
                ==> found == Some(&value),
        forall|asked: &str, before: Option<&V>, found: Option<&V>|
            #![trigger call_ensures(NameMap::<V>::get, (old(map), asked), before),
                call_ensures(NameMap::<V>::get, (final(map), asked), found)]
            call_ensures(NameMap::<V>::get, (old(map), asked), before) && call_ensures(
                NameMap::<V>::get,
                (final(map), asked),
                found,
            ) && asked@ != name@ ==> found == before,
{
}

/// Nothing is found in a map without entries.
pub proof fn law_new_map_finds_nothing<V>(map: NameMap<V>, asked: &str, found: Option<&V>)
    requires
        call_ensures(NameMap::<V>::new, (), map),
        call_ensures(NameMap::<V>::get, (&map, asked), found),
    ensures
        found is None,
{
}

/// Whoever goes through the entries meets each name that is found in the map,
/// with the value that is found under it, and no other name.
pub proof fn law_entries_are_what_is_found<V>(
    map: NameMap<V>,
    len: usize,
    asked: &str,
    found: Option<&V>,
)
    requires
        call_ensures(NameMap::<V>::len, (&map,), len),
        call_ensures(NameMap::<V>::get, (&map, asked), found),
    ensures
        found is Some ==> exists|i: int|
            0 <= i < len && #[trigger] map.order()[i] == asked@ && (forall|j: int|
                0 <= j < len && #[trigger] map.order()[j] == asked@ ==> j == i),
        forall|i: usize, entry: (&String, &V)| #[trigger]
            call_ensures(NameMap::<V>::entry, (&map, i), entry) && entry.0@ == asked@ ==> found
                == Some(entry.1),
{
    if found is Some {
        assert(map.order().contains(asked@));
        let i = choose|i: int| 0 <= i < map.order().len() && map.order()[i] == asked@;
        assert(map.order()[i] == asked@);
    }
}

} // verus!
