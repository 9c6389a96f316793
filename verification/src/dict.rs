//! Named values in the order in which they were given. Query parameters,
//! bound route parameters, form fields and headers are all kept this way.
//! A name may be given more than once; the value given last is the one
//! that a lookup finds.

use crate::text::same_text;
use vstd::prelude::*;

verus! {

/// The mapping that a list of named values stands for: each entry
/// overrides what earlier entries said of its name.
pub open spec fn lookup<T>(entries: Seq<(Seq<char>, T)>) -> Map<Seq<char>, T>
    decreases entries.len(),
{
    if entries.len() == 0 {
        Map::empty()
    } else {
        lookup(entries.drop_last()).insert(entries.last().0, entries.last().1)
    }
}

/// Entry `i` is the last one that names `key`.
pub open spec fn is_latest<T>(entries: Seq<(Seq<char>, T)>, key: Seq<char>, i: int) -> bool {
    &&& 0 <= i < entries.len()
    &&& entries[i].0 == key
    &&& forall|j: int| i < j < entries.len() ==> (#[trigger] entries[j]).0 != key
}

/// No entry names `key`.
pub open spec fn names_nothing<T>(entries: Seq<(Seq<char>, T)>, key: Seq<char>) -> bool {
    forall|j: int| 0 <= j < entries.len() ==> (#[trigger] entries[j]).0 != key
}

/// A lookup finds a name exactly when some entry carries it, and it finds
/// the value of the last such entry.
pub proof fn lemma_lookup_finds_latest<T>(entries: Seq<(Seq<char>, T)>, key: Seq<char>)
    ensures
        names_nothing(entries, key) <==> !lookup(entries).contains_key(key),
        forall|i: int| is_latest(entries, key, i) ==> lookup(entries)[key] == entries[i].1,
    decreases entries.len(),
{
    if entries.len() > 0 {
        let shorter = entries.drop_last();
        lemma_lookup_finds_latest(shorter, key);
        let last = entries.len() - 1;
        if entries[last].0 == key {
            assert(!names_nothing(entries, key));
        } else {
            if names_nothing(shorter, key) {
                assert forall|j: int| 0 <= j < entries.len() implies (#[trigger] entries[j]).0
                    != key by {
                    if j < last {
                        assert(shorter[j] == entries[j]);
                    }
                }
            } else {
                let j = choose|j: int| 0 <= j < shorter.len() && (#[trigger] shorter[j]).0 == key;
                assert(entries[j].0 == key);
            }
        }
        assert forall|i: int| is_latest(entries, key, i) implies lookup(entries)[key]
            == entries[i].1 by {
            if i < last {
                assert(entries[last].0 != key);
                assert forall|j: int| i < j < shorter.len() implies (#[trigger] shorter[j]).0
                    != key by {
                    assert(shorter[j] == entries[j]);
                }
                assert(is_latest(shorter, key, i));
                assert(shorter[i] == entries[i]);
            }
        }
    }
}

/// Of two values given under one name, the second is found.
pub proof fn lemma_last_write_wins<T>(
    entries: Seq<(Seq<char>, T)>,
    key: Seq<char>,
    first: T,
    second: T,
)
    ensures
        lookup(entries.push((key, first)).push((key, second)))[key] == second,
        lookup(entries.push((key, first)).push((key, second))).contains_key(key),
{
    let all = entries.push((key, first)).push((key, second));
    assert(all.last() == (key, second));
}

/// A list of named values.
#[derive(Clone, Debug, PartialEq, Eq)]
pub struct Dict<V> {
    items: Vec<(String, V)>,
}

impl<V: View> Dict<V> {
    /// The entries in the order in which they were given.
    pub closed spec fn entries(&self) -> Seq<(Seq<char>, V::V)> {
        self.items@.map_values(|e: (String, V)| (e.0@, e.1@))
    }

    /// A list without entries.
    pub fn new() -> (r: Self)
        ensures
            r.entries() == Seq::<(Seq<char>, V::V)>::empty(),
    {
        let r = Dict { items: Vec::new() };
        assert(r.entries() =~= Seq::<(Seq<char>, V::V)>::empty());
        r
    }

    /// Adds an entry behind the others.
    pub fn insert(&mut self, key: String, value: V)
        ensures
            final(self).entries() == old(self).entries().push((key@, value@)),
            final(self)@ == old(self)@.insert(key@, value@),
    {
        let ghost before = self.entries();
        self.items.push((key, value));
        assert(self.entries() =~= before.push((key@, value@)));
        assert(self.entries().drop_last() =~= before);
    }

    /// The list with one more entry behind the others.
    pub fn with(self, key: &str, value: V) -> (r: Self)
        ensures
            r.entries() == self.entries().push((key@, value@)),
            r@ == self@.insert(key@, value@),
    {
        let mut r = self;
        r.insert(key.to_owned(), value);
        r
    }

    /// How many entries the list holds, counting a repeated name each time.
    pub fn len(&self) -> (n: usize)
        ensures
            n == self.entries().len(),
    {
        self.items.len()
    }

    /// Whether the list holds no entry.
    pub fn is_empty(&self) -> (r: bool)
        ensures
            r == (self.entries().len() == 0),
    {
        self.items.len() == 0
    }

    /// The name and the value of entry `i`, where there is one.
    pub fn entry(&self, i: usize) -> (r: Option<(&String, &V)>)
        ensures
            match r {
                Some((key, value)) => i < self.entries().len() && self.entries()[i as int] == (
                    key@,
                    value@,
                ),
                None => i >= self.entries().len(),
            },
    {
        if i < self.items.len() {
            let item = &self.items[i];
            Some((&item.0, &item.1))
        } else {
            None
        }
    }

    /// The value given last under `key`, where the name was given at all.
    pub fn get(&self, key: &str) -> (r: Option<&V>)
        ensures
            match r {
                Some(value) => self@.contains_key(key@) && self@[key@] == value@,
                None => !self@.contains_key(key@),
            },
    {
        let mut i: usize = self.items.len();
        while i > 0
            invariant
                i <= self.items.len(),
                forall|j: int| i <= j < self.items.len() ==> (#[trigger] self.entries()[j]).0 != key@,
            decreases i,
        {
            i -= 1;
            if same_text(self.items[i].0.as_str(), key) {
                assert(self.entries()[i as int] == (self.items@[i as int].0@, self.items@[i as int].1@));
                assert(is_latest(self.entries(), key@, i as int));
                proof {
                    lemma_lookup_finds_latest(self.entries(), key@);
                }
                return Some(&self.items[i].1);
            }
            assert(self.entries()[i as int].0 != key@);
        }
        assert(names_nothing(self.entries(), key@));
        proof {
            lemma_lookup_finds_latest(self.entries(), key@);
        }
        None
    }

    /// Whether a value was given under `key`.
    pub fn contains_key(&self, key: &str) -> (r: bool)
        ensures
            r == self@.contains_key(key@),
    {
        self.get(key).is_some()
    }
}

impl<V: View> View for Dict<V> {
    type V = Map<Seq<char>, V::V>;

    open spec fn view(&self) -> Map<Seq<char>, V::V> {
        lookup(self.entries())
    }
}

} // verus!
