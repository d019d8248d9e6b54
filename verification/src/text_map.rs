//! A small map from text keys to text values that remembers the order in
//! which its keys first arrived. It holds the header fields of requests and
//! responses.

use crate::text::str_eq;
use vstd::prelude::*;

verus! {

/// The map that a sequence of entries builds when each is inserted in turn:
/// a later entry replaces an earlier one with the same key.
pub open spec fn map_of(entries: Seq<(Seq<char>, Seq<char>)>) -> Map<Seq<char>, Seq<char>>
    decreases entries.len(),
{
    if entries.len() == 0 {
        Map::empty()
    } else {
        map_of(entries.drop_last()).insert(entries.last().0, entries.last().1)
    }
}

/// Whether no key occurs twice.
pub open spec fn keys_distinct(entries: Seq<(Seq<char>, Seq<char>)>) -> bool {
    forall|i: int, j: int|
        0 <= i < j < entries.len() ==> (#[trigger] entries[i]).0 != (#[trigger] entries[j]).0
}

/// Position of `key` among the entries, or their number when it is absent.
pub open spec fn position_of(entries: Seq<(Seq<char>, Seq<char>)>, key: Seq<char>) -> int
    decreases entries.len(),
{
    if entries.len() == 0 {
        0
    } else if entries[0].0 == key {
        0
    } else {
        1 + position_of(entries.drop_first(), key)
    }
}

/// The keys of `map_of` are the keys of the entries.
pub proof fn lemma_map_of_domain(entries: Seq<(Seq<char>, Seq<char>)>, key: Seq<char>)
    ensures
        map_of(entries).contains_key(key) <==> exists|i: int|
            0 <= i < entries.len() && (#[trigger] entries[i]).0 == key,
    decreases entries.len(),
{
    if entries.len() > 0 {
        let front = entries.drop_last();
        lemma_map_of_domain(front, key);
        if map_of(entries).contains_key(key) {
            if entries.last().0 == key {
                assert(entries[entries.len() - 1].0 == key);
            } else {
                let i = choose|i: int| 0 <= i < front.len() && (#[trigger] front[i]).0 == key;
                assert(entries[i].0 == key);
            }
        }
        if exists|i: int| 0 <= i < entries.len() && (#[trigger] entries[i]).0 == key {
            let i = choose|i: int| 0 <= i < entries.len() && (#[trigger] entries[i]).0 == key;
            if i < entries.len() - 1 {
                assert(front[i].0 == key);
            }
        }
    }
}

/// Where keys are distinct, each entry's key maps to that entry's value.
pub proof fn lemma_map_of_entry(entries: Seq<(Seq<char>, Seq<char>)>, i: int)
    requires
        keys_distinct(entries),
        0 <= i < entries.len(),
    ensures
        map_of(entries).contains_key(entries[i].0),
        map_of(entries)[entries[i].0] == entries[i].1,
    decreases entries.len(),
{
    let front = entries.drop_last();
    if i < entries.len() - 1 {
        assert(front[i] == entries[i]);
        assert(entries[i].0 != entries[entries.len() - 1].0);
        assert(keys_distinct(front)) by {
            assert forall|a: int, b: int| 0 <= a < b < front.len() implies (#[trigger] front[a]).0
                != (#[trigger] front[b]).0 by {
                assert(front[a] == entries[a]);
                assert(front[b] == entries[b]);
            }
        }
        lemma_map_of_entry(front, i);
    }
}

/// Replacing the value of an entry in place is an insertion under its key.
pub proof fn lemma_map_of_update(
    entries: Seq<(Seq<char>, Seq<char>)>,
    i: int,
    value: Seq<char>,
)
    requires
        keys_distinct(entries),
        0 <= i < entries.len(),
    ensures
        keys_distinct(entries.update(i, (entries[i].0, value))),
        map_of(entries.update(i, (entries[i].0, value))) == map_of(entries).insert(
            entries[i].0,
            value,
        ),
    decreases entries.len(),
{
    let key = entries[i].0;
    let updated = entries.update(i, (key, value));
    assert(keys_distinct(updated)) by {
        assert forall|a: int, b: int| 0 <= a < b < updated.len() implies (#[trigger] updated[a]).0
            != (#[trigger] updated[b]).0 by {
            assert(updated[a].0 == entries[a].0);
            assert(updated[b].0 == entries[b].0);
        }
    }
    let front = entries.drop_last();
    if i == entries.len() - 1 {
        assert(updated.drop_last() =~= front);
        assert(map_of(updated) =~= map_of(entries).insert(key, value));
    } else {
        assert(keys_distinct(front)) by {
            assert forall|a: int, b: int| 0 <= a < b < front.len() implies (#[trigger] front[a]).0
                != (#[trigger] front[b]).0 by {
                assert(front[a] == entries[a]);
                assert(front[b] == entries[b]);
            }
        }
        assert(front[i] == entries[i]);
        lemma_map_of_update(front, i, value);
        assert(updated.drop_last() =~= front.update(i, (key, value)));
        assert(updated.last() == entries.last());
        assert(entries[i].0 != entries[entries.len() - 1].0);
        assert(map_of(updated) =~= map_of(entries).insert(key, value));
    }
}

/// An insertion-ordered map from text keys to text values.
#[derive(Debug, Clone, PartialEq, Eq)]
pub struct TextMap {
    entries: Vec<(String, String)>,
}

impl TextMap {
    /// The entries in the order in which their keys first arrived.
    pub closed spec fn entries(&self) -> Seq<(Seq<char>, Seq<char>)> {
        Seq::new(self.entries@.len(), |i: int| (self.entries@[i].0@, self.entries@[i].1@))
    }

    /// The map from keys to values.
    pub open spec fn view(&self) -> Map<Seq<char>, Seq<char>> {
        map_of(self.entries())
    }

    /// No key occurs twice among the entries. `new` establishes this and
    /// `insert` keeps it.
    pub open spec fn wf(&self) -> bool {
        keys_distinct(self.entries())
    }

    /// An empty map.
    pub fn new() -> (map: Self)
        ensures
            map.wf(),
            map.entries() == Seq::<(Seq<char>, Seq<char>)>::empty(),
            map@ == Map::<Seq<char>, Seq<char>>::empty(),
    {
        let map = TextMap { entries: Vec::new() };
        assert(map.entries() =~= Seq::<(Seq<char>, Seq<char>)>::empty());
        map
    }

    /// Number of keys.
    pub fn len(&self) -> (n: usize)
        ensures
            n == self.entries().len(),
    {
        self.entries.len()
    }

    /// Whether the map holds no key.
    pub fn is_empty(&self) -> (empty: bool)
        ensures
            empty == (self.entries().len() == 0),
    {
        self.entries.len() == 0
    }

    fn find(&self, key: &str) -> (at: usize)
        ensures
            at <= self.entries().len(),
            at < self.entries().len() ==> self.entries()[at as int].0 == key@,
            forall|i: int| 0 <= i < at ==> (#[trigger] self.entries()[i]).0 != key@,
    {
        let mut at: usize = 0;
        while at < self.entries.len()
            invariant
                at <= self.entries@.len(),
                self.entries().len() == self.entries@.len(),
                forall|i: int| 0 <= i < at ==> (#[trigger] self.entries()[i]).0 != key@,
            decreases self.entries@.len() - at,
        {
            if str_eq(self.entries[at].0.as_str(), key) {
                return at;
            }
            at = at + 1;
        }
        at
    }

    /// Sets the value of `key`, and hands back the value it replaces.
    /// A new key goes behind the others; a known key keeps its place.
    pub fn insert(&mut self, key: String, value: String) -> (previous: Option<String>)
        requires
            old(self).wf(),
        ensures
            final(self).wf(),
            final(self)@ == old(self)@.insert(key@, value@),
            previous is Some <==> old(self)@.contains_key(key@),
            previous matches Some(text) ==> text@ == old(self)@[key@],
            old(self)@.contains_key(key@) ==> final(self).entries() == old(self).entries().update(
                position_of(old(self).entries(), key@),
                (key@, value@),
            ),
            !old(self)@.contains_key(key@) ==> final(self).entries() == old(self).entries().push(
                (key@, value@),
            ),
    {
        let ghost before = self.entries();
        let at = self.find(key.as_str());
        proof {
            lemma_map_of_domain(before, key@);
            lemma_position_of(before, key@, at as int);
        }
        if at < self.entries.len() {
            let mut slot = (key, value);
            std::mem::swap(&mut self.entries[at], &mut slot);
            proof {
                lemma_map_of_entry(before, at as int);
                lemma_map_of_update(before, at as int, value@);
                assert(self.entries() =~= before.update(at as int, (key@, value@)));
            }
            Some(slot.1)
        } else {
            self.entries.push((key, value));
            proof {
                let after = self.entries();
                assert(after =~= before.push((key@, value@)));
                assert(after.drop_last() =~= before);
                assert(keys_distinct(after)) by {
                    assert forall|a: int, b: int| 0 <= a < b < after.len() implies (
                    #[trigger] after[a]).0 != (#[trigger] after[b]).0 by {
                        assert(after[a] == before[a]);
                        if b < before.len() {
                            assert(after[b] == before[b]);
                        }
                    }
                }
            }
            None
        }
    }

    /// The value of `key`, if the map holds it.
    pub fn get(&self, key: &str) -> (value: Option<&String>)
        requires
            self.wf(),
        ensures
            value is Some <==> self@.contains_key(key@),
            value matches Some(text) ==> text@ == self@[key@],
    {
        proof {
            lemma_map_of_domain(self.entries(), key@);
        }
        let at = self.find(key);
        if at < self.entries.len() {
            proof {
                lemma_map_of_entry(self.entries(), at as int);
            }
            Some(&self.entries[at].1)
        } else {
            None
        }
    }

    /// Whether the map holds `key`.
    pub fn contains_key(&self, key: &str) -> (held: bool)
        requires
            self.wf(),
        ensures
            held == self@.contains_key(key@),
    {
        self.get(key).is_some()
    }

    /// The key at position `i` of the insertion order.
    pub fn key_at(&self, i: usize) -> (key: &String)
        requires
            i < self.entries().len(),
        ensures
            key@ == self.entries()[i as int].0,
    {
        &self.entries[i].0
    }

    /// The value at position `i` of the insertion order.
    pub fn value_at(&self, i: usize) -> (value: &String)
        requires
            i < self.entries().len(),
        ensures
            value@ == self.entries()[i as int].1,
    {
        &self.entries[i].1
    }
}

/// `position_of` is the first position that holds the key.
pub proof fn lemma_position_of(entries: Seq<(Seq<char>, Seq<char>)>, key: Seq<char>, at: int)
    requires
        0 <= at <= entries.len(),
        at < entries.len() ==> entries[at].0 == key,
        forall|i: int| 0 <= i < at ==> (#[trigger] entries[i]).0 != key,
    ensures
        position_of(entries, key) == at,
    decreases entries.len(),
{
    if entries.len() > 0 && at > 0 {
        let rest = entries.drop_first();
        assert(entries[0].0 != key);
        assert forall|i: int| 0 <= i < at - 1 implies (#[trigger] rest[i]).0 != key by {
            assert(rest[i] == entries[i + 1]);
        }
        if at < entries.len() {
            assert(rest[at - 1] == entries[at]);
        }
        lemma_position_of(rest, key, at - 1);
    }
}

} // verus!
