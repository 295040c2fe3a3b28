//! A finite map from text to text, kept as a list without repeated keys.

use crate::utils::text::{chars_of, span_equals};
use vstd::prelude::*;

verus! {

/// One key of a map with its value.
#[derive(Debug, Clone)]
pub struct Entry {
    pub key: String,
    pub value: String,
}

/// The map that a sequence of entries stands for, later entries winning.
pub open spec fn entries_map(es: Seq<Entry>) -> Map<Seq<char>, Seq<char>>
    decreases es.len(),
{
    if es.len() == 0 {
        Map::<Seq<char>, Seq<char>>::empty()
    } else {
        entries_map(es.drop_last()).insert(es.last().key@, es.last().value@)
    }
}

/// No two entries share a key.
pub open spec fn distinct_keys(es: Seq<Entry>) -> bool {
    forall|i: int, j: int| 0 <= i < j < es.len() ==> es[i].key@ != es[j].key@
}

/// With distinct keys, each entry's key maps to its value, nothing else is in
/// the map, and the map has as many keys as there are entries.
pub proof fn lemma_entries_map(es: Seq<Entry>)
    requires
        distinct_keys(es),
    ensures
        forall|i: int|
            0 <= i < es.len() ==> entries_map(es).contains_key(#[trigger] es[i].key@)
                && entries_map(es)[es[i].key@] == es[i].value@,
        forall|k: Seq<char>|
            entries_map(es).contains_key(k) ==> exists|i: int|
                0 <= i < es.len() && #[trigger] es[i].key@ == k,
        entries_map(es).dom().finite(),
        entries_map(es).dom().len() == es.len(),
    decreases es.len(),
{
    if es.len() > 0 {
        let before = es.drop_last();
        lemma_entries_map(before);
        let m = entries_map(before);
        assert forall|i: int| 0 <= i < es.len() implies entries_map(es).contains_key(
            #[trigger] es[i].key@,
        ) && entries_map(es)[es[i].key@] == es[i].value@ by {
            if i < es.len() - 1 {
                assert(before[i] == es[i]);
            }
        }
        assert forall|k: Seq<char>| entries_map(es).contains_key(k) implies exists|i: int|
            0 <= i < es.len() && #[trigger] es[i].key@ == k by {
            if k == es.last().key@ {
                assert(es[es.len() - 1].key@ == k);
            } else {
                assert(m.contains_key(k));
                let i = choose|i: int| 0 <= i < before.len() && #[trigger] before[i].key@ == k;
                assert(es[i].key@ == k);
            }
        }
        if m.contains_key(es.last().key@) {
            let i = choose|i: int|
                0 <= i < before.len() && #[trigger] before[i].key@ == es.last().key@;
            assert(es[i].key@ == es[es.len() - 1].key@);
        }
        assert(entries_map(es).dom() =~= m.dom().insert(es.last().key@));
    }
}

/// Replacing the value of an entry replaces the value of its key in the map.
pub proof fn lemma_entries_map_update(es: Seq<Entry>, i: int, e: Entry)
    requires
        distinct_keys(es),
        0 <= i < es.len(),
        e.key@ == es[i].key@,
    ensures
        distinct_keys(es.update(i, e)),
        entries_map(es.update(i, e)) == entries_map(es).insert(e.key@, e.value@),
    decreases es.len(),
{
    let after = es.update(i, e);
    if i == es.len() - 1 {
        assert(after.drop_last() =~= es.drop_last());
        assert(entries_map(after) =~= entries_map(es).insert(e.key@, e.value@));
    } else {
        lemma_entries_map_update(es.drop_last(), i, e);
        assert(after.drop_last() =~= es.drop_last().update(i, e));
        assert(after.last() == es.last());
        assert(es[es.len() - 1].key@ != es[i].key@);
        assert(entries_map(after) =~= entries_map(es).insert(e.key@, e.value@));
    }
}

/// A finite map from text to text.
#[derive(Debug, Clone)]
pub struct TextMap {
    entries: Vec<Entry>,
}

impl View for TextMap {
    type V = Map<Seq<char>, Seq<char>>;

    closed spec fn view(&self) -> Map<Seq<char>, Seq<char>> {
        entries_map(self.entries@)
    }
}

impl TextMap {
    /// No key stands twice. Every function that hands out a map establishes
    /// this, and every function that changes one keeps it.
    pub closed spec fn wf(&self) -> bool {
        distinct_keys(self.entries@)
    }

    /// The empty map.
    pub fn new() -> (r: TextMap)
        ensures
            r.wf(),
            r@ == Map::<Seq<char>, Seq<char>>::empty(),
    {
        TextMap { entries: Vec::new() }
    }

    /// The position of the entry with the given key.
    fn position(&self, key: &Vec<char>) -> (r: Option<usize>)
        ensures
            match r {
                Some(i) => i < self.entries@.len() && self.entries@[i as int].key@ == key@,
                None => forall|i: int|
                    0 <= i < self.entries@.len() ==> (#[trigger] self.entries@[i]).key@ != key@,
            },
    {
        let mut i: usize = 0;
        while i < self.entries.len()
            invariant
                i <= self.entries@.len(),
                forall|j: int| 0 <= j < i ==> (#[trigger] self.entries@[j]).key@ != key@,
            decreases self.entries@.len() - i,
        {
            let have = chars_of(self.entries[i].key.as_str());
            assert(have@.subrange(0, have@.len() as int) =~= have@);
            if span_equals(&have, 0, have.len(), key) {
                return Some(i);
            }
            i = i + 1;
        }
        None
    }

    /// Maps `key` to `value`, in place of what it was mapped to.
    pub fn insert(&mut self, key: String, value: String)
        requires
            old(self).wf(),
        ensures
            final(self).wf(),
            final(self)@ == old(self)@.insert(key@, value@),
    {
        let want = chars_of(key.as_str());
        match self.position(&want) {
            Some(i) => {
                proof {
                    lemma_entries_map_update(self.entries@, i as int, Entry { key, value });
                }
                self.entries.set(i, Entry { key, value });
            },
            None => {
                let ghost before = self.entries@;
                self.entries.push(Entry { key, value });
                assert(self.entries@.drop_last() =~= before);
            },
        }
    }

    /// What `key` is mapped to, if anything.
    pub fn get(&self, key: &str) -> (r: Option<&String>)
        requires
            self.wf(),
        ensures
            match r {
                Some(v) => self@.contains_key(key@) && v@ == self@[key@],
                None => !self@.contains_key(key@),
            },
    {
        proof {
            lemma_entries_map(self.entries@);
        }
        let want = chars_of(key);
        match self.position(&want) {
            Some(i) => Some(&self.entries[i].value),
            None => None,
        }
    }

    /// The number of keys.
    pub fn len(&self) -> (r: usize)
        requires
            self.wf(),
        ensures
            r == self@.dom().len(),
            self@.dom().finite(),
    {
        proof {
            lemma_entries_map(self.entries@);
        }
        self.entries.len()
    }

    /// The entries, one for each key, in the order in which the keys first
    /// came in.
    pub fn entries(&self) -> (r: &Vec<Entry>)
        requires
            self.wf(),
        ensures
            distinct_keys(r@),
            entries_map(r@) == self@,
    {
        &self.entries
    }

    /// The map as its list of entries.
    pub fn into_entries(self) -> (r: Vec<Entry>)
        requires
            self.wf(),
        ensures
            distinct_keys(r@),
            entries_map(r@) == self@,
    {
        self.entries
    }

    /// Takes `key` out of the map, if it is there.
    pub fn remove(&mut self, key: &str)
        requires
            old(self).wf(),
        ensures
            final(self).wf(),
            final(self)@ == old(self)@.remove(key@),
    {
        let want = chars_of(key);
        proof {
            lemma_entries_map(self.entries@);
        }
        match self.position(&want) {
            Some(i) => {
                proof {
                    lemma_entries_map_remove(self.entries@, i as int);
                }
                self.entries.remove(i);
            },
            None => {
                assert(self@ =~= self@.remove(key@));
            },
        }
    }
}

/// Taking an entry out of the list takes its key out of the map.
pub proof fn lemma_entries_map_remove(es: Seq<Entry>, i: int)
    requires
        distinct_keys(es),
        0 <= i < es.len(),
    ensures
        distinct_keys(es.remove(i)),
        entries_map(es.remove(i)) == entries_map(es).remove(es[i].key@),
    decreases es.len(),
{
    let after = es.remove(i);
    lemma_entries_map(es.drop_last());
    if i == es.len() - 1 {
        assert(after =~= es.drop_last());
        if entries_map(after).contains_key(es[i].key@) {
            let j = choose|j: int| 0 <= j < after.len() && #[trigger] after[j].key@ == es[i].key@;
            assert(es[j].key@ == es[i].key@);
        }
        assert(entries_map(after) =~= entries_map(es).remove(es[i].key@));
    } else {
        lemma_entries_map_remove(es.drop_last(), i);
        assert(after.drop_last() =~= es.drop_last().remove(i));
        assert(after.last() == es.last());
        assert(es[es.len() - 1].key@ != es[i].key@);
        assert(entries_map(after) =~= entries_map(es).remove(es[i].key@));
    }
}

} // verus!
