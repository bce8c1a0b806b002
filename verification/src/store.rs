//! An in-memory record store with put/get over flat string keys.
//!
//! This is the shape of store the dispatcher drives: an opaque key space
//! mapping to serialized record values, where a put overwrites whatever the
//! key held before. It serves both as a standalone backing store and as the
//! reference model of the external distributed store's put/get interface —
//! the coordination layer never relies on anything beyond this map view.

use vstd::prelude::*;

verus! {

/// The map a sequence of writes denotes: later writes win.
pub open spec fn map_of(entries: Seq<(String, String)>) -> Map<Seq<char>, Seq<char>>
    decreases entries.len(),
{
    if entries.len() == 0 {
        Map::empty()
    } else {
        map_of(entries.drop_last()).insert(entries.last().0@, entries.last().1@)
    }
}

/// If position `i` holds key `k` and nothing after it does, the write log
/// denotes a map that sends `k` to the value written at `i`.
proof fn lemma_map_of_found(entries: Seq<(String, String)>, k: Seq<char>, i: int)
    requires
        0 <= i < entries.len(),
        entries[i].0@ == k,
        forall|j: int| i < j < entries.len() ==> (#[trigger] entries[j]).0@ != k,
    ensures
        map_of(entries).contains_key(k),
        map_of(entries)[k] == entries[i].1@,
    decreases entries.len(),
{
    if i == entries.len() - 1 {
    } else {
        assert(entries.drop_last()[i] == entries[i]);
        lemma_map_of_found(entries.drop_last(), k, i);
    }
}

/// If no position holds key `k`, the write log denotes a map without `k`.
proof fn lemma_map_of_absent(entries: Seq<(String, String)>, k: Seq<char>)
    requires
        forall|j: int| 0 <= j < entries.len() ==> (#[trigger] entries[j]).0@ != k,
    ensures
        !map_of(entries).contains_key(k),
    decreases entries.len(),
{
    if entries.len() > 0 {
        lemma_map_of_absent(entries.drop_last(), k);
    }
}

/// An in-memory record store: a log of writes viewed as the map they denote.
pub struct MemStore {
    entries: Vec<(String, String)>,
}

impl MemStore {
    /// The store's contents as a map from keys to record values.
    pub closed spec fn view(&self) -> Map<Seq<char>, Seq<char>> {
        map_of(self.entries@)
    }

    /// Creates an empty store.
    pub fn new() -> (store: MemStore)
        ensures
            store@ == Map::<Seq<char>, Seq<char>>::empty(),
    {
        MemStore { entries: Vec::new() }
    }

    /// Stores `value` under `key`, replacing any record the key held.
    pub fn put(&mut self, key: String, value: String)
        ensures
            final(self)@ == old(self)@.insert(key@, value@),
    {
        let ghost pre = self.entries@;
        self.entries.push((key, value));
        proof {
            assert(self.entries@.drop_last() =~= pre);
        }
    }

    /// Looks up the record stored under `key`, if any.
    pub fn get(&self, key: &String) -> (r: Option<String>)
        ensures
            r.is_some() == self@.contains_key(key@),
            r.is_some() ==> r->Some_0@ == self@[key@],
    {
        let mut i: usize = self.entries.len();
        while i > 0
            invariant
                i <= self.entries.len(),
                forall|j: int|
                    i <= j < self.entries.len() ==> (#[trigger] self.entries@[j]).0@ != key@,
            decreases i,
        {
            i = i - 1;
            if self.entries[i].0.eq(key) {
                proof {
                    lemma_map_of_found(self.entries@, key@, i as int);
                }
                return Some(self.entries[i].1.clone());
            }
        }
        proof {
            lemma_map_of_absent(self.entries@, key@);
        }
        None
    }
}

} // verus!
