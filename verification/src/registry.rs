use crate::order::{key_le, key_le_total, key_le_transitive, key_precedes};
use crate::types::{entries_view, keys_view, SubgraphEntry, SubgraphKey};
use vstd::prelude::*;

verus! {

/// A registered subgraph as a mathematical value: its key and its SDL.
pub type EntryView = ((Seq<char>, Seq<char>), Seq<char>);

/// No key occurs twice.
pub open spec fn distinct_keys(entries: Seq<EntryView>) -> bool {
    forall|i: int, j: int| 0 <= i < j < entries.len() ==> entries[i].0 != entries[j].0
}

/// `at` is the place of the entry with this key.
pub open spec fn is_place_of_key(
    entries: Seq<EntryView>,
    key: (Seq<char>, Seq<char>),
    at: int,
) -> bool {
    0 <= at < entries.len() && entries[at].0 == key
}

/// `at` is the place of the earliest entry with this name.
pub open spec fn is_first_named(entries: Seq<EntryView>, name: Seq<char>, at: int) -> bool {
    &&& 0 <= at < entries.len()
    &&& entries[at].0.0 == name
    &&& forall|j: int| 0 <= j < at ==> (#[trigger] entries[j].0).0 != name
}

/// Some entry has exactly this key.
pub open spec fn has_key(entries: Seq<EntryView>, key: (Seq<char>, Seq<char>)) -> bool {
    exists|at: int| is_place_of_key(entries, key, at)
}

/// Some entry has this name, whatever its routing URL: then one of them is
/// the earliest.
pub open spec fn has_name(entries: Seq<EntryView>, name: Seq<char>) -> bool {
    exists|at: int| is_first_named(entries, name, at)
}

/// Wherever an entry of a name stands, the registry has that name.
pub proof fn named_entry_has_name(entries: Seq<EntryView>, name: Seq<char>, at: int)
    requires
        0 <= at < entries.len(),
        entries[at].0.0 == name,
    ensures
        has_name(entries, name),
    decreases at,
{
    if forall|j: int| 0 <= j < at ==> (#[trigger] entries[j].0).0 != name {
        assert(is_first_named(entries, name, at));
    } else {
        let earlier = choose|j: int| 0 <= j < at && (#[trigger] entries[j].0).0 == name;
        named_entry_has_name(entries, name, earlier);
    }
}

/// The entries stand in the order of their keys: by name, then by routing
/// URL.
pub open spec fn sorted_by_key(entries: Seq<EntryView>) -> bool {
    forall|i: int, j: int| 0 <= i < j < entries.len() ==> key_le(entries[i].0, entries[j].0)
}

/// The keys of the entries, in order.
pub open spec fn keys_of(entries: Seq<EntryView>) -> Seq<(Seq<char>, Seq<char>)> {
    entries.map_values(|e: EntryView| e.0)
}

/// The leader's record of the subgraphs it serves, in the order in which
/// they were added. No key is held twice.
#[derive(Debug, PartialEq, Eq)]
pub struct SubgraphRegistry {
    entries: Vec<SubgraphEntry>,
}

impl View for SubgraphRegistry {
    type V = Seq<EntryView>;

    closed spec fn view(&self) -> Seq<EntryView> {
        entries_view(self.entries@)
    }
}

impl SubgraphRegistry {
    /// The registry's invariant.
    pub open spec fn wf(&self) -> bool {
        distinct_keys(self@)
    }

    /// An empty registry.
    pub fn new() -> (registry: SubgraphRegistry)
        ensures
            registry@ == Seq::<EntryView>::empty(),
            registry.wf(),
    {
        let registry = SubgraphRegistry { entries: Vec::new() };
        assert(registry@ =~= Seq::<EntryView>::empty());
        registry
    }

    /// The number of registered subgraphs.
    pub fn len(&self) -> (n: usize)
        ensures
            n == self@.len(),
    {
        self.entries.len()
    }

    /// True when nothing is registered.
    pub fn is_empty(&self) -> (empty: bool)
        ensures
            empty == (self@.len() == 0),
    {
        self.entries.len() == 0
    }

    /// The entry at a place.
    pub fn entry(&self, at: usize) -> (entry: &SubgraphEntry)
        requires
            at < self@.len(),
        ensures
            entry@ == self@[at as int],
    {
        &self.entries[at]
    }

    /// Finds the entry with exactly this key.
    pub fn position(&self, key: &SubgraphKey) -> (found: Option<usize>)
        ensures
            match found {
                Some(at) => is_place_of_key(self@, key@, at as int),
                None => !has_key(self@, key@),
            },
    {
        let mut i: usize = 0;
        while i < self.entries.len()
            invariant
                i <= self.entries.len(),
                forall|j: int| 0 <= j < i ==> !is_place_of_key(self@, key@, j),
            decreases self.entries.len() - i,
        {
            if self.entries[i].key.same_as(key) {
                return Some(i);
            }
            i += 1;
        }
        assert forall|at: int| !is_place_of_key(self@, key@, at) by {
            if 0 <= at < self@.len() {
                assert(!is_place_of_key(self@, key@, at));
            }
        }
        None
    }

    /// Finds the earliest entry with this name, whatever its routing URL.
    pub fn position_of_name(&self, name: &String) -> (found: Option<usize>)
        ensures
            match found {
                Some(at) => is_first_named(self@, name@, at as int),
                None => !has_name(self@, name@),
            },
    {
        let mut i: usize = 0;
        while i < self.entries.len()
            invariant
                i <= self.entries.len(),
                forall|j: int| 0 <= j < i ==> (#[trigger] self@[j].0).0 != name@,
            decreases self.entries.len() - i,
        {
            if self.entries[i].key.name == *name {
                return Some(i);
            }
            i += 1;
        }
        assert forall|at: int| !is_first_named(self@, name@, at) by {
            if 0 <= at < self@.len() {
                assert((self@[at].0).0 != name@);
            }
        }
        None
    }

    /// Appends an entry unless its exact key is already held, and tells
    /// whether it did.
    pub fn insert(&mut self, entry: SubgraphEntry) -> (inserted: bool)
        requires
            old(self).wf(),
        ensures
            final(self).wf(),
            inserted == !has_key(old(self)@, entry@.0),
            final(self)@ == if inserted {
                old(self)@.push(entry@)
            } else {
                old(self)@
            },
    {
        if self.position(&entry.key).is_some() {
            return false;
        }
        self.entries.push(entry);
        assert(self@ =~= old(self)@.push(entry@));
        assert forall|i: int, j: int| 0 <= i < j < self@.len() implies self@[i].0 != self@[j].0 by {
            if j == old(self)@.len() {
                assert(!is_place_of_key(old(self)@, entry@.0, i));
            } else {
                assert(old(self)@[i].0 != old(self)@[j].0);
            }
        }
        true
    }

    /// Replaces the SDL of the entry at a place.
    pub fn set_sdl(&mut self, at: usize, sdl: String)
        requires
            old(self).wf(),
            at < old(self)@.len(),
        ensures
            final(self).wf(),
            final(self)@ == old(self)@.update(at as int, (old(self)@[at as int].0, sdl@)),
    {
        let key = self.entries[at].key.clone();
        self.entries.set(at, SubgraphEntry { key, sdl });
        assert(self@ =~= old(self)@.update(at as int, (old(self)@[at as int].0, sdl@)));
        assert forall|i: int, j: int| 0 <= i < j < self@.len() implies self@[i].0 != self@[j].0 by {
            assert(old(self)@[i].0 != old(self)@[j].0);
        }
    }

    /// Takes the entry at a place out; the others keep their order.
    pub fn remove_at(&mut self, at: usize) -> (removed: SubgraphEntry)
        requires
            old(self).wf(),
            at < old(self)@.len(),
        ensures
            final(self).wf(),
            final(self)@ == old(self)@.remove(at as int),
            removed@ == old(self)@[at as int],
    {
        let removed = self.entries.remove(at);
        assert(self@ =~= old(self)@.remove(at as int));
        assert forall|i: int, j: int| 0 <= i < j < self@.len() implies self@[i].0 != self@[j].0 by {
            let oi = if i < at { i } else { i + 1 };
            let oj = if j < at { j } else { j + 1 };
            assert(old(self)@[oi].0 != old(self)@[oj].0);
        }
        removed
    }

    /// A snapshot of the keys, in the registry's order.
    pub fn list(&self) -> (keys: Vec<SubgraphKey>)
        ensures
            keys_view(keys@) == keys_of(self@),
    {
        let mut keys: Vec<SubgraphKey> = Vec::new();
        let mut i: usize = 0;
        while i < self.entries.len()
            invariant
                i <= self.entries.len(),
                keys@.len() == i,
                forall|j: int| 0 <= j < i ==> (#[trigger] keys@[j])@ == self@[j].0,
            decreases self.entries.len() - i,
        {
            keys.push(self.entries[i].key.clone());
            i += 1;
        }
        assert(keys_view(keys@) =~= keys_of(self@));
        keys
    }

    /// The entries in the order of their keys, which does not depend on the
    /// order in which they were added: the same entries, each as often as
    /// the registry holds it.
    pub fn sorted(&self) -> (sorted: Vec<SubgraphEntry>)
        ensures
            sorted_by_key(entries_view(sorted@)),
            entries_view(sorted@).to_multiset() == self@.to_multiset(),
    {
        let mut sorted: Vec<SubgraphEntry> = Vec::new();
        let mut i: usize = 0;
        proof {
            assert(self@.take(0) =~= Seq::<EntryView>::empty());
            assert(entries_view(sorted@) =~= Seq::<EntryView>::empty());
        }
        while i < self.entries.len()
            invariant
                i <= self.entries.len(),
                sorted_by_key(entries_view(sorted@)),
                entries_view(sorted@).to_multiset() == self@.take(i as int).to_multiset(),
            decreases self.entries.len() - i,
        {
            let entry = &self.entries[i];
            let mut at: usize = 0;
            while at < sorted.len() && key_precedes(
                sorted[at].key.name.as_str(),
                sorted[at].key.url.as_str(),
                entry.key.name.as_str(),
                entry.key.url.as_str(),
            )
                invariant
                    at <= sorted.len(),
                    entry@ == self@[i as int],
                    forall|k: int| 0 <= k < at ==> key_le(#[trigger] sorted@[k]@.0, entry@.0),
                decreases sorted.len() - at,
            {
                at += 1;
            }
            let ghost before = entries_view(sorted@);
            sorted.insert(at, entry.clone());
            proof {
                let after = entries_view(sorted@);
                assert(after =~= before.insert(at as int, entry@));
                vstd::seq_lib::to_multiset_insert(before, at as int, entry@);
                assert(self@.take(i + 1) =~= self@.take(i as int).push(entry@));
                vstd::seq_lib::to_multiset_build(self@.take(i as int), entry@);
                assert forall|x: int, y: int| 0 <= x < y < after.len() implies key_le(
                    after[x].0,
                    after[y].0,
                ) by {
                    if y < at {
                        assert(key_le(before[x].0, before[y].0));
                    } else if y == at {
                        assert(after[x] == before[x]);
                    } else if x == at {
                        key_le_total(before[at as int].0, entry@.0);
                        if y - 1 > at {
                            assert(key_le(before[at as int].0, before[y - 1].0));
                            key_le_transitive(entry@.0, before[at as int].0, before[y - 1].0);
                        }
                    } else if x < at {
                        assert(key_le(before[x].0, before[y - 1].0));
                    } else {
                        assert(key_le(before[x - 1].0, before[y - 1].0));
                    }
                }
            }
            i += 1;
        }
        proof {
            assert(self@.take(i as int) =~= self@);
        }
        sorted
    }
}

} // verus!
