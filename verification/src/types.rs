use vstd::prelude::*;

verus! {

/// Identity of a subgraph: its name and the serialized form of its routing URL.
#[derive(Debug, PartialEq, Eq)]
pub struct SubgraphKey {
    pub name: String,
    pub url: String,
}

impl View for SubgraphKey {
    type V = (Seq<char>, Seq<char>);

    open spec fn view(&self) -> (Seq<char>, Seq<char>) {
        (self.name@, self.url@)
    }
}

impl Clone for SubgraphKey {
    fn clone(&self) -> (copy: SubgraphKey)
        ensures
            copy@ == self@,
    {
        SubgraphKey { name: self.name.clone(), url: self.url.clone() }
    }
}

impl SubgraphKey {
    /// Builds a key from a subgraph name and a routing URL.
    pub fn new(name: String, url: String) -> (key: SubgraphKey)
        ensures
            key@ == (name@, url@),
    {
        SubgraphKey { name, url }
    }

    /// True when both the name and the routing URL agree.
    pub fn same_as(&self, other: &SubgraphKey) -> (same: bool)
        ensures
            same == (self@ == other@),
    {
        self.name == other.name && self.url == other.url
    }
}

/// A subgraph key together with the SDL it currently serves.
#[derive(Debug, PartialEq, Eq)]
pub struct SubgraphEntry {
    pub key: SubgraphKey,
    pub sdl: String,
}

impl View for SubgraphEntry {
    type V = ((Seq<char>, Seq<char>), Seq<char>);

    open spec fn view(&self) -> ((Seq<char>, Seq<char>), Seq<char>) {
        (self.key@, self.sdl@)
    }
}

impl Clone for SubgraphEntry {
    fn clone(&self) -> (copy: SubgraphEntry)
        ensures
            copy@ == self@,
    {
        SubgraphEntry { key: self.key.clone(), sdl: self.sdl.clone() }
    }
}

impl SubgraphEntry {
    /// Builds an entry from its three parts.
    pub fn new(name: String, url: String, sdl: String) -> (entry: SubgraphEntry)
        ensures
            entry@ == ((name@, url@), sdl@),
    {
        SubgraphEntry { key: SubgraphKey { name, url }, sdl }
    }
}

/// The views of a list of keys, in order.
pub open spec fn keys_view(keys: Seq<SubgraphKey>) -> Seq<(Seq<char>, Seq<char>)> {
    keys.map_values(|k: SubgraphKey| k@)
}

/// The views of a list of entries, in order.
pub open spec fn entries_view(entries: Seq<SubgraphEntry>) -> Seq<
    ((Seq<char>, Seq<char>), Seq<char>),
> {
    entries.map_values(|e: SubgraphEntry| e@)
}

/// What the composer hands back: an error text, no new schema, or a new schema.
pub type CompositionResult = Result<Option<String>, String>;

} // verus!
