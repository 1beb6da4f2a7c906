//! A registry: one category's entries in order, with an index from display
//! name and one from identifier to the entry's position.

use vstd::prelude::*;
use vstd::hash_map::StringHashMap;
use crate::schema::CodeData;

verus! {

/// The two keys by which a registry finds an entry.
#[derive(Clone, Copy, Debug, PartialEq, Eq, Structural)]
pub enum Key {
    /// The display name.
    Name,
    /// The identifier.
    Identifier,
}

/// The key of the given kind that an entry carries itself, where it has
/// one. The entries nested under it have no part in it.
pub open spec fn key_of(entry: CodeData, kind: Key) -> Option<Seq<char>> {
    match kind {
        Key::Name => entry.name_view(),
        Key::Identifier => entry.identifier_view(),
    }
}

/// The position of the last entry of `items` that carries `key`, where
/// there is one.
pub open spec fn last_position(items: Seq<CodeData>, kind: Key, key: Seq<char>) -> Option<int>
    decreases items.len(),
{
    if items.len() == 0 {
        None
    } else if key_of(items.last(), kind) == Some(key) {
        Some(items.len() - 1)
    } else {
        last_position(items.drop_last(), kind, key)
    }
}

/// The entry that a lookup of `key` finds in `items`.
pub open spec fn lookup(items: Seq<CodeData>, kind: Key, key: Seq<char>) -> Option<CodeData> {
    match last_position(items, kind, key) {
        Some(position) => Some(items[position]),
        None => None,
    }
}

/// Whether `index` sends exactly the keys that occur in `items` to the
/// position of their last occurrence.
spec fn indexes(index: Map<Seq<char>, usize>, items: Seq<CodeData>, kind: Key) -> bool {
    &&& forall|key: Seq<char>| #[trigger]
        index.contains_key(key) <==> last_position(items, kind, key) is Some
    &&& forall|key: Seq<char>| #[trigger]
        index.contains_key(key) ==> last_position(items, kind, key) == Some(index[key] as int)
}

/// A position that `last_position` gives lies within the list, holds an
/// entry with the key, and no later entry has the key.
pub proof fn lemma_last_position_is_last(items: Seq<CodeData>, kind: Key, key: Seq<char>)
    ensures
        match last_position(items, kind, key) {
            Some(position) => {
                &&& 0 <= position < items.len()
                &&& key_of(items[position], kind) == Some(key)
                &&& forall|later: int|
                    position < later < items.len() ==> key_of(#[trigger] items[later], kind)
                        != Some(key)
            },
            None => forall|at: int|
                0 <= at < items.len() ==> key_of(#[trigger] items[at], kind) != Some(key),
        },
    decreases items.len(),
{
    if items.len() > 0 && key_of(items.last(), kind) != Some(key) {
        let front = items.drop_last();
        lemma_last_position_is_last(front, kind, key);
        assert forall|at: int| 0 <= at < front.len() implies front[at] == items[at] by {}
    }
}

/// Whether `child` stands directly in one of the nested lists of `parent`.
pub open spec fn nested_in(child: CodeData, parent: CodeData) -> bool {
    ||| parent.tags is Some && parent.tags->0@.contains(child)
    ||| parent.options is Some && parent.options->0@.contains(child)
    ||| parent.purchasables is Some && parent.purchasables->0@.contains(child)
}

/// An entry that carries a key, with no later entry carrying the same key,
/// is the one that a lookup of its key finds.
pub proof fn lemma_unshadowed_entry_is_found(
    items: Seq<CodeData>,
    kind: Key,
    key: Seq<char>,
    at: int,
)
    requires
        0 <= at < items.len(),
        key_of(items[at], kind) == Some(key),
        forall|later: int|
            at < later < items.len() ==> key_of(#[trigger] items[later], kind) != Some(key),
    ensures
        last_position(items, kind, key) == Some(at),
        lookup(items, kind, key) == Some(items[at]),
{
    lemma_last_position_is_last(items, kind, key);
}

/// Of two entries that carry the same key the earlier is never the one
/// found: the lookup finds an entry at the later one's position or after
/// it, and the later one itself where nothing after it carries the key.
pub proof fn lemma_later_entry_wins(
    items: Seq<CodeData>,
    kind: Key,
    key: Seq<char>,
    earlier: int,
    later: int,
)
    requires
        0 <= earlier < later < items.len(),
        key_of(items[earlier], kind) == Some(key),
        key_of(items[later], kind) == Some(key),
    ensures
        last_position(items, kind, key) is Some,
        last_position(items, kind, key)->0 >= later,
        last_position(items, kind, key) != Some(earlier),
        (forall|after: int|
            later < after < items.len() ==> key_of(#[trigger] items[after], kind) != Some(key))
            ==> lookup(items, kind, key) == Some(items[later]),
{
    lemma_last_position_is_last(items, kind, key);
}

/// A key that none of the entries carries finds nothing. So nothing is
/// found in an empty list, whatever the key.
pub proof fn lemma_absent_key_misses(items: Seq<CodeData>, kind: Key, key: Seq<char>)
    requires
        forall|at: int| 0 <= at < items.len() ==> key_of(#[trigger] items[at], kind) != Some(key),
    ensures
        lookup(items, kind, key) is None,
{
    lemma_last_position_is_last(items, kind, key);
}

/// What a lookup finds is one of the list's own entries, and it carries
/// the key itself.
pub proof fn lemma_found_entry_is_top_level(items: Seq<CodeData>, kind: Key, key: Seq<char>)
    ensures
        match lookup(items, kind, key) {
            Some(entry) => items.contains(entry) && key_of(entry, kind) == Some(key),
            None => true,
        },
{
    lemma_last_position_is_last(items, kind, key);
}

/// The index is shallow: a key that only a nested entry carries finds
/// nothing, though no other entry anywhere has that key.
pub proof fn lemma_nested_entry_is_not_indexed(
    items: Seq<CodeData>,
    kind: Key,
    key: Seq<char>,
    parent: int,
    child: CodeData,
)
    requires
        0 <= parent < items.len(),
        nested_in(child, items[parent]),
        key_of(child, kind) == Some(key),
        forall|at: int| 0 <= at < items.len() ==> key_of(#[trigger] items[at], kind) != Some(key),
    ensures
        lookup(items, kind, key) is None,
{
    lemma_absent_key_misses(items, kind, key);
}

/// The index is shallow: two lists whose entries carry the same keys,
/// position by position, send every key to the same position, whatever is
/// nested under their entries.
pub proof fn lemma_position_ignores_nested_entries(
    left: Seq<CodeData>,
    right: Seq<CodeData>,
    kind: Key,
    key: Seq<char>,
)
    requires
        left.len() == right.len(),
        forall|at: int|
            0 <= at < left.len() ==> key_of(#[trigger] left[at], kind) == key_of(
                right[at],
                kind,
            ),
    ensures
        last_position(left, kind, key) == last_position(right, kind, key),
{
    lemma_last_position_is_last(left, kind, key);
    lemma_last_position_is_last(right, kind, key);
    match last_position(left, kind, key) {
        Some(position) => {
            assert(key_of(left[position], kind) == key_of(right[position], kind));
            assert forall|later: int| position < later < right.len() implies key_of(
                #[trigger] right[later],
                kind,
            ) != Some(key) by {
                assert(key_of(left[later], kind) == key_of(right[later], kind));
            }
            lemma_unshadowed_entry_is_found(right, kind, key, position);
        },
        None => {
            match last_position(right, kind, key) {
                Some(position) => {
                    assert(key_of(left[position], kind) == key_of(right[position], kind));
                },
                None => {},
            }
        },
    }
}

/// A registry holding a category's entries and an index from each of the
/// two keys to the position of the entry that carries it. The indices are
/// made from the entries and from nothing else.
pub struct CodeRegistry {
    items: Vec<CodeData>,
    by_name: StringHashMap<usize>,
    by_id: StringHashMap<usize>,
}

impl View for CodeRegistry {
    type V = Seq<CodeData>;

    /// The entries, in order.
    closed spec fn view(&self) -> Seq<CodeData> {
        self.items@
    }
}

impl CodeRegistry {
    #[verifier::type_invariant]
    spec fn well_formed(&self) -> bool {
        &&& indexes(self.by_name@, self.items@, Key::Name)
        &&& indexes(self.by_id@, self.items@, Key::Identifier)
    }

    /// Create a registry from a list of entries. Of several entries with
    /// one name, or with one identifier, the last is the one indexed.
    pub fn new(items: Vec<CodeData>) -> (registry: Self)
        ensures
            registry@ == items@,
    {
        let mut by_name: StringHashMap<usize> = StringHashMap::new();
        let mut by_id: StringHashMap<usize> = StringHashMap::new();
        let mut at: usize = 0;
        while at < items.len()
            invariant
                at <= items.len(),
                indexes(by_name@, items@.take(at as int), Key::Name),
                indexes(by_id@, items@.take(at as int), Key::Identifier),
            decreases items.len() - at,
        {
            let entry = &items[at];
            match &entry.name {
                Some(name) => by_name.insert(name.clone(), at),
                None => {},
            }
            match &entry.identifier {
                Some(identifier) => by_id.insert(identifier.clone(), at),
                None => {},
            }
            proof {
                let seen = items@.take(at + 1);
                assert(seen.drop_last() == items@.take(at as int));
                assert(seen.last() == items@[at as int]);
            }
            at += 1;
        }
        proof {
            assert(items@.take(at as int) == items@);
        }
        CodeRegistry { items, by_name, by_id }
    }

    /// The entries of this registry, in order.
    pub fn items(&self) -> (items: &Vec<CodeData>)
        ensures
            items@ == self@,
    {
        &self.items
    }

    /// Give the entries back, in order, and drop the indices.
    pub fn into_items(self) -> (items: Vec<CodeData>)
        ensures
            items@ == self@,
    {
        self.items
    }

    /// Fetch an entry by its `name`: the last of the registry's own entries
    /// that has this name, and `None` where none has it.
    pub fn get_by_name(&self, name: String) -> (found: Option<&CodeData>)
        ensures
            match found {
                Some(entry) => lookup(self@, Key::Name, name@) == Some(*entry),
                None => lookup(self@, Key::Name, name@) is None,
            },
    {
        proof {
            use_type_invariant(self);
            lemma_last_position_is_last(self.items@, Key::Name, name@);
        }
        match self.by_name.get(name.as_str()) {
            Some(position) => Some(&self.items[*position]),
            None => None,
        }
    }

    /// Fetch an entry by its `identifier`: the last of the registry's own
    /// entries that has this identifier, and `None` where none has it.
    pub fn get_by_id(&self, id: String) -> (found: Option<&CodeData>)
        ensures
            match found {
                Some(entry) => lookup(self@, Key::Identifier, id@) == Some(*entry),
                None => lookup(self@, Key::Identifier, id@) is None,
            },
    {
        proof {
            use_type_invariant(self);
            lemma_last_position_is_last(self.items@, Key::Identifier, id@);
        }
        match self.by_id.get(id.as_str()) {
            Some(position) => Some(&self.items[*position]),
            None => None,
        }
    }
}

impl From<Vec<CodeData>> for CodeRegistry {
    /// The registry of a list of entries, as `CodeRegistry::new` makes it.
    fn from(items: Vec<CodeData>) -> (registry: Self)
        ensures
            registry@ == items@,
    {
        CodeRegistry::new(items)
    }
}

/// A registry has no value in specifications apart from its entries, so
/// the conversion carries its contract on `from` itself.
impl vstd::std_specs::convert::FromSpecImpl<Vec<CodeData>> for CodeRegistry {
    open spec fn obeys_from_spec() -> bool {
        false
    }

    open spec fn from_spec(items: Vec<CodeData>) -> Self {
        arbitrary()
    }
}

impl From<CodeRegistry> for Vec<CodeData> {
    /// The entries of a registry, in order, without its indices.
    fn from(registry: CodeRegistry) -> (items: Self)
        ensures
            items@ == registry@,
    {
        registry.items
    }
}

impl vstd::std_specs::convert::FromSpecImpl<CodeRegistry> for Vec<CodeData> {
    open spec fn obeys_from_spec() -> bool {
        true
    }

    closed spec fn from_spec(registry: CodeRegistry) -> Self {
        registry.items
    }
}

/// Rebuilding changes nothing: a registry made from the entries that
/// another registry gave back holds the list that the other was made
/// from, in the same order, and finds the same entry under every key.
pub proof fn lemma_rebuilt_registry_is_same(
    list: Seq<CodeData>,
    first: CodeRegistry,
    given_back: Seq<CodeData>,
    second: CodeRegistry,
    kind: Key,
    key: Seq<char>,
)
    requires
        first@ == list,
        given_back == first@,
        second@ == given_back,
    ensures
        second@ == list,
        lookup(second@, kind, key) == lookup(list, kind, key),
{
}

} // verus!
