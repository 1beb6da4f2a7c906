//! A database: one registry for each category of an action dump.

use vstd::prelude::*;
use vstd::hash_map::StringHashMap;
use crate::schema::CodeData;
use crate::registry::CodeRegistry;

verus! {

/// The mapping that a list of categories with their entries stands for:
/// from each category's name to its entries. Where a name comes twice, the
/// later list is the one kept.
pub open spec fn category_map(values: Seq<(String, Vec<CodeData>)>) -> Map<Seq<char>, Seq<CodeData>>
    decreases values.len(),
{
    if values.len() == 0 {
        Map::empty()
    } else {
        category_map(values.drop_last()).insert(values.last().0@, values.last().1@)
    }
}

/// Whether no category name comes twice in `values`.
pub open spec fn distinct_names(values: Seq<(String, Vec<CodeData>)>) -> bool {
    forall|first: int, second: int|
        0 <= first < second < values.len()
            ==> (#[trigger] values[first]).0@ != (#[trigger] values[second]).0@
}

/// Every name in the list is a key of the mapping it stands for.
pub proof fn lemma_category_map_has_each_name(values: Seq<(String, Vec<CodeData>)>, at: int)
    requires
        0 <= at < values.len(),
    ensures
        category_map(values).contains_key(values[at].0@),
    decreases values.len(),
{
    if at < values.len() - 1 {
        lemma_category_map_has_each_name(values.drop_last(), at);
    }
}

/// Every key of the mapping is the name of some category in the list.
pub proof fn lemma_category_map_has_only_names(
    values: Seq<(String, Vec<CodeData>)>,
    name: Seq<char>,
) -> (at: int)
    requires
        category_map(values).contains_key(name),
    ensures
        0 <= at < values.len(),
        values[at].0@ == name,
    decreases values.len(),
{
    if values.last().0@ == name {
        values.len() - 1
    } else {
        lemma_category_map_has_only_names(values.drop_last(), name)
    }
}

/// A category whose name no later category shares keeps its own entries
/// in the mapping.
pub proof fn lemma_category_map_keeps_last(values: Seq<(String, Vec<CodeData>)>, at: int)
    requires
        0 <= at < values.len(),
        forall|later: int|
            at < later < values.len() ==> (#[trigger] values[later]).0@ != values[at].0@,
    ensures
        category_map(values).contains_key(values[at].0@),
        category_map(values)[values[at].0@] == values[at].1@,
    decreases values.len(),
{
    if at < values.len() - 1 {
        let front = values.drop_last();
        assert(values[values.len() - 1].0@ != values[at].0@);
        assert forall|later: int| at < later < front.len() implies (#[trigger] front[later]).0@
            != front[at].0@ by {
            assert(front[later] == values[later]);
        }
        lemma_category_map_keeps_last(front, at);
    }
}

/// Whether `index` sends the name of each category to the place of that
/// category among `names` and `registries`, and holds no other key.
spec fn parts_agree(
    names: Seq<String>,
    registries: Seq<CodeRegistry>,
    index: Map<Seq<char>, usize>,
) -> bool {
    &&& names.len() == registries.len()
    &&& forall|name: Seq<char>| #[trigger]
        index.contains_key(name) ==> index[name] < names.len() && names[index[name] as int]@
            == name
    &&& forall|at: int|
        0 <= at < names.len() ==> index.contains_key((#[trigger] names[at])@)
            && index[names[at]@] == at
}

/// The mapping from category name to entries that the parts hold.
spec fn parts_map(registries: Seq<CodeRegistry>, index: Map<Seq<char>, usize>) -> Map<
    Seq<char>,
    Seq<CodeData>,
> {
    Map::new(|name: Seq<char>| index.contains_key(name), |name: Seq<char>| registries[index[name] as int]@)
}

/// A full code database: the registries of an action dump, each under the
/// name of its category.
pub struct CodeDatabase {
    names: Vec<String>,
    registries: Vec<CodeRegistry>,
    by_category: StringHashMap<usize>,
}

impl View for CodeDatabase {
    type V = Map<Seq<char>, Seq<CodeData>>;

    /// The entries of each category, by the category's name.
    closed spec fn view(&self) -> Map<Seq<char>, Seq<CodeData>> {
        parts_map(self.registries@, self.by_category@)
    }
}

impl CodeDatabase {
    #[verifier::type_invariant]
    spec fn well_formed(&self) -> bool {
        parts_agree(self.names@, self.registries@, self.by_category@)
    }

    /// Create a new code database from its categories, building one
    /// registry from the entries of each.
    pub fn new(values: Vec<(String, Vec<CodeData>)>) -> (database: Self)
        ensures
            database@ == category_map(values@),
    {
        let ghost given = values@;
        let mut rest = values;
        let mut names: Vec<String> = Vec::new();
        let mut registries: Vec<CodeRegistry> = Vec::new();
        let mut by_category: StringHashMap<usize> = StringHashMap::new();
        proof {
            assert(category_map(given) =~= category_map(rest@).union_prefer_right(
                parts_map(registries@, by_category@),
            ));
        }
        while rest.len() > 0
            invariant
                parts_agree(names@, registries@, by_category@),
                category_map(given) == category_map(rest@).union_prefer_right(
                    parts_map(registries@, by_category@),
                ),
            decreases rest.len(),
        {
            let ghost before = rest@;
            let ghost built = parts_map(registries@, by_category@);
            match rest.pop() {
                Some(pair) => {
                    let (name, items) = pair;
                    proof {
                        assert(rest@ == before.drop_last());
                        assert(category_map(before) == category_map(rest@).insert(name@, items@));
                    }
                    if !by_category.contains_key(name.as_str()) {
                        let place = names.len();
                        by_category.insert(name.clone(), place);
                        names.push(name);
                        registries.push(CodeRegistry::new(items));
                        proof {
                            assert(parts_map(registries@, by_category@) =~= built.insert(
                                name@,
                                items@,
                            ));
                            assert(category_map(given) =~= category_map(
                                rest@,
                            ).union_prefer_right(parts_map(registries@, by_category@)));
                        }
                    } else {
                        proof {
                            assert(category_map(given) =~= category_map(
                                rest@,
                            ).union_prefer_right(built));
                        }
                    }
                },
                None => {},
            }
        }
        proof {
            assert(category_map(given) =~= parts_map(registries@, by_category@));
        }
        CodeDatabase { names, registries, by_category }
    }

    /// The registry of a category, and `None` where the database has no
    /// category of that name.
    pub fn get(&self, category: &str) -> (found: Option<&CodeRegistry>)
        ensures
            match found {
                Some(registry) => self@.contains_key(category@) && registry@ == self@[category@],
                None => !self@.contains_key(category@),
            },
    {
        proof {
            use_type_invariant(self);
        }
        match self.by_category.get(category) {
            Some(place) => Some(&self.registries[*place]),
            None => None,
        }
    }

    /// The names of the categories, each once, in no defined order.
    pub fn categories(&self) -> (names: &Vec<String>)
        ensures
            forall|at: int| 0 <= at < names@.len() ==> self@.contains_key((#[trigger] names@[at])@),
            forall|name: Seq<char>| #[trigger]
                self@.contains_key(name) ==> exists|at: int|
                    0 <= at < names@.len() && (#[trigger] names@[at])@ == name,
            forall|first: int, second: int|
                0 <= first < second < names@.len()
                    ==> (#[trigger] names@[first])@ != (#[trigger] names@[second])@,
    {
        proof {
            use_type_invariant(self);
            assert forall|name: Seq<char>| #[trigger] self@.contains_key(name) implies exists|
                at: int,
            |
                0 <= at < self.names@.len() && (#[trigger] self.names@[at])@ == name by {
                let at = self.by_category@[name] as int;
                assert(self.names@[at]@ == name);
            }
        }
        &self.names
    }

    /// Give the categories back, each with its entries in their order and
    /// without the indices. Each category comes once; the order among the
    /// categories is not defined.
    pub fn into_values(self) -> (values: Vec<(String, Vec<CodeData>)>)
        ensures
            category_map(values@) == self@,
            distinct_names(values@),
            values@.len() == self@.len(),
    {
        proof {
            use_type_invariant(&self);
        }
        let ghost target = self@;
        let ghost index = self.by_category@;
        let mut names = self.names;
        let mut registries = self.registries;
        let mut values: Vec<(String, Vec<CodeData>)> = Vec::new();
        while names.len() > 0
            invariant
                names.len() == registries.len(),
                forall|name: Seq<char>| #[trigger]
                    target.contains_key(name) <==> index.contains_key(name),
                forall|name: Seq<char>| #[trigger]
                    index.contains_key(name) && index[name] < names.len() ==> names[index[name] as int]@
                        == name,
                forall|at: int|
                    0 <= at < names.len() ==> index.contains_key((#[trigger] names[at])@)
                        && index[names[at]@] == at && target[names[at]@] == registries[at]@,
                forall|name: Seq<char>| #[trigger]
                    index.contains_key(name) && index[name] >= names.len() ==> category_map(
                        values@,
                    ).contains_key(name) && category_map(values@)[name] == target[name],
                forall|name: Seq<char>| #[trigger]
                    category_map(values@).contains_key(name) ==> index.contains_key(name)
                        && index[name] >= names.len(),
                distinct_names(values@),
            decreases names.len(),
        {
            let ghost taken = values@;
            let ghost place = names.len() - 1;
            let name = names.pop().unwrap();
            let registry = registries.pop().unwrap();
            let items = registry.into_items();
            values.push((name, items));
            proof {
                assert(values@.drop_last() == taken);
                assert(category_map(values@) == category_map(taken).insert(name@, items@));
                assert(index[name@] == place);
                assert forall|first: int, second: int|
                    0 <= first < second < values@.len() implies (#[trigger] values@[first]).0@
                    != (#[trigger] values@[second]).0@ by {
                    if second == values@.len() - 1 {
                        lemma_category_map_has_each_name(taken, first);
                    }
                }
            }
        }
        proof {
            assert(category_map(values@) =~= target);
            lemma_category_map_size(values@);
        }
        values
    }
}

/// A list without a repeated name stands for a mapping with as many keys
/// as the list has categories.
pub proof fn lemma_category_map_size(values: Seq<(String, Vec<CodeData>)>)
    requires
        distinct_names(values),
    ensures
        category_map(values).dom().finite(),
        category_map(values).len() == values.len(),
    decreases values.len(),
{
    if values.len() > 0 {
        let front = values.drop_last();
        lemma_category_map_size(front);
        if category_map(front).contains_key(values.last().0@) {
            let at = lemma_category_map_has_only_names(front, values.last().0@);
            assert(front[at] == values[at]);
            assert(values[at].0@ != values[values.len() - 1].0@);
        }
    }
}

/// Two lists without a repeated name that stand for the same mapping hold
/// the same categories with the same entries, though perhaps in another
/// order: each category of the one is found in the other.
pub proof fn lemma_same_map_same_categories(
    left: Seq<(String, Vec<CodeData>)>,
    right: Seq<(String, Vec<CodeData>)>,
    at: int,
) -> (place: int)
    requires
        distinct_names(left),
        distinct_names(right),
        category_map(left) == category_map(right),
        0 <= at < left.len(),
    ensures
        left.len() == right.len(),
        0 <= place < right.len(),
        right[place].0@ == left[at].0@,
        right[place].1@ == left[at].1@,
{
    lemma_category_map_size(left);
    lemma_category_map_size(right);
    lemma_category_map_keeps_last(left, at);
    let place = lemma_category_map_has_only_names(right, left[at].0@);
    lemma_category_map_keeps_last(right, place);
    place
}

} // verus!
