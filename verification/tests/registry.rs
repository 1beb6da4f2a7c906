use action_dump::database::CodeDatabase;
use action_dump::registry::CodeRegistry;
use action_dump::schema::CodeData;

fn entry(name: Option<&str>, identifier: Option<&str>) -> CodeData {
    CodeData {
        name: name.map(String::from),
        identifier: identifier.map(String::from),
        bukkit_name: None,
        item: None,
        aliases: None,
        codeblock_name: None,
        sub_action_blocks: None,
        category: None,
        has_sub_categories: None,
        tags: None,
        fields: None,
        default_option: None,
        options: None,
        slot: None,
        purchasables: None,
        price: None,
        currency_type: None,
    }
}

fn priced(name: Option<&str>, identifier: Option<&str>, price: u16) -> CodeData {
    let mut made = entry(name, identifier);
    made.price = Some(price);
    made
}

fn mixed_list() -> Vec<CodeData> {
    vec![
        priced(Some("Give"), Some("give"), 1),
        priced(None, Some("anon"), 2),
        priced(Some("Give"), None, 3),
        priced(None, None, 4),
        priced(Some("Take"), Some("give"), 5),
    ]
}

#[test]
fn round_trip_keeps_the_list() {
    let registry = CodeRegistry::new(mixed_list());
    assert_eq!(registry.items(), &mixed_list());
    let again = CodeRegistry::new(registry.into_items());
    assert_eq!(again.into_items(), mixed_list());
}

#[test]
fn round_trip_of_empty_list() {
    let registry = CodeRegistry::new(vec![]);
    assert!(registry.items().is_empty());
    assert_eq!(registry.into_items(), Vec::<CodeData>::new());
}

#[test]
fn round_trip_keeps_the_lookups() {
    let first = CodeRegistry::new(mixed_list());
    let by_name = first.get_by_name(String::from("Give")).cloned_price();
    let by_id = first.get_by_id(String::from("give")).cloned_price();
    let second = CodeRegistry::new(first.into_items());
    assert_eq!(second.get_by_name(String::from("Give")).cloned_price(), by_name);
    assert_eq!(second.get_by_id(String::from("give")).cloned_price(), by_id);
}

trait Price {
    fn cloned_price(&self) -> Option<u16>;
}

impl Price for Option<&CodeData> {
    fn cloned_price(&self) -> Option<u16> {
        self.and_then(|found| found.price)
    }
}

#[test]
fn unshadowed_name_finds_its_entry() {
    let list = mixed_list();
    let registry = CodeRegistry::new(mixed_list());
    assert_eq!(registry.get_by_name(String::from("Take")), Some(&list[4]));
    assert_eq!(registry.get_by_id(String::from("anon")), Some(&list[1]));
}

#[test]
fn later_entry_wins() {
    let list = mixed_list();
    let registry = CodeRegistry::new(mixed_list());
    let by_name = registry.get_by_name(String::from("Give"));
    assert_eq!(by_name, Some(&list[2]));
    assert_ne!(by_name, Some(&list[0]));
    let by_id = registry.get_by_id(String::from("give"));
    assert_eq!(by_id, Some(&list[4]));
    assert_ne!(by_id, Some(&list[0]));
}

#[test]
fn name_and_identifier_are_separate_indices() {
    let registry = CodeRegistry::new(vec![entry(Some("Shown"), Some("key"))]);
    assert!(registry.get_by_name(String::from("key")).is_none());
    assert!(registry.get_by_id(String::from("Shown")).is_none());
    assert!(registry.get_by_name(String::from("Shown")).is_some());
    assert!(registry.get_by_id(String::from("key")).is_some());
}

#[test]
fn absent_key_misses() {
    let empty = CodeRegistry::new(vec![]);
    assert!(empty.get_by_name(String::new()).is_none());
    assert!(empty.get_by_id(String::new()).is_none());
    let registry = CodeRegistry::new(mixed_list());
    assert!(registry.get_by_name(String::new()).is_none());
    assert!(registry.get_by_name(String::from("give")).is_none());
    assert!(registry.get_by_id(String::from("Take")).is_none());
}

#[test]
fn entries_without_keys_stay_in_the_list() {
    let registry = CodeRegistry::new(vec![entry(None, None), entry(None, None)]);
    assert_eq!(registry.items().len(), 2);
    assert!(registry.get_by_name(String::new()).is_none());
    assert!(registry.get_by_id(String::new()).is_none());
}

#[test]
fn empty_name_is_a_name() {
    let list = vec![entry(Some(""), None), entry(Some("x"), Some(""))];
    let registry = CodeRegistry::new(vec![entry(Some(""), None), entry(Some("x"), Some(""))]);
    assert_eq!(registry.get_by_name(String::new()), Some(&list[0]));
    assert_eq!(registry.get_by_id(String::new()), Some(&list[1]));
}

#[test]
fn nested_entries_are_not_indexed() {
    let mut parent = entry(Some("Parent"), Some("parent"));
    parent.options = Some(vec![entry(Some("Option"), Some("option"))]);
    parent.tags = Some(vec![entry(Some("Tag"), Some("tag"))]);
    parent.purchasables = Some(vec![entry(Some("Ware"), Some("ware"))]);
    let registry = CodeRegistry::new(vec![parent]);
    assert!(registry.get_by_name(String::from("Parent")).is_some());
    assert!(registry.get_by_id(String::from("parent")).is_some());
    for name in ["Option", "Tag", "Ware"] {
        assert!(registry.get_by_name(String::from(name)).is_none());
    }
    for identifier in ["option", "tag", "ware"] {
        assert!(registry.get_by_id(String::from(identifier)).is_none());
    }
}

#[test]
fn found_parent_carries_its_nested_entries() {
    let mut parent = entry(Some("Parent"), None);
    parent.options = Some(vec![entry(Some("Option"), None)]);
    let registry = CodeRegistry::new(vec![parent]);
    let found = registry.get_by_name(String::from("Parent")).unwrap();
    assert_eq!(found.options, Some(vec![entry(Some("Option"), None)]));
}

fn actions() -> Vec<CodeData> {
    vec![entry(Some("Foo Action"), Some("foo")), entry(Some("Bar Action"), Some("bar"))]
}

#[test]
fn database_of_two_actions() {
    let database = CodeDatabase::new(vec![(String::from("actions"), actions())]);
    let list = actions();
    let registry = database.get("actions").unwrap();
    assert_eq!(registry.get_by_id(String::from("foo")), Some(&list[0]));
    assert_eq!(registry.get_by_id(String::from("bar")), Some(&list[1]));
    assert_eq!(registry.get_by_name(String::from("Bar Action")), Some(&list[1]));
    assert!(registry.get_by_id(String::from("baz")).is_none());
    assert_eq!(database.into_values(), vec![(String::from("actions"), actions())]);
}

#[test]
fn database_misses_unknown_category() {
    let database = CodeDatabase::new(vec![(String::from("actions"), actions())]);
    assert!(database.get("events").is_none());
    assert!(database.get("").is_none());
    assert!(CodeDatabase::new(vec![]).get("actions").is_none());
}

#[test]
fn empty_database_gives_nothing_back() {
    assert!(CodeDatabase::new(vec![]).into_values().is_empty());
}

#[test]
fn database_round_trip_keeps_each_list() {
    let given = vec![
        (String::from("actions"), actions()),
        (String::from("sounds"), vec![]),
        (String::from("shops"), mixed_list()),
    ];
    let database = CodeDatabase::new(given);
    assert_eq!(database.get("sounds").unwrap().items().len(), 0);
    assert_eq!(database.get("shops").unwrap().items(), &mixed_list());
    let mut back = database.into_values();
    back.sort_by(|left, right| left.0.cmp(&right.0));
    assert_eq!(
        back,
        vec![
            (String::from("actions"), actions()),
            (String::from("shops"), mixed_list()),
            (String::from("sounds"), vec![]),
        ]
    );
}

#[test]
fn later_category_of_one_name_wins() {
    let database = CodeDatabase::new(vec![
        (String::from("actions"), mixed_list()),
        (String::from("events"), vec![]),
        (String::from("actions"), actions()),
    ]);
    assert_eq!(database.get("actions").unwrap().items(), &actions());
    let mut back = database.into_values();
    back.sort_by(|left, right| left.0.cmp(&right.0));
    assert_eq!(
        back,
        vec![(String::from("actions"), actions()), (String::from("events"), vec![])]
    );
}

#[test]
fn conversions_round_trip() {
    let registry = CodeRegistry::from(mixed_list());
    let list = mixed_list();
    assert_eq!(registry.get_by_name(String::from("Give")), Some(&list[2]));
    let back: Vec<CodeData> = registry.into();
    assert_eq!(back, mixed_list());
    let again: CodeRegistry = back.into();
    assert_eq!(Vec::from(again), mixed_list());
}

#[test]
fn categories_are_listed_once() {
    let database = CodeDatabase::new(vec![
        (String::from("actions"), actions()),
        (String::from("events"), vec![]),
        (String::from("actions"), vec![]),
    ]);
    let mut names = database.categories().clone();
    names.sort();
    assert_eq!(names, vec![String::from("actions"), String::from("events")]);
    assert!(CodeDatabase::new(vec![]).categories().is_empty());
}

#[test]
fn clone_keeps_the_entry() {
    let mut parent = priced(Some("Parent"), Some("parent"), 7);
    parent.options = Some(vec![entry(Some("Option"), None)]);
    parent.tags = Some(vec![]);
    let copy = parent.clone();
    assert_eq!(copy, parent);
    assert_eq!(copy.options, Some(vec![entry(Some("Option"), None)]));
}
