use action_dump::schema::{Argument, CodeData, CodeIcon, DFType, DecodeError, IconColor};

fn icon(material: &str, deprecated_note: Vec<String>) -> CodeIcon {
    CodeIcon {
        name: String::from("Icon"),
        material: String::from(material),
        advanced: None,
        description: vec![],
        example: vec![],
        works_with: vec![],
        deprecated_note,
        additional_info: vec![],
        arguments: None,
        return_type: None,
        return_description: None,
        required_rank: String::new(),
        require_tokens: false,
        require_rank_and_tokens: false,
        mobs_only: None,
        cancellable: None,
        cancelled_automatically: None,
        head: None,
        color: None,
        tags: None,
        loaded_item: None,
    }
}

fn entry(name: Option<&str>, item: Option<CodeIcon>) -> CodeData {
    CodeData {
        name: name.map(String::from),
        identifier: None,
        bukkit_name: None,
        item,
        aliases: None,
        codeblock_name: None,
        sub_action_blocks: None,
        category: None,
        has_sub_categories: None,
        tags: None,
        fields: None,
        default_option: None,
        options: None,
        slot: None,
        purchasables: None,
        price: None,
        currency_type: None,
    }
}

const KINDS: [(DFType, &str); 19] = [
    (DFType::Any, "ANY_TYPE"),
    (DFType::Block, "BLOCK"),
    (DFType::BlockTag, "BLOCK_TAG"),
    (DFType::Dictionary, "DICT"),
    (DFType::EntityType, "ENTITY_TYPE"),
    (DFType::Item, "ITEM"),
    (DFType::List, "LIST"),
    (DFType::Location, "LOCATION"),
    (DFType::NoValue, "NONE"),
    (DFType::Number, "NUMBER"),
    (DFType::Particle, "PARTICLE"),
    (DFType::Potion, "POTION"),
    (DFType::Projectile, "PROJECTILE"),
    (DFType::Sound, "SOUND"),
    (DFType::SpawnEgg, "SPAWN_EGG"),
    (DFType::Text, "TEXT"),
    (DFType::Variable, "VARIABLE"),
    (DFType::Vector, "VECTOR"),
    (DFType::Vehicle, "VEHICLE"),
];

#[test]
fn stone_icon_is_legacy() {
    assert!(icon("STONE", vec![]).is_legacy());
}

#[test]
fn other_material_is_not_legacy() {
    assert!(!icon("DIRT", vec![]).is_legacy());
    assert!(!icon("stone", vec![]).is_legacy());
    assert!(!icon("STONES", vec![]).is_legacy());
    assert!(!icon("", vec![]).is_legacy());
}

#[test]
fn empty_note_is_not_deprecated() {
    assert!(!icon("STONE", vec![]).is_deprecated());
}

#[test]
fn any_note_is_deprecated() {
    assert!(icon("DIRT", vec![String::from("Use the new action.")]).is_deprecated());
    assert!(icon("DIRT", vec![String::new()]).is_deprecated());
}

#[test]
fn entry_predicates_follow_the_icon() {
    let legacy = entry(Some("Old"), Some(icon("STONE", vec![String::from("gone")])));
    assert!(legacy.is_legacy());
    assert!(legacy.is_deprecated());
    let current = entry(Some("New"), Some(icon("DIRT", vec![])));
    assert!(!current.is_legacy());
    assert!(!current.is_deprecated());
}

#[test]
fn entry_without_icon_is_neither_legacy_nor_deprecated() {
    let bare = entry(Some("Bare"), None);
    assert!(!bare.is_legacy());
    assert!(!bare.is_deprecated());
}

#[test]
fn dynamic_name_is_dynamic() {
    assert!(entry(Some("dynamic"), None).is_dynamic());
}

#[test]
fn other_names_are_not_dynamic() {
    assert!(!entry(None, None).is_dynamic());
    assert!(!entry(Some("Dynamic"), None).is_dynamic());
    assert!(!entry(Some("dynamics"), None).is_dynamic());
    assert!(!entry(Some(""), None).is_dynamic());
}

#[test]
fn each_kind_has_its_token() {
    for (kind, token) in KINDS {
        assert_eq!(kind.token(), token);
    }
}

#[test]
fn each_token_names_its_kind() {
    for (kind, token) in KINDS {
        assert_eq!(DFType::from_token(token), Ok(kind));
    }
}

#[test]
fn kind_round_trips_through_its_token() {
    for (kind, _) in KINDS {
        assert_eq!(DFType::from_token(kind.token()), Ok(kind));
    }
}

#[test]
fn unknown_token_is_an_error() {
    assert_eq!(DFType::from_token("COMPASS"), Err(DecodeError::UnknownType));
    assert_eq!(DFType::from_token(""), Err(DecodeError::UnknownType));
    assert_eq!(DFType::from_token("number"), Err(DecodeError::UnknownType));
    assert_eq!(DFType::from_token("NUMBER "), Err(DecodeError::UnknownType));
}

#[test]
fn color_keeps_its_channels() {
    let color = IconColor::new(12, 200, 255);
    assert_eq!(color.red(), 12);
    assert_eq!(color.green(), 200);
    assert_eq!(color.blue(), 255);
    assert_eq!(color, IconColor::new(12, 200, 255));
    assert_ne!(color, IconColor::new(255, 200, 12));
}

#[test]
fn argument_fields_are_independent() {
    let typed = Argument {
        df_type: Some(DFType::Number),
        text: None,
        plural: Some(true),
        optional: None,
        description: Some(vec![String::from("Amount")]),
        notes: None,
    };
    assert_eq!(typed.df_type, Some(DFType::Number));
    assert_eq!(typed.text, None);
    assert_eq!(typed.plural, Some(true));
    assert_eq!(typed.optional, None);
}

#[test]
fn rank_and_tokens_flag_is_kept_as_given() {
    let mut ranked = icon("DIRT", vec![]);
    ranked.required_rank = String::from("Noble");
    ranked.require_tokens = true;
    assert!(!ranked.require_rank_and_tokens);
}
