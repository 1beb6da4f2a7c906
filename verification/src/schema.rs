//! The entry schema of an action dump: one recursive record shape for every
//! kind of entry, with the structural predicates derived from it.

use vstd::prelude::*;
use crate::text::str_eq;

verus! {

/// An RGB color.
#[derive(Clone, Copy, Debug, PartialEq, Eq, Hash, Structural)]
pub struct IconColor {
    red: u8,
    green: u8,
    blue: u8,
}

impl IconColor {
    /// The three channels, in the order red, green, blue.
    pub closed spec fn channels(&self) -> (u8, u8, u8) {
        (self.red, self.green, self.blue)
    }

    /// A color from its three channels.
    pub fn new(red: u8, green: u8, blue: u8) -> (color: Self)
        ensures
            color.channels() == (red, green, blue),
    {
        IconColor { red, green, blue }
    }

    /// The red channel.
    pub fn red(&self) -> (channel: u8)
        ensures
            channel == self.channels().0,
    {
        self.red
    }

    /// The green channel.
    pub fn green(&self) -> (channel: u8)
        ensures
            channel == self.channels().1,
    {
        self.green
    }

    /// The blue channel.
    pub fn blue(&self) -> (channel: u8)
        ensures
            channel == self.channels().2,
    {
        self.blue
    }
}

/// The kinds of value that the scripting system recognizes.
#[derive(Clone, Copy, Debug, PartialEq, Eq, Hash, Structural)]
pub enum DFType {
    Any,
    Block,
    BlockTag,
    Dictionary,
    EntityType,
    Item,
    List,
    Location,
    NoValue,
    Number,
    Particle,
    Potion,
    Projectile,
    Sound,
    SpawnEgg,
    Text,
    Variable,
    Vector,
    Vehicle,
}

/// Why a value of the schema could not be read from its external form.
#[derive(Clone, Copy, Debug, PartialEq, Eq, Hash, Structural)]
pub enum DecodeError {
    /// The token names no value kind.
    UnknownType,
}

impl DFType {
    /// The one external token of each kind.
    pub open spec fn spec_token(self) -> Seq<char> {
        match self {
            DFType::Any => "ANY_TYPE"@,
            DFType::Block => "BLOCK"@,
            DFType::BlockTag => "BLOCK_TAG"@,
            DFType::Dictionary => "DICT"@,
            DFType::EntityType => "ENTITY_TYPE"@,
            DFType::Item => "ITEM"@,
            DFType::List => "LIST"@,
            DFType::Location => "LOCATION"@,
            DFType::NoValue => "NONE"@,
            DFType::Number => "NUMBER"@,
            DFType::Particle => "PARTICLE"@,
            DFType::Potion => "POTION"@,
            DFType::Projectile => "PROJECTILE"@,
            DFType::Sound => "SOUND"@,
            DFType::SpawnEgg => "SPAWN_EGG"@,
            DFType::Text => "TEXT"@,
            DFType::Variable => "VARIABLE"@,
            DFType::Vector => "VECTOR"@,
            DFType::Vehicle => "VEHICLE"@,
        }
    }

    /// The external token of this kind.
    pub fn token(self) -> (token: &'static str)
        ensures
            token@ == self.spec_token(),
    {
        match self {
            DFType::Any => "ANY_TYPE",
            DFType::Block => "BLOCK",
            DFType::BlockTag => "BLOCK_TAG",
            DFType::Dictionary => "DICT",
            DFType::EntityType => "ENTITY_TYPE",
            DFType::Item => "ITEM",
            DFType::List => "LIST",
            DFType::Location => "LOCATION",
            DFType::NoValue => "NONE",
            DFType::Number => "NUMBER",
            DFType::Particle => "PARTICLE",
            DFType::Potion => "POTION",
            DFType::Projectile => "PROJECTILE",
            DFType::Sound => "SOUND",
            DFType::SpawnEgg => "SPAWN_EGG",
            DFType::Text => "TEXT",
            DFType::Variable => "VARIABLE",
            DFType::Vector => "VECTOR",
            DFType::Vehicle => "VEHICLE",
        }
    }

    /// The kind that an external token names. A token that names none is an
    /// error, never a default kind.
    pub fn from_token(token: &str) -> (kind: Result<DFType, DecodeError>)
        ensures
            match kind {
                Ok(found) => found.spec_token() == token@,
                Err(error) => error == DecodeError::UnknownType && forall|other: DFType|
                    #[trigger] other.spec_token() != token@,
            },
    {
        if str_eq(token, "ANY_TYPE") {
            Ok(DFType::Any)
        } else if str_eq(token, "BLOCK") {
            Ok(DFType::Block)
        } else if str_eq(token, "BLOCK_TAG") {
            Ok(DFType::BlockTag)
        } else if str_eq(token, "DICT") {
            Ok(DFType::Dictionary)
        } else if str_eq(token, "ENTITY_TYPE") {
            Ok(DFType::EntityType)
        } else if str_eq(token, "ITEM") {
            Ok(DFType::Item)
        } else if str_eq(token, "LIST") {
            Ok(DFType::List)
        } else if str_eq(token, "LOCATION") {
            Ok(DFType::Location)
        } else if str_eq(token, "NONE") {
            Ok(DFType::NoValue)
        } else if str_eq(token, "NUMBER") {
            Ok(DFType::Number)
        } else if str_eq(token, "PARTICLE") {
            Ok(DFType::Particle)
        } else if str_eq(token, "POTION") {
            Ok(DFType::Potion)
        } else if str_eq(token, "PROJECTILE") {
            Ok(DFType::Projectile)
        } else if str_eq(token, "SOUND") {
            Ok(DFType::Sound)
        } else if str_eq(token, "SPAWN_EGG") {
            Ok(DFType::SpawnEgg)
        } else if str_eq(token, "TEXT") {
            Ok(DFType::Text)
        } else if str_eq(token, "VARIABLE") {
            Ok(DFType::Variable)
        } else if str_eq(token, "VECTOR") {
            Ok(DFType::Vector)
        } else if str_eq(token, "VEHICLE") {
            Ok(DFType::Vehicle)
        } else {
            Err(DecodeError::UnknownType)
        }
    }
}

/// No two kinds share a token: a token decides its kind.
pub proof fn lemma_token_decides_kind(a: DFType, b: DFType)
    requires
        a.spec_token() == b.spec_token(),
    ensures
        a == b,
{
    reveal_strlit("ANY_TYPE");
    reveal_strlit("BLOCK");
    reveal_strlit("BLOCK_TAG");
    reveal_strlit("DICT");
    reveal_strlit("ENTITY_TYPE");
    reveal_strlit("ITEM");
    reveal_strlit("LIST");
    reveal_strlit("LOCATION");
    reveal_strlit("NONE");
    reveal_strlit("NUMBER");
    reveal_strlit("PARTICLE");
    reveal_strlit("POTION");
    reveal_strlit("PROJECTILE");
    reveal_strlit("SOUND");
    reveal_strlit("SPAWN_EGG");
    reveal_strlit("TEXT");
    reveal_strlit("VARIABLE");
    reveal_strlit("VECTOR");
    reveal_strlit("VEHICLE");
    // A token's length and first character together tell it from the others.
    assert("ANY_TYPE"@.len() == 8 && "ANY_TYPE"@[0] == 'A');
    assert("BLOCK"@.len() == 5 && "BLOCK"@[0] == 'B');
    assert("BLOCK_TAG"@.len() == 9 && "BLOCK_TAG"@[0] == 'B');
    assert("DICT"@.len() == 4 && "DICT"@[0] == 'D');
    assert("ENTITY_TYPE"@.len() == 11 && "ENTITY_TYPE"@[0] == 'E');
    assert("ITEM"@.len() == 4 && "ITEM"@[0] == 'I');
    assert("LIST"@.len() == 4 && "LIST"@[0] == 'L');
    assert("LOCATION"@.len() == 8 && "LOCATION"@[0] == 'L');
    assert("NONE"@.len() == 4 && "NONE"@[0] == 'N');
    assert("NUMBER"@.len() == 6 && "NUMBER"@[0] == 'N');
    assert("PARTICLE"@.len() == 8 && "PARTICLE"@[0] == 'P');
    assert("POTION"@.len() == 6 && "POTION"@[0] == 'P');
    assert("PROJECTILE"@.len() == 10 && "PROJECTILE"@[0] == 'P');
    assert("SOUND"@.len() == 5 && "SOUND"@[0] == 'S');
    assert("SPAWN_EGG"@.len() == 9 && "SPAWN_EGG"@[0] == 'S');
    assert("TEXT"@.len() == 4 && "TEXT"@[0] == 'T');
    assert("VARIABLE"@.len() == 8 && "VARIABLE"@[0] == 'V');
    assert("VECTOR"@.len() == 6 && "VECTOR"@[0] == 'V');
    assert("VEHICLE"@.len() == 7 && "VEHICLE"@[0] == 'V');
}

/// An argument to a code action, also used for intermediate notes. A field
/// that is `None` was not given by the dump.
#[derive(Clone, Debug, PartialEq, Eq, Hash)]
pub struct Argument {
    /// The input type of the argument.
    pub df_type: Option<DFType>,
    /// Additional text to display with the argument.
    pub text: Option<String>,
    /// Whether the argument can be repeated.
    pub plural: Option<bool>,
    /// Whether the argument is optional.
    pub optional: Option<bool>,
    /// The description of the argument.
    pub description: Option<Vec<String>>,
    /// Any notes going along with the argument, one element per note.
    pub notes: Option<Vec<Vec<String>>>,
}

/// The display information for a [`CodeData`].
#[derive(Clone, Debug, PartialEq, Eq, Hash)]
pub struct CodeIcon {
    /// The display name of this code item.
    pub name: String,
    /// The item material, a bukkit material name.
    pub material: String,
    /// Whether this code item is considered advanced.
    pub advanced: Option<bool>,
    /// A description of this code item.
    pub description: Vec<String>,
    /// An example of the usage of this code item.
    pub example: Vec<String>,
    /// Things that this code item works on or with.
    pub works_with: Vec<String>,
    /// Information about the deprecation of this code item.
    pub deprecated_note: Vec<String>,
    /// Any additional information about this code item.
    pub additional_info: Vec<Vec<String>>,
    /// The arguments that this code item takes.
    pub arguments: Option<Vec<Argument>>,
    /// The return type of this game value.
    pub return_type: Option<String>,
    /// The description for the returned value.
    pub return_description: Option<Vec<String>>,
    /// The rank required to use this code item.
    pub required_rank: String,
    /// Whether this code item requires a purchase in the token shop to use.
    pub require_tokens: bool,
    /// Meant to be `true` when a rank is required and tokens are too. The
    /// dump leaves it `false`; it is kept as given and never recomputed.
    pub require_rank_and_tokens: bool,
    /// Whether this action can only be used on mobs.
    pub mobs_only: Option<bool>,
    /// Whether this event can be cancelled.
    pub cancellable: Option<bool>,
    /// Whether this event is automatically cancelled.
    pub cancelled_automatically: Option<bool>,
    /// The texture data for the item if the material is `PLAYER_HEAD`.
    pub head: Option<String>,
    /// The color data for the item.
    pub color: Option<IconColor>,
    /// A boolean encoded as 0 or 1 denoting whether this action has any tags.
    pub tags: Option<u8>,
    /// An opaque string that the dump carries along.
    pub loaded_item: Option<String>,
}

impl CodeIcon {
    /// An icon is legacy exactly when its material is `STONE`.
    pub open spec fn spec_is_legacy(&self) -> bool {
        self.material@ == "STONE"@
    }

    /// An icon is deprecated exactly when it carries a deprecation note.
    pub open spec fn spec_is_deprecated(&self) -> bool {
        self.deprecated_note@.len() > 0
    }

    /// Returns whether this code item is considered legacy.
    pub fn is_legacy(&self) -> (legacy: bool)
        ensures
            legacy == self.spec_is_legacy(),
    {
        str_eq(self.material.as_str(), "STONE")
    }

    /// Returns whether this code item is deprecated.
    pub fn is_deprecated(&self) -> (deprecated: bool)
        ensures
            deprecated == self.spec_is_deprecated(),
    {
        self.deprecated_note.len() != 0
    }
}

/// A data element of the action dump. Its `tags`, `options` and
/// `purchasables` hold entries of the same shape.
#[derive(Debug, PartialEq, Eq, Hash)]
pub struct CodeData {
    /// The human readable name of this code item.
    pub name: Option<String>,
    /// The identifier of this code item.
    pub identifier: Option<String>,
    /// The bukkit enum constant name, for particles, potions and sounds.
    pub bukkit_name: Option<String>,
    /// The [`CodeIcon`] used to display this code item.
    pub item: Option<CodeIcon>,
    /// Alternate names that may be used to identify this code item.
    pub aliases: Option<Vec<String>>,
    /// The name of this codeblock.
    pub codeblock_name: Option<String>,
    /// The blocks that take this code item as a sub-action.
    pub sub_action_blocks: Option<Vec<String>>,
    /// The category of this code item.
    pub category: Option<String>,
    /// Whether this category has any sub-categories.
    pub has_sub_categories: Option<bool>,
    /// The tag options for this code item.
    pub tags: Option<Vec<CodeData>>,
    /// The fields of this particle effect.
    pub fields: Option<Vec<String>>,
    /// The default option for this tag.
    pub default_option: Option<String>,
    /// The list of options in this tag.
    pub options: Option<Vec<CodeData>>,
    /// The slot this item goes in within an inventory.
    pub slot: Option<u8>,
    /// The purchasable items within this shop.
    pub purchasables: Option<Vec<CodeData>>,
    /// The price of this shop item.
    pub price: Option<u16>,
    /// The currency used to purchase this shop item.
    pub currency_type: Option<String>,
}

/// A copy of a list of nested entries.
fn clone_entries(entries: &Vec<CodeData>) -> (copies: Vec<CodeData>)
    ensures
        copies@.len() == entries@.len(),
    decreases entries,
{
    let mut copies: Vec<CodeData> = Vec::new();
    let mut at: usize = 0;
    while at < entries.len()
        invariant
            at <= entries.len(),
            copies@.len() == at,
        decreases entries.len() - at,
    {
        proof {
            assert(decreases_to!(entries => entries[at as int]));
        }
        copies.push(entries[at].clone());
        at += 1;
    }
    copies
}

impl Clone for CodeData {
    /// A copy of this entry and of all that is nested under it. The
    /// contract speaks of the keys and of the plain fields only.
    fn clone(&self) -> (copy: Self)
        ensures
            copy.name == self.name,
            copy.identifier == self.identifier,
            copy.bukkit_name == self.bukkit_name,
            copy.codeblock_name == self.codeblock_name,
            copy.category == self.category,
            copy.default_option == self.default_option,
            copy.currency_type == self.currency_type,
            copy.has_sub_categories == self.has_sub_categories,
            copy.slot == self.slot,
            copy.price == self.price,
        decreases self,
    {
        CodeData {
            name: self.name.clone(),
            identifier: self.identifier.clone(),
            bukkit_name: self.bukkit_name.clone(),
            item: self.item.clone(),
            aliases: self.aliases.clone(),
            codeblock_name: self.codeblock_name.clone(),
            sub_action_blocks: self.sub_action_blocks.clone(),
            category: self.category.clone(),
            has_sub_categories: self.has_sub_categories,
            tags: match &self.tags {
                Some(entries) => Some(clone_entries(entries)),
                None => None,
            },
            fields: self.fields.clone(),
            default_option: self.default_option.clone(),
            options: match &self.options {
                Some(entries) => Some(clone_entries(entries)),
                None => None,
            },
            slot: self.slot,
            purchasables: match &self.purchasables {
                Some(entries) => Some(clone_entries(entries)),
                None => None,
            },
            price: self.price,
            currency_type: self.currency_type.clone(),
        }
    }
}

impl CodeData {
    /// The display name as a sequence of characters, where there is one.
    pub open spec fn name_view(&self) -> Option<Seq<char>> {
        match self.name {
            Some(name) => Some(name@),
            None => None,
        }
    }

    /// The identifier as a sequence of characters, where there is one.
    pub open spec fn identifier_view(&self) -> Option<Seq<char>> {
        match self.identifier {
            Some(identifier) => Some(identifier@),
            None => None,
        }
    }

    /// An entry is legacy exactly when it has an icon and the icon is.
    pub open spec fn spec_is_legacy(&self) -> bool {
        match self.item {
            Some(item) => item.spec_is_legacy(),
            None => false,
        }
    }

    /// An entry is deprecated exactly when it has an icon and the icon is.
    pub open spec fn spec_is_deprecated(&self) -> bool {
        match self.item {
            Some(item) => item.spec_is_deprecated(),
            None => false,
        }
    }

    /// An entry is dynamic exactly when its name is `dynamic`.
    pub open spec fn spec_is_dynamic(&self) -> bool {
        self.name_view() == Some("dynamic"@)
    }

    /// Returns whether this code item is considered legacy: whether its
    /// icon is, and `false` without an icon.
    pub fn is_legacy(&self) -> (legacy: bool)
        ensures
            legacy == self.spec_is_legacy(),
    {
        match &self.item {
            Some(item) => item.is_legacy(),
            None => false,
        }
    }

    /// Returns whether this code item is deprecated: whether its icon is,
    /// and `false` without an icon.
    pub fn is_deprecated(&self) -> (deprecated: bool)
        ensures
            deprecated == self.spec_is_deprecated(),
    {
        match &self.item {
            Some(item) => item.is_deprecated(),
            None => false,
        }
    }

    /// Returns whether this code action is dynamic: a code block that has no
    /// selectable actions but takes options.
    pub fn is_dynamic(&self) -> (dynamic: bool)
        ensures
            dynamic == self.spec_is_dynamic(),
    {
        match &self.name {
            Some(name) => str_eq(name.as_str(), "dynamic"),
            None => false,
        }
    }
}

} // verus!
