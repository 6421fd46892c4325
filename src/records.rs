//! Records of the live-client API that hold no fractional values: items, abilities,
//! runes and summoner spells. Each field keeps the name the overlay uses; the API's own
//! field names are given beside it.
use vstd::prelude::*;

verus! {

/// An item in a participant's inventory.
#[derive(Clone, Debug, PartialEq, Eq)]
pub struct Item {
    /// `displayName` in the API.
    pub name: String,
    /// `canUse`.
    pub can_use: bool,
    /// Inventory slot.
    pub slot: u8,
    /// Stack count.
    pub count: u8,
    /// Unit price in gold.
    pub price: u32,
    /// `itemID`.
    pub id: u32,
}

/// One ability of a champion.
#[derive(Clone, Debug, PartialEq, Eq)]
pub struct AbilityInfo {
    /// `abilityLevel`.
    pub ability_level: u8,
    /// `displayName`.
    pub display_name: String,
    pub id: String,
}

/// The five abilities of a champion: the passive and the four active ones.
#[derive(Clone, Debug, PartialEq, Eq)]
pub struct Abilities {
    pub passive: AbilityInfo,
    pub q: AbilityInfo,
    pub w: AbilityInfo,
    pub e: AbilityInfo,
    pub r: AbilityInfo,
}

/// A rune or rune tree.
#[derive(Clone, Debug, PartialEq, Eq)]
pub struct RuneType {
    /// `displayName`.
    pub name: String,
    pub id: u32,
    /// `rawDescription`.
    pub description: String,
}

/// A participant's keystone and rune trees.
#[derive(Clone, Debug, PartialEq, Eq)]
pub struct Rune {
    pub keystone: RuneType,
    /// `primaryRuneTree`.
    pub primary_rune_tree: RuneType,
    /// `secondaryRuneTree`.
    pub secondary_rune_tree: RuneType,
}

/// One summoner spell.
#[derive(Clone, Debug, PartialEq, Eq)]
pub struct SummonerSpell {
    /// `displayName`.
    pub display_name: String,
    /// `rawDescription`.
    pub raw_description: String,
    /// `rawDisplayName`.
    pub raw_display_name: String,
}

/// The two summoner spells of a participant.
#[derive(Clone, Debug, PartialEq, Eq)]
pub struct SummonerSpells {
    /// `summonerSpellOne`.
    pub summoner_spell_one: SummonerSpell,
    /// `summonerSpellTwo`.
    pub summoner_spell_two: SummonerSpell,
}

} // verus!
