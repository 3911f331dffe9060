//! Identifiers and small value types of the item model.

use vstd::prelude::*;

verus! {

/// Identifier of an affix (modifier) definition.
#[derive(Clone, Copy, Debug, PartialEq, Eq, Structural, Hash, PartialOrd, Ord)]
pub struct AffixId(pub u16);

/// Identifier of a base item type (e.g. a concrete bow).
#[derive(Clone, Copy, Debug, PartialEq, Eq, Structural, Hash, PartialOrd, Ord)]
pub struct BaseItemId(pub u16);

/// Identifier of a base group (e.g. "Bows").
#[derive(Clone, Copy, Debug, PartialEq, Eq, Structural, Hash, PartialOrd, Ord)]
pub struct BaseGroupId(pub u16);

/// Identifier of an essence definition.
#[derive(Clone, Copy, Debug, PartialEq, Eq, Structural, Hash, PartialOrd, Ord)]
pub struct EssenceId(pub u16);

/// Item level (1..=255 in practice).
#[derive(Clone, Copy, Debug, PartialEq, Eq, Structural, Hash, PartialOrd, Ord)]
pub struct ItemLevel(pub u8);

/// Tier of an affix; tier 1 is the best tier.
#[derive(Clone, Copy, Debug, PartialEq, Eq, Structural, Hash, PartialOrd, Ord)]
pub struct AffixTierLevel(pub u8);

/// Spawn weight of one affix tier.
#[derive(Clone, Copy, Debug, PartialEq, Eq, Structural, Hash, PartialOrd, Ord)]
pub struct Weight(pub u32);

impl AffixId {
    pub fn from(v: u16) -> (r: Self)
        ensures r.0 == v,
    {
        AffixId(v)
    }

    pub fn get_raw_value(&self) -> (r: &u16)
        ensures *r == self.0,
    {
        &self.0
    }
}

impl BaseItemId {
    pub fn from(v: u16) -> (r: Self)
        ensures r.0 == v,
    {
        BaseItemId(v)
    }

    pub fn get_raw_value(&self) -> (r: &u16)
        ensures *r == self.0,
    {
        &self.0
    }
}

impl BaseGroupId {
    pub fn from(v: u16) -> (r: Self)
        ensures r.0 == v,
    {
        BaseGroupId(v)
    }

    pub fn get_raw_value(&self) -> (r: &u16)
        ensures *r == self.0,
    {
        &self.0
    }
}

impl EssenceId {
    pub fn from(v: u16) -> (r: Self)
        ensures r.0 == v,
    {
        EssenceId(v)
    }

    pub fn get_raw_value(&self) -> (r: &u16)
        ensures *r == self.0,
    {
        &self.0
    }
}

impl ItemLevel {
    pub fn from(v: u8) -> (r: Self)
        ensures r.0 == v,
    {
        ItemLevel(v)
    }

    pub fn get_raw_value(&self) -> (r: &u8)
        ensures *r == self.0,
    {
        &self.0
    }
}

impl AffixTierLevel {
    pub fn from(v: u8) -> (r: Self)
        ensures r.0 == v,
    {
        AffixTierLevel(v)
    }

    pub fn get_raw_value(&self) -> (r: &u8)
        ensures *r == self.0,
    {
        &self.0
    }
}

impl Weight {
    pub fn from(v: u32) -> (r: Self)
        ensures r.0 == v,
    {
        Weight(v)
    }

    pub fn get_raw_value(&self) -> (r: &u32)
        ensures *r == self.0,
    {
        &self.0
    }
}

/// Item rarity.
#[derive(Clone, Copy, Debug, PartialEq, Eq, Structural, Hash)]
pub enum ItemRarityEnum {
    Normal,
    Magic,
    Rare,
    Unique,
}

/// Where an affix sits on the item.
#[derive(Clone, Copy, Debug, PartialEq, Eq, Structural, Hash)]
pub enum AffixLocationEnum {
    Prefix,
    Suffix,
    Socket,
    Corrupted,
}

/// Which pool an affix is drawn from.
#[derive(Clone, Copy, Debug, PartialEq, Eq, Structural, Hash)]
pub enum AffixClassEnum {
    Base,
    Essence,
    Desecrated,
}

/// How a requested tier is matched: exactly that tier, or that tier or better.
#[derive(Clone, Copy, Debug, PartialEq, Eq, Structural, Hash)]
pub enum AffixTierLevelBoundsEnum {
    Exact,
    Minimum,
}

/// Tier constraint of a wanted affix.
#[derive(Clone, Copy, Debug, PartialEq, Eq, Structural, Hash)]
pub struct AffixTierConstraints {
    pub tier: AffixTierLevel,
    pub bounds: AffixTierLevelBoundsEnum,
}

/// One affix on an item (or wanted on a target item).
#[derive(Clone, Copy, Debug, PartialEq, Eq, Structural, Hash)]
pub struct AffixSpecifier {
    pub affix: AffixId,
    pub fractured: bool,
    pub tier: AffixTierConstraints,
}

/// Weight and item-level gate of one affix tier.
#[derive(Clone, Copy, Debug, PartialEq, Eq, Structural, Hash)]
pub struct AffixTierLevelMeta {
    pub weight: Weight,
    pub min_item_level: ItemLevel,
}

} // verus!
