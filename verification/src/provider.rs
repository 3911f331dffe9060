//! Game data: affix definitions, per-base affix pools, essences and base
//! groups, with their lookups.

use vstd::prelude::*;

use crate::errors::CraftPathError;
use crate::table::{has_key, table_find, table_get};
use crate::types::{
    AffixClassEnum, AffixId, AffixLocationEnum, AffixTierLevel, AffixTierLevelMeta, BaseGroupId,
    BaseItemId, EssenceId,
};

verus! {

/// Definition of one affix.
#[derive(Clone, Debug)]
pub struct AffixDefinition {
    /// Exclusive mod groups: two affixes sharing a group never coexist.
    pub exlusive_groups: Vec<String>,
    pub tags: Vec<String>,
    pub description_template: String,
    pub affix_class: AffixClassEnum,
    pub affix_location: AffixLocationEnum,
}

/// Definition of a base group (item class).
#[derive(Clone, Debug)]
pub struct BaseGroupDefinition {
    pub name_base_group: String,
    pub max_affix: u8,
    pub max_sockets: u8,
    /// Whether items of the group can become Rare.
    pub is_rare: bool,
}

/// Definition of an essence.
#[derive(Clone, Debug)]
pub struct EssenceDefinition {
    pub name_essence: String,
    /// Whether applying the essence corrupts the item.
    pub corrupt: bool,
    /// Per base item, the affixes the essence can guarantee.
    pub base_tier_table: Vec<(BaseItemId, Vec<AffixId>)>,
}

/// Tiers of one affix in a pool.
pub type TierTable = Vec<(AffixTierLevel, AffixTierLevelMeta)>;

/// Affix pool of a base item: per affix its tiers.
pub type AffixWeightTable = Vec<(AffixId, TierTable)>;

/// All game data the calculations read.
#[derive(Clone, Debug)]
pub struct ItemInfoProvider {
    pub cache_affix_def: Vec<(AffixId, AffixDefinition)>,
    pub cache_item_affix_table: Vec<(BaseItemId, AffixWeightTable)>,
    pub cache_essence_def: Vec<(EssenceId, EssenceDefinition)>,
    pub cache_base_group_table: Vec<(BaseItemId, BaseGroupId)>,
    pub base_group_definition: Vec<(BaseGroupId, BaseGroupDefinition)>,
}

/// Every affix of the pool has a tier-weight sum that fits in a `u32`, and
/// the pool has at most `u32::MAX` affixes.
pub open spec fn pool_fits(p: Seq<(AffixId, TierTable)>) -> bool {
    &&& p.len() <= u32::MAX
    &&& forall|i: int| 0 <= i < p.len() ==> crate::pool_filter::tiers_weight(#[trigger] p[i].1@) <= u32::MAX
}

impl ItemInfoProvider {
    /// All affix pools have weights that fit the arithmetic of the rolls.
    pub open spec fn weights_fit(&self) -> bool {
        forall|b: int| 0 <= b < self.cache_item_affix_table@.len()
            ==> pool_fits(#[trigger] self.cache_item_affix_table@[b].1@)
    }

    /// A pool found by lookup is one of the stored pools.
    pub proof fn lemma_base_pool_fits(&self, id: BaseItemId)
        requires
            self.weights_fit(),
            self.base_pool(id) is Some,
        ensures
            pool_fits(self.base_pool(id).unwrap()@),
    {
        let s = self.cache_item_affix_table@;
        let c = choose|i: int| crate::table::is_first_key(s, id, i);
        assert(pool_fits(s[c].1@));
    }

    pub open spec fn affix_def(&self, id: AffixId) -> Option<AffixDefinition> {
        table_get(self.cache_affix_def@, id)
    }

    pub open spec fn base_pool(&self, id: BaseItemId) -> Option<AffixWeightTable> {
        table_get(self.cache_item_affix_table@, id)
    }

    pub open spec fn essence_def(&self, id: EssenceId) -> Option<EssenceDefinition> {
        table_get(self.cache_essence_def@, id)
    }

    pub open spec fn base_group_of(&self, id: BaseItemId) -> Option<BaseGroupId> {
        table_get(self.cache_base_group_table@, id)
    }

    pub open spec fn group_def(&self, id: BaseGroupId) -> Option<BaseGroupDefinition> {
        table_get(self.base_group_definition@, id)
    }

    pub fn lookup_affix_definition(&self, id: &AffixId) -> (r: Result<&AffixDefinition, CraftPathError>)
        ensures
            match r {
                Ok(d) => self.affix_def(*id) == Some(*d),
                Err(e) => self.affix_def(*id) is None && e == CraftPathError::AffixWithoutDefinition(*id),
            },
    {
        match table_find(&self.cache_affix_def, id) {
            Some(i) => Ok(&self.cache_affix_def[i].1),
            None => Err(CraftPathError::AffixWithoutDefinition(*id)),
        }
    }

    pub fn lookup_base_item_mods(&self, id: &BaseItemId) -> (r: Result<&AffixWeightTable, CraftPathError>)
        ensures
            match r {
                Ok(p) => self.base_pool(*id) == Some(*p),
                Err(e) => self.base_pool(*id) is None && e == CraftPathError::ItemWithoutAffixInformation(*id),
            },
    {
        match table_find(&self.cache_item_affix_table, id) {
            Some(i) => Ok(&self.cache_item_affix_table[i].1),
            None => Err(CraftPathError::ItemWithoutAffixInformation(*id)),
        }
    }

    pub fn lookup_essence_definition(&self, id: &EssenceId) -> (r: Result<&EssenceDefinition, CraftPathError>)
        ensures
            match r {
                Ok(d) => self.essence_def(*id) == Some(*d),
                Err(e) => self.essence_def(*id) is None && e == CraftPathError::EssenceWithoutDefinition(*id),
            },
    {
        match table_find(&self.cache_essence_def, id) {
            Some(i) => Ok(&self.cache_essence_def[i].1),
            None => Err(CraftPathError::EssenceWithoutDefinition(*id)),
        }
    }

    pub fn lookup_base_group(&self, id: &BaseItemId) -> (r: Result<BaseGroupId, CraftPathError>)
        ensures
            match r {
                Ok(g) => self.base_group_of(*id) == Some(g),
                Err(e) => self.base_group_of(*id) is None && e == CraftPathError::BaseItemWithoutBaseGroup(*id),
            },
    {
        match table_find(&self.cache_base_group_table, id) {
            Some(i) => Ok(self.cache_base_group_table[i].1),
            None => Err(CraftPathError::BaseItemWithoutBaseGroup(*id)),
        }
    }

    pub fn lookup_base_group_definition(&self, id: &BaseGroupId) -> (r: Result<&BaseGroupDefinition, CraftPathError>)
        ensures
            match r {
                Ok(d) => self.group_def(*id) == Some(*d),
                Err(e) => self.group_def(*id) is None && e == CraftPathError::BaseGroupWithoutDefinition(*id),
            },
    {
        match table_find(&self.base_group_definition, id) {
            Some(i) => Ok(&self.base_group_definition[i].1),
            None => Err(CraftPathError::BaseGroupWithoutDefinition(*id)),
        }
    }
}

} // verus!
