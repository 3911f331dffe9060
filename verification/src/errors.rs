//! Errors of the calculation core.

use vstd::prelude::*;

use crate::types::{AffixId, BaseGroupId, BaseItemId, EssenceId, ItemLevel};

verus! {

/// Failure kinds of the calculation core.
#[derive(Clone, Copy, Debug, PartialEq, Eq, Structural)]
pub enum CraftPathError {
    /// The built item matrix contains no item matching the target.
    ItemMatrixCouldNotReachTarget(),
    /// A wanted affix cannot be reached on the item.
    ItemUnreachable(AffixId),
    /// A wanted affix tier needs a higher item level.
    ItemUnreachableMinLevelConstraint(AffixId, ItemLevel),
    /// The configured RAM budget (bytes) was exceeded.
    RamLimitReached(u64),
    /// The base item has no affix pool in the item data.
    ItemWithoutAffixInformation(BaseItemId),
    /// The affix has no definition in the item data.
    AffixWithoutDefinition(AffixId),
    /// The affix belongs to no essence.
    AffixWithoutEssence(AffixId),
    /// The base group has no definition in the item data.
    BaseGroupWithoutDefinition(BaseGroupId),
    /// The essence has no definition in the item data.
    EssenceWithoutDefinition(EssenceId),
    /// The base item belongs to no base group.
    BaseItemWithoutBaseGroup(BaseItemId),
    /// A perfect essence needs a temporary intermediary step.
    EssenceIntermediaryStepRequired(EssenceId),
    /// The calculation was cancelled by its progress sink.
    Cancelled(),
}

} // verus!
