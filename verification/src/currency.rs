//! Crafting currencies and their static game data: the minimum item level
//! of the tiered orbs and a coarse risk classification.

use vstd::prelude::*;

use vstd::string::StringExecFns;

use crate::provider::ItemInfoProvider;
use crate::types::{BaseGroupId, BaseItemId, EssenceId, ItemLevel};

verus! {

/// Every crafting currency (orbs, omens, bones, essences) the model knows.
#[derive(Clone, Copy, Debug, PartialEq, Eq, Structural, Hash)]
pub enum CraftCurrencyEnum {
    OrbOfTransmutationNormal(),
    OrbOfTransmutationGreater(),
    OrbOfTransmutationPerfect(),
    OrbOfAugmentationNormal(),
    OrbOfAugmentationGreater(),
    OrbOfAugmentationPerfect(),
    RegalOrbNormal(),
    RegalOrbGreater(),
    RegalOrbPerfect(),
    ExaltedOrbNormal(),
    ExaltedOrbGreater(),
    ExaltedOrbPerfect(),
    OrbOfAnnulment(),
    ChaosOrbNormal(),
    ChaosOrbGreater(),
    ChaosOrbPerfect(),
    ArtificersOrb(),
    VaalOrb(),
    OmenOfCorruption(),
    FracturingOrb(),
    /// Desecration bone for a base item of a base group.
    Desecrator(BaseItemId, BaseGroupId),
    AbyssalEchoes(),
    TheBlackblooded(),
    TheSovereign(),
    TheLiege(),
    DextralNecromancy(),
    SinistralNecromancy(),
    HomogenisingCoronation(),
    HomogenisingExaltation(),
    DextralExaltation(),
    SinistralExaltation(),
    DextralAnnulment(),
    SinistralAnnulment(),
    DextralErasure(),
    SinistralErasure(),
    Whittling(),
    OmenOfGreaterExaltation(),
    OmenOfLight(),
    Essence(EssenceId),
    DextralCrystallisation(),
    SinistralCrystallisation(),
}

/// Minimum item level (mod level filter) of a tiered orb; 0 when untiered.
pub open spec fn spec_min_starting_item_level(c: CraftCurrencyEnum) -> u8 {
    match c {
        CraftCurrencyEnum::OrbOfTransmutationGreater()
        | CraftCurrencyEnum::OrbOfAugmentationGreater() => 44,
        CraftCurrencyEnum::OrbOfTransmutationPerfect()
        | CraftCurrencyEnum::OrbOfAugmentationPerfect() => 70,
        CraftCurrencyEnum::RegalOrbGreater()
        | CraftCurrencyEnum::ExaltedOrbGreater()
        | CraftCurrencyEnum::ChaosOrbGreater() => 35,
        CraftCurrencyEnum::RegalOrbPerfect()
        | CraftCurrencyEnum::ExaltedOrbPerfect()
        | CraftCurrencyEnum::ChaosOrbPerfect() => 50,
        _ => 0,
    }
}

/// The minimum item level a tiered orb requires for newly added mods.
/// Returns 0 for untiered currencies.
pub fn min_starting_item_level(currency: &CraftCurrencyEnum) -> (r: ItemLevel)
    ensures
        r.0 == spec_min_starting_item_level(*currency),
{
    ItemLevel::from(
        match currency {
            CraftCurrencyEnum::OrbOfTransmutationNormal()
            | CraftCurrencyEnum::OrbOfAugmentationNormal() => 0,
            CraftCurrencyEnum::OrbOfTransmutationGreater()
            | CraftCurrencyEnum::OrbOfAugmentationGreater() => 44,
            CraftCurrencyEnum::OrbOfTransmutationPerfect()
            | CraftCurrencyEnum::OrbOfAugmentationPerfect() => 70,
            CraftCurrencyEnum::RegalOrbNormal()
            | CraftCurrencyEnum::ExaltedOrbNormal()
            | CraftCurrencyEnum::ChaosOrbNormal() => 0,
            CraftCurrencyEnum::RegalOrbGreater()
            | CraftCurrencyEnum::ExaltedOrbGreater()
            | CraftCurrencyEnum::ChaosOrbGreater() => 35,
            CraftCurrencyEnum::RegalOrbPerfect()
            | CraftCurrencyEnum::ExaltedOrbPerfect()
            | CraftCurrencyEnum::ChaosOrbPerfect() => 50,
            _ => 0,
        },
    )
}

/// Coarse safety classification of a currency.
#[derive(Clone, Copy, Debug, PartialEq, Eq, Structural, Hash)]
pub enum CurrencyRiskClass {
    /// Only adds affixes or sockets; never removes progress.
    Safe,
    /// Removes or rerolls existing affixes; can lose wanted mods.
    DestructiveReroll,
    /// Removes a random affix; can brick the item by hitting a wanted mod.
    RemovalRisk,
    /// Locks state permanently (fractured affixes cannot be removed).
    Permanent,
    /// Corrupts the item; no further crafting afterwards.
    Irreversible,
}

impl CurrencyRiskClass {
    /// The user-facing explanation of the class.
    pub open spec fn spec_description(self) -> Seq<char> {
        match self {
            CurrencyRiskClass::Safe => "additive; never removes progress"@,
            CurrencyRiskClass::DestructiveReroll => "rerolls/removes existing affixes; wanted mods can be lost"@,
            CurrencyRiskClass::RemovalRisk => "removes a random affix; can hit a wanted mod and brick the item"@,
            CurrencyRiskClass::Permanent => "locks an affix permanently; the fracture cannot be undone"@,
            CurrencyRiskClass::Irreversible => "corrupts the item; no crafting is possible afterwards"@,
        }
    }

    pub fn description(&self) -> (r: &'static str)
        ensures
            r@ == self.spec_description(),
    {
        match self {
            CurrencyRiskClass::Safe => "additive; never removes progress",
            CurrencyRiskClass::DestructiveReroll => {
                "rerolls/removes existing affixes; wanted mods can be lost"
            },
            CurrencyRiskClass::RemovalRisk => {
                "removes a random affix; can hit a wanted mod and brick the item"
            },
            CurrencyRiskClass::Permanent => {
                "locks an affix permanently; the fracture cannot be undone"
            },
            CurrencyRiskClass::Irreversible => {
                "corrupts the item; no crafting is possible afterwards"
            },
        }
    }
}

/// Worst-case risk class per currency. Essences are classified
/// conservatively as removal risks (perfect and alloy essences remove a mod).
pub open spec fn spec_risk_class(c: CraftCurrencyEnum) -> CurrencyRiskClass {
    match c {
        CraftCurrencyEnum::VaalOrb() | CraftCurrencyEnum::OmenOfCorruption() => CurrencyRiskClass::Irreversible,
        CraftCurrencyEnum::FracturingOrb() => CurrencyRiskClass::Permanent,
        CraftCurrencyEnum::ChaosOrbNormal()
        | CraftCurrencyEnum::ChaosOrbGreater()
        | CraftCurrencyEnum::ChaosOrbPerfect()
        | CraftCurrencyEnum::DextralErasure()
        | CraftCurrencyEnum::SinistralErasure()
        | CraftCurrencyEnum::Whittling() => CurrencyRiskClass::DestructiveReroll,
        CraftCurrencyEnum::OrbOfAnnulment()
        | CraftCurrencyEnum::DextralAnnulment()
        | CraftCurrencyEnum::SinistralAnnulment()
        | CraftCurrencyEnum::Essence(_) => CurrencyRiskClass::RemovalRisk,
        _ => CurrencyRiskClass::Safe,
    }
}

/// Worst-case risk class per currency.
pub fn risk_class(currency: &CraftCurrencyEnum) -> (r: CurrencyRiskClass)
    ensures
        r == spec_risk_class(*currency),
{
    match currency {
        CraftCurrencyEnum::VaalOrb() | CraftCurrencyEnum::OmenOfCorruption() => CurrencyRiskClass::Irreversible,
        CraftCurrencyEnum::FracturingOrb() => CurrencyRiskClass::Permanent,
        CraftCurrencyEnum::ChaosOrbNormal()
        | CraftCurrencyEnum::ChaosOrbGreater()
        | CraftCurrencyEnum::ChaosOrbPerfect()
        | CraftCurrencyEnum::DextralErasure()
        | CraftCurrencyEnum::SinistralErasure()
        | CraftCurrencyEnum::Whittling() => CurrencyRiskClass::DestructiveReroll,
        CraftCurrencyEnum::OrbOfAnnulment()
        | CraftCurrencyEnum::DextralAnnulment()
        | CraftCurrencyEnum::SinistralAnnulment()
        | CraftCurrencyEnum::Essence(_) => CurrencyRiskClass::RemovalRisk,
        _ => CurrencyRiskClass::Safe,
    }
}


/// Display name of a currency whose name needs no game data.
pub open spec fn spec_static_name(c: CraftCurrencyEnum) -> Seq<char> {
    match c {
        CraftCurrencyEnum::OrbOfTransmutationNormal() => "Orb of Transmutation"@,
        CraftCurrencyEnum::OrbOfTransmutationGreater() => "Greater Orb of Transmutation"@,
        CraftCurrencyEnum::OrbOfTransmutationPerfect() => "Perfect Orb of Transmutation"@,
        CraftCurrencyEnum::OrbOfAugmentationNormal() => "Orb of Augmentation"@,
        CraftCurrencyEnum::OrbOfAugmentationGreater() => "Greater Orb of Augmentation"@,
        CraftCurrencyEnum::OrbOfAugmentationPerfect() => "Perfect Orb of Augmentation"@,
        CraftCurrencyEnum::RegalOrbNormal() => "Regal Orb"@,
        CraftCurrencyEnum::RegalOrbGreater() => "Greater Regal Orb"@,
        CraftCurrencyEnum::RegalOrbPerfect() => "Perfect Regal Orb"@,
        CraftCurrencyEnum::ExaltedOrbNormal() => "Exalted Orb"@,
        CraftCurrencyEnum::ExaltedOrbGreater() => "Greater Exalted Orb"@,
        CraftCurrencyEnum::ExaltedOrbPerfect() => "Perfect Exalted Orb"@,
        CraftCurrencyEnum::OrbOfAnnulment() => "Orb of Annulment"@,
        CraftCurrencyEnum::ChaosOrbNormal() => "Chaos Orb"@,
        CraftCurrencyEnum::ChaosOrbGreater() => "Greater Chaos Orb"@,
        CraftCurrencyEnum::ChaosOrbPerfect() => "Perfect Chaos Orb"@,
        CraftCurrencyEnum::ArtificersOrb() => "Artificer's Orb"@,
        CraftCurrencyEnum::VaalOrb() => "Vaal Orb"@,
        CraftCurrencyEnum::OmenOfCorruption() => "Omen of Corruption"@,
        CraftCurrencyEnum::FracturingOrb() => "Fracturing Orb"@,
        CraftCurrencyEnum::AbyssalEchoes() => "Omen of Abyssal Echoes"@,
        CraftCurrencyEnum::TheBlackblooded() => "Omen of the Blackblooded"@,
        CraftCurrencyEnum::TheSovereign() => "Omen of the Sovereign"@,
        CraftCurrencyEnum::TheLiege() => "Omen of the Liege"@,
        CraftCurrencyEnum::DextralNecromancy() => "Omen of Dextral Necromancy"@,
        CraftCurrencyEnum::SinistralNecromancy() => "Omen of Sinistral Necromancy"@,
        CraftCurrencyEnum::HomogenisingCoronation() => "Omen of Homogenising Coronation"@,
        CraftCurrencyEnum::HomogenisingExaltation() => "Omen of Homogenising Exaltation"@,
        CraftCurrencyEnum::DextralExaltation() => "Omen of Dextral Exaltation"@,
        CraftCurrencyEnum::SinistralExaltation() => "Omen of Sinistral Exaltation"@,
        CraftCurrencyEnum::DextralAnnulment() => "Omen of Dextral Annulment"@,
        CraftCurrencyEnum::SinistralAnnulment() => "Omen of Sinistral Annulment"@,
        CraftCurrencyEnum::DextralErasure() => "Omen of Dextral Erasure"@,
        CraftCurrencyEnum::SinistralErasure() => "Omen of Sinistral Erasure"@,
        CraftCurrencyEnum::Whittling() => "Omen of Whittling"@,
        CraftCurrencyEnum::OmenOfGreaterExaltation() => "Omen of Greater Exaltation"@,
        CraftCurrencyEnum::OmenOfLight() => "Omen of Light"@,
        CraftCurrencyEnum::DextralCrystallisation() => "Omen of Dextral Crystallisation"@,
        CraftCurrencyEnum::SinistralCrystallisation() => "Omen of Sinistral Crystallisation"@,
        CraftCurrencyEnum::Desecrator(_, _) => "Desecration Bone"@,
        CraftCurrencyEnum::Essence(_) => "Essence"@,
    }
}

/// In-game display name of a currency: essences are named by their
/// definition (when the game data has one), everything else statically.
pub open spec fn spec_item_name(c: CraftCurrencyEnum, provider: ItemInfoProvider) -> Seq<char> {
    match c {
        CraftCurrencyEnum::Essence(id) => match provider.essence_def(id) {
            Some(d) => d.name_essence@,
            None => spec_static_name(c),
        },
        _ => spec_static_name(c),
    }
}

impl CraftCurrencyEnum {
    /// Display name of the currency without consulting game data.
    pub fn static_name(&self) -> (r: &'static str)
        ensures
            r@ == spec_static_name(*self),
    {
        match self {
            CraftCurrencyEnum::OrbOfTransmutationNormal() => "Orb of Transmutation",
            CraftCurrencyEnum::OrbOfTransmutationGreater() => "Greater Orb of Transmutation",
            CraftCurrencyEnum::OrbOfTransmutationPerfect() => "Perfect Orb of Transmutation",
            CraftCurrencyEnum::OrbOfAugmentationNormal() => "Orb of Augmentation",
            CraftCurrencyEnum::OrbOfAugmentationGreater() => "Greater Orb of Augmentation",
            CraftCurrencyEnum::OrbOfAugmentationPerfect() => "Perfect Orb of Augmentation",
            CraftCurrencyEnum::RegalOrbNormal() => "Regal Orb",
            CraftCurrencyEnum::RegalOrbGreater() => "Greater Regal Orb",
            CraftCurrencyEnum::RegalOrbPerfect() => "Perfect Regal Orb",
            CraftCurrencyEnum::ExaltedOrbNormal() => "Exalted Orb",
            CraftCurrencyEnum::ExaltedOrbGreater() => "Greater Exalted Orb",
            CraftCurrencyEnum::ExaltedOrbPerfect() => "Perfect Exalted Orb",
            CraftCurrencyEnum::OrbOfAnnulment() => "Orb of Annulment",
            CraftCurrencyEnum::ChaosOrbNormal() => "Chaos Orb",
            CraftCurrencyEnum::ChaosOrbGreater() => "Greater Chaos Orb",
            CraftCurrencyEnum::ChaosOrbPerfect() => "Perfect Chaos Orb",
            CraftCurrencyEnum::ArtificersOrb() => "Artificer's Orb",
            CraftCurrencyEnum::VaalOrb() => "Vaal Orb",
            CraftCurrencyEnum::OmenOfCorruption() => "Omen of Corruption",
            CraftCurrencyEnum::FracturingOrb() => "Fracturing Orb",
            CraftCurrencyEnum::AbyssalEchoes() => "Omen of Abyssal Echoes",
            CraftCurrencyEnum::TheBlackblooded() => "Omen of the Blackblooded",
            CraftCurrencyEnum::TheSovereign() => "Omen of the Sovereign",
            CraftCurrencyEnum::TheLiege() => "Omen of the Liege",
            CraftCurrencyEnum::DextralNecromancy() => "Omen of Dextral Necromancy",
            CraftCurrencyEnum::SinistralNecromancy() => "Omen of Sinistral Necromancy",
            CraftCurrencyEnum::HomogenisingCoronation() => "Omen of Homogenising Coronation",
            CraftCurrencyEnum::HomogenisingExaltation() => "Omen of Homogenising Exaltation",
            CraftCurrencyEnum::DextralExaltation() => "Omen of Dextral Exaltation",
            CraftCurrencyEnum::SinistralExaltation() => "Omen of Sinistral Exaltation",
            CraftCurrencyEnum::DextralAnnulment() => "Omen of Dextral Annulment",
            CraftCurrencyEnum::SinistralAnnulment() => "Omen of Sinistral Annulment",
            CraftCurrencyEnum::DextralErasure() => "Omen of Dextral Erasure",
            CraftCurrencyEnum::SinistralErasure() => "Omen of Sinistral Erasure",
            CraftCurrencyEnum::Whittling() => "Omen of Whittling",
            CraftCurrencyEnum::OmenOfGreaterExaltation() => "Omen of Greater Exaltation",
            CraftCurrencyEnum::OmenOfLight() => "Omen of Light",
            CraftCurrencyEnum::DextralCrystallisation() => "Omen of Dextral Crystallisation",
            CraftCurrencyEnum::SinistralCrystallisation() => "Omen of Sinistral Crystallisation",
            CraftCurrencyEnum::Desecrator(_, _) => "Desecration Bone",
            CraftCurrencyEnum::Essence(_) => "Essence",
        }
    }

    /// In-game display name of the currency.
    pub fn get_item_name(&self, provider: &ItemInfoProvider) -> (r: String)
        ensures
            r@ == spec_item_name(*self, *provider),
    {
        match self {
            CraftCurrencyEnum::Essence(id) => match provider.lookup_essence_definition(id) {
                Ok(def) => def.name_essence.clone(),
                Err(_) => String::from_str(self.static_name()),
            },
            _ => String::from_str(self.static_name()),
        }
    }
}

} // verus!
