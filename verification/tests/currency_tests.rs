use craftpath::currency::{min_starting_item_level, risk_class, CraftCurrencyEnum, CurrencyRiskClass};
use craftpath::provider::{EssenceDefinition, ItemInfoProvider};
use craftpath::types::EssenceId;

#[test]
fn test_risk_classes() {
    assert_eq!(risk_class(&CraftCurrencyEnum::VaalOrb()), CurrencyRiskClass::Irreversible);
    assert_eq!(risk_class(&CraftCurrencyEnum::FracturingOrb()), CurrencyRiskClass::Permanent);
    assert_eq!(risk_class(&CraftCurrencyEnum::ChaosOrbNormal()), CurrencyRiskClass::DestructiveReroll);
    assert_eq!(risk_class(&CraftCurrencyEnum::OrbOfAnnulment()), CurrencyRiskClass::RemovalRisk);
    assert_eq!(risk_class(&CraftCurrencyEnum::ExaltedOrbNormal()), CurrencyRiskClass::Safe);
    assert_eq!(risk_class(&CraftCurrencyEnum::ArtificersOrb()), CurrencyRiskClass::Safe);
}

#[test]
fn test_tier_thresholds_match_05_emulator() {
    let lvl = |c: &CraftCurrencyEnum| *min_starting_item_level(c).get_raw_value();
    assert_eq!(lvl(&CraftCurrencyEnum::OrbOfTransmutationGreater()), 44);
    assert_eq!(lvl(&CraftCurrencyEnum::OrbOfAugmentationGreater()), 44);
    assert_eq!(lvl(&CraftCurrencyEnum::OrbOfTransmutationPerfect()), 70);
    assert_eq!(lvl(&CraftCurrencyEnum::ExaltedOrbGreater()), 35);
    assert_eq!(lvl(&CraftCurrencyEnum::ExaltedOrbPerfect()), 50);
    assert_eq!(lvl(&CraftCurrencyEnum::RegalOrbGreater()), 35);
    assert_eq!(lvl(&CraftCurrencyEnum::VaalOrb()), 0);
}

#[test]
fn test_item_names_use_essence_definitions() {
    let provider = ItemInfoProvider {
        cache_affix_def: Vec::new(),
        cache_item_affix_table: Vec::new(),
        cache_essence_def: vec![(
            EssenceId::from(3u16),
            EssenceDefinition { name_essence: "Essence of Haste".to_string(), corrupt: false, base_tier_table: Vec::new() },
        )],
        cache_base_group_table: Vec::new(),
        base_group_definition: Vec::new(),
    };
    assert_eq!(CraftCurrencyEnum::Essence(EssenceId::from(3u16)).get_item_name(&provider), "Essence of Haste");
    assert_eq!(CraftCurrencyEnum::Essence(EssenceId::from(4u16)).get_item_name(&provider), "Essence");
    assert_eq!(CraftCurrencyEnum::ExaltedOrbNormal().get_item_name(&provider), "Exalted Orb");
    assert_eq!(CurrencyRiskClass::Safe.description().is_empty(), false);
}
