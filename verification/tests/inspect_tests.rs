use craftpath::currency::CraftCurrencyEnum;
use craftpath::inspect::{legal_actions, simulate_action, OutcomeKind};
use craftpath::item::ItemSnapshot;
use craftpath::provider::{AffixDefinition, BaseGroupDefinition, ItemInfoProvider};
use craftpath::types::{
    AffixClassEnum, AffixId, AffixLocationEnum, AffixSpecifier, AffixTierConstraints,
    AffixTierLevel, AffixTierLevelBoundsEnum, AffixTierLevelMeta, BaseGroupId, BaseItemId,
    ItemLevel, ItemRarityEnum, Weight,
};

fn affix(desc: &str, class: AffixClassEnum, loc: AffixLocationEnum) -> AffixDefinition {
    AffixDefinition {
        exlusive_groups: Vec::new(),
        tags: Vec::new(),
        description_template: desc.to_string(),
        affix_class: class,
        affix_location: loc,
    }
}

fn tier(t: u8, w: u32, lvl: u8) -> (AffixTierLevel, AffixTierLevelMeta) {
    (
        AffixTierLevel::from(t),
        AffixTierLevelMeta { weight: Weight::from(w), min_item_level: ItemLevel::from(lvl) },
    )
}

fn fixture_provider() -> ItemInfoProvider {
    ItemInfoProvider {
        cache_affix_def: vec![
            (AffixId::from(1001u16), affix("#% increased Physical Damage", AffixClassEnum::Base, AffixLocationEnum::Prefix)),
            (AffixId::from(1002u16), affix("#% increased Attack Speed", AffixClassEnum::Base, AffixLocationEnum::Suffix)),
            (AffixId::from(1003u16), affix("desecrated bone suffix", AffixClassEnum::Desecrated, AffixLocationEnum::Suffix)),
        ],
        cache_item_affix_table: vec![(
            BaseItemId::from(20u16),
            vec![
                (AffixId::from(1001u16), vec![tier(1, 100, 60), tier(2, 300, 30)]),
                (AffixId::from(1002u16), vec![tier(1, 100, 50)]),
                (AffixId::from(1003u16), vec![tier(1, 50, 65)]),
            ],
        )],
        cache_essence_def: Vec::new(),
        cache_base_group_table: vec![(BaseItemId::from(20u16), BaseGroupId::from(7u16))],
        base_group_definition: vec![(
            BaseGroupId::from(7u16),
            BaseGroupDefinition { name_base_group: "Bow".to_string(), max_affix: 6, max_sockets: 2, is_rare: true },
        )],
    }
}

fn rare_item_with_phys() -> ItemSnapshot {
    ItemSnapshot {
        item_level: ItemLevel::from(81u8),
        rarity: ItemRarityEnum::Rare,
        base_id: BaseItemId::from(20u16),
        affixes: vec![AffixSpecifier {
            affix: AffixId::from(1001u16),
            fractured: false,
            tier: AffixTierConstraints { tier: AffixTierLevel::from(2u8), bounds: AffixTierLevelBoundsEnum::Minimum },
        }],
        corrupted: false,
        allowed_sockets: 0,
        sockets: Vec::new(),
    }
}

#[test]
fn test_exalt_simulation_rolls_open_suffix_only_pool() {
    let provider = fixture_provider();
    let item = rare_item_with_phys();

    let sim = simulate_action(&item, &CraftCurrencyEnum::ExaltedOrbNormal(), &provider).unwrap();
    assert_eq!(sim.outcomes.len(), 2);
    let chance = |w: u64| w as f64 / sim.total_weight as f64;
    let total: f64 = sim.outcomes.iter().map(|o| chance(o.weight)).sum();
    assert!((total - 1.0).abs() < 1e-9);
    // phys: tiers 100+300=400, attack speed: 100 -> 0.8 / 0.2
    assert!((chance(sim.outcomes[0].weight) - 0.8).abs() < 1e-9);
    assert_eq!(sim.outcomes[0].tiers.len(), 2);
}

#[test]
fn test_simulation_respects_item_level_gate() {
    let provider = fixture_provider();
    let mut item = rare_item_with_phys();
    item.item_level = ItemLevel::from(40u8);
    item.affixes = Vec::new();

    let sim = simulate_action(&item, &CraftCurrencyEnum::ExaltedOrbNormal(), &provider).unwrap();
    // at ilvl 40: phys t1 (60) and attack speed t1 (50) are gated out,
    // only phys t2 (30) remains
    assert_eq!(sim.outcomes.len(), 1);
    assert_eq!(sim.outcomes[0].tiers.len(), 1);
    assert_eq!(sim.outcomes[0].tiers[0].tier, 2);
}

#[test]
fn test_desecration_pool_and_annulment() {
    let provider = fixture_provider();
    let item = rare_item_with_phys();

    let sim = simulate_action(
        &item,
        &CraftCurrencyEnum::Desecrator(BaseItemId::from(20u16), BaseGroupId::from(7u16)),
        &provider,
    )
    .unwrap();
    assert_eq!(sim.outcomes.len(), 1);
    assert_eq!(sim.outcomes[0].affix, AffixId::from(1003u16));

    let sim = simulate_action(&item, &CraftCurrencyEnum::OrbOfAnnulment(), &provider).unwrap();
    assert_eq!(sim.outcomes.len(), 1);
    assert_eq!(sim.outcomes[0].kind, OutcomeKind::Removes);
    assert!((sim.outcomes[0].weight as f64 / sim.total_weight as f64 - 1.0).abs() < 1e-9);
}

#[test]
fn test_legal_actions_on_rare() {
    let provider = fixture_provider();
    let item = rare_item_with_phys();

    let actions = legal_actions(&item, &provider).unwrap();
    let names: Vec<&str> = actions.iter().map(|a| a.reason.as_str()).collect();
    assert!(!names.is_empty());
    assert!(actions.iter().any(|a| matches!(a.currency, CraftCurrencyEnum::ExaltedOrbNormal())));
    assert!(actions.iter().any(|a| matches!(a.currency, CraftCurrencyEnum::OrbOfAnnulment())));
    assert!(actions.iter().any(|a| matches!(a.currency, CraftCurrencyEnum::VaalOrb())));
    assert!(actions.iter().any(|a| matches!(a.currency, CraftCurrencyEnum::ArtificersOrb())));
    assert!(!actions.iter().any(|a| matches!(a.currency, CraftCurrencyEnum::OrbOfTransmutationNormal())));

    // corrupted item: nothing is legal
    let mut corrupted = rare_item_with_phys();
    corrupted.corrupted = true;
    assert!(legal_actions(&corrupted, &provider).unwrap().is_empty());
}

#[test]
fn test_simulation_of_corrupted_item_is_refused() {
    let provider = fixture_provider();
    let mut item = rare_item_with_phys();
    item.corrupted = true;
    assert!(simulate_action(&item, &CraftCurrencyEnum::ExaltedOrbNormal(), &provider).is_err());
}

#[test]
fn test_exalt_outcome_weights_are_exact() {
    let provider = fixture_provider();
    let item = rare_item_with_phys();
    let sim = simulate_action(&item, &CraftCurrencyEnum::ExaltedOrbNormal(), &provider).unwrap();
    assert_eq!(sim.total_weight, 500);
    assert_eq!(sim.outcomes[0].affix, AffixId::from(1001u16));
    assert_eq!(sim.outcomes[0].weight, 400);
    assert_eq!(sim.outcomes[1].affix, AffixId::from(1002u16));
    assert_eq!(sim.outcomes[1].weight, 100);
}
