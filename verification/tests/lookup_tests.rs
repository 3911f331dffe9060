use craftpath::currency::CraftCurrencyEnum;
use craftpath::item::ItemSnapshot;
use craftpath::lookup::{parse_affix_class, parse_location, pick_currency, resolve_currency, static_currencies, LookupError};
use craftpath::provider::{BaseGroupDefinition, EssenceDefinition, ItemInfoProvider};
use craftpath::types::{AffixClassEnum, AffixLocationEnum, BaseGroupId, BaseItemId, EssenceId, ItemLevel, ItemRarityEnum};

fn provider_with_base() -> ItemInfoProvider {
    ItemInfoProvider {
        cache_affix_def: Vec::new(),
        cache_item_affix_table: Vec::new(),
        cache_essence_def: Vec::new(),
        cache_base_group_table: vec![(BaseItemId::from(20u16), BaseGroupId::from(7u16))],
        base_group_definition: vec![(
            BaseGroupId::from(7u16),
            BaseGroupDefinition { name_base_group: "Bow".to_string(), max_affix: 6, max_sockets: 2, is_rare: true },
        )],
    }
}

fn snapshot() -> ItemSnapshot {
    ItemSnapshot {
        item_level: ItemLevel::from(81u8),
        rarity: ItemRarityEnum::Rare,
        base_id: BaseItemId::from(20u16),
        affixes: Vec::new(),
        corrupted: false,
        allowed_sockets: 0,
        sockets: Vec::new(),
    }
}

#[test]
fn test_resolve_currency_names() {
    let items = provider_with_base();
    let snap = snapshot();

    assert!(matches!(resolve_currency("Exalted Orb", &snap, &items).unwrap(), CraftCurrencyEnum::ExaltedOrbNormal()));
    assert!(matches!(resolve_currency("greater chaos orb", &snap, &items).unwrap(), CraftCurrencyEnum::ChaosOrbGreater()));
    assert!(matches!(resolve_currency("desecrate", &snap, &items).unwrap(), CraftCurrencyEnum::Desecrator(_, _)));
    // ambiguous: "chaos" matches three orbs
    assert!(resolve_currency("chaos", &snap, &items).is_err());
    assert!(resolve_currency("no-such-orb", &snap, &items).is_err());
}

#[test]
fn test_resolve_currency_details() {
    let mut items = provider_with_base();
    items.cache_essence_def = vec![(
        EssenceId::from(5u16),
        EssenceDefinition { name_essence: "Essence of Haste".to_string(), corrupt: false, base_tier_table: Vec::new() },
    )];
    let snap = snapshot();
    assert_eq!(resolve_currency("  ", &snap, &items), Err(LookupError::EmptyCurrencyName()));
    assert_eq!(resolve_currency("chaos", &snap, &items), Err(LookupError::AmbiguousCurrency(3)));
    assert_eq!(resolve_currency("no-such-orb", &snap, &items), Err(LookupError::UnknownCurrency()));
    assert_eq!(resolve_currency("haste", &snap, &items), Ok(CraftCurrencyEnum::Essence(EssenceId::from(5u16))));
    assert_eq!(
        resolve_currency("BONE", &snap, &items),
        Ok(CraftCurrencyEnum::Desecrator(BaseItemId::from(20u16), BaseGroupId::from(7u16)))
    );
    assert_eq!(resolve_currency(" vaal orb ", &snap, &items), Ok(CraftCurrencyEnum::VaalOrb()));
    let mut orphan = snapshot();
    orphan.base_id = BaseItemId::from(3u16);
    assert!(matches!(resolve_currency("desecrate", &orphan, &items), Err(LookupError::Lookup(_))));
}

#[test]
fn test_pick_currency_prefers_exact_names() {
    let items = provider_with_base();
    let statics = vec![CraftCurrencyEnum::ChaosOrbNormal(), CraftCurrencyEnum::ChaosOrbGreater()];
    let names = vec!["chaos orb".to_string(), "greater chaos orb".to_string()];
    let essences: Vec<(EssenceId, String)> = Vec::new();
    assert_eq!(pick_currency("chaos orb", &statics, &names, &essences, BaseItemId::from(20u16), &items), Ok(CraftCurrencyEnum::ChaosOrbNormal()));
    assert_eq!(pick_currency("chaos", &statics, &names, &essences, BaseItemId::from(20u16), &items), Err(LookupError::AmbiguousCurrency(2)));
    assert_eq!(pick_currency("greater", &statics, &names, &essences, BaseItemId::from(20u16), &items), Ok(CraftCurrencyEnum::ChaosOrbGreater()));
}

#[test]
fn test_parse_location_and_class() {
    assert_eq!(parse_location(" Prefix "), Ok(AffixLocationEnum::Prefix));
    assert_eq!(parse_location("SUFFIX"), Ok(AffixLocationEnum::Suffix));
    assert_eq!(parse_location("socket"), Ok(AffixLocationEnum::Socket));
    assert_eq!(parse_location("corrupted"), Err(LookupError::UnknownLocation()));
    assert_eq!(parse_affix_class("Base"), Ok(AffixClassEnum::Base));
    assert_eq!(parse_affix_class("essence"), Ok(AffixClassEnum::Essence));
    assert_eq!(parse_affix_class("Abyssal"), Ok(AffixClassEnum::Desecrated));
    assert_eq!(parse_affix_class("abyss"), Ok(AffixClassEnum::Desecrated));
    assert_eq!(parse_affix_class("x"), Err(LookupError::UnknownAffixClass()));
    assert_eq!(static_currencies().len(), 39);
}
