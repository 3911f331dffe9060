use craftpath::builder::PropagatorKind;
use craftpath::currency::CraftCurrencyEnum;
use craftpath::provider::ItemInfoProvider;
use craftpath::session::{CalculationConfig, CraftSession};

#[test]
fn test_config_builder_defaults_and_overrides() {
    let config = CalculationConfig::builder()
        .disable_currencies(CalculationConfig::legacy_currencies())
        .max_routes(7)
        .league("Standard")
        .build();

    assert_eq!(config.max_routes, 7);
    assert_eq!(config.max_ram_in_bytes, 1_000_000_000);
    assert_eq!(config.disabled_currencies.len(), 3);
    assert!(config.disabled_currencies.contains(&CraftCurrencyEnum::OmenOfCorruption()));
    assert_eq!(config.league.as_deref(), Some("Standard"));
}

#[test]
fn test_disabling_twice_keeps_a_set() {
    let config = CalculationConfig::builder()
        .disable_currency(CraftCurrencyEnum::VaalOrb())
        .disable_currency(CraftCurrencyEnum::VaalOrb())
        .disable_currencies(CalculationConfig::legacy_currencies())
        .disable_currencies(CalculationConfig::legacy_currencies())
        .max_ram(42)
        .build();
    assert_eq!(config.disabled_currencies.len(), 4);
    assert_eq!(config.max_ram_in_bytes, 42);
    assert_eq!(config.max_routes, 5);
    assert_eq!(config.league, None);
}

#[test]
fn test_session_builder_honours_disabled_currencies() {
    let provider = ItemInfoProvider {
        cache_affix_def: Vec::new(),
        cache_item_affix_table: Vec::new(),
        cache_essence_def: Vec::new(),
        cache_base_group_table: Vec::new(),
        base_group_definition: Vec::new(),
    };
    let config = CalculationConfig::builder().disable_currencies(CalculationConfig::legacy_currencies()).build();
    let session = CraftSession::new(&provider).with_config(config);
    let builder = session.matrix_builder();
    assert_eq!(builder.propagators.len(), 12);
    assert_eq!(builder.propagators[11], PropagatorKind::VaalOrb);
    assert_eq!(builder.essence_only, vec![PropagatorKind::PerfectEssence]);
    assert_eq!(builder.disabled_currencies, CalculationConfig::legacy_currencies());
    assert!(!builder.allows_branch(&vec![CraftCurrencyEnum::VaalOrb(), CraftCurrencyEnum::OmenOfCorruption()]));
    assert!(builder.allows_branch(&vec![CraftCurrencyEnum::VaalOrb()]));
}
