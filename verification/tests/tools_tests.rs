use craftpath::convert::{WireGroupPreset, WireItemRarity, WireItemSnapshot, WireMatrixBuilderPreset, WirePathPreset};
use craftpath::meta::{MetaArchetype, MetaCatalog};
use craftpath::provider::ItemInfoProvider;
use craftpath::tools::{
    calculation_request, meta_items, parse_craft_spec_params, pins_from_bindings, AwaitJobParams,
    GetMetaItemsParams, GetResultParams, ParseCraftSpecParams, SimulateActionParams,
    SubmitCalculationParams, ToolError,
};
use craftpath::types::AffixId;
use craftpath::worker::Limits;

fn snapshot(level: u32) -> WireItemSnapshot {
    WireItemSnapshot {
        item_level: level,
        rarity: WireItemRarity::Rare,
        base_id: 20,
        affixes: Vec::new(),
        corrupted: false,
        allowed_sockets: 0,
        sockets: Vec::new(),
    }
}

fn empty_provider() -> ItemInfoProvider {
    ItemInfoProvider {
        cache_affix_def: Vec::new(),
        cache_item_affix_table: Vec::new(),
        cache_essence_def: Vec::new(),
        cache_base_group_table: Vec::new(),
        base_group_definition: Vec::new(),
    }
}

#[test]
fn test_pins_from_bindings() {
    let b = vec![("0".to_string(), 1001u16), ("2".to_string(), 7u16), ("0".to_string(), 1002u16)];
    assert_eq!(
        pins_from_bindings(&b),
        Ok(vec![(0u8, AffixId::from(1002u16)), (2u8, AffixId::from(7u16))])
    );
    let bad = vec![("1".to_string(), 1u16), ("x".to_string(), 2u16)];
    assert_eq!(pins_from_bindings(&bad), Err("x".to_string()));
    let too_big = vec![("256".to_string(), 1u16)];
    assert_eq!(pins_from_bindings(&too_big), Err("256".to_string()));
}

#[test]
fn test_parse_craft_spec_params_errors() {
    let items = empty_provider();
    let params = ParseCraftSpecParams {
        spec: "PS".to_string(),
        base_id: 20,
        item_level: None,
        bindings: Some(vec![("first".to_string(), 1u16)]),
        league: None,
    };
    assert!(matches!(parse_craft_spec_params(&items, &params), Err(ToolError::BadBindingKey(k)) if k == "first"));
    let params = ParseCraftSpecParams { spec: "".to_string(), base_id: 20, item_level: Some(40), bindings: None, league: None };
    assert!(matches!(parse_craft_spec_params(&items, &params), Err(ToolError::Spec(_))));
}

#[test]
fn test_parameter_defaults() {
    let r = GetResultParams { job_id: "j".to_string(), top_n: None, format: None };
    assert_eq!(r.top_n_routes(), 5);
    assert!(!r.wants_json());
    let r = GetResultParams { job_id: "j".to_string(), top_n: Some(9), format: Some("json".to_string()) };
    assert_eq!(r.top_n_routes(), 9);
    assert!(r.wants_json());
    let r = GetResultParams { job_id: "j".to_string(), top_n: None, format: Some("JSON".to_string()) };
    assert!(!r.wants_json());

    assert_eq!(AwaitJobParams { job_id: "j".to_string(), timeout_seconds: None }.timeout_secs(), 30);
    assert_eq!(AwaitJobParams { job_id: "j".to_string(), timeout_seconds: Some(0) }.timeout_secs(), 1);
    assert_eq!(AwaitJobParams { job_id: "j".to_string(), timeout_seconds: Some(500) }.timeout_secs(), 120);
    assert_eq!(AwaitJobParams { job_id: "j".to_string(), timeout_seconds: Some(45) }.timeout_secs(), 45);

    let s = SimulateActionParams { item: snapshot(81), currency: "x".to_string(), league: None, top_n: None };
    assert_eq!(s.outcome_limit(), 25);
    let s = SimulateActionParams { item: snapshot(81), currency: "x".to_string(), league: None, top_n: Some(1000) };
    assert_eq!(s.outcome_limit(), 100);
}

#[test]
fn test_calculation_request() {
    let params = SubmitCalculationParams {
        start_item: snapshot(60),
        target_item: snapshot(81),
        league: None,
        max_routes: None,
        max_ram_bytes: None,
        include_groups: true,
    };
    let r = calculation_request(&params, "Standard");
    assert_eq!(r.league, "Standard");
    assert_eq!(r.start.as_ref().map(|s| s.item_level), Some(60));
    assert_eq!(r.target.as_ref().map(|s| s.item_level), Some(81));
    assert_eq!(r.matrix_builder, WireMatrixBuilderPreset::HappyPath);
    assert_eq!(
        r.path_analyzers,
        vec![WirePathPreset::UniquePathChance, WirePathPreset::UniquePathEfficiency, WirePathPreset::UniquePathCost]
    );
    assert_eq!(r.group_analyzers, vec![WireGroupPreset::CurrencyGroupChance]);
    assert_eq!(r.limits, Some(Limits { max_routes: 5, max_ram_in_bytes: 1_000_000_000, timeout_seconds: None }));

    let params = SubmitCalculationParams {
        start_item: snapshot(60),
        target_item: snapshot(81),
        league: Some("Dawn".to_string()),
        max_routes: Some(3),
        max_ram_bytes: Some(7),
        include_groups: false,
    };
    let r = calculation_request(&params, "Standard");
    assert_eq!(r.league, "Dawn");
    assert!(r.group_analyzers.is_empty());
    assert_eq!(r.limits, Some(Limits { max_routes: 3, max_ram_in_bytes: 7, timeout_seconds: None }));
    assert_eq!(r.result_options.map(|o| o.top_n_pretty), Some(Some(3)));
}

#[test]
fn test_meta_items() {
    let a = MetaArchetype {
        slot: "weapon".to_string(),
        item_class: "Bow".to_string(),
        char_classes: vec!["Amazon".to_string()],
        level_bracket: "endgame".to_string(),
        archetype: "crit bow".to_string(),
        affixes: Vec::new(),
        craft_spec: None,
        notes: None,
    };
    let catalog = MetaCatalog {
        source: "curated-static".to_string(),
        updated: "2025".to_string(),
        game_patch: "0.5".to_string(),
        disclaimer: "".to_string(),
        archetypes: vec![a],
    };
    let hit = meta_items(&catalog, &GetMetaItemsParams { item_class: Some("bow".to_string()), char_class: None, level_bracket: None });
    assert_eq!(hit.len(), 1);
    let miss = meta_items(&catalog, &GetMetaItemsParams { item_class: Some("flask".to_string()), char_class: None, level_bracket: None });
    assert!(miss.is_empty());
}
