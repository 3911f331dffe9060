use craftpath::lookup::LookupError;
use craftpath::provider::{AffixDefinition, BaseGroupDefinition, ItemInfoProvider};
use craftpath::search::{
    base_item_groups, search_affixes, sorted_indices, GetBaseItemsParams, SearchAffixesParams, TierRow,
};
use craftpath::types::{
    AffixClassEnum, AffixId, AffixLocationEnum, AffixTierLevel, AffixTierLevelMeta, BaseGroupId,
    BaseItemId, ItemLevel, ItemRarityEnum, Weight,
};

fn affix(desc: &str, class: AffixClassEnum, loc: AffixLocationEnum) -> AffixDefinition {
    AffixDefinition {
        exlusive_groups: vec!["G".to_string()],
        tags: Vec::new(),
        description_template: desc.to_string(),
        affix_class: class,
        affix_location: loc,
    }
}

fn tier(t: u8, w: u32, lvl: u8) -> (AffixTierLevel, AffixTierLevelMeta) {
    (
        AffixTierLevel::from(t),
        AffixTierLevelMeta { weight: Weight::from(w), min_item_level: ItemLevel::from(lvl) },
    )
}

fn provider() -> ItemInfoProvider {
    ItemInfoProvider {
        cache_affix_def: vec![
            (AffixId::from(3u16), affix("Adds # Cold Damage", AffixClassEnum::Base, AffixLocationEnum::Prefix)),
            (AffixId::from(1u16), affix("#% increased Attack Speed", AffixClassEnum::Base, AffixLocationEnum::Suffix)),
            (AffixId::from(2u16), affix("Bone-bound Attack speed", AffixClassEnum::Desecrated, AffixLocationEnum::Suffix)),
        ],
        cache_item_affix_table: vec![(
            BaseItemId::from(20u16),
            vec![
                (AffixId::from(1u16), vec![tier(2, 300, 30), tier(1, 100, 60)]),
                (AffixId::from(3u16), vec![tier(1, 50, 10)]),
            ],
        )],
        cache_essence_def: Vec::new(),
        cache_base_group_table: vec![
            (BaseItemId::from(22u16), BaseGroupId::from(7u16)),
            (BaseItemId::from(20u16), BaseGroupId::from(7u16)),
            (BaseItemId::from(30u16), BaseGroupId::from(2u16)),
        ],
        base_group_definition: vec![
            (
                BaseGroupId::from(7u16),
                BaseGroupDefinition { name_base_group: "Bows".to_string(), max_affix: 6, max_sockets: 2, is_rare: true },
            ),
            (
                BaseGroupId::from(2u16),
                BaseGroupDefinition { name_base_group: "Flasks".to_string(), max_affix: 2, max_sockets: 0, is_rare: false },
            ),
        ],
    }
}

fn params(query: Option<&str>) -> SearchAffixesParams {
    SearchAffixesParams {
        query: query.map(|q| q.to_string()),
        base_id: None,
        location: None,
        affix_class: None,
        league: None,
        limit: None,
    }
}

#[test]
fn test_search_affixes_by_query_in_description_order() {
    let items = provider();
    let s = search_affixes(&items, &params(Some("  ATTACK speed "))).unwrap();
    assert_eq!(s.total_matches, 2);
    // "#% increased ..." sorts before "Bone-bound ..."
    assert_eq!(s.results[0].affix_id, AffixId::from(1u16));
    assert_eq!(s.results[1].affix_id, AffixId::from(2u16));
    assert_eq!(s.results[0].exclusive_groups, vec!["G".to_string()]);
    assert!(s.results[0].tiers.is_none());

    let all = search_affixes(&items, &params(None)).unwrap();
    assert_eq!(all.total_matches, 3);
}

#[test]
fn test_search_affixes_filters_and_limit() {
    let items = provider();
    let mut p = params(None);
    p.location = Some("suffix".to_string());
    p.affix_class = Some("base".to_string());
    let s = search_affixes(&items, &p).unwrap();
    assert_eq!(s.total_matches, 1);
    assert_eq!(s.results[0].affix_id, AffixId::from(1u16));

    let mut p = params(None);
    p.limit = Some(1);
    let s = search_affixes(&items, &p).unwrap();
    assert_eq!(s.total_matches, 3);
    assert_eq!(s.results.len(), 1);

    let mut p = params(None);
    p.location = Some("sideways".to_string());
    assert!(matches!(search_affixes(&items, &p), Err(LookupError::UnknownLocation())));
}

#[test]
fn test_search_affixes_on_a_base_attaches_sorted_tiers() {
    let items = provider();
    let mut p = params(Some("speed"));
    p.base_id = Some(20);
    let s = search_affixes(&items, &p).unwrap();
    assert_eq!(s.total_matches, 1);
    assert_eq!(
        s.results[0].tiers,
        Some(vec![
            TierRow { tier: 1, weight: 100, min_item_level: 60 },
            TierRow { tier: 2, weight: 300, min_item_level: 30 },
        ])
    );

    let mut p = params(None);
    p.base_id = Some(99);
    assert!(matches!(search_affixes(&items, &p), Err(LookupError::Lookup(_))));
}

#[test]
fn test_base_item_groups() {
    let items = provider();
    let all = base_item_groups(&items, &GetBaseItemsParams { query: None, league: None });
    assert_eq!(all.len(), 2);
    assert_eq!(all[0].base_group_id, 2);
    assert_eq!(all[0].max_rarity, ItemRarityEnum::Magic);
    assert_eq!(all[1].base_group_id, 7);
    assert_eq!(all[1].name, "Bows");
    assert_eq!(all[1].max_rarity, ItemRarityEnum::Rare);
    assert_eq!(all[1].base_item_ids, vec![20, 22]);

    let bows = base_item_groups(&items, &GetBaseItemsParams { query: Some(" bOw ".to_string()), league: None });
    assert_eq!(bows.len(), 1);
    assert_eq!(bows[0].base_group_id, 7);
}

#[test]
fn test_sorted_indices_orders_by_text() {
    let keys = vec![vec!['b'], vec!['a', 'z'], vec!['a']];
    assert_eq!(sorted_indices(&keys), vec![2, 1, 0]);
}
