use craftpath::craftspec::{lex, parse_craft_spec, pick_binding_match, resolve_binding, CraftSpecError};
use craftpath::errors::CraftPathError;
use craftpath::provider::{AffixDefinition, BaseGroupDefinition, EssenceDefinition, ItemInfoProvider};
use craftpath::types::{
    AffixClassEnum, AffixId, AffixLocationEnum, AffixTierLevel, AffixTierLevelBoundsEnum,
    AffixTierLevelMeta, BaseGroupId, BaseItemId, EssenceId, ItemLevel, ItemRarityEnum, Weight,
};

fn affix(desc: &str, class: AffixClassEnum, loc: AffixLocationEnum) -> AffixDefinition {
    AffixDefinition {
        exlusive_groups: Vec::new(),
        tags: Vec::new(),
        description_template: desc.to_string(),
        affix_class: class,
        affix_location: loc,
    }
}

fn tier(t: u8, w: u32, lvl: u8) -> (AffixTierLevel, AffixTierLevelMeta) {
    (
        AffixTierLevel::from(t),
        AffixTierLevelMeta { weight: Weight::from(w), min_item_level: ItemLevel::from(lvl) },
    )
}

fn fixture_provider() -> ItemInfoProvider {
    ItemInfoProvider {
        cache_affix_def: vec![
            (AffixId::from(1001u16), affix("#% increased Physical Damage", AffixClassEnum::Base, AffixLocationEnum::Prefix)),
            (AffixId::from(1002u16), affix("#% increased Attack Speed", AffixClassEnum::Base, AffixLocationEnum::Suffix)),
            (AffixId::from(1003u16), affix("desecrated bone suffix", AffixClassEnum::Desecrated, AffixLocationEnum::Suffix)),
        ],
        cache_item_affix_table: vec![(
            BaseItemId::from(20u16),
            vec![
                (AffixId::from(1001u16), vec![tier(1, 100, 60), tier(2, 300, 30)]),
                (AffixId::from(1002u16), vec![tier(1, 100, 50)]),
                (AffixId::from(1003u16), vec![tier(1, 50, 65)]),
            ],
        )],
        cache_essence_def: Vec::new(),
        cache_base_group_table: vec![(BaseItemId::from(20u16), BaseGroupId::from(7u16))],
        base_group_definition: vec![(
            BaseGroupId::from(7u16),
            BaseGroupDefinition { name_base_group: "Bow".to_string(), max_affix: 6, max_sockets: 2, is_rare: true },
        )],
    }
}


#[test]
fn test_parse_open_spec_counts_fanout() {
    let provider = fixture_provider();
    let tpl = parse_craft_spec("PSA", BaseItemId::from(20u16), ItemLevel::from(81u8), &Vec::new(), &provider).unwrap();
    assert_eq!(tpl.slots.len(), 3);
    // P -> 1001 only; S -> 1002 only; A -> 1003 only
    assert_eq!(tpl.estimated_concrete_targets, 1);
    // all single-candidate but unpinned: no exact target
    assert!(tpl.exact_target.is_none());
}

#[test]
fn test_pinned_spec_builds_exact_target() {
    let provider = fixture_provider();
    let tpl = parse_craft_spec("P[phys]1 S[#1002]", BaseItemId::from(20u16), ItemLevel::from(81u8), &Vec::new(), &provider)
        .unwrap();
    let target = tpl.exact_target.expect("fully pinned spec yields target");
    assert_eq!(target.affixes.len(), 2);
    let phys = target.affixes.iter().find(|a| a.affix == AffixId::from(1001u16)).unwrap();
    assert_eq!(*phys.tier.tier.get_raw_value(), 1);
    assert_eq!(phys.tier.bounds, AffixTierLevelBoundsEnum::Minimum);
    // unpinned tier on #1002 falls back to its worst reachable tier (1)
    let speed = target.affixes.iter().find(|a| a.affix == AffixId::from(1002u16)).unwrap();
    assert_eq!(*speed.tier.tier.get_raw_value(), 1);
}

#[test]
fn test_bindings_parameter_and_validation_errors() {
    let provider = fixture_provider();

    // external binding by slot index
    let bindings = vec![(0u8, AffixId::from(1001u16))];
    let tpl = parse_craft_spec("P", BaseItemId::from(20u16), ItemLevel::from(81u8), &bindings, &provider).unwrap();
    assert!(tpl.exact_target.is_some());

    // too many slots for the base
    assert!(parse_craft_spec("PPPPSSS", BaseItemId::from(20u16), ItemLevel::from(81u8), &Vec::new(), &provider).is_err());

    // per-side cap: 4 prefixes on a 3-per-side base
    assert!(parse_craft_spec("PPPP", BaseItemId::from(20u16), ItemLevel::from(81u8), &Vec::new(), &provider).is_err());

    // unknown binding
    assert!(parse_craft_spec("P[lightning]", BaseItemId::from(20u16), ItemLevel::from(81u8), &Vec::new(), &provider).is_err());

    // exact tier qualifier parses
    let tpl = parse_craft_spec("P[phys]2x", BaseItemId::from(20u16), ItemLevel::from(81u8), &Vec::new(), &provider).unwrap();
    assert_eq!(tpl.slots[0].tier, Some((2, true)));
    let target = tpl.exact_target.unwrap();
    let spec = target.affixes.iter().next().unwrap();
    assert_eq!(spec.tier.bounds, AffixTierLevelBoundsEnum::Exact);
}

#[test]
fn test_lexer_reads_qualifiers_and_ignores_case() {
    let slots = lex(" e p3x! s[ attack speed ] a12").unwrap();
    assert_eq!(slots.len(), 4);
    assert_eq!(slots[0].letter, 'E');
    assert_eq!(slots[1].letter, 'P');
    assert_eq!(slots[1].tier, Some((3, true)));
    assert!(slots[1].fractured);
    assert_eq!(slots[2].binding.as_deref(), Some("attack speed"));
    assert_eq!(slots[3].tier, Some((12, false)));
}

#[test]
fn test_lexer_errors() {
    assert_eq!(lex("").unwrap_err(), CraftSpecError::EmptySpec());
    assert_eq!(lex("   ").unwrap_err(), CraftSpecError::EmptySpec());
    assert_eq!(lex("1P").unwrap_err(), CraftSpecError::TierBeforeSlot('1'));
    assert_eq!(lex("[x]P").unwrap_err(), CraftSpecError::BindingBeforeSlot());
    assert_eq!(lex("!P").unwrap_err(), CraftSpecError::FractureBeforeSlot());
    assert_eq!(lex("P0").unwrap_err(), CraftSpecError::TierOutOfRange());
    assert_eq!(lex("P256").unwrap_err(), CraftSpecError::TierOutOfRange());
    assert_eq!(lex("P1x2").unwrap_err(), CraftSpecError::DuplicateTier('P'));
    assert_eq!(lex("P[abc").unwrap_err(), CraftSpecError::UnterminatedBinding());
    assert_eq!(lex("P[  ]").unwrap_err(), CraftSpecError::EmptyBinding());
    assert_eq!(lex("S[a][b]").unwrap_err(), CraftSpecError::DuplicateBinding('S'));
    assert_eq!(lex("PQ").unwrap_err(), CraftSpecError::UnexpectedCharacter('Q'));
    assert_eq!(lex("P255").unwrap()[0].tier, Some((255, false)));
}

#[test]
fn test_parse_errors_name_the_failing_check() {
    let provider = fixture_provider();
    let b = BaseItemId::from(20u16);
    let l = ItemLevel::from(81u8);
    assert_eq!(
        parse_craft_spec("PPPPSSS", b, l, &Vec::new(), &provider).unwrap_err(),
        CraftSpecError::TooManySlots(7, 6)
    );
    assert_eq!(
        parse_craft_spec("PPPP", b, l, &Vec::new(), &provider).unwrap_err(),
        CraftSpecError::TooManyPrefixes(4, 3)
    );
    assert_eq!(
        parse_craft_spec("P[lightning]", b, l, &Vec::new(), &provider).unwrap_err(),
        CraftSpecError::NoBindingMatch()
    );
    assert_eq!(
        parse_craft_spec("P[#1002]", b, l, &Vec::new(), &provider).unwrap_err(),
        CraftSpecError::IdNotEligible(1002)
    );
    assert_eq!(
        parse_craft_spec("P[#abc]", b, l, &Vec::new(), &provider).unwrap_err(),
        CraftSpecError::InvalidIdBinding()
    );
    assert_eq!(
        parse_craft_spec("P[phys]", b, l, &vec![(0u8, AffixId::from(1001u16))], &provider).unwrap_err(),
        CraftSpecError::PinnedTwice(0)
    );
    assert_eq!(
        parse_craft_spec("S", b, l, &vec![(0u8, AffixId::from(1001u16))], &provider).unwrap_err(),
        CraftSpecError::BoundAffixNotEligible(AffixId::from(1001u16), 0)
    );
    // no essence covers the base
    assert_eq!(
        parse_craft_spec("E", b, l, &Vec::new(), &provider).unwrap_err(),
        CraftSpecError::NoEligibleAffix(0)
    );
    // tier 1 of phys needs item level 60
    assert_eq!(
        parse_craft_spec("P1x", b, ItemLevel::from(40u8), &Vec::new(), &provider).unwrap_err(),
        CraftSpecError::NoEligibleAffix(0)
    );
    assert_eq!(
        parse_craft_spec("P", BaseItemId::from(99u16), l, &Vec::new(), &provider).unwrap_err(),
        CraftSpecError::Lookup(CraftPathError::BaseItemWithoutBaseGroup(BaseItemId::from(99u16)))
    );
}

#[test]
fn test_fanout_rarity_and_essence_candidates() {
    let mut provider = fixture_provider();
    provider.cache_essence_def = vec![
        (
            EssenceId::from(1u16),
            EssenceDefinition {
                name_essence: "Essence of Haste".to_string(),
                corrupt: false,
                base_tier_table: vec![(BaseItemId::from(20u16), vec![AffixId::from(1002u16), AffixId::from(1001u16)])],
            },
        ),
        (
            EssenceId::from(2u16),
            EssenceDefinition {
                name_essence: "Essence of Flames".to_string(),
                corrupt: false,
                base_tier_table: vec![(BaseItemId::from(20u16), vec![AffixId::from(1001u16)])],
            },
        ),
    ];
    let tpl = parse_craft_spec("E A S", BaseItemId::from(20u16), ItemLevel::from(81u8), &Vec::new(), &provider).unwrap();
    assert_eq!(tpl.slots[0].candidates, vec![AffixId::from(1001u16), AffixId::from(1002u16)]);
    assert_eq!(tpl.estimated_concrete_targets, 2);
    assert_eq!(tpl.rarity, ItemRarityEnum::Rare);
    assert_eq!(tpl.slots[0].location, None);
    assert_eq!(tpl.slots[2].location, Some(AffixLocationEnum::Suffix));
}

#[test]
fn test_binding_resolution() {
    let provider = fixture_provider();
    let cands = vec![AffixId::from(1001u16), AffixId::from(1002u16)];
    assert_eq!(resolve_binding("#1001", &cands, &provider).unwrap(), AffixId::from(1001u16));
    assert_eq!(resolve_binding("ATTACK", &cands, &provider).unwrap(), AffixId::from(1002u16));
    assert_eq!(resolve_binding("increased", &cands, &provider).unwrap_err(), CraftSpecError::AmbiguousBinding(2));
    let lowered = vec![Some("abc".to_string()), None, Some("xbcx".to_string())];
    let three = vec![AffixId::from(1u16), AffixId::from(2u16), AffixId::from(3u16)];
    assert_eq!(pick_binding_match(&three, &lowered, "bc").unwrap_err(), CraftSpecError::AmbiguousBinding(2));
    assert_eq!(pick_binding_match(&three, &lowered, "xb").unwrap(), AffixId::from(3u16));
    assert_eq!(pick_binding_match(&three, &lowered, "zz").unwrap_err(), CraftSpecError::NoBindingMatch());
}

#[test]
fn test_lex_ignores_whitespace_inside_tiers() {
    let show = |s: &str| format!("{:?}", lex(s));
    assert_eq!(show("P1 2"), show("P12"));
    assert_eq!(show("P1 x"), show("P1x"));
    assert_eq!(show(" p 1 2 X s\t3"), show("P12xS3"));
    let slots = lex("P1 2 x").unwrap();
    assert_eq!(slots[0].tier, Some((12, true)));
    assert!(matches!(lex("P2 5 6"), Err(CraftSpecError::TierOutOfRange())));
}

#[test]
fn test_lex_case_of_letters_does_not_matter() {
    let show = |s: &str| format!("{:?}", lex(s));
    assert_eq!(show("e p3x! s[Attack Speed] a12"), show("E P3X! S[Attack Speed] A12"));
    // inside a binding the case is kept
    assert_ne!(show("S[attack]"), show("S[ATTACK]"));
    // refused either way
    assert!(lex("Px").is_err());
    assert!(lex("PX").is_err());
}

#[test]
fn test_lex_whitespace_outside_bindings_does_not_matter() {
    let show = |s: &str| format!("{:?}", lex(s));
    assert_eq!(show("E P3x!S[attack speed]A12"), show(" E  P 3 x ! S [attack speed] A 1 2 "));
    assert_eq!(show("PQ"), show("P Q"));
    // inside a binding it is part of the text
    assert_ne!(show("S[attack speed]"), show("S[attack  speed]"));
}
