use craftpath::currency::CraftCurrencyEnum;
use craftpath::item::ItemSnapshot;
use craftpath::provider::{AffixDefinition, BaseGroupDefinition, ItemInfoProvider};
use craftpath::types::{
    AffixClassEnum, AffixId, AffixLocationEnum, AffixSpecifier, AffixTierConstraints,
    AffixTierLevel, AffixTierLevelBoundsEnum, AffixTierLevelMeta, BaseGroupId, BaseItemId,
    ItemLevel, ItemRarityEnum, Weight,
};
use craftpath::matrix::{generate_item_matrix, BranchCosts, CurrencyListView, ItemAssessor};
use craftpath::item::SnapshotView;
use craftpath::progress::NoopProgress;
use craftpath::vaal::{classify, VaalBranch, VaalCategory, VaalOrbPropagator};

fn affix(desc: &str, class: AffixClassEnum, loc: AffixLocationEnum) -> AffixDefinition {
    AffixDefinition {
        exlusive_groups: Vec::new(),
        tags: Vec::new(),
        description_template: desc.to_string(),
        affix_class: class,
        affix_location: loc,
    }
}

fn tier(t: u8, w: u32, lvl: u8) -> (AffixTierLevel, AffixTierLevelMeta) {
    (
        AffixTierLevel::from(t),
        AffixTierLevelMeta { weight: Weight::from(w), min_item_level: ItemLevel::from(lvl) },
    )
}

fn base_provider() -> ItemInfoProvider {
    ItemInfoProvider {
        cache_affix_def: vec![
            (AffixId::from(1001u16), affix("#% increased Physical Damage", AffixClassEnum::Base, AffixLocationEnum::Prefix)),
            (AffixId::from(1002u16), affix("#% increased Attack Speed", AffixClassEnum::Base, AffixLocationEnum::Suffix)),
            (AffixId::from(1003u16), affix("desecrated bone suffix", AffixClassEnum::Desecrated, AffixLocationEnum::Suffix)),
        ],
        cache_item_affix_table: vec![(
            BaseItemId::from(20u16),
            vec![
                (AffixId::from(1001u16), vec![tier(1, 100, 60), tier(2, 300, 30)]),
                (AffixId::from(1002u16), vec![tier(1, 100, 50)]),
                (AffixId::from(1003u16), vec![tier(1, 50, 65)]),
            ],
        )],
        cache_essence_def: Vec::new(),
        cache_base_group_table: vec![(BaseItemId::from(20u16), BaseGroupId::from(7u16))],
        base_group_definition: vec![(
            BaseGroupId::from(7u16),
            BaseGroupDefinition { name_base_group: "Bow".to_string(), max_affix: 6, max_sockets: 2, is_rare: true },
        )],
    }
}


/// The fixture bow base (group 7, socketable) with two corruption
/// implicits of weight 1 and 3.
fn corrupt_provider() -> ItemInfoProvider {
    let mut p = base_provider();
    p.cache_affix_def.push((AffixId::from(2001u16), affix("corrupted implicit a", AffixClassEnum::Base, AffixLocationEnum::Corrupted)));
    p.cache_affix_def.push((AffixId::from(2002u16), affix("corrupted implicit b", AffixClassEnum::Base, AffixLocationEnum::Corrupted)));
    p.cache_item_affix_table[0].1.push((AffixId::from(2001u16), vec![tier(1, 1, 1)]));
    p.cache_item_affix_table[0].1.push((AffixId::from(2002u16), vec![tier(1, 1, 1), tier(2, 2, 1)]));
    p
}

fn item() -> ItemSnapshot {
    ItemSnapshot {
        item_level: ItemLevel::from(81u8),
        rarity: ItemRarityEnum::Rare,
        base_id: BaseItemId::from(20u16),
        affixes: Vec::new(),
        corrupted: false,
        allowed_sockets: 1,
        sockets: Vec::new(),
    }
}

fn implicit(id: u16, t: u8) -> AffixSpecifier {
    AffixSpecifier {
        affix: AffixId::from(id),
        fractured: false,
        tier: AffixTierConstraints { tier: AffixTierLevel::from(t), bounds: AffixTierLevelBoundsEnum::Minimum },
    }
}

#[test]
fn test_vaal_classify_groups() {
    assert_eq!(classify(&BaseGroupId::from(2u16)), VaalCategory::SocketableEquipment);
    assert_eq!(classify(&BaseGroupId::from(8u16)), VaalCategory::SocketableEquipment);
    assert_eq!(classify(&BaseGroupId::from(1u16)), VaalCategory::Ignore);
    assert_eq!(classify(&BaseGroupId::from(9u16)), VaalCategory::Ignore);
}

#[test]
fn test_vaal_socket_branch() {
    let p = corrupt_provider();
    let start = item();
    let mut target = item();
    target.allowed_sockets = 2;
    assert_eq!(VaalOrbPropagator::wanted_branch(&start, &target, &p), Ok(Some(VaalBranch::AddSocket)));
    let out = VaalOrbPropagator.propagate_step(&start, &target, &p, 1).unwrap();
    assert_eq!(out.len(), 2);
    assert_eq!(out[0].currencies, vec![CraftCurrencyEnum::VaalOrb(), CraftCurrencyEnum::OmenOfCorruption()]);
    assert_eq!((out[0].chance_num, out[0].chance_den), (1, 3));
    assert_eq!(out[1].currencies, vec![CraftCurrencyEnum::VaalOrb()]);
    assert_eq!((out[1].chance_num, out[1].chance_den), (1, 4));
    assert_eq!(out[1].next.allowed_sockets, 2);
    assert!(out[1].next.corrupted);
    // two more sockets cannot come from one corruption
    target.allowed_sockets = 3;
    assert_eq!(VaalOrbPropagator::wanted_branch(&start, &target, &p), Ok(None));
    // only as the last step
    assert!(VaalOrbPropagator.propagate_step(&start, &target, &p, 2).unwrap().is_empty());
}

#[test]
fn test_vaal_implicit_branch_and_chance() {
    let p = corrupt_provider();
    let start = item();
    let mut target = item();
    target.affixes.push(implicit(2002, 1));
    assert_eq!(VaalOrbPropagator::wanted_branch(&start, &target, &p), Ok(Some(VaalBranch::AddImplicit(implicit(2002, 1)))));
    // acceptable: tier 1 of 2002 (weight 1) out of all corrupted weight 1 + 3
    assert_eq!(VaalOrbPropagator::implicit_pick_chance(&implicit(2002, 1), &start, &p), Ok(Some((1, 4))));
    assert_eq!(VaalOrbPropagator::implicit_pick_chance(&implicit(2002, 2), &start, &p), Ok(Some((3, 4))));
    let out = VaalOrbPropagator.propagate_step(&start, &target, &p, 1).unwrap();
    assert_eq!((out[1].chance_num, out[1].chance_den), (1, 16));
    assert_eq!((out[0].chance_num, out[0].chance_den), (1, 12));
    assert_eq!(out[0].next.affixes, vec![implicit(2002, 1)]);
    // both a socket and an implicit: no single corruption does that
    target.allowed_sockets = 2;
    assert_eq!(VaalOrbPropagator::wanted_branch(&start, &target, &p), Ok(None));
    // two implicits: neither
    let mut two = item();
    two.affixes.push(implicit(2001, 1));
    two.affixes.push(implicit(2002, 1));
    assert_eq!(VaalOrbPropagator::wanted_branch(&start, &two, &p), Ok(None));
}

#[test]
fn test_vaal_applicability() {
    let p = corrupt_provider();
    assert!(VaalOrbPropagator.is_applicable(&item(), &p));
    let mut corrupted = item();
    corrupted.corrupted = true;
    assert!(!VaalOrbPropagator.is_applicable(&corrupted, &p));
    // group 7 takes sockets within its limit of 2
    let plain = base_provider();
    assert!(VaalOrbPropagator.is_applicable(&item(), &plain));
    let mut full = item();
    full.allowed_sockets = 3;
    assert!(!VaalOrbPropagator.is_applicable(&full, &plain));
    assert!(VaalOrbPropagator.is_applicable(&full, &p));
}

/// Distance: 1 while the socket count differs from the target's.
struct SocketDistance;
impl ItemAssessor for SocketDistance {
    // specification only; never called at run time
    fn assessed(&self, _item: SnapshotView, _target: SnapshotView, _info: ItemInfoProvider) -> Option<u64> {
        None
    }
    fn assess(&self, item: &ItemSnapshot, target: &ItemSnapshot, _info: &ItemInfoProvider) -> Option<u64> {
        Some(if item.allowed_sockets == target.allowed_sockets { 0 } else { 1 })
    }
}

struct OmenPricier;
impl BranchCosts for OmenPricier {
    // specification only; never called at run time
    fn cost_of(&self, _currencies: CurrencyListView, _info: ItemInfoProvider) -> u64 {
        0
    }
    fn cost(&self, currencies: &Vec<CraftCurrencyEnum>, _info: &ItemInfoProvider) -> u64 {
        currencies.len() as u64
    }
}

#[test]
fn test_vaal_in_item_matrix() {
    let p = corrupt_provider();
    let mut target = item();
    target.allowed_sockets = 2;
    let m = generate_item_matrix(item(), &target, &p, &vec![VaalOrbPropagator], &Vec::new(), &Vec::new(), &SocketDistance, &OmenPricier, &NoopProgress)
        .unwrap();
    assert_eq!(m.nodes.len(), 2);
    let start = &m.nodes[0];
    assert_eq!(start.item.proximity, 1);
    assert_eq!(start.branches.len(), 2);
    // the plain orb is cheaper and comes first
    assert_eq!(start.branches[0].0, vec![CraftCurrencyEnum::VaalOrb()]);
    assert_eq!(start.branches[0].1[0].chance, (1, 4));
    assert_eq!(start.branches[1].1[0].chance, (1, 3));
    let corrupted = &m.nodes[1];
    assert!(corrupted.item.snapshot.corrupted);
    assert_eq!(corrupted.item.proximity, 0);
    assert!(corrupted.branches.is_empty());
}
