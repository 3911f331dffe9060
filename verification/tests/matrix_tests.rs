use craftpath::currency::CraftCurrencyEnum;
use craftpath::errors::CraftPathError;
use craftpath::item::ItemSnapshot;
use craftpath::matrix::{
    generate_item_matrix, wave_progress, BranchCosts, CurrencyListView, ItemAssessor, MatrixBranch, MatrixItem,
    MatrixPropagator, PropagationTarget, StepOutcome,
};
use std::cell::RefCell;
use craftpath::builder::{HappyPathMatrixBuilder, PropagatorKind};
use craftpath::session::{CalculationConfig, CraftSession};
use craftpath::item::SnapshotView;
use craftpath::progress::{NoopProgress, ProgressSink};
use craftpath::provider::ItemInfoProvider;
use craftpath::types::{
    AffixId, AffixSpecifier, AffixTierConstraints, AffixTierLevel, AffixTierLevelBoundsEnum,
    BaseItemId, ItemLevel, ItemRarityEnum,
};

fn spec(id: u16) -> AffixSpecifier {
    AffixSpecifier {
        affix: AffixId::from(id),
        fractured: false,
        tier: AffixTierConstraints { tier: AffixTierLevel::from(1u8), bounds: AffixTierLevelBoundsEnum::Minimum },
    }
}

fn item(ids: &[u16]) -> ItemSnapshot {
    ItemSnapshot {
        item_level: ItemLevel::from(81u8),
        rarity: ItemRarityEnum::Rare,
        base_id: BaseItemId::from(20u16),
        affixes: ids.iter().map(|i| spec(*i)).collect(),
        corrupted: false,
        allowed_sockets: 0,
        sockets: Vec::new(),
    }
}

fn provider() -> ItemInfoProvider {
    ItemInfoProvider {
        cache_affix_def: Vec::new(),
        cache_item_affix_table: Vec::new(),
        cache_essence_def: Vec::new(),
        cache_base_group_table: Vec::new(),
        base_group_definition: Vec::new(),
    }
}

/// Proximity: wanted affixes 1 and 2 that are missing.
struct Missing;
impl ItemAssessor for Missing {
    // specification only; never called at run time
    fn assessed(&self, _item: SnapshotView, _target: SnapshotView, _info: ItemInfoProvider) -> Option<u64> {
        None
    }
    fn assess(&self, item: &ItemSnapshot, _target: &ItemSnapshot, _info: &ItemInfoProvider) -> Option<u64> {
        let has = |id: u16| item.affixes.iter().any(|a| a.affix == AffixId::from(id));
        Some((!has(1)) as u64 + (!has(2)) as u64)
    }
}

/// Adds affix 1 (cheap exalt) or affix 2, each with chance 1/2; a pricier
/// second branch reaches the same outcomes.
struct AddOne;
impl MatrixPropagator for AddOne {
    // specification only; never called at run time
    fn kind(&self) -> PropagatorKind {
        PropagatorKind::ExaltedOrb
    }
    // specification only; never called at run time
    fn applicable(&self, _item: MatrixItem, _info: ItemInfoProvider) -> bool {
        false
    }
    fn step(&self, _item: MatrixItem, _t: ItemSnapshot, _info: ItemInfoProvider) -> StepOutcome {
        Err(CraftPathError::Cancelled())
    }
    fn is_applicable(&self, item: &MatrixItem, _info: &ItemInfoProvider) -> bool {
        item.snapshot.affixes.len() < 2
    }
    fn propagate_step(&self, item: &MatrixItem, _t: &ItemSnapshot, _info: &ItemInfoProvider) -> Result<Vec<MatrixBranch>, CraftPathError> {
        let mut outs = Vec::new();
        for id in [1u16, 2u16] {
            if !item.snapshot.affixes.iter().any(|a| a.affix == AffixId::from(id)) {
                let mut next = item.snapshot.clone();
                next.affixes.push(spec(id));
                outs.push(PropagationTarget { next, chance: (1, 2), essence_only: false });
            }
        }
        let copy: Vec<PropagationTarget> = outs
            .iter()
            .map(|t| PropagationTarget { next: t.next.clone(), chance: t.chance, essence_only: t.essence_only })
            .collect();
        Ok(vec![(vec![CraftCurrencyEnum::ExaltedOrbGreater()], copy), (vec![CraftCurrencyEnum::ExaltedOrbNormal()], outs)])
    }
}

struct Prices;
impl BranchCosts for Prices {
    // specification only; never called at run time
    fn cost_of(&self, _currencies: CurrencyListView, _info: ItemInfoProvider) -> u64 {
        0
    }
    fn cost(&self, currencies: &Vec<CraftCurrencyEnum>, _info: &ItemInfoProvider) -> u64 {
        if currencies[0] == CraftCurrencyEnum::ExaltedOrbNormal() { 1 } else { 10 }
    }
}

/// Records the reports it gets; asks to cancel from the first poll when
/// `cancel` is set.
struct Recorder {
    cancel: bool,
    reports: RefCell<Vec<(String, u64, Option<u64>)>>,
}
impl Recorder {
    fn new(cancel: bool) -> Self {
        Recorder { cancel, reports: RefCell::new(Vec::new()) }
    }
}
impl ProgressSink for Recorder {
    // specification only; never called at run time
    fn never_cancels(&self) -> bool {
        !self.cancel
    }
    // specification only; never called at run time
    fn always_cancels(&self) -> bool {
        self.cancel
    }
    fn report(&self, m: &str, c: u64, t: Option<u64>) {
        self.reports.borrow_mut().push((m.to_string(), c, t));
    }
    fn is_cancelled(&self) -> bool {
        self.cancel
    }
}

/// Assesses nothing.
struct Blind;
impl ItemAssessor for Blind {
    // specification only; never called at run time
    fn assessed(&self, _item: SnapshotView, _target: SnapshotView, _info: ItemInfoProvider) -> Option<u64> {
        None
    }
    fn assess(&self, _item: &ItemSnapshot, _target: &ItemSnapshot, _info: &ItemInfoProvider) -> Option<u64> {
        None
    }
}

#[test]
fn test_matrix_waves_and_pruning() {
    let info = provider();
    let props = vec![AddOne];
    let m = generate_item_matrix(item(&[]), &item(&[1, 2]), &info, &props, &Vec::new(), &Vec::new(), &Missing, &Prices, &NoopProgress)
        .unwrap();
    // start, {1}, {2}, {1,2} and {2,1}
    assert_eq!(m.nodes.len(), 5);
    assert_eq!(m.nodes[0].item.snapshot, item(&[]));
    assert_eq!(m.nodes[0].item.proximity, 2);
    // the cheaper branch keeps both outcomes, the pricier one none
    let start = &m.nodes[0];
    assert_eq!(start.branches.len(), 2);
    assert_eq!(start.branches[0].0, vec![CraftCurrencyEnum::ExaltedOrbNormal()]);
    assert_eq!(start.branches[0].1.len(), 2);
    assert_eq!(start.branches[1].1.len(), 0);
    // items at the target have no branches
    for n in &m.nodes {
        if n.item.proximity == 0 {
            assert!(n.branches.is_empty());
        }
    }
}

#[test]
fn test_matrix_disabled_currency_and_cancel() {
    let info = provider();
    let props = vec![AddOne];
    let disabled = vec![CraftCurrencyEnum::ExaltedOrbNormal()];
    let m = generate_item_matrix(item(&[]), &item(&[1, 2]), &info, &props, &Vec::new(), &disabled, &Missing, &Prices, &NoopProgress)
        .unwrap();
    assert_eq!(m.nodes[0].branches.len(), 1);
    assert_eq!(m.nodes[0].branches[0].0, vec![CraftCurrencyEnum::ExaltedOrbGreater()]);
    assert_eq!(m.nodes.len(), 5);

    let sink = Recorder::new(true);
    let r = generate_item_matrix(item(&[]), &item(&[1, 2]), &info, &props, &Vec::new(), &Vec::new(), &Missing, &Prices, &sink);
    assert!(matches!(r, Err(CraftPathError::Cancelled())));
    // cancelled before the first wave: nothing was reported
    assert!(sink.reports.borrow().is_empty());
}

#[test]
fn test_matrix_progress_reports() {
    let info = provider();
    let props = vec![AddOne];
    let sink = Recorder::new(false);
    let m = generate_item_matrix(item(&[]), &item(&[1, 2]), &info, &props, &Vec::new(), &Vec::new(), &Missing, &Prices, &sink)
        .unwrap();
    assert_eq!(m.nodes.len(), 5);
    let reports = sink.reports.borrow();
    let counters: Vec<u64> = reports.iter().map(|r| r.1).collect();
    assert_eq!(counters, vec![0, 1, 3]);
    assert!(reports.iter().all(|r| r.2.is_none()));
    assert_eq!(reports[1].0, "Building item matrix: 1 nodes so far, 2 items in current wave");
}

#[test]
fn test_wave_progress_line() {
    let (m, c, t) = wave_progress(12, 3);
    assert_eq!(m, "Building item matrix: 12 nodes so far, 3 items in current wave");
    assert_eq!(c, 12);
    assert_eq!(t, None);
}

#[test]
fn test_matrix_unassessable_start_is_empty() {
    let info = provider();
    let props = vec![AddOne];
    let m = generate_item_matrix(item(&[]), &item(&[1, 2]), &info, &props, &Vec::new(), &Vec::new(), &Blind, &Prices, &NoopProgress)
        .unwrap();
    assert!(m.nodes.is_empty());
}

#[test]
fn test_matrix_is_closed() {
    let info = provider();
    let props = vec![AddOne];
    let m = generate_item_matrix(item(&[]), &item(&[1, 2]), &info, &props, &Vec::new(), &Vec::new(), &Missing, &Prices, &NoopProgress)
        .unwrap();
    // every outcome of every branch is a node, and every node but the
    // start is such an outcome
    for n in &m.nodes {
        for b in &n.branches {
            for t in &b.1 {
                assert!(m.nodes.iter().any(|x| x.item.snapshot == t.next));
            }
        }
    }
    for x in &m.nodes[1..] {
        assert!(m.nodes.iter().any(|n| n.branches.iter().any(|b| b.1.iter().any(|t| t.next == x.item.snapshot))));
    }
}

#[test]
fn test_builder_without_currencies_in_matrix() {
    let info = provider();
    let builder = HappyPathMatrixBuilder::with_propagators(vec![PropagatorKind::ExaltedOrb], Vec::new())
        .without_currencies(vec![CraftCurrencyEnum::ExaltedOrbNormal()]);
    let m = builder
        .generate_item_matrix(item(&[]), &item(&[1, 2]), &info, &vec![AddOne], &Vec::new(), &Missing, &Prices, &NoopProgress)
        .unwrap();
    assert_eq!(m.nodes.len(), 5);
    for n in &m.nodes {
        for b in &n.branches {
            assert!(!b.0.contains(&CraftCurrencyEnum::ExaltedOrbNormal()));
        }
    }
    // the greater exalt now keeps both outcomes of the start
    assert_eq!(m.nodes[0].branches.len(), 1);
    assert_eq!(m.nodes[0].branches[0].1.len(), 2);
}

#[test]
fn test_session_build_matrix_with_builder() {
    let info = provider();
    let config = CalculationConfig::builder().disable_currency(CraftCurrencyEnum::ExaltedOrbGreater()).build();
    let session = CraftSession::new(&info).with_config(config);
    let builder = HappyPathMatrixBuilder::with_propagators(vec![PropagatorKind::ExaltedOrb], Vec::new());
    let m = session
        .build_matrix_with(item(&[]), &item(&[1, 2]), &builder, &vec![AddOne], &Vec::new(), &Missing, &Prices, &NoopProgress)
        .unwrap();
    // the custom builder's own (empty) filter applies, not the session's
    assert_eq!(m.nodes[0].branches.len(), 2);
    assert_eq!(m.nodes[0].branches[1].0, vec![CraftCurrencyEnum::ExaltedOrbGreater()]);
}

#[test]
fn test_matrix_later_propagator_replaces_same_currencies() {
    let info = provider();
    let props = vec![AddOne, AddOne];
    let m = generate_item_matrix(item(&[]), &item(&[1, 2]), &info, &props, &Vec::new(), &Vec::new(), &Missing, &Prices, &NoopProgress)
        .unwrap();
    // the second propagator's branches replace the first's, which apply
    // the same currencies
    assert_eq!(m.nodes[0].branches.len(), 2);
    assert_eq!(m.nodes.len(), 5);
}
