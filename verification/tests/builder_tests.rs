use craftpath::builder::{HappyPathMatrixBuilder, HappyPathMatrixBuilderImpl, PropagatorKind};
use craftpath::currency::CraftCurrencyEnum;

#[test]
fn test_standard_registry_and_branch_filter() {
    let b = HappyPathMatrixBuilder::standard();
    assert_eq!(b.propagators.len(), 12);
    assert_eq!(b.propagators[0], PropagatorKind::FracturingOrb);
    assert_eq!(b.propagators[10], PropagatorKind::ArtificersOrb);
    assert_eq!(HappyPathMatrixBuilderImpl.builder().propagators, b.propagators);
    let b = b.without_currencies(vec![CraftCurrencyEnum::OmenOfCorruption(), CraftCurrencyEnum::OmenOfCorruption()]);
    assert_eq!(b.disabled_currencies, vec![CraftCurrencyEnum::OmenOfCorruption()]);
    let branches = vec![
        (vec![CraftCurrencyEnum::VaalOrb(), CraftCurrencyEnum::OmenOfCorruption()], 1u32),
        (vec![CraftCurrencyEnum::VaalOrb()], 2u32),
        (Vec::new(), 3u32),
    ];
    let kept = b.retain_enabled_branches(branches);
    assert_eq!(kept.iter().map(|k| k.1).collect::<Vec<_>>(), vec![2, 3]);
    let custom = HappyPathMatrixBuilder::with_propagators(vec![PropagatorKind::VaalOrb], Vec::new());
    assert_eq!(custom.propagators, vec![PropagatorKind::VaalOrb]);
    assert!(custom.allows_branch(&vec![CraftCurrencyEnum::OmenOfCorruption()]));
}
