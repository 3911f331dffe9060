//! The happy-path matrix builder's configuration: its propagator registry
//! (in the order that decides which duplicate branch survives pruning) and
//! the config-driven currency filter applied to propagation branches.

use vstd::prelude::*;

use crate::currency::CraftCurrencyEnum;
use crate::errors::CraftPathError;
use crate::item::{ItemSnapshot, SnapshotView};
use crate::matrix::{
    built_matrix, finitely_reachable, generate_item_matrix, implements_registry, law_matrix_avoids_disabled,
    BranchCosts, ItemAssessor, ItemMatrix, MatrixPropagator,
};
use crate::progress::ProgressSink;
use crate::provider::ItemInfoProvider;

verus! {

/// A builder that also leaves out `currencies` builds no matrix with a
/// branch that uses one of them or one of the builder's own disabled
/// currencies.
pub proof fn law_without_currencies_in_matrices<P: MatrixPropagator, A: ItemAssessor, C: BranchCosts>(
    b: HappyPathMatrixBuilder,
    currencies: Seq<CraftCurrencyEnum>,
    m: ItemMatrix,
    start: SnapshotView,
    target: ItemSnapshot,
    info: ItemInfoProvider,
    propagators: Seq<P>,
    essence_only: Seq<P>,
    assessor: A,
    costs: C,
)
    requires
        b.wf(),
        built_matrix(m, start, target, info, propagators, essence_only, set_extend(b.disabled_currencies@, currencies), assessor, costs),
    ensures
        forall|i: int, k: int, j: int| 0 <= i < m.nodes@.len() && 0 <= k < m.nodes@[i].branches@.len()
            && 0 <= j < m.nodes@[i].branches@[k].0@.len()
            ==> !b.disabled_currencies@.contains(#[trigger] m.nodes@[i].branches@[k].0@[j])
                && !currencies.contains(m.nodes@[i].branches@[k].0@[j]),
{
    let d = set_extend(b.disabled_currencies@, currencies);
    law_matrix_avoids_disabled(m, start, target, info, propagators, essence_only, d, assessor, costs);
    lemma_set_extend(b.disabled_currencies@, currencies);
    assert forall|i: int, k: int, j: int| 0 <= i < m.nodes@.len() && 0 <= k < m.nodes@[i].branches@.len()
        && 0 <= j < m.nodes@[i].branches@[k].0@.len()
        implies !b.disabled_currencies@.contains(#[trigger] m.nodes@[i].branches@[k].0@[j])
            && !currencies.contains(m.nodes@[i].branches@[k].0@[j]) by {
        assert(!d.contains(m.nodes@[i].branches@[k].0@[j]));
    }
}

/// Set insertion on a currency list: appended unless already present.
pub open spec fn set_insert(s: Seq<CraftCurrencyEnum>, c: CraftCurrencyEnum) -> Seq<CraftCurrencyEnum> {
    if s.contains(c) {
        s
    } else {
        s.push(c)
    }
}

/// Set insertion of each currency of `add`, in order.
pub open spec fn set_extend(s: Seq<CraftCurrencyEnum>, add: Seq<CraftCurrencyEnum>) -> Seq<CraftCurrencyEnum>
    decreases add.len(),
{
    if add.len() == 0 {
        s
    } else {
        set_insert(set_extend(s, add.drop_last()), add.last())
    }
}

/// Set insertion keeps a list free of duplicates and adds exactly `c`.
pub proof fn lemma_set_insert(s: Seq<CraftCurrencyEnum>, c: CraftCurrencyEnum)
    requires
        s.no_duplicates(),
    ensures
        set_insert(s, c).no_duplicates(),
        forall|x: CraftCurrencyEnum| #[trigger] set_insert(s, c).contains(x) <==> (s.contains(x) || x == c),
{
    if !s.contains(c) {
        assert forall|x: CraftCurrencyEnum| #[trigger] s.push(c).contains(x) <==> (s.contains(x) || x == c) by {
            if s.push(c).contains(x) {
                let i = choose|i: int| 0 <= i < s.push(c).len() && s.push(c)[i] == x;
                if i < s.len() {
                    assert(s[i] == x);
                }
            }
            if s.contains(x) {
                let i = choose|i: int| 0 <= i < s.len() && s[i] == x;
                assert(s.push(c)[i] == x);
            }
            if x == c {
                assert(s.push(c)[s.len() as int] == x);
            }
        }
    }
}

/// Extending keeps a list free of duplicates; the result holds exactly the
/// currencies of both lists.
pub proof fn lemma_set_extend(s: Seq<CraftCurrencyEnum>, add: Seq<CraftCurrencyEnum>)
    requires
        s.no_duplicates(),
    ensures
        set_extend(s, add).no_duplicates(),
        forall|x: CraftCurrencyEnum| #[trigger] set_extend(s, add).contains(x) <==> (s.contains(x) || add.contains(x)),
    decreases add.len(),
{
    if add.len() > 0 {
        lemma_set_extend(s, add.drop_last());
        lemma_set_insert(set_extend(s, add.drop_last()), add.last());
        assert forall|x: CraftCurrencyEnum| #[trigger] set_extend(s, add).contains(x) <==> (s.contains(x) || add.contains(x)) by {
            if add.contains(x) && x != add.last() {
                let i = choose|i: int| 0 <= i < add.len() && add[i] == x;
                assert(add.drop_last()[i] == x);
            }
            if add.drop_last().contains(x) {
                let i = choose|i: int| 0 <= i < add.drop_last().len() && add.drop_last()[i] == x;
                assert(add[i] == x);
            }
            if x == add.last() {
                assert(add[add.len() - 1] == x);
            }
        }
    }
}

/// Whether the list holds the currency.
pub fn contains_currency(v: &Vec<CraftCurrencyEnum>, c: &CraftCurrencyEnum) -> (r: bool)
    ensures
        r == v@.contains(*c),
{
    let mut i: usize = 0;
    while i < v.len()
        invariant
            i <= v@.len(),
            forall|k: int| 0 <= k < i ==> v@[k] != *c,
        decreases v.len() - i,
    {
        if v[i] == *c {
            return true;
        }
        i += 1;
    }
    false
}

/// An element-wise copy of a currency list.
pub fn copy_currencies(v: &Vec<CraftCurrencyEnum>) -> (r: Vec<CraftCurrencyEnum>)
    ensures
        r@ == v@,
{
    let mut r: Vec<CraftCurrencyEnum> = Vec::new();
    let mut i: usize = 0;
    while i < v.len()
        invariant
            i <= v@.len(),
            r@ == v@.take(i as int),
        decreases v.len() - i,
    {
        r.push(v[i]);
        i += 1;
        assert(r@ =~= v@.take(i as int));
    }
    assert(v@.take(v@.len() as int) =~= v@);
    r
}

/// Set insertion of one currency.
pub fn insert_currency(v: &mut Vec<CraftCurrencyEnum>, c: CraftCurrencyEnum)
    ensures
        final(v)@ == set_insert(old(v)@, c),
{
    if !contains_currency(v, &c) {
        v.push(c);
    }
}

/// Set insertion of each currency of `add`, in order.
pub fn extend_currencies(v: &mut Vec<CraftCurrencyEnum>, add: &Vec<CraftCurrencyEnum>)
    ensures
        final(v)@ == set_extend(old(v)@, add@),
{
    let mut i: usize = 0;
    while i < add.len()
        invariant
            i <= add@.len(),
            v@ == set_extend(old(v)@, add@.take(i as int)),
        decreases add.len() - i,
    {
        assert(add@.take(i + 1).drop_last() =~= add@.take(i as int));
        insert_currency(v, add[i]);
        i += 1;
    }
    assert(add@.take(add@.len() as int) =~= add@);
}

/// The propagators of the happy-path builder, one per currency family.
#[derive(Clone, Copy, Debug, PartialEq, Eq, Structural)]
pub enum PropagatorKind {
    FracturingOrb,
    OrbOfTransmutation,
    OrbOfAugmentation,
    RegalOrb,
    ExaltedOrb,
    ChaosOrb,
    OrbOfAnnulment,
    PerfectEssence,
    Desecration,
    NormalEssence,
    ArtificersOrb,
    VaalOrb,
}

/// The standard registry, in its fixed order (finishers last).
pub open spec fn standard_propagators() -> Seq<PropagatorKind> {
    seq![
        PropagatorKind::FracturingOrb,
        PropagatorKind::OrbOfTransmutation,
        PropagatorKind::OrbOfAugmentation,
        PropagatorKind::RegalOrb,
        PropagatorKind::ExaltedOrb,
        PropagatorKind::ChaosOrb,
        PropagatorKind::OrbOfAnnulment,
        PropagatorKind::PerfectEssence,
        PropagatorKind::Desecration,
        PropagatorKind::NormalEssence,
        PropagatorKind::ArtificersOrb,
        PropagatorKind::VaalOrb,
    ]
}

/// Happy-path matrix builder with an injectable propagator registry and a
/// config-driven currency filter (e.g. to exclude legacy omens without code
/// edits). `disabled_currencies` is a set: see [`HappyPathMatrixBuilder::wf`].
#[derive(Clone, Debug)]
pub struct HappyPathMatrixBuilder {
    pub propagators: Vec<PropagatorKind>,
    /// Registry used for items marked for essence-only continuation.
    pub essence_only: Vec<PropagatorKind>,
    pub disabled_currencies: Vec<CraftCurrencyEnum>,
}

impl HappyPathMatrixBuilder {
    /// The disabled currencies form a set.
    pub open spec fn wf(&self) -> bool {
        self.disabled_currencies@.no_duplicates()
    }

    /// Exactly the historical propagator set, in the historical order (order
    /// affects which duplicate branch survives the cheapest-route pruning).
    pub fn standard() -> (r: Self)
        ensures
            r.propagators@ == standard_propagators(),
            r.essence_only@ == seq![PropagatorKind::PerfectEssence],
            r.disabled_currencies@.len() == 0,
            r.wf(),
    {
        let propagators = vec![
            PropagatorKind::FracturingOrb,
            PropagatorKind::OrbOfTransmutation,
            PropagatorKind::OrbOfAugmentation,
            PropagatorKind::RegalOrb,
            PropagatorKind::ExaltedOrb,
            PropagatorKind::ChaosOrb,
            PropagatorKind::OrbOfAnnulment,
            PropagatorKind::PerfectEssence,
            PropagatorKind::Desecration,
            PropagatorKind::NormalEssence,
            PropagatorKind::ArtificersOrb,
            PropagatorKind::VaalOrb,
        ];
        let essence_only = vec![PropagatorKind::PerfectEssence];
        assert(propagators@ =~= standard_propagators());
        assert(essence_only@ =~= seq![PropagatorKind::PerfectEssence]);
        HappyPathMatrixBuilder { propagators, essence_only, disabled_currencies: Vec::new() }
    }

    /// A builder with the given registries and no disabled currency.
    pub fn with_propagators(propagators: Vec<PropagatorKind>, essence_only: Vec<PropagatorKind>) -> (r: Self)
        ensures
            r.propagators@ == propagators@,
            r.essence_only@ == essence_only@,
            r.disabled_currencies@.len() == 0,
            r.wf(),
    {
        HappyPathMatrixBuilder { propagators, essence_only, disabled_currencies: Vec::new() }
    }

    /// Exclude any propagation branch whose currency list contains one of
    /// the given currencies (e.g. unobtainable legacy omens).
    pub fn without_currencies(self, currencies: Vec<CraftCurrencyEnum>) -> (r: Self)
        requires
            self.wf(),
        ensures
            r.wf(),
            r.propagators@ == self.propagators@,
            r.essence_only@ == self.essence_only@,
            r.disabled_currencies@ == set_extend(self.disabled_currencies@, currencies@),
            forall|c: CraftCurrencyEnum| #[trigger] r.disabled_currencies@.contains(c)
                <==> (self.disabled_currencies@.contains(c) || currencies@.contains(c)),
    {
        let mut s = self;
        proof {
            lemma_set_extend(s.disabled_currencies@, currencies@);
        }
        extend_currencies(&mut s.disabled_currencies, &currencies);
        s
    }

    /// Build the item matrix with propagators that implement this builder's
    /// registries, leaving out every branch that uses one of its disabled
    /// currencies.
    pub fn generate_item_matrix<P: MatrixPropagator, A: ItemAssessor, C: BranchCosts, S: ProgressSink>(
        &self,
        start: ItemSnapshot,
        target: &ItemSnapshot,
        info: &ItemInfoProvider,
        propagators: &Vec<P>,
        essence_only: &Vec<P>,
        assessor: &A,
        costs: &C,
        sink: &S,
    ) -> (r: Result<ItemMatrix, CraftPathError>)
        requires
            info.weights_fit(),
            implements_registry(propagators@, self.propagators@),
            implements_registry(essence_only@, self.essence_only@),
            exists|u: Set<SnapshotView>| finitely_reachable(u, start@, *target, *info, propagators@, essence_only@, *assessor),
        ensures
            r is Err ==> r == Err::<ItemMatrix, CraftPathError>(CraftPathError::Cancelled()) && !sink.never_cancels(),
            sink.never_cancels() ==> r is Ok,
            sink.always_cancels() ==> r is Err,
            r matches Ok(m) ==> built_matrix(
                m, start@, *target, *info, propagators@, essence_only@, self.disabled_currencies@, *assessor, *costs),
    {
        generate_item_matrix(start, target, info, propagators, essence_only, &self.disabled_currencies, assessor, costs, sink)
    }

    /// A propagation branch (the currencies it applies together) survives
    /// the filter when it uses no disabled currency.
    pub open spec fn allows(&self, branch: Seq<CraftCurrencyEnum>) -> bool {
        forall|i: int| 0 <= i < branch.len() ==> !self.disabled_currencies@.contains(#[trigger] branch[i])
    }

    /// Whether the branch uses no disabled currency.
    pub fn allows_branch(&self, branch: &Vec<CraftCurrencyEnum>) -> (r: bool)
        ensures
            r == self.allows(branch@),
    {
        let mut i: usize = 0;
        while i < branch.len()
            invariant
                i <= branch@.len(),
                forall|k: int| 0 <= k < i ==> !self.disabled_currencies@.contains(#[trigger] branch@[k]),
            decreases branch.len() - i,
        {
            if contains_currency(&self.disabled_currencies, &branch[i]) {
                return false;
            }
            i += 1;
        }
        true
    }

    /// The branches (currency list and payload) the filter keeps, in order;
    /// each branch is independent, so disabling one leaves the others intact.
    pub fn retain_enabled_branches<T>(&self, branches: Vec<(Vec<CraftCurrencyEnum>, T)>) -> (r: Vec<(Vec<CraftCurrencyEnum>, T)>)
        ensures
            r@ == branches@.filter(|b: (Vec<CraftCurrencyEnum>, T)| self.allows(b.0@)),
    {
        let ghost orig = branches@;
        let mut kept: Vec<(Vec<CraftCurrencyEnum>, T)> = Vec::new();
        let mut rest = branches;
        let mut rev: Vec<(Vec<CraftCurrencyEnum>, T)> = Vec::new();
        while rest.len() > 0
            invariant
                rev@.len() + rest@.len() == orig.len(),
                rest@ == orig.subrange(0, rest@.len() as int),
                forall|i: int| 0 <= i < rev@.len() ==> #[trigger] rev@[i] == orig[orig.len() - 1 - i],
            decreases rest.len(),
        {
            let b = rest.pop().unwrap();
            rev.push(b);
        }
        let ghost n = orig.len();
        while rev.len() > 0
            invariant
                n == orig.len(),
                rev@.len() <= n,
                forall|i: int| 0 <= i < rev@.len() ==> #[trigger] rev@[i] == orig[n - 1 - i],
                kept@ == orig.subrange(0, n - rev@.len()).filter(|b: (Vec<CraftCurrencyEnum>, T)| self.allows(b.0@)),
            decreases rev.len(),
        {
            let ghost k = n - rev@.len();
            let b = rev.pop().unwrap();
            assert(b == orig[k]);
            let keep = self.allows_branch(&b.0);
            proof {
                let f = |b: (Vec<CraftCurrencyEnum>, T)| self.allows(b.0@);
                assert(orig.subrange(0, k + 1).drop_last() =~= orig.subrange(0, k));
                orig.subrange(0, k).lemma_filter_push(b, f);
                assert(orig.subrange(0, k).push(b) =~= orig.subrange(0, k + 1));
            }
            if keep {
                kept.push(b);
            }
        }
        assert(orig.subrange(0, n as int) =~= orig);
        kept
    }
}

/// Historical zero-config builder, kept for compatibility: it always uses
/// the standard registry.
#[derive(Clone, Copy, Debug)]
pub struct HappyPathMatrixBuilderImpl;

impl HappyPathMatrixBuilderImpl {
    /// The builder this zero-config variant delegates to.
    pub fn builder(&self) -> (r: HappyPathMatrixBuilder)
        ensures
            r.propagators@ == standard_propagators(),
            r.essence_only@ == seq![PropagatorKind::PerfectEssence],
            r.disabled_currencies@.len() == 0,
            r.wf(),
    {
        HappyPathMatrixBuilder::standard()
    }
}

} // verus!
