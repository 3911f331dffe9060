//! Calculation options (with a builder) and the session that bundles the
//! item data with them.

use vstd::prelude::*;

use crate::builder::{copy_currencies, extend_currencies, insert_currency, lemma_set_extend, lemma_set_insert, set_extend, set_insert, standard_propagators, HappyPathMatrixBuilder, PropagatorKind};
use crate::currency::CraftCurrencyEnum;
use crate::errors::CraftPathError;
use crate::item::{ItemSnapshot, SnapshotView};
use crate::matrix::{built_matrix, finitely_reachable, implements_registry, BranchCosts, ItemAssessor, ItemMatrix, MatrixPropagator};
use crate::progress::ProgressSink;
use crate::provider::ItemInfoProvider;

verus! {

/// Calculation options with defaults matching the historical behavior.
#[derive(Clone, Debug)]
pub struct CalculationConfig {
    /// Currencies/omens excluded from matrix building (e.g. legacy omens
    /// unobtainable in the current league). A set: see
    /// [`CalculationConfig::wf`]. Default: none.
    pub disabled_currencies: Vec<CraftCurrencyEnum>,
    pub max_routes: u32,
    pub max_ram_in_bytes: u64,
    /// Metadata for callers (the server layer keys league data on it).
    pub league: Option<String>,
}

/// Mathematical value of a [`CalculationConfig`].
pub struct ConfigView {
    pub disabled_currencies: Seq<CraftCurrencyEnum>,
    pub max_routes: u32,
    pub max_ram_in_bytes: u64,
    pub league: Option<Seq<char>>,
}

impl View for CalculationConfig {
    type V = ConfigView;

    open spec fn view(&self) -> ConfigView {
        ConfigView {
            disabled_currencies: self.disabled_currencies@,
            max_routes: self.max_routes,
            max_ram_in_bytes: self.max_ram_in_bytes,
            league: match self.league {
                Some(l) => Some(l@),
                None => None,
            },
        }
    }
}

/// The default options: nothing disabled, 5 routes, 1 GB of RAM, no league.
pub open spec fn default_config() -> ConfigView {
    ConfigView { disabled_currencies: Seq::empty(), max_routes: 5, max_ram_in_bytes: 1_000_000_000, league: None }
}

impl Default for CalculationConfig {
    fn default() -> (r: Self)
        ensures
            r@ == default_config(),
    {
        let r = CalculationConfig {
            disabled_currencies: Vec::new(),
            max_routes: 5,
            max_ram_in_bytes: 1_000_000_000,
            league: None,
        };
        assert(r@.disabled_currencies =~= Seq::<CraftCurrencyEnum>::empty());
        r
    }
}

/// The omens that exist in the model but are unobtainable in the current
/// league.
pub open spec fn legacy_set() -> Seq<CraftCurrencyEnum> {
    seq![
        CraftCurrencyEnum::HomogenisingCoronation(),
        CraftCurrencyEnum::HomogenisingExaltation(),
        CraftCurrencyEnum::OmenOfCorruption(),
    ]
}

impl CalculationConfig {
    /// The disabled currencies form a set.
    pub open spec fn wf(&self) -> bool {
        self.disabled_currencies@.no_duplicates()
    }

    /// A builder starting from the default options.
    pub fn builder() -> (r: CalculationConfigBuilder)
        ensures
            r.config@ == default_config(),
            r.config.wf(),
    {
        CalculationConfigBuilder { config: CalculationConfig::default() }
    }

    /// The legacy omens, as a convenience list for `disable_currencies`.
    pub fn legacy_currencies() -> (r: Vec<CraftCurrencyEnum>)
        ensures
            r@ == legacy_set(),
    {
        let r = vec![
            CraftCurrencyEnum::HomogenisingCoronation(),
            CraftCurrencyEnum::HomogenisingExaltation(),
            CraftCurrencyEnum::OmenOfCorruption(),
        ];
        assert(r@ =~= legacy_set());
        r
    }
}

/// Builder of [`CalculationConfig`]: each method changes one option.
#[derive(Clone, Debug)]
pub struct CalculationConfigBuilder {
    pub config: CalculationConfig,
}

impl CalculationConfigBuilder {
    /// Add one currency to the disabled set.
    pub fn disable_currency(self, currency: CraftCurrencyEnum) -> (r: Self)
        requires
            self.config.wf(),
        ensures
            r.config.wf(),
            r.config.disabled_currencies@ == set_insert(self.config.disabled_currencies@, currency),
            r.config.max_routes == self.config.max_routes,
            r.config.max_ram_in_bytes == self.config.max_ram_in_bytes,
            r.config@.league == self.config@.league,
    {
        let mut s = self;
        proof {
            lemma_set_insert(s.config.disabled_currencies@, currency);
        }
        insert_currency(&mut s.config.disabled_currencies, currency);
        s
    }

    /// Add each currency of the list to the disabled set.
    pub fn disable_currencies(self, currencies: Vec<CraftCurrencyEnum>) -> (r: Self)
        requires
            self.config.wf(),
        ensures
            r.config.wf(),
            r.config.disabled_currencies@ == set_extend(self.config.disabled_currencies@, currencies@),
            r.config.max_routes == self.config.max_routes,
            r.config.max_ram_in_bytes == self.config.max_ram_in_bytes,
            r.config@.league == self.config@.league,
    {
        let mut s = self;
        proof {
            lemma_set_extend(s.config.disabled_currencies@, currencies@);
        }
        extend_currencies(&mut s.config.disabled_currencies, &currencies);
        s
    }

    pub fn max_routes(self, n: u32) -> (r: Self)
        ensures
            r.config@ == (ConfigView { max_routes: n, ..self.config@ }),
            r.config.wf() == self.config.wf(),
    {
        let mut s = self;
        s.config.max_routes = n;
        s
    }

    pub fn max_ram(self, bytes: u64) -> (r: Self)
        ensures
            r.config@ == (ConfigView { max_ram_in_bytes: bytes, ..self.config@ }),
            r.config.wf() == self.config.wf(),
    {
        let mut s = self;
        s.config.max_ram_in_bytes = bytes;
        s
    }

    pub fn league(self, league: &str) -> (r: Self)
        ensures
            r.config@ == (ConfigView { league: Some(league@), ..self.config@ }),
            r.config.wf() == self.config.wf(),
    {
        let mut s = self;
        s.config.league = Some(String::from_str(league));
        s
    }

    pub fn build(self) -> (r: CalculationConfig)
        ensures
            r == self.config,
    {
        self.config
    }
}

/// Bundles the item data with the calculation options.
pub struct CraftSession<'a> {
    pub item_info: &'a ItemInfoProvider,
    pub config: CalculationConfig,
}

impl<'a> CraftSession<'a> {
    /// A session with the default options.
    pub fn new(item_info: &'a ItemInfoProvider) -> (r: Self)
        ensures
            r.item_info == item_info,
            r.config@ == default_config(),
            r.config.wf(),
    {
        CraftSession { item_info, config: CalculationConfig::default() }
    }

    pub fn with_config(self, config: CalculationConfig) -> (r: Self)
        ensures
            r.item_info == self.item_info,
            r.config == config,
    {
        CraftSession { item_info: self.item_info, config }
    }

    /// The builder the session's matrix is built with: the standard
    /// happy-path builder without the configured disabled currencies.
    pub fn matrix_builder(&self) -> (r: HappyPathMatrixBuilder)
        requires
            self.config.wf(),
        ensures
            r.wf(),
            r.propagators@ == standard_propagators(),
            r.essence_only@ == seq![PropagatorKind::PerfectEssence],
            r.disabled_currencies@ == self.config.disabled_currencies@,
    {
        let b = HappyPathMatrixBuilder::standard();
        assert(b.disabled_currencies@ =~= Seq::<CraftCurrencyEnum>::empty());
        let disabled = copy_currencies(&self.config.disabled_currencies);
        let r = b.without_currencies(disabled);
        proof {
            lemma_set_extend_empty(self.config.disabled_currencies@);
        }
        r
    }

    /// Build the item matrix with a custom builder, whose own currency
    /// filter applies.
    pub fn build_matrix_with<P: MatrixPropagator, A: ItemAssessor, C: BranchCosts, S: ProgressSink>(
        &self,
        start: ItemSnapshot,
        target: &ItemSnapshot,
        builder: &HappyPathMatrixBuilder,
        propagators: &Vec<P>,
        essence_only: &Vec<P>,
        assessor: &A,
        costs: &C,
        sink: &S,
    ) -> (r: Result<ItemMatrix, CraftPathError>)
        requires
            self.item_info.weights_fit(),
            implements_registry(propagators@, builder.propagators@),
            implements_registry(essence_only@, builder.essence_only@),
            exists|u: Set<SnapshotView>| finitely_reachable(u, start@, *target, *self.item_info, propagators@, essence_only@, *assessor),
        ensures
            r is Err ==> r == Err::<ItemMatrix, CraftPathError>(CraftPathError::Cancelled()) && !sink.never_cancels(),
            sink.never_cancels() ==> r is Ok,
            sink.always_cancels() ==> r is Err,
            r matches Ok(m) ==> built_matrix(
                m, start@, *target, *self.item_info, propagators@, essence_only@, builder.disabled_currencies@, *assessor, *costs),
    {
        builder.generate_item_matrix(start, target, self.item_info, propagators, essence_only, assessor, costs, sink)
    }

    /// Build the item matrix with the standard happy-path builder, leaving
    /// out every branch that uses a configured disabled currency.
    pub fn build_matrix<P: MatrixPropagator, A: ItemAssessor, C: BranchCosts, S: ProgressSink>(
        &self,
        start: ItemSnapshot,
        target: &ItemSnapshot,
        propagators: &Vec<P>,
        essence_only: &Vec<P>,
        assessor: &A,
        costs: &C,
        sink: &S,
    ) -> (r: Result<ItemMatrix, CraftPathError>)
        requires
            self.config.wf(),
            self.item_info.weights_fit(),
            implements_registry(propagators@, standard_propagators()),
            implements_registry(essence_only@, seq![PropagatorKind::PerfectEssence]),
            exists|u: Set<SnapshotView>| finitely_reachable(u, start@, *target, *self.item_info, propagators@, essence_only@, *assessor),
        ensures
            r is Err ==> r == Err::<ItemMatrix, CraftPathError>(CraftPathError::Cancelled()) && !sink.never_cancels(),
            sink.never_cancels() ==> r is Ok,
            sink.always_cancels() ==> r is Err,
            r matches Ok(m) ==> built_matrix(
                m, start@, *target, *self.item_info, propagators@, essence_only@, self.config.disabled_currencies@, *assessor, *costs),
    {
        let builder = self.matrix_builder();
        self.build_matrix_with(start, target, &builder, propagators, essence_only, assessor, costs, sink)
    }
}

/// Extending the empty set by a duplicate-free list gives that list.
pub proof fn lemma_set_extend_empty(s: Seq<CraftCurrencyEnum>)
    requires
        s.no_duplicates(),
    ensures
        set_extend(Seq::empty(), s) == s,
    decreases s.len(),
{
    if s.len() > 0 {
        let d = s.drop_last();
        assert(d.no_duplicates());
        lemma_set_extend_empty(d);
        if d.contains(s.last()) {
            let i = choose|i: int| 0 <= i < d.len() && d[i] == s.last();
            assert(s[i] == s[s.len() - 1]);
        }
        assert(d.push(s.last()) =~= s);
    }
}

} // verus!
