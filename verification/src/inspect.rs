//! Read-only item inspection: which currencies are legal on an item right
//! now (with risk classes), and the one-step outcome distribution of
//! applying a single currency.
//!
//! Chances are exact: an outcome's chance is its `weight` divided by the
//! simulation's `total_weight`.

use vstd::prelude::*;
use vstd::string::StringExecFns;

use crate::currency::{
    min_starting_item_level, risk_class, spec_item_name, spec_min_starting_item_level,
    spec_risk_class, CraftCurrencyEnum, CurrencyRiskClass,
};
use crate::errors::CraftPathError;
use crate::item::ItemSnapshot;
use crate::pool_filter::tiers_weight;
use crate::provider::{pool_fits, AffixDefinition, ItemInfoProvider, TierTable};
use crate::sorting::{
    ins_desc, lemma_sort_asc_props, lemma_sort_desc_map, lemma_sort_desc_props, sort_asc, sort_by_key_asc, sort_by_key_desc,
    sort_desc, SortKey, SpecSortKey,
};
use crate::types::{
    AffixClassEnum, AffixId, AffixLocationEnum, AffixSpecifier, AffixTierLevel,
    AffixTierLevelMeta, ItemLevel,
};

verus! {

/// Whether an outcome adds a new affix or removes an existing one.
#[derive(Clone, Copy, Debug, PartialEq, Eq, Structural)]
pub enum OutcomeKind {
    Adds,
    Removes,
}

/// Weight of one tier of an outcome affix.
#[derive(Clone, Copy, Debug, PartialEq, Eq, Structural)]
pub struct TierChance {
    pub tier: u8,
    pub weight: u32,
    pub min_item_level: u8,
}

impl SpecSortKey for TierChance {
    open spec fn sort_key(&self) -> int {
        self.tier as int
    }
}

impl SortKey for TierChance {
    fn key(&self) -> (k: u64) {
        self.tier as u64
    }
}

/// One possible outcome of applying a currency once. Its chance is
/// `weight / total_weight` of the enclosing simulation.
#[derive(Clone, Debug)]
pub struct SimOutcome {
    pub kind: OutcomeKind,
    pub affix: AffixId,
    pub description: String,
    pub location: AffixLocationEnum,
    pub weight: u64,
    pub tiers: Vec<TierChance>,
}

/// Mathematical value of an outcome.
pub struct OutcomeView {
    pub kind: OutcomeKind,
    pub affix: AffixId,
    pub description: Seq<char>,
    pub location: AffixLocationEnum,
    pub weight: nat,
    pub tiers: Seq<TierChance>,
}

impl View for SimOutcome {
    type V = OutcomeView;

    open spec fn view(&self) -> OutcomeView {
        OutcomeView {
            kind: self.kind,
            affix: self.affix,
            description: self.description@,
            location: self.location,
            weight: self.weight as nat,
            tiers: self.tiers@,
        }
    }
}

impl SpecSortKey for OutcomeView {
    open spec fn sort_key(&self) -> int {
        self.weight as int
    }
}

impl SpecSortKey for SimOutcome {
    open spec fn sort_key(&self) -> int {
        self.weight as int
    }
}

impl SortKey for SimOutcome {
    fn key(&self) -> (k: u64) {
        self.weight
    }
}

/// Why an inspection question has no answer.
#[derive(Clone, Copy, Debug, PartialEq, Eq, Structural)]
pub enum InspectError {
    /// The game data lacks an entry the computation needs.
    Data(CraftPathError),
    /// The item is corrupted; no currency can be applied.
    ItemCorrupted(),
    /// Transmutation requires a Normal item without mods.
    TransmutationNeedsNormal(),
    /// Augmentation requires a Magic item.
    AugmentationNeedsMagic(),
    /// Regal requires a Magic item.
    RegalNeedsMagic(),
    /// Exalted requires a Rare item.
    ExaltedNeedsRare(),
    /// The essence has no mod table for the item's base.
    EssenceWithoutTable(crate::types::EssenceId),
    /// No non-fractured mod to remove.
    NoRemovableMods(),
    /// The currency has compound outcomes; use a route calculation.
    Unsupported(CraftCurrencyEnum),
    /// No open affix slot on the item.
    NoOpenSlot(),
    /// No eligible mod of the class in the item's pool.
    NoEligibleMods(AffixClassEnum),
}

// ---------------------------------------------------------------------------
// Specification of the pool roll
// ---------------------------------------------------------------------------

/// Every id has a definition.
pub open spec fn ids_defined(pv: ItemInfoProvider, ids: Seq<AffixId>) -> bool {
    forall|i: int| 0 <= i < ids.len() ==> (#[trigger] pv.affix_def(ids[i])) is Some
}

/// `k` is the first id without a definition.
pub open spec fn first_undefined_at(pv: ItemInfoProvider, ids: Seq<AffixId>, k: int) -> bool {
    &&& 0 <= k < ids.len()
    &&& pv.affix_def(ids[k]) is None
    &&& forall|j: int| 0 <= j < k ==> (#[trigger] pv.affix_def(ids[j])) is Some
}

/// The error a scan over `ids` reports for the first id without a definition.
pub open spec fn first_undefined_error(pv: ItemInfoProvider, ids: Seq<AffixId>) -> CraftPathError {
    CraftPathError::AffixWithoutDefinition(ids[choose|k: int| first_undefined_at(pv, ids, k)])
}

pub open spec fn spec_ids(s: Seq<AffixSpecifier>) -> Seq<AffixId> {
    s.map_values(|a: AffixSpecifier| a.affix)
}

pub open spec fn pool_ids(p: Seq<(AffixId, TierTable)>) -> Seq<AffixId> {
    p.map_values(|e: (AffixId, TierTable)| e.0)
}

/// Number of affixes whose definition places them at `loc`.
pub open spec fn count_location(pv: ItemInfoProvider, ids: Seq<AffixId>, loc: AffixLocationEnum) -> nat
    decreases ids.len(),
{
    if ids.len() == 0 {
        0
    } else {
        count_location(pv, ids.drop_last(), loc) + match pv.affix_def(ids.last()) {
            Some(d) => if d.affix_location == loc {
                1nat
            } else {
                0nat
            },
            None => 0nat,
        }
    }
}

/// Prefix and suffix counts of an affix list (sockets and corruption
/// implicits never consume capacity).
pub open spec fn spec_side_counts(pv: ItemInfoProvider, s: Seq<AffixSpecifier>) -> Result<(nat, nat), CraftPathError> {
    if ids_defined(pv, spec_ids(s)) {
        Ok(
            (
                count_location(pv, spec_ids(s), AffixLocationEnum::Prefix),
                count_location(pv, spec_ids(s), AffixLocationEnum::Suffix),
            ),
        )
    } else {
        Err(first_undefined_error(pv, spec_ids(s)))
    }
}

/// The exclusive groups of a definition.
pub open spec fn group_set(d: AffixDefinition) -> Set<Seq<char>> {
    Set::new(|g: Seq<char>| exists|k: int| 0 <= k < d.exlusive_groups@.len() && #[trigger] d.exlusive_groups@[k]@ == g)
}

/// Exclusive groups already taken by the item's affixes.
pub open spec fn blocked_groups(pv: ItemInfoProvider, ids: Seq<AffixId>) -> Set<Seq<char>>
    decreases ids.len(),
{
    if ids.len() == 0 {
        Set::empty()
    } else {
        blocked_groups(pv, ids.drop_last()).union(
            match pv.affix_def(ids.last()) {
                Some(d) => group_set(d),
                None => Set::empty(),
            },
        )
    }
}

pub open spec fn location_open(loc: AffixLocationEnum, prefix_open: bool, suffix_open: bool) -> bool {
    match loc {
        AffixLocationEnum::Prefix => prefix_open,
        AffixLocationEnum::Suffix => suffix_open,
        _ => false,
    }
}

/// A pool affix is eligible: right class, open location, no exclusive group
/// already taken.
pub open spec fn entry_passes(
    d: AffixDefinition,
    class: AffixClassEnum,
    prefix_open: bool,
    suffix_open: bool,
    blocked: Set<Seq<char>>,
) -> bool {
    &&& d.affix_class == class
    &&& location_open(d.affix_location, prefix_open, suffix_open)
    &&& forall|k: int| 0 <= k < d.exlusive_groups@.len() ==> !blocked.contains(#[trigger] d.exlusive_groups@[k]@)
}

/// Tiers reachable at the item level and not below the orb's mod level
/// filter, in pool order.
pub open spec fn kept_tiers(t: Seq<(AffixTierLevel, AffixTierLevelMeta)>, ilvl: u8, filter: u8) -> Seq<TierChance>
    decreases t.len(),
{
    if t.len() == 0 {
        Seq::empty()
    } else {
        let prev = kept_tiers(t.drop_last(), ilvl, filter);
        let e = t.last();
        if e.1.min_item_level.0 <= ilvl && e.1.min_item_level.0 >= filter {
            prev.push(TierChance { tier: e.0.0, weight: e.1.weight.0, min_item_level: e.1.min_item_level.0 })
        } else {
            prev
        }
    }
}

pub open spec fn chances_weight(t: Seq<TierChance>) -> nat
    decreases t.len(),
{
    if t.len() == 0 {
        0
    } else {
        chances_weight(t.drop_last()) + t.last().weight as nat
    }
}

/// The eligible outcomes of a pool, in pool order.
pub open spec fn pool_candidates(
    pv: ItemInfoProvider,
    p: Seq<(AffixId, TierTable)>,
    class: AffixClassEnum,
    prefix_open: bool,
    suffix_open: bool,
    blocked: Set<Seq<char>>,
    ilvl: u8,
    filter: u8,
) -> Seq<OutcomeView>
    decreases p.len(),
{
    if p.len() == 0 {
        Seq::empty()
    } else {
        let prev = pool_candidates(pv, p.drop_last(), class, prefix_open, suffix_open, blocked, ilvl, filter);
        let e = p.last();
        match pv.affix_def(e.0) {
            None => prev,
            Some(d) => if entry_passes(d, class, prefix_open, suffix_open, blocked) {
                let kept = kept_tiers(e.1@, ilvl, filter);
                if chances_weight(kept) > 0 {
                    prev.push(
                        OutcomeView {
                            kind: OutcomeKind::Adds,
                            affix: e.0,
                            description: d.description_template@,
                            location: d.affix_location,
                            weight: chances_weight(kept),
                            tiers: sort_asc(kept),
                        },
                    )
                } else {
                    prev
                }
            } else {
                prev
            },
        }
    }
}

pub open spec fn outcomes_weight(s: Seq<OutcomeView>) -> nat
    decreases s.len(),
{
    if s.len() == 0 {
        0
    } else {
        outcomes_weight(s.drop_last()) + s.last().weight
    }
}

/// Weighted one-step roll over the item's base pool: outcomes sorted by
/// descending weight (ties in pool order) and the total weight.
pub open spec fn spec_roll(
    pv: ItemInfoProvider,
    s: ItemSnapshot,
    class: AffixClassEnum,
    prefix_open: bool,
    suffix_open: bool,
    filter: u8,
) -> Result<(Seq<OutcomeView>, nat), InspectError> {
    match pv.base_pool(s.base_id) {
        None => Err(InspectError::Data(CraftPathError::ItemWithoutAffixInformation(s.base_id))),
        Some(pool) => if !ids_defined(pv, spec_ids(s.affixes@)) {
            Err(InspectError::Data(first_undefined_error(pv, spec_ids(s.affixes@))))
        } else if !ids_defined(pv, pool_ids(pool@)) {
            Err(InspectError::Data(first_undefined_error(pv, pool_ids(pool@))))
        } else {
            let c = pool_candidates(
                pv,
                pool@,
                class,
                prefix_open,
                suffix_open,
                blocked_groups(pv, spec_ids(s.affixes@)),
                s.item_level.0,
                filter,
            );
            if outcomes_weight(c) == 0 {
                Err(InspectError::NoEligibleMods(class))
            } else {
                Ok((sort_desc(c), outcomes_weight(c)))
            }
        },
    }
}

pub open spec fn outcome_views(v: Seq<SimOutcome>) -> Seq<OutcomeView> {
    v.map_values(|o: SimOutcome| o@)
}

/// An executable roll result agrees with its specification.
pub open spec fn roll_matches(
    r: Result<(Vec<SimOutcome>, u64), InspectError>,
    s: Result<(Seq<OutcomeView>, nat), InspectError>,
) -> bool {
    match (r, s) {
        (Ok((v, t)), Ok((sv, st))) => outcome_views(v@) == sv && t as nat == st,
        (Err(e), Err(se)) => e == se,
        _ => false,
    }
}

// ---------------------------------------------------------------------------
// Lemmas
// ---------------------------------------------------------------------------

proof fn lemma_count_prefix_suffix_le(pv: ItemInfoProvider, ids: Seq<AffixId>)
    ensures
        count_location(pv, ids, AffixLocationEnum::Prefix) + count_location(pv, ids, AffixLocationEnum::Suffix) <= ids.len(),
    decreases ids.len(),
{
    if ids.len() > 0 {
        lemma_count_prefix_suffix_le(pv, ids.drop_last());
    }
}

proof fn lemma_kept_weight_le(t: Seq<(AffixTierLevel, AffixTierLevelMeta)>, ilvl: u8, filter: u8)
    ensures
        chances_weight(kept_tiers(t, ilvl, filter)) <= tiers_weight(t),
    decreases t.len(),
{
    if t.len() > 0 {
        lemma_kept_weight_le(t.drop_last(), ilvl, filter);
        let prev = kept_tiers(t.drop_last(), ilvl, filter);
        let e = t.last();
        let x = TierChance { tier: e.0.0, weight: e.1.weight.0, min_item_level: e.1.min_item_level.0 };
        assert(prev.push(x).drop_last() =~= prev);
    }
}

// ---------------------------------------------------------------------------
// Executable code
// ---------------------------------------------------------------------------

/// Count existing prefix/suffix affixes (sockets and corruption implicits
/// never consume capacity).
pub fn affix_side_counts(snapshot: &ItemSnapshot, provider: &ItemInfoProvider) -> (r: Result<(u8, u8), CraftPathError>)
    requires
        snapshot.affixes@.len() <= 255,
    ensures
        match (r, spec_side_counts(*provider, snapshot.affixes@)) {
            (Ok((p, s)), Ok((sp, ss))) => p as nat == sp && s as nat == ss,
            (Err(e), Err(se)) => e == se,
            _ => false,
        },
{
    let ghost ids = spec_ids(snapshot.affixes@);
    let mut prefixes: u8 = 0;
    let mut suffixes: u8 = 0;
    let mut i: usize = 0;
    while i < snapshot.affixes.len()
        invariant
            i <= snapshot.affixes@.len() <= 255,
            ids == spec_ids(snapshot.affixes@),
            ids_defined(*provider, ids.subrange(0, i as int)),
            prefixes as nat == count_location(*provider, ids.subrange(0, i as int), AffixLocationEnum::Prefix),
            suffixes as nat == count_location(*provider, ids.subrange(0, i as int), AffixLocationEnum::Suffix),
        decreases snapshot.affixes.len() - i,
    {
        proof {
            lemma_count_prefix_suffix_le(*provider, ids.subrange(0, i as int));
            assert(ids.subrange(0, i + 1).drop_last() =~= ids.subrange(0, i as int));
            assert(ids[i as int] == snapshot.affixes@[i as int].affix);
        }
        let def = match provider.lookup_affix_definition(&snapshot.affixes[i].affix) {
            Ok(d) => d,
            Err(e) => {
                proof {
                    assert(first_undefined_at(*provider, ids, i as int)) by {
                        assert forall|j: int| 0 <= j < i implies (#[trigger] provider.affix_def(ids[j])) is Some by {
                            assert(ids.subrange(0, i as int)[j] == ids[j]);
                        }
                    }
                    let k = choose|k: int| first_undefined_at(*provider, ids, k);
                    if k < i {
                        assert(ids.subrange(0, i as int)[k] == ids[k]);
                    } else if k > i {
                    }
                    assert(k == i);
                }
                return Err(e);
            },
        };
        match def.affix_location {
            AffixLocationEnum::Prefix => prefixes += 1,
            AffixLocationEnum::Suffix => suffixes += 1,
            _ => {},
        }
        i += 1;
        proof {
            assert forall|j: int| 0 <= j < i implies (#[trigger] provider.affix_def(ids.subrange(0, i as int)[j])) is Some by {
                if j < i - 1 {
                    assert(ids.subrange(0, i as int)[j] == ids.subrange(0, i - 1)[j]);
                }
            }
        }
    }
    assert(ids.subrange(0, i as int) =~= ids);
    Ok((prefixes, suffixes))
}


/// The error of a scan that fails at position `i`.
proof fn lemma_first_undefined(pv: ItemInfoProvider, ids: Seq<AffixId>, i: int)
    requires
        0 <= i < ids.len(),
        ids_defined(pv, ids.subrange(0, i)),
        pv.affix_def(ids[i]) is None,
    ensures
        !ids_defined(pv, ids),
        first_undefined_error(pv, ids) == CraftPathError::AffixWithoutDefinition(ids[i]),
{
    assert forall|j: int| 0 <= j < i implies (#[trigger] pv.affix_def(ids[j])) is Some by {
        assert(ids.subrange(0, i)[j] == ids[j]);
    }
    assert(first_undefined_at(pv, ids, i));
    let k = choose|k: int| first_undefined_at(pv, ids, k);
    assert(k == i);
}

/// Extending a fully defined prefix by a defined id.
proof fn lemma_defined_extend(pv: ItemInfoProvider, ids: Seq<AffixId>, i: int)
    requires
        0 <= i < ids.len(),
        ids_defined(pv, ids.subrange(0, i)),
        pv.affix_def(ids[i]) is Some,
    ensures
        ids_defined(pv, ids.subrange(0, i + 1)),
{
    assert forall|j: int| 0 <= j < i + 1 implies (#[trigger] pv.affix_def(ids.subrange(0, i + 1)[j])) is Some by {
        if j < i {
            assert(ids.subrange(0, i + 1)[j] == ids.subrange(0, i)[j]);
        }
    }
}

/// The strings of `b` are exactly the members of `set`.
pub open spec fn strings_match_set(b: Seq<String>, set: Set<Seq<char>>) -> bool {
    forall|g: Seq<char>| (exists|k: int| 0 <= k < b.len() && #[trigger] b[k]@ == g) <==> set.contains(g)
}

/// Exclusive groups of the item's affixes (with duplicates), or the error of
/// the first affix without a definition.
fn collect_blocked(snapshot: &ItemSnapshot, provider: &ItemInfoProvider) -> (r: Result<Vec<String>, CraftPathError>)
    ensures
        match r {
            Ok(b) => ids_defined(*provider, spec_ids(snapshot.affixes@))
                && strings_match_set(b@, blocked_groups(*provider, spec_ids(snapshot.affixes@))),
            Err(e) => !ids_defined(*provider, spec_ids(snapshot.affixes@))
                && e == first_undefined_error(*provider, spec_ids(snapshot.affixes@)),
        },
{
    let ghost ids = spec_ids(snapshot.affixes@);
    let mut blocked: Vec<String> = Vec::new();
    let mut i: usize = 0;
    while i < snapshot.affixes.len()
        invariant
            i <= snapshot.affixes@.len(),
            ids == spec_ids(snapshot.affixes@),
            ids_defined(*provider, ids.subrange(0, i as int)),
            forall|g: Seq<char>|
                (exists|k: int| 0 <= k < blocked@.len() && #[trigger] blocked@[k]@ == g)
                    <==> blocked_groups(*provider, ids.subrange(0, i as int)).contains(g),
        decreases snapshot.affixes.len() - i,
    {
        assert(ids[i as int] == snapshot.affixes@[i as int].affix);
        let def = match provider.lookup_affix_definition(&snapshot.affixes[i].affix) {
            Ok(d) => d,
            Err(e) => {
                proof {
                    lemma_first_undefined(*provider, ids, i as int);
                }
                return Err(e);
            },
        };
        let ghost before = blocked@;
        let mut k: usize = 0;
        while k < def.exlusive_groups.len()
            invariant
                k <= def.exlusive_groups@.len(),
                blocked@.len() == before.len() + k,
                forall|j: int| 0 <= j < before.len() ==> blocked@[j] == before[j],
                forall|j: int| 0 <= j < k ==> blocked@[before.len() + j]@ == def.exlusive_groups@[j]@,
            decreases def.exlusive_groups.len() - k,
        {
            let g = def.exlusive_groups[k].clone();
            blocked.push(g);
            k += 1;
        }
        proof {
            let sub = ids.subrange(0, i + 1);
            assert(sub.drop_last() =~= ids.subrange(0, i as int));
            assert(sub.last() == ids[i as int]);
            lemma_defined_extend(*provider, ids, i as int);
            assert forall|g: Seq<char>|
                (exists|k: int| 0 <= k < blocked@.len() && #[trigger] blocked@[k]@ == g)
                    <==> blocked_groups(*provider, sub).contains(g) by {
                let n = before.len();
                if exists|k: int| 0 <= k < blocked@.len() && #[trigger] blocked@[k]@ == g {
                    let k = choose|k: int| 0 <= k < blocked@.len() && #[trigger] blocked@[k]@ == g;
                    if k < n {
                        assert(before[k]@ == g);
                        assert(blocked_groups(*provider, ids.subrange(0, i as int)).contains(g));
                    } else {
                        assert(blocked@[n + (k - n)]@ == def.exlusive_groups@[k - n]@);
                        assert(def.exlusive_groups@[k - n]@ == g);
                        assert(group_set(*def).contains(g));
                    }
                }
                if blocked_groups(*provider, sub).contains(g) {
                    if blocked_groups(*provider, ids.subrange(0, i as int)).contains(g) {
                        let k = choose|k: int| 0 <= k < before.len() && #[trigger] before[k]@ == g;
                        assert(blocked@[k] == before[k]);
                    } else {
                        assert(group_set(*def).contains(g));
                        let k = choose|k: int| 0 <= k < def.exlusive_groups@.len() && #[trigger] def.exlusive_groups@[k]@ == g;
                        assert(blocked@[n + k]@ == def.exlusive_groups@[k]@);
                    }
                }
            }
        }
        i += 1;
    }
    assert(ids.len() == snapshot.affixes@.len());
    assert(i == ids.len());
    assert(ids.subrange(0, i as int) =~= ids);
    assert(ids_defined(*provider, ids));
    assert forall|g: Seq<char>|
        (exists|k: int| 0 <= k < blocked@.len() && #[trigger] blocked@[k]@ == g)
            <==> blocked_groups(*provider, spec_ids(snapshot.affixes@)).contains(g) by {
        assert(blocked_groups(*provider, ids.subrange(0, i as int)) == blocked_groups(*provider, ids));
    }
    assert(ids_defined(*provider, spec_ids(snapshot.affixes@)));
    assert(strings_match_set(blocked@, blocked_groups(*provider, spec_ids(snapshot.affixes@))));
    Ok(blocked)
}

/// Whether none of `groups` occurs in `blocked`.
fn groups_disjoint(groups: &Vec<String>, blocked: &Vec<String>) -> (r: bool)
    ensures
        r == forall|k: int| 0 <= k < groups@.len() ==>
            !(exists|j: int| 0 <= j < blocked@.len() && #[trigger] blocked@[j]@ == (#[trigger] groups@[k])@),
{
    let mut k: usize = 0;
    while k < groups.len()
        invariant
            k <= groups@.len(),
            forall|k2: int| 0 <= k2 < k ==>
                !(exists|j: int| 0 <= j < blocked@.len() && #[trigger] blocked@[j]@ == (#[trigger] groups@[k2])@),
        decreases groups.len() - k,
    {
        let mut j: usize = 0;
        while j < blocked.len()
            invariant
                j <= blocked@.len(),
                k < groups@.len(),
                forall|j2: int| 0 <= j2 < j ==> (#[trigger] blocked@[j2])@ != groups@[k as int]@,
            decreases blocked.len() - j,
        {
            if blocked[j] == groups[k] {
                return false;
            }
            j += 1;
        }
        k += 1;
    }
    true
}

/// Tiers reachable at the item level and not below the mod level filter,
/// with their weight sum.
fn kept_tier_chances(t: &TierTable, ilvl: u8, filter: u8) -> (r: (Vec<TierChance>, u32))
    requires
        tiers_weight(t@) <= u32::MAX,
    ensures
        r.0@ == kept_tiers(t@, ilvl, filter),
        r.1 as nat == chances_weight(r.0@),
{
    let mut out: Vec<TierChance> = Vec::new();
    let mut w: u32 = 0;
    let mut i: usize = 0;
    while i < t.len()
        invariant
            i <= t@.len(),
            tiers_weight(t@) <= u32::MAX,
            out@ == kept_tiers(t@.subrange(0, i as int), ilvl, filter),
            w as nat == chances_weight(out@),
        decreases t.len() - i,
    {
        proof {
            assert(t@.subrange(0, i + 1).drop_last() =~= t@.subrange(0, i as int));
            crate::pool_filter::lemma_tiers_weight_prefix(t@, i + 1);
            lemma_kept_weight_le(t@.subrange(0, i + 1), ilvl, filter);
        }
        let lvl = t[i].1.min_item_level.0;
        if lvl <= ilvl && lvl >= filter {
            let x = TierChance { tier: t[i].0.0, weight: t[i].1.weight.0, min_item_level: lvl };
            proof {
                assert(out@.push(x).drop_last() =~= out@);
            }
            w = w + x.weight;
            out.push(x);
        }
        i += 1;
    }
    assert(t@.subrange(0, i as int) =~= t@);
    (out, w)
}

/// Shared weighted-roll computation over the item's base mod pool: filters
/// by affix class, open location, exclusive groups already present on the
/// item, the item level and the orb's mod level filter; outcomes come sorted
/// by descending weight together with the total weight.
fn roll_from_pool(
    snapshot: &ItemSnapshot,
    provider: &ItemInfoProvider,
    class: AffixClassEnum,
    prefix_open: bool,
    suffix_open: bool,
    mod_level_filter: ItemLevel,
) -> (r: Result<(Vec<SimOutcome>, u64), InspectError>)
    requires
        provider.weights_fit(),
    ensures
        roll_matches(r, spec_roll(*provider, *snapshot, class, prefix_open, suffix_open, mod_level_filter.0)),
{
    let pool = match provider.lookup_base_item_mods(&snapshot.base_id) {
        Ok(p) => p,
        Err(e) => return Err(InspectError::Data(e)),
    };
    proof {
        provider.lemma_base_pool_fits(snapshot.base_id);
    }
    let blocked = match collect_blocked(snapshot, provider) {
        Ok(b) => b,
        Err(e) => return Err(InspectError::Data(e)),
    };
    let ghost bset = blocked_groups(*provider, spec_ids(snapshot.affixes@));
    let ghost pids = pool_ids(pool@);
    let ilvl = snapshot.item_level.0;
    let filter = mod_level_filter.0;
    let mut cands: Vec<SimOutcome> = Vec::new();
    let mut total: u64 = 0;
    let mut i: usize = 0;
    while i < pool.len()
        invariant
            i <= pool@.len(),
            pool_fits(pool@),
            pids == pool_ids(pool@),
            provider.base_pool(snapshot.base_id) == Some(*pool),
            ids_defined(*provider, spec_ids(snapshot.affixes@)),
            ids_defined(*provider, pids.subrange(0, i as int)),
            forall|g: Seq<char>|
                (exists|k: int| 0 <= k < blocked@.len() && #[trigger] blocked@[k]@ == g) <==> bset.contains(g),
            outcome_views(cands@) == pool_candidates(*provider, pool@.subrange(0, i as int), class, prefix_open, suffix_open, bset, ilvl, filter),
            total as nat == outcomes_weight(outcome_views(cands@)),
            total as nat <= i * (u32::MAX as nat),
        decreases pool.len() - i,
    {
        let ghost sub = pool@.subrange(0, i + 1);
        let ghost prev = pool_candidates(*provider, pool@.subrange(0, i as int), class, prefix_open, suffix_open, bset, ilvl, filter);
        proof {
            assert(sub.drop_last() =~= pool@.subrange(0, i as int));
            assert(sub.last() == pool@[i as int]);
            assert(pids[i as int] == pool@[i as int].0);
        }
        let def = match provider.lookup_affix_definition(&pool[i].0) {
            Ok(d) => d,
            Err(e) => {
                proof {
                    lemma_first_undefined(*provider, pids, i as int);
                    assert(ids_defined(*provider, spec_ids(snapshot.affixes@)));
                    assert(e == first_undefined_error(*provider, pool_ids(pool@)));
                }
                return Err(InspectError::Data(e));
            },
        };
        proof {
            lemma_defined_extend(*provider, pids, i as int);
        }
        let loc_open = match def.affix_location {
            AffixLocationEnum::Prefix => prefix_open,
            AffixLocationEnum::Suffix => suffix_open,
            _ => false,
        };
        let disjoint = groups_disjoint(&def.exlusive_groups, &blocked);
        proof {
            assert(disjoint == forall|k: int| 0 <= k < def.exlusive_groups@.len() ==> !bset.contains(#[trigger] def.exlusive_groups@[k]@));
        }
        if def.affix_class == class && loc_open && disjoint {
            assert(tiers_weight(pool@[i as int].1@) <= u32::MAX);
            let (kept, w) = kept_tier_chances(&pool[i].1, ilvl, filter);
            if w > 0 {
                let sorted_tiers = sort_by_key_asc(kept);
                let o = SimOutcome {
                    kind: OutcomeKind::Adds,
                    affix: pool[i].0,
                    description: def.description_template.clone(),
                    location: def.affix_location,
                    weight: w as u64,
                    tiers: sorted_tiers,
                };
                proof {
                    assert(outcome_views(cands@.push(o)) =~= outcome_views(cands@).push(o@));
                    assert(outcome_views(cands@).push(o@).drop_last() =~= outcome_views(cands@));
                    assert((i + 1) * (u32::MAX as nat) == i * (u32::MAX as nat) + (u32::MAX as nat)) by (nonlinear_arith);
                    assert(i + 1 <= u32::MAX + 1);
                    assert((i + 1) * (u32::MAX as nat) <= (u32::MAX as nat + 1) * (u32::MAX as nat)) by (nonlinear_arith)
                        requires i + 1 <= u32::MAX + 1;
                }
                total = total + w as u64;
                cands.push(o);
            } else {
                proof {
                    assert((i + 1) * (u32::MAX as nat) == i * (u32::MAX as nat) + (u32::MAX as nat)) by (nonlinear_arith);
                }
            }
        } else {
            proof {
                assert((i + 1) * (u32::MAX as nat) == i * (u32::MAX as nat) + (u32::MAX as nat)) by (nonlinear_arith);
            }
        }
        i += 1;
    }
    proof {
        assert(pool@.subrange(0, i as int) =~= pool@);
        assert(pids.subrange(0, i as int) =~= pids);
    }
    if total == 0 {
        return Err(InspectError::NoEligibleMods(class));
    }
    let ghost unsorted = cands@;
    let sorted = sort_by_key_desc(cands);
    proof {
        lemma_sort_desc_map(unsorted, |o: SimOutcome| o@);
    }
    Ok((sorted, total))
}


// ---------------------------------------------------------------------------
// One-step simulation
// ---------------------------------------------------------------------------

/// Remarks attached to a simulation.
#[derive(Clone, Copy, Debug, PartialEq, Eq, Structural)]
pub enum SimNote {
    /// Desecrated mod weights are not published; pool weights are taken
    /// from the dataset as-is.
    DesecratedWeightsUnpublished(),
    /// The essence that was simulated, and whether it corrupts the item.
    EssenceInfo(crate::types::EssenceId, bool),
}

/// Full one-step distribution for (item, currency). Each outcome's chance
/// is `weight / total_weight`.
#[derive(Clone, Debug)]
pub struct ActionSimulation {
    pub currency_name: String,
    pub risk: CurrencyRiskClass,
    pub outcomes: Vec<SimOutcome>,
    pub total_weight: u64,
    pub notes: Vec<SimNote>,
}

/// Half the affix capacity of the item's base group (the per-side cap).
pub open spec fn spec_side_cap(pv: ItemInfoProvider, s: ItemSnapshot) -> Result<nat, CraftPathError> {
    match pv.base_group_of(s.base_id) {
        None => Err(CraftPathError::BaseItemWithoutBaseGroup(s.base_id)),
        Some(g) => match pv.group_def(g) {
            None => Err(CraftPathError::BaseGroupWithoutDefinition(g)),
            Some(d) => Ok((d.max_affix / 2) as nat),
        },
    }
}

pub type SimSpec = Result<(Seq<OutcomeView>, nat, Seq<SimNote>), InspectError>;

/// A roll result with notes attached.
pub open spec fn with_notes(r: Result<(Seq<OutcomeView>, nat), InspectError>, notes: Seq<SimNote>) -> SimSpec {
    match r {
        Ok((o, t)) => Ok((o, t, notes)),
        Err(e) => Err(e),
    }
}

/// Additive orbs roll one Base-class mod into an open side.
pub open spec fn spec_additive(pv: ItemInfoProvider, s: ItemSnapshot, c: CraftCurrencyEnum, po: bool, so: bool) -> SimSpec {
    if !po && !so {
        Err(InspectError::NoOpenSlot())
    } else {
        with_notes(spec_roll(pv, s, AffixClassEnum::Base, po, so, spec_min_starting_item_level(c)), Seq::empty())
    }
}

/// Additive roll with the per-side cap of the base group.
pub open spec fn spec_capped_additive(pv: ItemInfoProvider, s: ItemSnapshot, c: CraftCurrencyEnum) -> SimSpec {
    match spec_side_cap(pv, s) {
        Err(e) => Err(InspectError::Data(e)),
        Ok(cap) => match spec_side_counts(pv, s.affixes@) {
            Err(e) => Err(InspectError::Data(e)),
            Ok((p, x)) => spec_additive(pv, s, c, p < cap, x < cap),
        },
    }
}

/// Each listed affix is one outcome of equal weight 1.
pub open spec fn uniform_outcomes(pv: ItemInfoProvider, ids: Seq<AffixId>, kind: OutcomeKind) -> Seq<OutcomeView> {
    Seq::new(
        ids.len(),
        |i: int| OutcomeView {
            kind,
            affix: ids[i],
            description: pv.affix_def(ids[i]).unwrap().description_template@,
            location: pv.affix_def(ids[i]).unwrap().affix_location,
            weight: 1,
            tiers: Seq::empty(),
        },
    )
}

/// The non-fractured affixes, in item order.
pub open spec fn unfractured(s: Seq<AffixSpecifier>) -> Seq<AffixSpecifier>
    decreases s.len(),
{
    if s.len() == 0 {
        Seq::empty()
    } else if s.last().fractured {
        unfractured(s.drop_last())
    } else {
        unfractured(s.drop_last()).push(s.last())
    }
}

pub open spec fn spec_uniform(pv: ItemInfoProvider, ids: Seq<AffixId>, kind: OutcomeKind, total: nat, notes: Seq<SimNote>) -> SimSpec {
    if ids_defined(pv, ids) {
        Ok((uniform_outcomes(pv, ids, kind), total, notes))
    } else {
        Err(InspectError::Data(first_undefined_error(pv, ids)))
    }
}

/// The one-step outcome distribution of applying `c` once to `s`.
pub open spec fn spec_simulate(pv: ItemInfoProvider, s: ItemSnapshot, c: CraftCurrencyEnum) -> SimSpec {
    if s.corrupted {
        Err(InspectError::ItemCorrupted())
    } else {
        match c {
            CraftCurrencyEnum::OrbOfTransmutationNormal()
            | CraftCurrencyEnum::OrbOfTransmutationGreater()
            | CraftCurrencyEnum::OrbOfTransmutationPerfect() => if s.rarity != crate::types::ItemRarityEnum::Normal
                || s.affixes@.len() != 0 {
                Err(InspectError::TransmutationNeedsNormal())
            } else {
                spec_additive(pv, s, c, true, true)
            },
            CraftCurrencyEnum::OrbOfAugmentationNormal()
            | CraftCurrencyEnum::OrbOfAugmentationGreater()
            | CraftCurrencyEnum::OrbOfAugmentationPerfect() => if s.rarity != crate::types::ItemRarityEnum::Magic {
                Err(InspectError::AugmentationNeedsMagic())
            } else {
                match spec_side_counts(pv, s.affixes@) {
                    Err(e) => Err(InspectError::Data(e)),
                    Ok((p, x)) => spec_additive(pv, s, c, p < 1, x < 1),
                }
            },
            CraftCurrencyEnum::RegalOrbNormal()
            | CraftCurrencyEnum::RegalOrbGreater()
            | CraftCurrencyEnum::RegalOrbPerfect() => if s.rarity != crate::types::ItemRarityEnum::Magic {
                Err(InspectError::RegalNeedsMagic())
            } else {
                spec_capped_additive(pv, s, c)
            },
            CraftCurrencyEnum::ExaltedOrbNormal()
            | CraftCurrencyEnum::ExaltedOrbGreater()
            | CraftCurrencyEnum::ExaltedOrbPerfect() => if s.rarity != crate::types::ItemRarityEnum::Rare {
                Err(InspectError::ExaltedNeedsRare())
            } else {
                spec_capped_additive(pv, s, c)
            },
            CraftCurrencyEnum::Desecrator(_, _) => match spec_side_cap(pv, s) {
                Err(e) => Err(InspectError::Data(e)),
                Ok(cap) => match spec_side_counts(pv, s.affixes@) {
                    Err(e) => Err(InspectError::Data(e)),
                    Ok((p, x)) => with_notes(
                        spec_roll(pv, s, AffixClassEnum::Desecrated, p < cap, x < cap, 0),
                        seq![SimNote::DesecratedWeightsUnpublished()],
                    ),
                },
            },
            CraftCurrencyEnum::Essence(id) => match pv.essence_def(id) {
                None => Err(InspectError::Data(CraftPathError::EssenceWithoutDefinition(id))),
                Some(d) => match crate::table::table_get(d.base_tier_table@, s.base_id) {
                    None => Err(InspectError::EssenceWithoutTable(id)),
                    Some(t) => spec_uniform(
                        pv,
                        t@,
                        OutcomeKind::Adds,
                        if t@.len() == 0 { 1 } else { t@.len() },
                        seq![SimNote::EssenceInfo(id, d.corrupt)],
                    ),
                },
            },
            CraftCurrencyEnum::OrbOfAnnulment() => if unfractured(s.affixes@).len() == 0 {
                Err(InspectError::NoRemovableMods())
            } else {
                spec_uniform(
                    pv,
                    spec_ids(unfractured(s.affixes@)),
                    OutcomeKind::Removes,
                    unfractured(s.affixes@).len(),
                    Seq::empty(),
                )
            },
            _ => Err(InspectError::Unsupported(c)),
        }
    }
}

/// An executable simulation agrees with its specification.
pub open spec fn simulation_matches(
    r: Result<ActionSimulation, InspectError>,
    spec: SimSpec,
    pv: ItemInfoProvider,
    c: CraftCurrencyEnum,
) -> bool {
    match (r, spec) {
        (Ok(sim), Ok((o, t, notes))) => {
            &&& outcome_views(sim.outcomes@) == o
            &&& sim.total_weight as nat == t
            &&& sim.notes@ == notes
            &&& sim.currency_name@ == spec_item_name(c, pv)
            &&& sim.risk == spec_risk_class(c)
        },
        (Err(e), Err(se)) => e == se,
        _ => false,
    }
}

/// Per-side cap of the item's base group.
fn side_cap(snapshot: &ItemSnapshot, provider: &ItemInfoProvider) -> (r: Result<u8, CraftPathError>)
    ensures
        match (r, spec_side_cap(*provider, *snapshot)) {
            (Ok(c), Ok(sc)) => c as nat == sc,
            (Err(e), Err(se)) => e == se,
            _ => false,
        },
{
    let group = provider.lookup_base_group(&snapshot.base_id)?;
    let def = provider.lookup_base_group_definition(&group)?;
    Ok(def.max_affix / 2)
}

/// Roll distribution for the additive orb families over the Base-class pool.
fn additive_roll(
    snapshot: &ItemSnapshot,
    currency: &CraftCurrencyEnum,
    provider: &ItemInfoProvider,
    prefix_open: bool,
    suffix_open: bool,
) -> (r: Result<(Vec<SimOutcome>, u64), InspectError>)
    requires
        provider.weights_fit(),
    ensures
        match (r, spec_additive(*provider, *snapshot, *currency, prefix_open, suffix_open)) {
            (Ok((v, t)), Ok((sv, st, notes))) => outcome_views(v@) == sv && t as nat == st && notes == Seq::<SimNote>::empty(),
            (Err(e), Err(se)) => e == se,
            _ => false,
        },
{
    if !prefix_open && !suffix_open {
        return Err(InspectError::NoOpenSlot());
    }
    roll_from_pool(
        snapshot,
        provider,
        AffixClassEnum::Base,
        prefix_open,
        suffix_open,
        min_starting_item_level(currency),
    )
}

/// Additive roll with the per-side cap of the base group (regal, exalted).
fn capped_additive_roll(
    snapshot: &ItemSnapshot,
    currency: &CraftCurrencyEnum,
    provider: &ItemInfoProvider,
) -> (r: Result<(Vec<SimOutcome>, u64), InspectError>)
    requires
        provider.weights_fit(),
        snapshot.affixes@.len() <= 255,
    ensures
        match (r, spec_capped_additive(*provider, *snapshot, *currency)) {
            (Ok((v, t)), Ok((sv, st, notes))) => outcome_views(v@) == sv && t as nat == st && notes == Seq::<SimNote>::empty(),
            (Err(e), Err(se)) => e == se,
            _ => false,
        },
{
    let cap = match side_cap(snapshot, provider) {
        Ok(c) => c,
        Err(e) => return Err(InspectError::Data(e)),
    };
    let (p, s) = match affix_side_counts(snapshot, provider) {
        Ok(c) => c,
        Err(e) => return Err(InspectError::Data(e)),
    };
    additive_roll(snapshot, currency, provider, p < cap, s < cap)
}

/// One outcome of weight 1 per listed affix (essence guarantees, annulment
/// removals).
fn uniform_from_ids(ids: &Vec<AffixId>, kind: OutcomeKind, provider: &ItemInfoProvider) -> (r: Result<Vec<SimOutcome>, CraftPathError>)
    ensures
        match r {
            Ok(v) => ids_defined(*provider, ids@) && outcome_views(v@) == uniform_outcomes(*provider, ids@, kind),
            Err(e) => !ids_defined(*provider, ids@) && e == first_undefined_error(*provider, ids@),
        },
{
    let mut out: Vec<SimOutcome> = Vec::new();
    let mut i: usize = 0;
    while i < ids.len()
        invariant
            i <= ids@.len(),
            out@.len() == i,
            ids_defined(*provider, ids@.subrange(0, i as int)),
            outcome_views(out@) == uniform_outcomes(*provider, ids@.subrange(0, i as int), kind),
        decreases ids.len() - i,
    {
        let def = match provider.lookup_affix_definition(&ids[i]) {
            Ok(d) => d,
            Err(e) => {
                proof {
                    lemma_first_undefined(*provider, ids@, i as int);
                }
                return Err(e);
            },
        };
        proof {
            lemma_defined_extend(*provider, ids@, i as int);
        }
        let o = SimOutcome {
            kind,
            affix: ids[i],
            description: def.description_template.clone(),
            location: def.affix_location,
            weight: 1,
            tiers: Vec::new(),
        };
        let ghost before = out@;
        let ghost ov = o@;
        assert(ov == uniform_outcomes(*provider, ids@.subrange(0, i + 1), kind)[i as int]);
        out.push(o);
        i += 1;
        proof {
            let u = uniform_outcomes(*provider, ids@.subrange(0, i as int), kind);
            let u0 = uniform_outcomes(*provider, ids@.subrange(0, i - 1), kind);
            assert(outcome_views(before) == u0);
            assert(before.len() == i - 1);
            assert(out@.len() == i);
            assert forall|j: int| 0 <= j < i implies #[trigger] outcome_views(out@)[j] == u[j] by {
                if j < i - 1 {
                    assert(out@[j] == before[j]);
                    assert(outcome_views(before)[j] == u0[j]);
                    assert(ids@.subrange(0, i as int)[j] == ids@.subrange(0, i - 1)[j]);
                } else {
                    assert(out@[j]@ == ov);
                }
            }
            assert(outcome_views(out@) =~= u);
        }
    }
    assert(ids@.subrange(0, i as int) =~= ids@);
    Ok(out)
}

/// Compute the one-step outcome distribution of applying `currency` to the
/// item once. Supported: the additive orb families (transmutation,
/// augmentation, regal, exalted), desecration, a concrete essence and the
/// orb of annulment; other currencies have compound outcomes and are
/// answered by a full route calculation instead.
pub fn simulate_action(
    snapshot: &ItemSnapshot,
    currency: &CraftCurrencyEnum,
    provider: &ItemInfoProvider,
) -> (r: Result<ActionSimulation, InspectError>)
    requires
        provider.weights_fit(),
        snapshot.affixes@.len() <= 255,
    ensures
        simulation_matches(r, spec_simulate(*provider, *snapshot, *currency), *provider, *currency),
{
    if snapshot.corrupted {
        return Err(InspectError::ItemCorrupted());
    }
    let mut notes: Vec<SimNote> = Vec::new();
    let (outcomes, total_weight): (Vec<SimOutcome>, u64) = match currency {
        CraftCurrencyEnum::OrbOfTransmutationNormal()
        | CraftCurrencyEnum::OrbOfTransmutationGreater()
        | CraftCurrencyEnum::OrbOfTransmutationPerfect() => {
            if snapshot.rarity != crate::types::ItemRarityEnum::Normal || snapshot.affixes.len() != 0 {
                return Err(InspectError::TransmutationNeedsNormal());
            }
            additive_roll(snapshot, currency, provider, true, true)?
        },
        CraftCurrencyEnum::OrbOfAugmentationNormal()
        | CraftCurrencyEnum::OrbOfAugmentationGreater()
        | CraftCurrencyEnum::OrbOfAugmentationPerfect() => {
            if snapshot.rarity != crate::types::ItemRarityEnum::Magic {
                return Err(InspectError::AugmentationNeedsMagic());
            }
            let (p, s) = match affix_side_counts(snapshot, provider) {
                Ok(c) => c,
                Err(e) => return Err(InspectError::Data(e)),
            };
            additive_roll(snapshot, currency, provider, p < 1, s < 1)?
        },
        CraftCurrencyEnum::RegalOrbNormal()
        | CraftCurrencyEnum::RegalOrbGreater()
        | CraftCurrencyEnum::RegalOrbPerfect() => {
            if snapshot.rarity != crate::types::ItemRarityEnum::Magic {
                return Err(InspectError::RegalNeedsMagic());
            }
            capped_additive_roll(snapshot, currency, provider)?
        },
        CraftCurrencyEnum::ExaltedOrbNormal()
        | CraftCurrencyEnum::ExaltedOrbGreater()
        | CraftCurrencyEnum::ExaltedOrbPerfect() => {
            if snapshot.rarity != crate::types::ItemRarityEnum::Rare {
                return Err(InspectError::ExaltedNeedsRare());
            }
            capped_additive_roll(snapshot, currency, provider)?
        },
        CraftCurrencyEnum::Desecrator(_, _) => {
            notes.push(SimNote::DesecratedWeightsUnpublished());
            let cap = match side_cap(snapshot, provider) {
                Ok(c) => c,
                Err(e) => return Err(InspectError::Data(e)),
            };
            let (p, s) = match affix_side_counts(snapshot, provider) {
                Ok(c) => c,
                Err(e) => return Err(InspectError::Data(e)),
            };
            roll_from_pool(
                snapshot,
                provider,
                AffixClassEnum::Desecrated,
                p < cap,
                s < cap,
                ItemLevel::from(0),
            )?
        },
        CraftCurrencyEnum::Essence(essence_id) => {
            let def = match provider.lookup_essence_definition(essence_id) {
                Ok(d) => d,
                Err(e) => return Err(InspectError::Data(e)),
            };
            notes.push(SimNote::EssenceInfo(*essence_id, def.corrupt));
            let table = match crate::table::table_find(&def.base_tier_table, &snapshot.base_id) {
                Some(j) => &def.base_tier_table[j].1,
                None => return Err(InspectError::EssenceWithoutTable(*essence_id)),
            };
            let n: u64 = if table.len() == 0 { 1 } else { table.len() as u64 };
            let outs = match uniform_from_ids(table, OutcomeKind::Adds, provider) {
                Ok(o) => o,
                Err(e) => return Err(InspectError::Data(e)),
            };
            (outs, n)
        },
        CraftCurrencyEnum::OrbOfAnnulment() => {
            let removable = unfractured_ids(&snapshot.affixes);
            if removable.len() == 0 {
                return Err(InspectError::NoRemovableMods());
            }
            let n = removable.len() as u64;
            let outs = match uniform_from_ids(&removable, OutcomeKind::Removes, provider) {
                Ok(o) => o,
                Err(e) => return Err(InspectError::Data(e)),
            };
            (outs, n)
        },
        _ => {
            return Err(InspectError::Unsupported(*currency));
        },
    };
    Ok(ActionSimulation {
        currency_name: currency.get_item_name(provider),
        risk: risk_class(currency),
        outcomes,
        total_weight,
        notes,
    })
}

/// Ids of the non-fractured affixes, in item order.
fn unfractured_ids(affixes: &Vec<AffixSpecifier>) -> (r: Vec<AffixId>)
    ensures
        r@ == spec_ids(unfractured(affixes@)),
        r@.len() == unfractured(affixes@).len(),
{
    let mut out: Vec<AffixId> = Vec::new();
    let mut i: usize = 0;
    while i < affixes.len()
        invariant
            i <= affixes@.len(),
            out@ == spec_ids(unfractured(affixes@.subrange(0, i as int))),
            out@.len() == unfractured(affixes@.subrange(0, i as int)).len(),
        decreases affixes.len() - i,
    {
        proof {
            assert(affixes@.subrange(0, i + 1).drop_last() =~= affixes@.subrange(0, i as int));
        }
        if !affixes[i].fractured {
            let ghost prev = unfractured(affixes@.subrange(0, i as int));
            out.push(affixes[i].affix);
            proof {
                assert(spec_ids(prev.push(affixes@[i as int])) =~= spec_ids(prev).push(affixes@[i as int].affix));
            }
        }
        i += 1;
    }
    assert(affixes@.subrange(0, i as int) =~= affixes@);
    out
}


// ---------------------------------------------------------------------------
// Legal actions
// ---------------------------------------------------------------------------

/// One currency that can legally be applied to an item right now.
#[derive(Clone, Debug)]
pub struct LegalAction {
    pub currency: CraftCurrencyEnum,
    pub currency_name: String,
    pub risk: CurrencyRiskClass,
    pub risk_description: String,
    pub reason: String,
}

pub struct LegalActionView {
    pub currency: CraftCurrencyEnum,
    pub currency_name: Seq<char>,
    pub risk: CurrencyRiskClass,
    pub risk_description: Seq<char>,
    pub reason: Seq<char>,
}

impl View for LegalAction {
    type V = LegalActionView;

    open spec fn view(&self) -> LegalActionView {
        LegalActionView {
            currency: self.currency,
            currency_name: self.currency_name@,
            risk: self.risk,
            risk_description: self.risk_description@,
            reason: self.reason@,
        }
    }
}

pub open spec fn action_view(c: CraftCurrencyEnum, reason: Seq<char>, pv: ItemInfoProvider) -> LegalActionView {
    LegalActionView {
        currency: c,
        currency_name: spec_item_name(c, pv),
        risk: spec_risk_class(c),
        risk_description: spec_risk_class(c).spec_description(),
        reason,
    }
}

/// The tiered orb can roll mods on the item (its mod level filter is at
/// most the item level).
pub open spec fn orb_usable(c: CraftCurrencyEnum, s: ItemSnapshot) -> bool {
    spec_min_starting_item_level(c) <= s.item_level.0
}

/// The usable members of a normal/greater/perfect orb family.
pub open spec fn family_actions(
    n: CraftCurrencyEnum,
    g: CraftCurrencyEnum,
    p: CraftCurrencyEnum,
    s: ItemSnapshot,
    reason: Seq<char>,
    pv: ItemInfoProvider,
) -> Seq<LegalActionView> {
    (if orb_usable(n, s) { seq![action_view(n, reason, pv)] } else { Seq::empty() })
        + (if orb_usable(g, s) { seq![action_view(g, reason, pv)] } else { Seq::empty() })
        + (if orb_usable(p, s) { seq![action_view(p, reason, pv)] } else { Seq::empty() })
}

pub open spec fn any_unfractured(s: Seq<AffixSpecifier>) -> bool {
    exists|i: int| 0 <= i < s.len() && !(#[trigger] s[i]).fractured
}

pub open spec fn all_unfractured(s: Seq<AffixSpecifier>) -> bool {
    forall|i: int| 0 <= i < s.len() ==> !(#[trigger] s[i]).fractured
}

/// The placeholder entry for "any perfect or alloy essence".
pub open spec fn any_essence_view() -> LegalActionView {
    LegalActionView {
        currency: CraftCurrencyEnum::Essence(crate::types::EssenceId(0)),
        currency_name: "Perfect/Alloy Essence (any)"@,
        risk: CurrencyRiskClass::RemovalRisk,
        risk_description: CurrencyRiskClass::RemovalRisk.spec_description(),
        reason: "Rare item: a Perfect/Alloy essence removes one mod and adds its guaranteed mod (pick a concrete essence)"@,
    }
}

/// The legal actions by rarity, before the socket and corruption entries.
pub open spec fn rarity_actions(
    pv: ItemInfoProvider,
    s: ItemSnapshot,
    gid: crate::types::BaseGroupId,
    g: crate::provider::BaseGroupDefinition,
    total: nat,
) -> Seq<LegalActionView> {
    match s.rarity {
        crate::types::ItemRarityEnum::Normal => if s.affixes@.len() == 0 {
            family_actions(
                CraftCurrencyEnum::OrbOfTransmutationNormal(),
                CraftCurrencyEnum::OrbOfTransmutationGreater(),
                CraftCurrencyEnum::OrbOfTransmutationPerfect(),
                s,
                "Normal item: upgrades to Magic with one mod"@,
                pv,
            )
        } else {
            Seq::empty()
        },
        crate::types::ItemRarityEnum::Magic => (if total < 2 {
            family_actions(
                CraftCurrencyEnum::OrbOfAugmentationNormal(),
                CraftCurrencyEnum::OrbOfAugmentationGreater(),
                CraftCurrencyEnum::OrbOfAugmentationPerfect(),
                s,
                "Magic item with an open mod slot: adds one mod"@,
                pv,
            )
        } else {
            Seq::empty()
        }) + (if g.is_rare {
            family_actions(
                CraftCurrencyEnum::RegalOrbNormal(),
                CraftCurrencyEnum::RegalOrbGreater(),
                CraftCurrencyEnum::RegalOrbPerfect(),
                s,
                "Magic item: upgrades to Rare and adds one mod"@,
                pv,
            )
        } else {
            Seq::empty()
        }),
        crate::types::ItemRarityEnum::Rare => (if total < g.max_affix {
            family_actions(
                CraftCurrencyEnum::ExaltedOrbNormal(),
                CraftCurrencyEnum::ExaltedOrbGreater(),
                CraftCurrencyEnum::ExaltedOrbPerfect(),
                s,
                "Rare item with an open affix slot: adds one mod (dextral/sinistral/homogenising omens steer the slot)"@,
                pv,
            ).push(
                action_view(
                    CraftCurrencyEnum::Desecrator(s.base_id, gid),
                    "Rare item: adds a desecrated mod from the abyssal pool"@,
                    pv,
                ),
            )
        } else {
            Seq::empty()
        }) + (if total >= 1 {
            family_actions(
                CraftCurrencyEnum::ChaosOrbNormal(),
                CraftCurrencyEnum::ChaosOrbGreater(),
                CraftCurrencyEnum::ChaosOrbPerfect(),
                s,
                "Rare item with mods: removes one mod and adds another"@,
                pv,
            ) + (if any_unfractured(s.affixes@) {
                seq![action_view(
                    CraftCurrencyEnum::OrbOfAnnulment(),
                    "Rare item with removable mods: removes one random non-fractured mod"@,
                    pv,
                )]
            } else {
                Seq::empty()
            }) + seq![any_essence_view()]
        } else {
            Seq::empty()
        }) + (if total == 4 && all_unfractured(s.affixes@) {
            seq![action_view(
                CraftCurrencyEnum::FracturingOrb(),
                "Rare item with exactly 4 unfractured mods: fractures one at random"@,
                pv,
            )]
        } else {
            Seq::empty()
        }),
        _ => Seq::empty(),
    }
}

/// All currencies legal on the item right now, in presentation order.
pub open spec fn spec_legal_actions(pv: ItemInfoProvider, s: ItemSnapshot) -> Result<Seq<LegalActionView>, CraftPathError> {
    if s.corrupted {
        Ok(Seq::empty())
    } else {
        match pv.base_group_of(s.base_id) {
            None => Err(CraftPathError::BaseItemWithoutBaseGroup(s.base_id)),
            Some(gid) => match pv.group_def(gid) {
                None => Err(CraftPathError::BaseGroupWithoutDefinition(gid)),
                Some(g) => match spec_side_counts(pv, s.affixes@) {
                    Err(e) => Err(e),
                    Ok((p, x)) => Ok(
                        rarity_actions(pv, s, gid, g, p + x) + (if s.allowed_sockets < g.max_sockets {
                            seq![action_view(
                                CraftCurrencyEnum::ArtificersOrb(),
                                "Item below its socket limit: adds a socket"@,
                                pv,
                            )]
                        } else {
                            Seq::empty()
                        }) + seq![action_view(
                            CraftCurrencyEnum::VaalOrb(),
                            "Uncorrupted item: corrupts with an unpredictable result"@,
                            pv,
                        )],
                    ),
                },
            },
        }
    }
}

pub open spec fn action_views(v: Seq<LegalAction>) -> Seq<LegalActionView> {
    v.map_values(|a: LegalAction| a@)
}

fn action(currency: CraftCurrencyEnum, reason: &str, provider: &ItemInfoProvider) -> (r: LegalAction)
    ensures
        r@ == action_view(currency, reason@, *provider),
{
    let risk = risk_class(&currency);
    LegalAction {
        currency_name: currency.get_item_name(provider),
        currency,
        risk,
        risk_description: String::from_str(risk.description()),
        reason: String::from_str(reason),
    }
}

/// Appends the usable members of a tiered orb family.
fn push_family(
    out: &mut Vec<LegalAction>,
    n: CraftCurrencyEnum,
    g: CraftCurrencyEnum,
    p: CraftCurrencyEnum,
    snapshot: &ItemSnapshot,
    reason: &str,
    provider: &ItemInfoProvider,
)
    ensures
        action_views(final(out)@) == action_views(old(out)@) + family_actions(n, g, p, *snapshot, reason@, *provider),
{
    let ghost start = action_views(out@);
    if min_starting_item_level(&n).0 <= snapshot.item_level.0 {
        push_action(out, action(n, reason, provider));
    }
    let ghost a1 = action_views(out@);
    if min_starting_item_level(&g).0 <= snapshot.item_level.0 {
        push_action(out, action(g, reason, provider));
    }
    let ghost a2 = action_views(out@);
    if min_starting_item_level(&p).0 <= snapshot.item_level.0 {
        push_action(out, action(p, reason, provider));
    }
    proof {
        let f = family_actions(n, g, p, *snapshot, reason@, *provider);
        assert(action_views(out@) =~= start + f);
    }
}

/// Appends one action.
fn push_action(out: &mut Vec<LegalAction>, a: LegalAction)
    ensures
        action_views(final(out)@) == action_views(old(out)@).push(a@),
{
    let ghost av = a@;
    out.push(a);
    assert(action_views(out@) =~= action_views(old(out)@).push(av));
}

/// Whether some affix is not fractured.
fn has_unfractured(affixes: &Vec<AffixSpecifier>) -> (r: bool)
    ensures
        r == any_unfractured(affixes@),
{
    let mut i: usize = 0;
    while i < affixes.len()
        invariant
            i <= affixes@.len(),
            forall|j: int| 0 <= j < i ==> (#[trigger] affixes@[j]).fractured,
        decreases affixes.len() - i,
    {
        if !affixes[i].fractured {
            return true;
        }
        i += 1;
    }
    false
}

/// Whether no affix is fractured.
fn none_fractured(affixes: &Vec<AffixSpecifier>) -> (r: bool)
    ensures
        r == all_unfractured(affixes@),
{
    let mut i: usize = 0;
    while i < affixes.len()
        invariant
            i <= affixes@.len(),
            forall|j: int| 0 <= j < i ==> !(#[trigger] affixes@[j]).fractured,
        decreases affixes.len() - i,
    {
        if affixes[i].fractured {
            return false;
        }
        i += 1;
    }
    true
}

/// List the currencies that can legally be applied to the item right now,
/// each with a risk class and a short reason. Simplified rule mirror of the
/// propagator preconditions; omens are folded into their base orb's entry.
pub fn legal_actions(snapshot: &ItemSnapshot, provider: &ItemInfoProvider) -> (r: Result<Vec<LegalAction>, CraftPathError>)
    requires
        snapshot.affixes@.len() <= 255,
    ensures
        match (r, spec_legal_actions(*provider, *snapshot)) {
            (Ok(v), Ok(sv)) => action_views(v@) == sv,
            (Err(e), Err(se)) => e == se,
            _ => false,
        },
{
    let mut out: Vec<LegalAction> = Vec::new();
    if snapshot.corrupted {
        assert(action_views(out@) =~= Seq::<LegalActionView>::empty());
        return Ok(out);
    }
    let base_group_id = provider.lookup_base_group(&snapshot.base_id)?;
    let base_group = provider.lookup_base_group_definition(&base_group_id)?;
    let (prefixes, suffixes) = affix_side_counts(snapshot, provider)?;
    proof {
        lemma_count_prefix_suffix_le(*provider, spec_ids(snapshot.affixes@));
    }
    let total: u8 = prefixes + suffixes;
    assert(action_views(out@) =~= Seq::<LegalActionView>::empty());
    match snapshot.rarity {
        crate::types::ItemRarityEnum::Normal => {
            if snapshot.affixes.len() == 0 {
                push_family(
                    &mut out,
                    CraftCurrencyEnum::OrbOfTransmutationNormal(),
                    CraftCurrencyEnum::OrbOfTransmutationGreater(),
                    CraftCurrencyEnum::OrbOfTransmutationPerfect(),
                    snapshot,
                    "Normal item: upgrades to Magic with one mod",
                    provider,
                );
            }
        },
        crate::types::ItemRarityEnum::Magic => {
            if total < 2 {
                push_family(
                    &mut out,
                    CraftCurrencyEnum::OrbOfAugmentationNormal(),
                    CraftCurrencyEnum::OrbOfAugmentationGreater(),
                    CraftCurrencyEnum::OrbOfAugmentationPerfect(),
                    snapshot,
                    "Magic item with an open mod slot: adds one mod",
                    provider,
                );
            }
            if base_group.is_rare {
                push_family(
                    &mut out,
                    CraftCurrencyEnum::RegalOrbNormal(),
                    CraftCurrencyEnum::RegalOrbGreater(),
                    CraftCurrencyEnum::RegalOrbPerfect(),
                    snapshot,
                    "Magic item: upgrades to Rare and adds one mod",
                    provider,
                );
            }
        },
        crate::types::ItemRarityEnum::Rare => {
            if total < base_group.max_affix {
                push_family(
                    &mut out,
                    CraftCurrencyEnum::ExaltedOrbNormal(),
                    CraftCurrencyEnum::ExaltedOrbGreater(),
                    CraftCurrencyEnum::ExaltedOrbPerfect(),
                    snapshot,
                    "Rare item with an open affix slot: adds one mod (dextral/sinistral/homogenising omens steer the slot)",
                    provider,
                );
                push_action(
                    &mut out,
                    action(
                        CraftCurrencyEnum::Desecrator(snapshot.base_id, base_group_id),
                        "Rare item: adds a desecrated mod from the abyssal pool",
                        provider,
                    ),
                );
            }
            let ghost after_exalt = action_views(out@);
            if total >= 1 {
                push_family(
                    &mut out,
                    CraftCurrencyEnum::ChaosOrbNormal(),
                    CraftCurrencyEnum::ChaosOrbGreater(),
                    CraftCurrencyEnum::ChaosOrbPerfect(),
                    snapshot,
                    "Rare item with mods: removes one mod and adds another",
                    provider,
                );
                let ghost after_chaos = action_views(out@);
                if has_unfractured(&snapshot.affixes) {
                    push_action(
                        &mut out,
                        action(
                            CraftCurrencyEnum::OrbOfAnnulment(),
                            "Rare item with removable mods: removes one random non-fractured mod",
                            provider,
                        ),
                    );
                }
                let ghost after_annul = action_views(out@);
                let essence = LegalAction {
                    currency: CraftCurrencyEnum::Essence(crate::types::EssenceId::from(0)),
                    currency_name: String::from_str("Perfect/Alloy Essence (any)"),
                    risk: CurrencyRiskClass::RemovalRisk,
                    risk_description: String::from_str(CurrencyRiskClass::RemovalRisk.description()),
                    reason: String::from_str(
                        "Rare item: a Perfect/Alloy essence removes one mod and adds its guaranteed mod (pick a concrete essence)",
                    ),
                };
                push_action(&mut out, essence);
                proof {
                    let annul = if any_unfractured(snapshot.affixes@) {
                        seq![action_view(
                            CraftCurrencyEnum::OrbOfAnnulment(),
                            "Rare item with removable mods: removes one random non-fractured mod"@,
                            *provider,
                        )]
                    } else {
                        Seq::empty()
                    };
                    assert(after_annul =~= after_chaos + annul);
                }
            }
            if total == 4 && none_fractured(&snapshot.affixes) {
                push_action(
                    &mut out,
                    action(
                        CraftCurrencyEnum::FracturingOrb(),
                        "Rare item with exactly 4 unfractured mods: fractures one at random",
                        provider,
                    ),
                );
            }
        },
        _ => {},
    }
    let ghost after_rarity = action_views(out@);
    assert(after_rarity =~= rarity_actions(*provider, *snapshot, base_group_id, *base_group, prefixes as nat + suffixes as nat));
    if snapshot.allowed_sockets < base_group.max_sockets {
        push_action(
            &mut out,
            action(CraftCurrencyEnum::ArtificersOrb(), "Item below its socket limit: adds a socket", provider),
        );
    }
    push_action(
        &mut out,
        action(CraftCurrencyEnum::VaalOrb(), "Uncorrupted item: corrupts with an unpredictable result", provider),
    );
    Ok(out)
}

// ---------------------------------------------------------------------------
// Laws
// ---------------------------------------------------------------------------

/// Every candidate of a pool roll adds an affix on an open side.
proof fn lemma_candidates_open(
    pv: ItemInfoProvider,
    p: Seq<(AffixId, TierTable)>,
    class: AffixClassEnum,
    prefix_open: bool,
    suffix_open: bool,
    blocked: Set<Seq<char>>,
    ilvl: u8,
    filter: u8,
)
    ensures
        forall|k: int| 0 <= k < pool_candidates(pv, p, class, prefix_open, suffix_open, blocked, ilvl, filter).len()
            ==> location_open(
                (#[trigger] pool_candidates(pv, p, class, prefix_open, suffix_open, blocked, ilvl, filter)[k]).location,
                prefix_open,
                suffix_open,
            ),
    decreases p.len(),
{
    if p.len() > 0 {
        lemma_candidates_open(pv, p.drop_last(), class, prefix_open, suffix_open, blocked, ilvl, filter);
    }
}

/// No affix of the list sits at `loc` when none is counted there.
proof fn lemma_count_location_zero(pv: ItemInfoProvider, ids: Seq<AffixId>, loc: AffixLocationEnum)
    requires
        count_location(pv, ids, loc) == 0,
    ensures
        forall|j: int| 0 <= j < ids.len() ==> ((#[trigger] pv.affix_def(ids[j])) matches Some(d) ==> d.affix_location != loc),
    decreases ids.len(),
{
    if ids.len() > 0 {
        lemma_count_location_zero(pv, ids.drop_last(), loc);
        assert forall|j: int| 0 <= j < ids.len() implies ((#[trigger] pv.affix_def(ids[j])) matches Some(d) ==> d.affix_location != loc) by {
            if j < ids.len() - 1 {
                assert(ids.drop_last()[j] == ids[j]);
            }
        }
    }
}

/// An Orb of Augmentation on a Magic item only rolls onto a side where the
/// item has no affix yet (a Magic item holds at most one prefix and one
/// suffix): every outcome is a prefix or a suffix, and no affix the item
/// carries sits on that side.
pub proof fn law_augmentation_fills_an_empty_side(pv: ItemInfoProvider, s: ItemSnapshot, c: CraftCurrencyEnum)
    requires
        c == CraftCurrencyEnum::OrbOfAugmentationNormal() || c == CraftCurrencyEnum::OrbOfAugmentationGreater()
            || c == CraftCurrencyEnum::OrbOfAugmentationPerfect(),
    ensures
        spec_simulate(pv, s, c) matches Ok((o, total, notes)) ==> {
            &&& s.rarity == crate::types::ItemRarityEnum::Magic
            &&& forall|k: int| 0 <= k < o.len() ==> {
                &&& (#[trigger] o[k]).location == AffixLocationEnum::Prefix || o[k].location == AffixLocationEnum::Suffix
                &&& forall|j: int| 0 <= j < s.affixes@.len() ==> ((#[trigger] pv.affix_def(s.affixes@[j].affix)) matches Some(d)
                    && d.affix_location != o[k].location)
            }
        },
{
    if let Ok((o, total, notes)) = spec_simulate(pv, s, c) {
        let ids = spec_ids(s.affixes@);
        let (p, x) = spec_side_counts(pv, s.affixes@)->Ok_0;
        assert(ids_defined(pv, ids));
        let pool = pv.base_pool(s.base_id)->Some_0;
        let cands = pool_candidates(pv, pool@, AffixClassEnum::Base, p < 1, x < 1,
            blocked_groups(pv, ids), s.item_level.0, spec_min_starting_item_level(c));
        assert(o == sort_desc(cands));
        lemma_candidates_open(pv, pool@, AffixClassEnum::Base, p < 1, x < 1,
            blocked_groups(pv, ids), s.item_level.0, spec_min_starting_item_level(c));
        lemma_sort_desc_props(cands);
        o.to_multiset_ensures();
        cands.to_multiset_ensures();
        assert forall|k: int| 0 <= k < o.len() implies {
            &&& (#[trigger] o[k]).location == AffixLocationEnum::Prefix || o[k].location == AffixLocationEnum::Suffix
            &&& forall|j: int| 0 <= j < s.affixes@.len() ==> ((#[trigger] pv.affix_def(s.affixes@[j].affix)) matches Some(d)
                && d.affix_location != o[k].location)
        } by {
            assert(o.contains(o[k]));
            assert(o.to_multiset().count(o[k]) > 0);
            assert(cands.to_multiset().count(o[k]) > 0);
            assert(cands.contains(o[k]));
            let m = choose|m: int| 0 <= m < cands.len() && cands[m] == o[k];
            assert(location_open(cands[m].location, p < 1, x < 1));
            if o[k].location == AffixLocationEnum::Prefix {
                lemma_count_location_zero(pv, ids, AffixLocationEnum::Prefix);
            } else {
                lemma_count_location_zero(pv, ids, AffixLocationEnum::Suffix);
            }
            assert forall|j: int| 0 <= j < s.affixes@.len() implies ((#[trigger] pv.affix_def(s.affixes@[j].affix)) matches Some(d)
                && d.affix_location != o[k].location) by {
                assert(ids[j] == s.affixes@[j].affix);
                assert(pv.affix_def(ids[j]) is Some);
            }
        }
    }
}

/// The currencies that add an affix into a free slot: the Exalted Orbs and
/// the Desecrator fill a Rare item's slots, the Orbs of Augmentation a
/// Magic item's.
pub open spec fn fills_rare_slot(c: CraftCurrencyEnum) -> bool {
    ||| c == CraftCurrencyEnum::ExaltedOrbNormal()
    ||| c == CraftCurrencyEnum::ExaltedOrbGreater()
    ||| c == CraftCurrencyEnum::ExaltedOrbPerfect()
    ||| c is Desecrator
}

pub open spec fn fills_magic_slot(c: CraftCurrencyEnum) -> bool {
    ||| c == CraftCurrencyEnum::OrbOfAugmentationNormal()
    ||| c == CraftCurrencyEnum::OrbOfAugmentationGreater()
    ||| c == CraftCurrencyEnum::OrbOfAugmentationPerfect()
}

/// No action of the list fills a Rare slot when `rare_full`, nor a Magic
/// slot when `magic_full`.
pub open spec fn no_filler(v: Seq<LegalActionView>, rare_full: bool, magic_full: bool) -> bool {
    forall|k: int| 0 <= k < v.len() ==> !(rare_full && fills_rare_slot((#[trigger] v[k]).currency))
        && !(magic_full && fills_magic_slot(v[k].currency))
}

proof fn lemma_no_filler_add(a: Seq<LegalActionView>, b: Seq<LegalActionView>, rf: bool, mf: bool)
    requires
        no_filler(a, rf, mf),
        no_filler(b, rf, mf),
    ensures
        no_filler(a + b, rf, mf),
{
    assert forall|k: int| 0 <= k < (a + b).len() implies !(rf && fills_rare_slot((#[trigger] (a + b)[k]).currency))
        && !(mf && fills_magic_slot((a + b)[k].currency)) by {
        if k < a.len() {
            assert((a + b)[k] == a[k]);
        } else {
            assert((a + b)[k] == b[k - a.len()]);
        }
    }
}

proof fn lemma_no_filler_family(
    n: CraftCurrencyEnum,
    g: CraftCurrencyEnum,
    p: CraftCurrencyEnum,
    s: ItemSnapshot,
    reason: Seq<char>,
    pv: ItemInfoProvider,
    rf: bool,
    mf: bool,
)
    requires
        !(rf && (fills_rare_slot(n) || fills_rare_slot(g) || fills_rare_slot(p))),
        !(mf && (fills_magic_slot(n) || fills_magic_slot(g) || fills_magic_slot(p))),
    ensures
        no_filler(family_actions(n, g, p, s, reason, pv), rf, mf),
{
    let a = if orb_usable(n, s) { seq![action_view(n, reason, pv)] } else { Seq::<LegalActionView>::empty() };
    let b = if orb_usable(g, s) { seq![action_view(g, reason, pv)] } else { Seq::<LegalActionView>::empty() };
    let c = if orb_usable(p, s) { seq![action_view(p, reason, pv)] } else { Seq::<LegalActionView>::empty() };
    lemma_no_filler_add(a, b, rf, mf);
    lemma_no_filler_add(a + b, c, rf, mf);
}

/// An additive action is legal only while a slot is open: once a Rare
/// item's prefixes and suffixes fill its base group's affix capacity no
/// legal action is an Exalted Orb or a Desecrator, and once a Magic item
/// holds two affixes none is an Orb of Augmentation.
pub proof fn law_full_items_get_no_additive_action(
    pv: ItemInfoProvider,
    s: ItemSnapshot,
    gid: crate::types::BaseGroupId,
    g: crate::provider::BaseGroupDefinition,
    p: nat,
    x: nat,
)
    requires
        pv.base_group_of(s.base_id) == Some(gid),
        pv.group_def(gid) == Some(g),
        spec_side_counts(pv, s.affixes@) == Ok::<(nat, nat), CraftPathError>((p, x)),
    ensures
        spec_legal_actions(pv, s) matches Ok(v) ==> no_filler(v, p + x >= g.max_affix, p + x >= 2),
{
    let rf = p + x >= g.max_affix;
    let mf = p + x >= 2;
    if !s.corrupted {
        let total = p + x;
        let e = Seq::<LegalActionView>::empty();
        let ra = rarity_actions(pv, s, gid, g, total);
        match s.rarity {
            crate::types::ItemRarityEnum::Normal => {
                lemma_no_filler_family(
                    CraftCurrencyEnum::OrbOfTransmutationNormal(),
                    CraftCurrencyEnum::OrbOfTransmutationGreater(),
                    CraftCurrencyEnum::OrbOfTransmutationPerfect(),
                    s, "Normal item: upgrades to Magic with one mod"@, pv, rf, mf);
            },
            crate::types::ItemRarityEnum::Magic => {
                let r1 = if total < 2 {
                    family_actions(
                        CraftCurrencyEnum::OrbOfAugmentationNormal(),
                        CraftCurrencyEnum::OrbOfAugmentationGreater(),
                        CraftCurrencyEnum::OrbOfAugmentationPerfect(),
                        s, "Magic item with an open mod slot: adds one mod"@, pv)
                } else { e };
                let r2 = if g.is_rare {
                    family_actions(
                        CraftCurrencyEnum::RegalOrbNormal(),
                        CraftCurrencyEnum::RegalOrbGreater(),
                        CraftCurrencyEnum::RegalOrbPerfect(),
                        s, "Magic item: upgrades to Rare and adds one mod"@, pv)
                } else { e };
                if total < 2 {
                    lemma_no_filler_family(
                        CraftCurrencyEnum::OrbOfAugmentationNormal(),
                        CraftCurrencyEnum::OrbOfAugmentationGreater(),
                        CraftCurrencyEnum::OrbOfAugmentationPerfect(),
                        s, "Magic item with an open mod slot: adds one mod"@, pv, rf, mf);
                }
                lemma_no_filler_family(
                    CraftCurrencyEnum::RegalOrbNormal(),
                    CraftCurrencyEnum::RegalOrbGreater(),
                    CraftCurrencyEnum::RegalOrbPerfect(),
                    s, "Magic item: upgrades to Rare and adds one mod"@, pv, rf, mf);
                lemma_no_filler_add(r1, r2, rf, mf);
                assert(ra == r1 + r2);
            },
            crate::types::ItemRarityEnum::Rare => {
                let r1 = if total < g.max_affix {
                    family_actions(
                        CraftCurrencyEnum::ExaltedOrbNormal(),
                        CraftCurrencyEnum::ExaltedOrbGreater(),
                        CraftCurrencyEnum::ExaltedOrbPerfect(),
                        s,
                        "Rare item with an open affix slot: adds one mod (dextral/sinistral/homogenising omens steer the slot)"@,
                        pv,
                    ).push(
                        action_view(
                            CraftCurrencyEnum::Desecrator(s.base_id, gid),
                            "Rare item: adds a desecrated mod from the abyssal pool"@,
                            pv,
                        ),
                    )
                } else { e };
                let chaos = family_actions(
                    CraftCurrencyEnum::ChaosOrbNormal(),
                    CraftCurrencyEnum::ChaosOrbGreater(),
                    CraftCurrencyEnum::ChaosOrbPerfect(),
                    s,
                    "Rare item with mods: removes one mod and adds another"@,
                    pv,
                );
                let annul = if any_unfractured(s.affixes@) {
                    seq![action_view(
                        CraftCurrencyEnum::OrbOfAnnulment(),
                        "Rare item with removable mods: removes one random non-fractured mod"@,
                        pv,
                    )]
                } else { e };
                let r2 = if total >= 1 { chaos + annul + seq![any_essence_view()] } else { e };
                let r3 = if total == 4 && all_unfractured(s.affixes@) {
                    seq![action_view(
                        CraftCurrencyEnum::FracturingOrb(),
                        "Rare item with exactly 4 unfractured mods: fractures one at random"@,
                        pv,
                    )]
                } else { e };
                assert(no_filler(r1, rf, mf));
                lemma_no_filler_family(
                    CraftCurrencyEnum::ChaosOrbNormal(),
                    CraftCurrencyEnum::ChaosOrbGreater(),
                    CraftCurrencyEnum::ChaosOrbPerfect(),
                    s, "Rare item with mods: removes one mod and adds another"@, pv, rf, mf);
                assert(no_filler(annul, rf, mf));
                assert(no_filler(seq![any_essence_view()], rf, mf));
                lemma_no_filler_add(chaos, annul, rf, mf);
                lemma_no_filler_add(chaos + annul, seq![any_essence_view()], rf, mf);
                assert(no_filler(r2, rf, mf));
                assert(no_filler(r3, rf, mf));
                lemma_no_filler_add(r1, r2, rf, mf);
                lemma_no_filler_add(r1 + r2, r3, rf, mf);
                assert(ra == r1 + r2 + r3);
            },
            _ => {},
        }
        assert(no_filler(ra, rf, mf));
        let art = if s.allowed_sockets < g.max_sockets {
            seq![action_view(CraftCurrencyEnum::ArtificersOrb(), "Item below its socket limit: adds a socket"@, pv)]
        } else { e };
        let vaal = seq![action_view(CraftCurrencyEnum::VaalOrb(), "Uncorrupted item: corrupts with an unpredictable result"@, pv)];
        assert(no_filler(art, rf, mf));
        assert(no_filler(vaal, rf, mf));
        lemma_no_filler_add(ra, art, rf, mf);
        lemma_no_filler_add(ra + art, vaal, rf, mf);
        assert(spec_legal_actions(pv, s) == Ok::<Seq<LegalActionView>, CraftPathError>(ra + art + vaal));
    }
}

/// An outcome of a weighted roll: it adds an affix of the rolled class with
/// a positive weight, on a side that is open, at the location its
/// definition gives.
pub open spec fn rolled_outcome(pv: ItemInfoProvider, o: OutcomeView, class: AffixClassEnum, prefix_open: bool, suffix_open: bool) -> bool {
    &&& o.kind == OutcomeKind::Adds
    &&& o.weight > 0
    &&& location_open(o.location, prefix_open, suffix_open)
    &&& pv.affix_def(o.affix) matches Some(d) && d.affix_class == class && d.affix_location == o.location
}

proof fn lemma_candidates_rolled(
    pv: ItemInfoProvider,
    p: Seq<(AffixId, TierTable)>,
    class: AffixClassEnum,
    prefix_open: bool,
    suffix_open: bool,
    blocked: Set<Seq<char>>,
    ilvl: u8,
    filter: u8,
)
    ensures
        forall|k: int| 0 <= k < pool_candidates(pv, p, class, prefix_open, suffix_open, blocked, ilvl, filter).len()
            ==> rolled_outcome(pv, #[trigger] pool_candidates(pv, p, class, prefix_open, suffix_open, blocked, ilvl, filter)[k],
                class, prefix_open, suffix_open),
    decreases p.len(),
{
    if p.len() > 0 {
        lemma_candidates_rolled(pv, p.drop_last(), class, prefix_open, suffix_open, blocked, ilvl, filter);
        let prev = pool_candidates(pv, p.drop_last(), class, prefix_open, suffix_open, blocked, ilvl, filter);
        let all = pool_candidates(pv, p, class, prefix_open, suffix_open, blocked, ilvl, filter);
        assert forall|k: int| 0 <= k < all.len() implies rolled_outcome(pv, #[trigger] all[k], class, prefix_open, suffix_open) by {
            if k < prev.len() {
                assert(all[k] == prev[k]);
            }
        }
    }
}

proof fn lemma_weight_ins_desc(u: Seq<OutcomeView>, x: OutcomeView)
    ensures
        outcomes_weight(ins_desc(u, x)) == outcomes_weight(u) + x.weight,
    decreases u.len(),
{
    if u.len() == 0 {
        assert(ins_desc(u, x) == seq![x]);
        assert(seq![x].drop_last() =~= Seq::<OutcomeView>::empty());
        assert(outcomes_weight(seq![x]) == outcomes_weight(Seq::<OutcomeView>::empty()) + x.weight);
    } else if u.last().sort_key() >= x.sort_key() {
        assert(ins_desc(u, x) == u.push(x));
        assert(u.push(x).drop_last() =~= u);
        assert(outcomes_weight(u.push(x)) == outcomes_weight(u) + x.weight);
    } else {
        let d = u.drop_last();
        lemma_weight_ins_desc(d, x);
        assert(ins_desc(u, x) == ins_desc(d, x).push(u.last()));
        assert(ins_desc(d, x).push(u.last()).drop_last() =~= ins_desc(d, x));
        assert(outcomes_weight(ins_desc(d, x).push(u.last())) == outcomes_weight(ins_desc(d, x)) + u.last().weight);
        assert(outcomes_weight(u) == outcomes_weight(d) + u.last().weight);
    }
}

proof fn lemma_weight_sort_desc(c: Seq<OutcomeView>)
    ensures
        outcomes_weight(sort_desc(c)) == outcomes_weight(c),
    decreases c.len(),
{
    if c.len() > 0 {
        lemma_weight_sort_desc(c.drop_last());
        lemma_weight_ins_desc(sort_desc(c.drop_last()), c.last());
    }
}

/// What a successful weighted roll gives: the outcomes' weights sum to the
/// total weight, which is positive, and every outcome is a rolled outcome.
proof fn lemma_roll_facts(pv: ItemInfoProvider, s: ItemSnapshot, class: AffixClassEnum, po: bool, so: bool, f: u8)
    ensures
        spec_roll(pv, s, class, po, so, f) matches Ok((o, t)) ==> {
            &&& t == outcomes_weight(o)
            &&& t > 0
            &&& forall|k: int| 0 <= k < o.len() ==> rolled_outcome(pv, #[trigger] o[k], class, po, so)
        },
{
    if let Ok((o, t)) = spec_roll(pv, s, class, po, so, f) {
        let pool = pv.base_pool(s.base_id)->Some_0;
        let cands = pool_candidates(pv, pool@, class, po, so, blocked_groups(pv, spec_ids(s.affixes@)), s.item_level.0, f);
        assert(o == sort_desc(cands));
        lemma_candidates_rolled(pv, pool@, class, po, so, blocked_groups(pv, spec_ids(s.affixes@)), s.item_level.0, f);
        lemma_weight_sort_desc(cands);
        lemma_sort_desc_props(cands);
        o.to_multiset_ensures();
        cands.to_multiset_ensures();
        assert forall|k: int| 0 <= k < o.len() implies rolled_outcome(pv, #[trigger] o[k], class, po, so) by {
            assert(o.contains(o[k]));
            assert(o.to_multiset().count(o[k]) > 0);
            assert(cands.to_multiset().count(o[k]) > 0);
            assert(cands.contains(o[k]));
            let m = choose|m: int| 0 <= m < cands.len() && cands[m] == o[k];
            assert(rolled_outcome(pv, cands[m], class, po, so));
        }
    }
}

/// The affix capacity of one side of the item: half its base group's.
pub open spec fn side_capacity(pv: ItemInfoProvider, s: ItemSnapshot) -> Option<nat> {
    match pv.base_group_of(s.base_id) {
        Some(gid) => match pv.group_def(gid) {
            Some(g) => Some((g.max_affix / 2) as nat),
            None => None,
        },
        None => None,
    }
}

/// The additive orbs and the Desecrator roll one new affix onto a side
/// that still has room: every outcome adds an affix of the rolled class
/// (desecrated for the Desecrator, base otherwise) with a positive weight,
/// the weights sum to the total, and the side the affix lands on holds
/// fewer affixes than the currency allows there: none for a Transmutation
/// (on a Normal item without affixes) or an Augmentation (on a Magic item),
/// fewer than half the base group's capacity for a Regal (on a Magic
/// item), an Exalted Orb (on a Rare item) or the Desecrator.
pub proof fn law_additive_rolls_fill_open_sides(pv: ItemInfoProvider, s: ItemSnapshot, c: CraftCurrencyEnum)
    ensures
        spec_simulate(pv, s, c) matches Ok((o, t, notes)) ==> ({
            let trans = c == CraftCurrencyEnum::OrbOfTransmutationNormal() || c == CraftCurrencyEnum::OrbOfTransmutationGreater()
                || c == CraftCurrencyEnum::OrbOfTransmutationPerfect();
            let aug = c == CraftCurrencyEnum::OrbOfAugmentationNormal() || c == CraftCurrencyEnum::OrbOfAugmentationGreater()
                || c == CraftCurrencyEnum::OrbOfAugmentationPerfect();
            let regal = c == CraftCurrencyEnum::RegalOrbNormal() || c == CraftCurrencyEnum::RegalOrbGreater()
                || c == CraftCurrencyEnum::RegalOrbPerfect();
            let exalt = c == CraftCurrencyEnum::ExaltedOrbNormal() || c == CraftCurrencyEnum::ExaltedOrbGreater()
                || c == CraftCurrencyEnum::ExaltedOrbPerfect();
            let class = if c is Desecrator { AffixClassEnum::Desecrated } else { AffixClassEnum::Base };
            (trans || aug || regal || exalt || c is Desecrator) ==> {
                &&& !s.corrupted
                &&& t == outcomes_weight(o)
                &&& t > 0
                &&& spec_side_counts(pv, s.affixes@) matches Ok((p, x))
                &&& (trans ==> s.rarity == crate::types::ItemRarityEnum::Normal && s.affixes@.len() == 0)
                &&& (aug || regal ==> s.rarity == crate::types::ItemRarityEnum::Magic)
                &&& (exalt ==> s.rarity == crate::types::ItemRarityEnum::Rare)
                &&& forall|k: int| 0 <= k < o.len() ==> {
                    &&& rolled_outcome(pv, #[trigger] o[k], class, true, true)
                    &&& aug ==> (o[k].location == AffixLocationEnum::Prefix ==> p == 0)
                        && (o[k].location == AffixLocationEnum::Suffix ==> x == 0)
                    &&& (regal || exalt || c is Desecrator) ==> (side_capacity(pv, s) matches Some(cap)
                        && (o[k].location == AffixLocationEnum::Prefix ==> p < cap)
                        && (o[k].location == AffixLocationEnum::Suffix ==> x < cap))
                }
            }
        }),
{
    if let Ok((o, t, notes)) = spec_simulate(pv, s, c) {
        let trans = c == CraftCurrencyEnum::OrbOfTransmutationNormal() || c == CraftCurrencyEnum::OrbOfTransmutationGreater()
            || c == CraftCurrencyEnum::OrbOfTransmutationPerfect();
        let aug = c == CraftCurrencyEnum::OrbOfAugmentationNormal() || c == CraftCurrencyEnum::OrbOfAugmentationGreater()
            || c == CraftCurrencyEnum::OrbOfAugmentationPerfect();
        let regal = c == CraftCurrencyEnum::RegalOrbNormal() || c == CraftCurrencyEnum::RegalOrbGreater()
            || c == CraftCurrencyEnum::RegalOrbPerfect();
        let exalt = c == CraftCurrencyEnum::ExaltedOrbNormal() || c == CraftCurrencyEnum::ExaltedOrbGreater()
            || c == CraftCurrencyEnum::ExaltedOrbPerfect();
        if trans {
            lemma_roll_facts(pv, s, AffixClassEnum::Base, true, true, spec_min_starting_item_level(c));
            assert(spec_side_counts(pv, s.affixes@) is Ok) by {
                assert(spec_ids(s.affixes@) =~= Seq::<AffixId>::empty());
            }
        } else if aug {
            let (p, x) = spec_side_counts(pv, s.affixes@)->Ok_0;
            lemma_roll_facts(pv, s, AffixClassEnum::Base, p < 1, x < 1, spec_min_starting_item_level(c));
        } else if regal || exalt {
            let (p, x) = spec_side_counts(pv, s.affixes@)->Ok_0;
            let cap = spec_side_cap(pv, s)->Ok_0;
            lemma_roll_facts(pv, s, AffixClassEnum::Base, p < cap, x < cap, spec_min_starting_item_level(c));
        } else if c is Desecrator {
            let (p, x) = spec_side_counts(pv, s.affixes@)->Ok_0;
            let cap = spec_side_cap(pv, s)->Ok_0;
            lemma_roll_facts(pv, s, AffixClassEnum::Desecrated, p < cap, x < cap, 0);
        }
    }
}

/// Why a currency may be listed as legal on an uncorrupted item whose base
/// group is `g` (id `gid`) and whose prefixes and suffixes number `total`:
/// each orb needs the rarity and the open slots it works on (and, for the
/// tiered orbs, an item level its tier can roll at), the Desecrator a Rare
/// item with an open slot (and names the item's base and group), chaos
/// orbs and the essence placeholder a Rare item with mods, annulment a
/// removable mod, fracturing exactly four unfractured mods, the
/// Artificer's Orb a free socket; the Vaal Orb is always legal.
pub open spec fn legal_reason(c: CraftCurrencyEnum, s: ItemSnapshot, gid: crate::types::BaseGroupId, g: crate::provider::BaseGroupDefinition, total: nat) -> bool {
    let normal = s.rarity == crate::types::ItemRarityEnum::Normal;
    let magic = s.rarity == crate::types::ItemRarityEnum::Magic;
    let rare = s.rarity == crate::types::ItemRarityEnum::Rare;
    match c {
        CraftCurrencyEnum::OrbOfTransmutationNormal()
        | CraftCurrencyEnum::OrbOfTransmutationGreater()
        | CraftCurrencyEnum::OrbOfTransmutationPerfect() => normal && s.affixes@.len() == 0 && orb_usable(c, s),
        CraftCurrencyEnum::OrbOfAugmentationNormal()
        | CraftCurrencyEnum::OrbOfAugmentationGreater()
        | CraftCurrencyEnum::OrbOfAugmentationPerfect() => magic && total < 2 && orb_usable(c, s),
        CraftCurrencyEnum::RegalOrbNormal()
        | CraftCurrencyEnum::RegalOrbGreater()
        | CraftCurrencyEnum::RegalOrbPerfect() => magic && g.is_rare && orb_usable(c, s),
        CraftCurrencyEnum::ExaltedOrbNormal()
        | CraftCurrencyEnum::ExaltedOrbGreater()
        | CraftCurrencyEnum::ExaltedOrbPerfect() => rare && total < g.max_affix && orb_usable(c, s),
        CraftCurrencyEnum::Desecrator(b, gg) => rare && total < g.max_affix && b == s.base_id && gg == gid,
        CraftCurrencyEnum::ChaosOrbNormal()
        | CraftCurrencyEnum::ChaosOrbGreater()
        | CraftCurrencyEnum::ChaosOrbPerfect() => rare && total >= 1 && orb_usable(c, s),
        CraftCurrencyEnum::OrbOfAnnulment() => rare && total >= 1 && any_unfractured(s.affixes@),
        CraftCurrencyEnum::Essence(_) => rare && total >= 1,
        CraftCurrencyEnum::FracturingOrb() => rare && total == 4 && all_unfractured(s.affixes@),
        CraftCurrencyEnum::ArtificersOrb() => s.allowed_sockets < g.max_sockets,
        CraftCurrencyEnum::VaalOrb() => true,
        _ => false,
    }
}

pub open spec fn all_legal(v: Seq<LegalActionView>, s: ItemSnapshot, gid: crate::types::BaseGroupId, g: crate::provider::BaseGroupDefinition, total: nat) -> bool {
    forall|k: int| 0 <= k < v.len() ==> legal_reason((#[trigger] v[k]).currency, s, gid, g, total)
}

proof fn lemma_all_legal_add(a: Seq<LegalActionView>, b: Seq<LegalActionView>, s: ItemSnapshot, gid: crate::types::BaseGroupId, g: crate::provider::BaseGroupDefinition, total: nat)
    requires
        all_legal(a, s, gid, g, total),
        all_legal(b, s, gid, g, total),
    ensures
        all_legal(a + b, s, gid, g, total),
{
    assert forall|k: int| 0 <= k < (a + b).len() implies legal_reason((#[trigger] (a + b)[k]).currency, s, gid, g, total) by {
        if k < a.len() {
            assert((a + b)[k] == a[k]);
        } else {
            assert((a + b)[k] == b[k - a.len()]);
        }
    }
}

proof fn lemma_all_legal_family(
    n: CraftCurrencyEnum,
    gr: CraftCurrencyEnum,
    p: CraftCurrencyEnum,
    s: ItemSnapshot,
    reason: Seq<char>,
    pv: ItemInfoProvider,
    gid: crate::types::BaseGroupId,
    g: crate::provider::BaseGroupDefinition,
    total: nat,
)
    requires
        orb_usable(n, s) ==> legal_reason(n, s, gid, g, total),
        orb_usable(gr, s) ==> legal_reason(gr, s, gid, g, total),
        orb_usable(p, s) ==> legal_reason(p, s, gid, g, total),
    ensures
        all_legal(family_actions(n, gr, p, s, reason, pv), s, gid, g, total),
{
    let a = if orb_usable(n, s) { seq![action_view(n, reason, pv)] } else { Seq::<LegalActionView>::empty() };
    let b = if orb_usable(gr, s) { seq![action_view(gr, reason, pv)] } else { Seq::<LegalActionView>::empty() };
    let c = if orb_usable(p, s) { seq![action_view(p, reason, pv)] } else { Seq::<LegalActionView>::empty() };
    lemma_all_legal_add(a, b, s, gid, g, total);
    lemma_all_legal_add(a + b, c, s, gid, g, total);
}

/// Every currency listed as legal on an item has its reason on that item
/// (see [`legal_reason`]); a corrupted item has no legal currency, and on
/// any other the Vaal Orb is listed, last.
pub proof fn law_legal_actions_have_their_reason(
    pv: ItemInfoProvider,
    s: ItemSnapshot,
    gid: crate::types::BaseGroupId,
    g: crate::provider::BaseGroupDefinition,
    p: nat,
    x: nat,
)
    requires
        pv.base_group_of(s.base_id) == Some(gid),
        pv.group_def(gid) == Some(g),
        spec_side_counts(pv, s.affixes@) == Ok::<(nat, nat), CraftPathError>((p, x)),
    ensures
        spec_legal_actions(pv, s) matches Ok(v) && (s.corrupted ==> v.len() == 0) && (!s.corrupted ==> {
            &&& all_legal(v, s, gid, g, p + x)
            &&& v.len() > 0 && v.last().currency == CraftCurrencyEnum::VaalOrb()
        }),
{
    let total = p + x;
    if !s.corrupted {
        let e = Seq::<LegalActionView>::empty();
        let ra = rarity_actions(pv, s, gid, g, total);
        match s.rarity {
            crate::types::ItemRarityEnum::Normal => {
                if s.affixes@.len() == 0 {
                    lemma_all_legal_family(
                        CraftCurrencyEnum::OrbOfTransmutationNormal(),
                        CraftCurrencyEnum::OrbOfTransmutationGreater(),
                        CraftCurrencyEnum::OrbOfTransmutationPerfect(),
                        s, "Normal item: upgrades to Magic with one mod"@, pv, gid, g, total);
                }
            },
            crate::types::ItemRarityEnum::Magic => {
                let r1 = if total < 2 {
                    family_actions(
                        CraftCurrencyEnum::OrbOfAugmentationNormal(),
                        CraftCurrencyEnum::OrbOfAugmentationGreater(),
                        CraftCurrencyEnum::OrbOfAugmentationPerfect(),
                        s, "Magic item with an open mod slot: adds one mod"@, pv)
                } else { e };
                let r2 = if g.is_rare {
                    family_actions(
                        CraftCurrencyEnum::RegalOrbNormal(),
                        CraftCurrencyEnum::RegalOrbGreater(),
                        CraftCurrencyEnum::RegalOrbPerfect(),
                        s, "Magic item: upgrades to Rare and adds one mod"@, pv)
                } else { e };
                if total < 2 {
                    lemma_all_legal_family(
                        CraftCurrencyEnum::OrbOfAugmentationNormal(),
                        CraftCurrencyEnum::OrbOfAugmentationGreater(),
                        CraftCurrencyEnum::OrbOfAugmentationPerfect(),
                        s, "Magic item with an open mod slot: adds one mod"@, pv, gid, g, total);
                }
                if g.is_rare {
                    lemma_all_legal_family(
                        CraftCurrencyEnum::RegalOrbNormal(),
                        CraftCurrencyEnum::RegalOrbGreater(),
                        CraftCurrencyEnum::RegalOrbPerfect(),
                        s, "Magic item: upgrades to Rare and adds one mod"@, pv, gid, g, total);
                }
                lemma_all_legal_add(r1, r2, s, gid, g, total);
                assert(ra == r1 + r2);
            },
            crate::types::ItemRarityEnum::Rare => {
                let fam = family_actions(
                    CraftCurrencyEnum::ExaltedOrbNormal(),
                    CraftCurrencyEnum::ExaltedOrbGreater(),
                    CraftCurrencyEnum::ExaltedOrbPerfect(),
                    s,
                    "Rare item with an open affix slot: adds one mod (dextral/sinistral/homogenising omens steer the slot)"@,
                    pv,
                );
                let des = action_view(
                    CraftCurrencyEnum::Desecrator(s.base_id, gid),
                    "Rare item: adds a desecrated mod from the abyssal pool"@,
                    pv,
                );
                let r1 = if total < g.max_affix { fam.push(des) } else { e };
                if total < g.max_affix {
                    lemma_all_legal_family(
                        CraftCurrencyEnum::ExaltedOrbNormal(),
                        CraftCurrencyEnum::ExaltedOrbGreater(),
                        CraftCurrencyEnum::ExaltedOrbPerfect(),
                        s,
                        "Rare item with an open affix slot: adds one mod (dextral/sinistral/homogenising omens steer the slot)"@,
                        pv, gid, g, total);
                    lemma_all_legal_add(fam, seq![des], s, gid, g, total);
                    assert(fam.push(des) == fam + seq![des]);
                }
                let chaos = family_actions(
                    CraftCurrencyEnum::ChaosOrbNormal(),
                    CraftCurrencyEnum::ChaosOrbGreater(),
                    CraftCurrencyEnum::ChaosOrbPerfect(),
                    s,
                    "Rare item with mods: removes one mod and adds another"@,
                    pv,
                );
                let annul = if any_unfractured(s.affixes@) {
                    seq![action_view(
                        CraftCurrencyEnum::OrbOfAnnulment(),
                        "Rare item with removable mods: removes one random non-fractured mod"@,
                        pv,
                    )]
                } else { e };
                let r2 = if total >= 1 { chaos + annul + seq![any_essence_view()] } else { e };
                let r3 = if total == 4 && all_unfractured(s.affixes@) {
                    seq![action_view(
                        CraftCurrencyEnum::FracturingOrb(),
                        "Rare item with exactly 4 unfractured mods: fractures one at random"@,
                        pv,
                    )]
                } else { e };
                if total >= 1 {
                    lemma_all_legal_family(
                        CraftCurrencyEnum::ChaosOrbNormal(),
                        CraftCurrencyEnum::ChaosOrbGreater(),
                        CraftCurrencyEnum::ChaosOrbPerfect(),
                        s, "Rare item with mods: removes one mod and adds another"@, pv, gid, g, total);
                    assert(all_legal(annul, s, gid, g, total));
                    assert(all_legal(seq![any_essence_view()], s, gid, g, total));
                    lemma_all_legal_add(chaos, annul, s, gid, g, total);
                    lemma_all_legal_add(chaos + annul, seq![any_essence_view()], s, gid, g, total);
                }
                assert(all_legal(r2, s, gid, g, total));
                assert(all_legal(r3, s, gid, g, total));
                assert(all_legal(r1, s, gid, g, total));
                lemma_all_legal_add(r1, r2, s, gid, g, total);
                lemma_all_legal_add(r1 + r2, r3, s, gid, g, total);
                assert(ra == r1 + r2 + r3);
            },
            _ => {},
        }
        assert(all_legal(ra, s, gid, g, total));
        let art = if s.allowed_sockets < g.max_sockets {
            seq![action_view(CraftCurrencyEnum::ArtificersOrb(), "Item below its socket limit: adds a socket"@, pv)]
        } else { e };
        let vaal = seq![action_view(CraftCurrencyEnum::VaalOrb(), "Uncorrupted item: corrupts with an unpredictable result"@, pv)];
        assert(all_legal(art, s, gid, g, total));
        assert(all_legal(vaal, s, gid, g, total));
        lemma_all_legal_add(ra, art, s, gid, g, total);
        lemma_all_legal_add(ra + art, vaal, s, gid, g, total);
        assert(spec_legal_actions(pv, s) == Ok::<Seq<LegalActionView>, CraftPathError>(ra + art + vaal));
        assert((ra + art + vaal).last() == vaal[0]);
    }
}

/// Some action of the list applies the currency.
pub open spec fn lists(v: Seq<LegalActionView>, c: CraftCurrencyEnum) -> bool {
    exists|k: int| 0 <= k < v.len() && (#[trigger] v[k]).currency == c
}

proof fn lemma_lists_add(a: Seq<LegalActionView>, b: Seq<LegalActionView>, c: CraftCurrencyEnum)
    ensures
        lists(a, c) || lists(b, c) ==> lists(a + b, c),
{
    if lists(a, c) {
        let k = choose|k: int| 0 <= k < a.len() && (#[trigger] a[k]).currency == c;
        assert((a + b)[k] == a[k]);
    } else if lists(b, c) {
        let k = choose|k: int| 0 <= k < b.len() && (#[trigger] b[k]).currency == c;
        assert((a + b)[k + a.len()] == b[k]);
    }
}

proof fn lemma_family_lists(
    n: CraftCurrencyEnum,
    gr: CraftCurrencyEnum,
    p: CraftCurrencyEnum,
    s: ItemSnapshot,
    reason: Seq<char>,
    pv: ItemInfoProvider,
    c: CraftCurrencyEnum,
)
    requires
        (c == n || c == gr || c == p) && orb_usable(c, s),
    ensures
        lists(family_actions(n, gr, p, s, reason, pv), c),
{
    let a = if orb_usable(n, s) { seq![action_view(n, reason, pv)] } else { Seq::<LegalActionView>::empty() };
    let b = if orb_usable(gr, s) { seq![action_view(gr, reason, pv)] } else { Seq::<LegalActionView>::empty() };
    let d = if orb_usable(p, s) { seq![action_view(p, reason, pv)] } else { Seq::<LegalActionView>::empty() };
    if c == n {
        assert(a[0].currency == c);
    } else if c == gr {
        assert(b[0].currency == c);
    } else {
        assert(d[0].currency == c);
    }
    lemma_lists_add(a, b, c);
    lemma_lists_add(a + b, d, c);
}

/// The list of legal currencies is complete: every currency that has its
/// reason on an uncorrupted item (see [`legal_reason`]) is listed, the
/// essences through the one "any essence" entry.
pub proof fn law_legal_actions_list_every_reasoned_currency(
    pv: ItemInfoProvider,
    s: ItemSnapshot,
    gid: crate::types::BaseGroupId,
    g: crate::provider::BaseGroupDefinition,
    p: nat,
    x: nat,
    c: CraftCurrencyEnum,
)
    requires
        pv.base_group_of(s.base_id) == Some(gid),
        pv.group_def(gid) == Some(g),
        spec_side_counts(pv, s.affixes@) == Ok::<(nat, nat), CraftPathError>((p, x)),
        !s.corrupted,
        legal_reason(c, s, gid, g, p + x),
        c is Essence ==> c == CraftCurrencyEnum::Essence(crate::types::EssenceId(0)),
    ensures
        spec_legal_actions(pv, s) matches Ok(v) && lists(v, c),
{
    let total = p + x;
    let e = Seq::<LegalActionView>::empty();
    let ra = rarity_actions(pv, s, gid, g, total);
    let art = if s.allowed_sockets < g.max_sockets {
        seq![action_view(CraftCurrencyEnum::ArtificersOrb(), "Item below its socket limit: adds a socket"@, pv)]
    } else { e };
    let vaal = seq![action_view(CraftCurrencyEnum::VaalOrb(), "Uncorrupted item: corrupts with an unpredictable result"@, pv)];
    assert(spec_legal_actions(pv, s) == Ok::<Seq<LegalActionView>, CraftPathError>(ra + art + vaal));
    if c == CraftCurrencyEnum::VaalOrb() {
        assert(vaal[0].currency == c);
    } else if c == CraftCurrencyEnum::ArtificersOrb() {
        assert(art[0].currency == c);
    } else {
        match s.rarity {
            crate::types::ItemRarityEnum::Normal => {
                lemma_family_lists(
                    CraftCurrencyEnum::OrbOfTransmutationNormal(),
                    CraftCurrencyEnum::OrbOfTransmutationGreater(),
                    CraftCurrencyEnum::OrbOfTransmutationPerfect(),
                    s, "Normal item: upgrades to Magic with one mod"@, pv, c);
            },
            crate::types::ItemRarityEnum::Magic => {
                let r1 = if total < 2 {
                    family_actions(
                        CraftCurrencyEnum::OrbOfAugmentationNormal(),
                        CraftCurrencyEnum::OrbOfAugmentationGreater(),
                        CraftCurrencyEnum::OrbOfAugmentationPerfect(),
                        s, "Magic item with an open mod slot: adds one mod"@, pv)
                } else { e };
                let r2 = if g.is_rare {
                    family_actions(
                        CraftCurrencyEnum::RegalOrbNormal(),
                        CraftCurrencyEnum::RegalOrbGreater(),
                        CraftCurrencyEnum::RegalOrbPerfect(),
                        s, "Magic item: upgrades to Rare and adds one mod"@, pv)
                } else { e };
                if c == CraftCurrencyEnum::OrbOfAugmentationNormal() || c == CraftCurrencyEnum::OrbOfAugmentationGreater()
                    || c == CraftCurrencyEnum::OrbOfAugmentationPerfect() {
                    lemma_family_lists(
                        CraftCurrencyEnum::OrbOfAugmentationNormal(),
                        CraftCurrencyEnum::OrbOfAugmentationGreater(),
                        CraftCurrencyEnum::OrbOfAugmentationPerfect(),
                        s, "Magic item with an open mod slot: adds one mod"@, pv, c);
                } else {
                    lemma_family_lists(
                        CraftCurrencyEnum::RegalOrbNormal(),
                        CraftCurrencyEnum::RegalOrbGreater(),
                        CraftCurrencyEnum::RegalOrbPerfect(),
                        s, "Magic item: upgrades to Rare and adds one mod"@, pv, c);
                }
                lemma_lists_add(r1, r2, c);
                assert(ra == r1 + r2);
            },
            crate::types::ItemRarityEnum::Rare => {
                let fam = family_actions(
                    CraftCurrencyEnum::ExaltedOrbNormal(),
                    CraftCurrencyEnum::ExaltedOrbGreater(),
                    CraftCurrencyEnum::ExaltedOrbPerfect(),
                    s,
                    "Rare item with an open affix slot: adds one mod (dextral/sinistral/homogenising omens steer the slot)"@,
                    pv,
                );
                let des = action_view(
                    CraftCurrencyEnum::Desecrator(s.base_id, gid),
                    "Rare item: adds a desecrated mod from the abyssal pool"@,
                    pv,
                );
                let r1 = if total < g.max_affix { fam.push(des) } else { e };
                let chaos = family_actions(
                    CraftCurrencyEnum::ChaosOrbNormal(),
                    CraftCurrencyEnum::ChaosOrbGreater(),
                    CraftCurrencyEnum::ChaosOrbPerfect(),
                    s,
                    "Rare item with mods: removes one mod and adds another"@,
                    pv,
                );
                let annul = if any_unfractured(s.affixes@) {
                    seq![action_view(
                        CraftCurrencyEnum::OrbOfAnnulment(),
                        "Rare item with removable mods: removes one random non-fractured mod"@,
                        pv,
                    )]
                } else { e };
                let r2 = if total >= 1 { chaos + annul + seq![any_essence_view()] } else { e };
                let r3 = if total == 4 && all_unfractured(s.affixes@) {
                    seq![action_view(
                        CraftCurrencyEnum::FracturingOrb(),
                        "Rare item with exactly 4 unfractured mods: fractures one at random"@,
                        pv,
                    )]
                } else { e };
                assert(ra == r1 + r2 + r3);
                if c == CraftCurrencyEnum::ExaltedOrbNormal() || c == CraftCurrencyEnum::ExaltedOrbGreater()
                    || c == CraftCurrencyEnum::ExaltedOrbPerfect() {
                    lemma_family_lists(
                        CraftCurrencyEnum::ExaltedOrbNormal(),
                        CraftCurrencyEnum::ExaltedOrbGreater(),
                        CraftCurrencyEnum::ExaltedOrbPerfect(),
                        s,
                        "Rare item with an open affix slot: adds one mod (dextral/sinistral/homogenising omens steer the slot)"@,
                        pv, c);
                    lemma_lists_add(fam, seq![des], c);
                    assert(fam.push(des) == fam + seq![des]);
                    lemma_lists_add(r1, r2, c);
                    lemma_lists_add(r1 + r2, r3, c);
                } else if c is Desecrator {
                    assert(seq![des][0].currency == c);
                    lemma_lists_add(fam, seq![des], c);
                    assert(fam.push(des) == fam + seq![des]);
                    lemma_lists_add(r1, r2, c);
                    lemma_lists_add(r1 + r2, r3, c);
                } else if c == CraftCurrencyEnum::FracturingOrb() {
                    assert(r3[0].currency == c);
                    lemma_lists_add(r1 + r2, r3, c);
                } else {
                    if c == CraftCurrencyEnum::OrbOfAnnulment() {
                        assert(annul[0].currency == c);
                    } else if c is Essence {
                        assert(seq![any_essence_view()][0].currency == c);
                    } else {
                        lemma_family_lists(
                            CraftCurrencyEnum::ChaosOrbNormal(),
                            CraftCurrencyEnum::ChaosOrbGreater(),
                            CraftCurrencyEnum::ChaosOrbPerfect(),
                            s, "Rare item with mods: removes one mod and adds another"@, pv, c);
                    }
                    lemma_lists_add(chaos, annul, c);
                    lemma_lists_add(chaos + annul, seq![any_essence_view()], c);
                    lemma_lists_add(r1, r2, c);
                    lemma_lists_add(r1 + r2, r3, c);
                }
            },
            _ => {},
        }
        lemma_lists_add(ra, art, c);
    }
    lemma_lists_add(ra, art, c);
    lemma_lists_add(ra + art, vaal, c);
}

proof fn lemma_unfractured(s: Seq<AffixSpecifier>)
    ensures
        forall|k: int| 0 <= k < unfractured(s).len() ==> exists|j: int| 0 <= j < s.len() && !s[j].fractured
            && #[trigger] unfractured(s)[k] == s[j],
        forall|j: int| 0 <= j < s.len() && !(#[trigger] s[j]).fractured ==> exists|k: int| 0 <= k < unfractured(s).len()
            && unfractured(s)[k] == s[j],
    decreases s.len(),
{
    if s.len() > 0 {
        let d = s.drop_last();
        lemma_unfractured(d);
        let u = unfractured(s);
        let ud = unfractured(d);
        assert forall|k: int| 0 <= k < u.len() implies exists|j: int| 0 <= j < s.len() && !s[j].fractured
            && #[trigger] u[k] == s[j] by {
            if k < ud.len() {
                assert(u[k] == ud[k]);
                let j = choose|j: int| 0 <= j < d.len() && !d[j].fractured && #[trigger] ud[k] == d[j];
                assert(s[j] == d[j]);
            } else {
                assert(u[k] == s[s.len() - 1]);
            }
        }
        assert forall|j: int| 0 <= j < s.len() && !(#[trigger] s[j]).fractured implies exists|k: int| 0 <= k < u.len()
            && u[k] == s[j] by {
            if j < d.len() {
                assert(d[j] == s[j]);
                assert(!(d[j]).fractured);
                let k = choose|k: int| 0 <= k < ud.len() && ud[k] == d[j];
                assert(u[k] == ud[k]);
            } else {
                assert(u[ud.len() as int] == s[j]);
            }
        }
    }
}

/// An Orb of Annulment removes one of the item's non-fractured affixes,
/// each equally likely: every outcome removes a non-fractured affix of the
/// item with weight 1, every non-fractured affix has an outcome, and the
/// total weight is the number of outcomes.
pub proof fn law_annulment_removes_an_unfractured_affix(pv: ItemInfoProvider, s: ItemSnapshot)
    ensures
        spec_simulate(pv, s, CraftCurrencyEnum::OrbOfAnnulment()) matches Ok((o, t, notes)) ==> {
            &&& t == o.len() && t > 0
            &&& forall|k: int| 0 <= k < o.len() ==> (#[trigger] o[k]).kind == OutcomeKind::Removes && o[k].weight == 1
                && exists|j: int| 0 <= j < s.affixes@.len() && !s.affixes@[j].fractured && s.affixes@[j].affix == o[k].affix
            &&& forall|j: int| 0 <= j < s.affixes@.len() && !(#[trigger] s.affixes@[j]).fractured
                ==> exists|k: int| 0 <= k < o.len() && o[k].affix == s.affixes@[j].affix
        },
{
    if let Ok((o, t, notes)) = spec_simulate(pv, s, CraftCurrencyEnum::OrbOfAnnulment()) {
        let u = unfractured(s.affixes@);
        lemma_unfractured(s.affixes@);
        let ids = spec_ids(u);
        assert(o == uniform_outcomes(pv, ids, OutcomeKind::Removes));
        assert forall|k: int| 0 <= k < o.len() implies (#[trigger] o[k]).kind == OutcomeKind::Removes && o[k].weight == 1
            && exists|j: int| 0 <= j < s.affixes@.len() && !s.affixes@[j].fractured && s.affixes@[j].affix == o[k].affix by {
            assert(o[k].affix == ids[k]);
            assert(ids[k] == u[k].affix);
            let j = choose|j: int| 0 <= j < s.affixes@.len() && !s.affixes@[j].fractured && #[trigger] u[k] == s.affixes@[j];
        }
        assert forall|j: int| 0 <= j < s.affixes@.len() && !(#[trigger] s.affixes@[j]).fractured
            implies exists|k: int| 0 <= k < o.len() && o[k].affix == s.affixes@[j].affix by {
            let k = choose|k: int| 0 <= k < u.len() && u[k] == s.affixes@[j];
            assert(o[k].affix == ids[k]);
        }
    }
}

/// A concrete essence adds one of the mods its table lists for the item's
/// base, each equally likely: every outcome adds a listed mod with weight
/// 1, every listed mod has an outcome, and the total weight is the number
/// of listed mods (1 for an empty table).
pub proof fn law_essence_adds_a_listed_mod(pv: ItemInfoProvider, s: ItemSnapshot, id: crate::types::EssenceId)
    ensures
        spec_simulate(pv, s, CraftCurrencyEnum::Essence(id)) matches Ok((o, t, notes)) ==> (
            pv.essence_def(id) matches Some(d) && crate::table::table_get(d.base_tier_table@, s.base_id) matches Some(tab) && {
            &&& o.len() == tab@.len()
            &&& t == if tab@.len() == 0 { 1 } else { tab@.len() }
            &&& forall|k: int| 0 <= k < o.len() ==> (#[trigger] o[k]).kind == OutcomeKind::Adds && o[k].weight == 1
                && o[k].affix == tab@[k]
        }),
{
}

} // verus!
