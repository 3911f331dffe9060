//! Vaal Orb corruption.
//!
//! Four uniform outcome branches: add a socket, add a corruption implicit,
//! partially reroll the mods, or no change. Exactly one branch fires per
//! corruption, so a target may ask for either one more socket or one
//! corrupted implicit, never both. On non-socketable bases (jewellery) the
//! socket branch acts as "no change" but the branch count stays four. The
//! Omen of Corruption removes the "no change" branch (one in three each).

use vstd::prelude::*;

use crate::builder::PropagatorKind;
use crate::builder::{set_insert, copy_currencies};
use crate::currency::CraftCurrencyEnum;
use crate::errors::CraftPathError;
use crate::item::{copy_specifiers, insert_specifier, ItemSnapshot, SnapshotView};
use crate::matrix::{branch_views, BranchView, MatrixBranch, MatrixItem, MatrixPropagator, PropagationTarget, StepOutcome, TargetView};
use crate::pool_filter::{acceptable_affix_weight, acceptable_weight, law_exact_bound_weighs_one_tier, tier_table_weight, tiers_weight};
use crate::provider::{pool_fits, AffixWeightTable, ItemInfoProvider, TierTable};
use crate::table::{has_key, is_first_key, table_get};
use crate::types::{AffixId, AffixLocationEnum, AffixSpecifier, AffixTierLevelBoundsEnum, BaseGroupId};

verus! {

/// How corruption treats a base group.
#[derive(Clone, Copy, Debug, PartialEq, Eq, Structural)]
pub enum VaalCategory {
    /// Weapons and armour: the socket branch adds a socket.
    SocketableEquipment,
    /// Everything else: the socket branch changes nothing.
    Ignore,
}

/// Body armours, boots, helmets, gloves, one- and two-handed weapons and
/// off-hands (base groups 2 to 8) take sockets.
pub open spec fn spec_classify(id: BaseGroupId) -> VaalCategory {
    if 2 <= id.0 <= 8 {
        VaalCategory::SocketableEquipment
    } else {
        VaalCategory::Ignore
    }
}

pub fn classify(id_bgroup: &BaseGroupId) -> (r: VaalCategory)
    ensures
        r == spec_classify(*id_bgroup),
{
    if 2 <= id_bgroup.0 && id_bgroup.0 <= 8 {
        VaalCategory::SocketableEquipment
    } else {
        VaalCategory::Ignore
    }
}

/// The target-approaching branch a corruption can take.
#[derive(Clone, Copy, Debug, PartialEq, Eq, Structural)]
pub enum VaalBranch {
    /// One more socket, weapons and armour only.
    AddSocket,
    /// One corruption implicit, weight-drawn from the base's pool.
    AddImplicit(AffixSpecifier),
}

/// A target affix is a missing implicit: a corrupted-location affix that
/// the item does not carry yet.
pub open spec fn is_missing_implicit(pv: ItemInfoProvider, snapshot: ItemSnapshot, t: AffixSpecifier) -> bool {
    &&& pv.affix_def(t.affix) matches Some(def)
    &&& def.affix_location == AffixLocationEnum::Corrupted
    &&& !snapshot.has_affix_id(t.affix)
}

/// The target's missing implicits, in target order.
pub open spec fn missing_implicits(pv: ItemInfoProvider, snapshot: ItemSnapshot, target: ItemSnapshot) -> Seq<AffixSpecifier> {
    target.affixes@.filter(|t: AffixSpecifier| is_missing_implicit(pv, snapshot, t))
}

/// Which branch (if any) brings the item to the target in one corruption.
pub open spec fn spec_wanted_branch(pv: ItemInfoProvider, snapshot: ItemSnapshot, target: ItemSnapshot) -> Result<Option<VaalBranch>, CraftPathError> {
    let wants_socket = target.allowed_sockets > snapshot.allowed_sockets;
    let missing = missing_implicits(pv, snapshot, target);
    if wants_socket && missing.len() > 0 {
        Ok(None)
    } else if missing.len() > 1 {
        Ok(None)
    } else if wants_socket {
        match pv.base_group_of(snapshot.base_id) {
            None => Err(CraftPathError::BaseItemWithoutBaseGroup(snapshot.base_id)),
            Some(g) => if spec_classify(g) != VaalCategory::SocketableEquipment {
                Ok(None)
            } else if target.allowed_sockets - snapshot.allowed_sockets != 1 {
                Ok(None)
            } else {
                Ok(Some(VaalBranch::AddSocket))
            },
        }
    } else if missing.len() == 1 {
        Ok(Some(VaalBranch::AddImplicit(missing[0])))
    } else {
        Ok(None)
    }
}

/// Sum of the tier weights of the pool's corrupted-location affixes.
pub open spec fn corrupted_weight(pv: ItemInfoProvider, pool: Seq<(AffixId, TierTable)>) -> nat
    decreases pool.len(),
{
    if pool.len() == 0 {
        0
    } else {
        corrupted_weight(pv, pool.drop_last()) + match pv.affix_def(pool.last().0) {
            Some(def) => if def.affix_location == AffixLocationEnum::Corrupted {
                tiers_weight(pool.last().1@)
            } else {
                0
            },
            None => 0,
        }
    }
}

/// The weight of the wanted implicit's acceptable tiers; zero unless the
/// wanted affix is a corrupted-location affix of the pool.
pub open spec fn wanted_implicit_weight(pv: ItemInfoProvider, pool: Seq<(AffixId, TierTable)>, wanted: AffixSpecifier) -> nat {
    match pv.affix_def(wanted.affix) {
        Some(def) => if def.affix_location == AffixLocationEnum::Corrupted {
            acceptable_weight(pool, wanted)
        } else {
            0
        },
        None => 0,
    }
}

/// For an exact tier target, the implicit branch's chance counts only the
/// wanted tier: its numerator is that tier's weight in the wanted affix's
/// tier table of the base pool (so the table has the tier).
pub proof fn law_exact_implicit_chance_counts_one_tier(pv: ItemInfoProvider, wanted: AffixSpecifier, snapshot: ItemSnapshot)
    requires
        wanted.tier.bounds == AffixTierLevelBoundsEnum::Exact,
    ensures
        spec_implicit_pick_chance(pv, wanted, snapshot) matches Ok(Some((a, t))) ==> {
            &&& pv.base_pool(snapshot.base_id) is Some
            &&& table_get(pv.base_pool(snapshot.base_id)->Some_0@, wanted.affix) matches Some(tiers)
                && has_key(tiers@, wanted.tier.tier)
                && forall|k: int| is_first_key(tiers@, wanted.tier.tier, k) ==> a == tiers@[k].1.weight.0
        },
{
    if let Ok(Some((a, t))) = spec_implicit_pick_chance(pv, wanted, snapshot) {
        let pool = pv.base_pool(snapshot.base_id)->Some_0;
        law_exact_bound_weighs_one_tier(pool@, wanted);
        assert(acceptable_weight(pool@, wanted) == a);
    }
}

/// Chance `(acceptable, total)` that the implicit branch yields the wanted
/// implicit: its acceptable weight over the weight of all corrupted mods
/// of the base; `None` when either is zero.
pub open spec fn spec_implicit_pick_chance(pv: ItemInfoProvider, wanted: AffixSpecifier, snapshot: ItemSnapshot) -> Result<Option<(u64, u64)>, CraftPathError> {
    match pv.base_pool(snapshot.base_id) {
        None => Err(CraftPathError::ItemWithoutAffixInformation(snapshot.base_id)),
        Some(pool) => {
            let total = corrupted_weight(pv, pool@);
            let acceptable = wanted_implicit_weight(pv, pool@, wanted);
            if total == 0 || acceptable == 0 {
                Ok(None)
            } else {
                Ok(Some((acceptable as u64, total as u64)))
            }
        },
    }
}

/// The affix is defined with the corrupted location.
pub open spec fn is_corrupted_affix(pv: ItemInfoProvider, id: AffixId) -> bool {
    pv.affix_def(id) matches Some(def) && def.affix_location == AffixLocationEnum::Corrupted
}

/// The pool holds a corrupted-location affix.
pub open spec fn has_corrupted_affix(pv: ItemInfoProvider, pool: Seq<(AffixId, TierTable)>) -> bool {
    exists|i: int| 0 <= i < pool.len() && #[trigger] is_corrupted_affix(pv, pool[i].0)
}

/// Corruption can still make progress: the item is not corrupted yet, and
/// either the base takes sockets (within its socket limit) or its pool has
/// a corruption implicit to gain.
pub open spec fn spec_is_applicable(pv: ItemInfoProvider, snapshot: ItemSnapshot) -> bool {
    &&& !snapshot.corrupted
    &&& pv.base_group_of(snapshot.base_id) matches Some(g)
    &&& pv.group_def(g) matches Some(gd)
    &&& {
        ||| (spec_classify(g) == VaalCategory::SocketableEquipment && gd.max_sockets >= snapshot.allowed_sockets)
        ||| (pv.base_pool(snapshot.base_id) matches Some(pool) && has_corrupted_affix(pv, pool@))
    }
}

/// One propagation branch of the Vaal Orb: the currencies applied, the
/// chance `chance_num / chance_den` and the resulting item.
#[derive(Clone, Debug)]
pub struct VaalOutcome {
    pub currencies: Vec<CraftCurrencyEnum>,
    pub chance_num: u128,
    pub chance_den: u128,
    pub next: ItemSnapshot,
}

/// Mathematical value of a [`VaalOutcome`].
pub struct VaalOutcomeView {
    pub currencies: Seq<CraftCurrencyEnum>,
    pub chance_num: u128,
    pub chance_den: u128,
    pub next: SnapshotView,
}

impl View for VaalOutcome {
    type V = VaalOutcomeView;

    open spec fn view(&self) -> VaalOutcomeView {
        VaalOutcomeView {
            currencies: self.currencies@,
            chance_num: self.chance_num,
            chance_den: self.chance_den,
            next: self.next@,
        }
    }
}

pub open spec fn vaal_views(s: Seq<VaalOutcome>) -> Seq<VaalOutcomeView> {
    s.map_values(|o: VaalOutcome| o@)
}

/// The corrupted item a branch leads to.
pub open spec fn branch_result(snapshot: ItemSnapshot, branch: VaalBranch) -> SnapshotView {
    match branch {
        VaalBranch::AddSocket => SnapshotView { allowed_sockets: (snapshot.allowed_sockets + 1) as u8, corrupted: true, ..snapshot@ },
        VaalBranch::AddImplicit(w) => SnapshotView {
            affixes: if snapshot.affixes@.contains(w) { snapshot.affixes@ } else { snapshot.affixes@.push(w) },
            corrupted: true,
            ..snapshot@
        },
    }
}

/// The two propagation branches: with the Omen of Corruption (one in three)
/// and without (one in four), each times the branch's own success chance
/// `num / den`.
pub open spec fn vaal_outcomes(next: SnapshotView, num: u128, den: u128) -> Seq<VaalOutcomeView> {
    seq![
        VaalOutcomeView {
            currencies: seq![CraftCurrencyEnum::VaalOrb(), CraftCurrencyEnum::OmenOfCorruption()],
            chance_num: num,
            chance_den: (3 * den) as u128,
            next,
        },
        VaalOutcomeView { currencies: seq![CraftCurrencyEnum::VaalOrb()], chance_num: num, chance_den: (4 * den) as u128, next },
    ]
}

/// What one propagation step of the Vaal Orb yields for an item at
/// `proximity` from the target (corruption is terminal, so only at
/// proximity 1).
pub open spec fn spec_propagate(
    pv: ItemInfoProvider,
    snapshot: ItemSnapshot,
    target: ItemSnapshot,
    proximity: u64,
) -> Result<Seq<VaalOutcomeView>, CraftPathError> {
    if proximity != 1 {
        Ok(Seq::empty())
    } else {
        match spec_wanted_branch(pv, snapshot, target) {
            Err(e) => Err(e),
            Ok(None) => Ok(Seq::empty()),
            Ok(Some(VaalBranch::AddSocket)) => Ok(vaal_outcomes(branch_result(snapshot, VaalBranch::AddSocket), 1, 1)),
            Ok(Some(VaalBranch::AddImplicit(w))) => match spec_implicit_pick_chance(pv, w, snapshot) {
                Err(e) => Err(e),
                Ok(None) => Ok(Seq::empty()),
                Ok(Some((a, t))) => Ok(vaal_outcomes(branch_result(snapshot, VaalBranch::AddImplicit(w)), a as u128, t as u128)),
            },
        }
    }
}

/// The Vaal Orb only acts on an item one step from the target, in two
/// branches that differ only by the Omen of Corruption: both lead to the
/// same corrupted item with the same chance numerator, and the
/// omen raises the chance from a quarter to a third (the plain branch's
/// denominator is four thirds of the omen branch's).
pub proof fn law_vaal_branches_differ_by_the_omen(pv: ItemInfoProvider, snapshot: ItemSnapshot, target: ItemSnapshot, proximity: u64)
    ensures
        spec_propagate(pv, snapshot, target, proximity) matches Ok(v) ==> {
            &&& proximity != 1 ==> v.len() == 0
            &&& v.len() > 0 ==> {
                &&& v.len() == 2
                &&& v[0].currencies == seq![CraftCurrencyEnum::VaalOrb(), CraftCurrencyEnum::OmenOfCorruption()]
                &&& v[1].currencies == seq![CraftCurrencyEnum::VaalOrb()]
                &&& v[0].chance_num == v[1].chance_num
                &&& 4 * v[0].chance_den == 3 * v[1].chance_den
                &&& v[0].next == v[1].next && v[0].next.corrupted
            }
        },
{
    if proximity == 1 {
        match spec_wanted_branch(pv, snapshot, target) {
            Ok(Some(VaalBranch::AddSocket)) => {
                let v = vaal_outcomes(branch_result(snapshot, VaalBranch::AddSocket), 1, 1);
                assert(v[0].chance_den == 3 && v[1].chance_den == 4);
            },
            Ok(Some(VaalBranch::AddImplicit(w))) => {
                if let Ok(Some((a, t))) = spec_implicit_pick_chance(pv, w, snapshot) {
                    let v = vaal_outcomes(branch_result(snapshot, VaalBranch::AddImplicit(w)), a as u128, t as u128);
                    assert(v[0].chance_den == 3 * t && v[1].chance_den == 4 * t);
                }
            },
            _ => {},
        }
    }
}

/// Whether the item carries an affix with this id.
fn has_affix_id_exec(snapshot: &ItemSnapshot, id: AffixId) -> (r: bool)
    ensures
        r == snapshot.has_affix_id(id),
{
    crate::item::contains_affix_id(&snapshot.affixes, id)
}

/// The propagator of the Vaal Orb.
#[derive(Clone, Copy, Debug)]
pub struct VaalOrbPropagator;

impl VaalOrbPropagator {
    /// Which target-approaching branch (if any) this corruption can take.
    pub fn wanted_branch(snapshot: &ItemSnapshot, target: &ItemSnapshot, provider: &ItemInfoProvider) -> (r: Result<Option<VaalBranch>, CraftPathError>)
        ensures
            r == spec_wanted_branch(*provider, *snapshot, *target),
    {
        let wants_socket = target.allowed_sockets > snapshot.allowed_sockets;
        let ghost pred = |t: AffixSpecifier| is_missing_implicit(*provider, *snapshot, t);
        let mut missing: Vec<AffixSpecifier> = Vec::new();
        let mut i: usize = 0;
        while i < target.affixes.len()
            invariant
                i <= target.affixes@.len(),
                pred == (|t: AffixSpecifier| is_missing_implicit(*provider, *snapshot, t)),
                missing@ == target.affixes@.take(i as int).filter(pred),
            decreases target.affixes.len() - i,
        {
            let t = target.affixes[i];
            let is_implicit = match provider.lookup_affix_definition(&t.affix) {
                Ok(def) => def.affix_location == AffixLocationEnum::Corrupted,
                Err(_) => false,
            };
            let keep = is_implicit && !has_affix_id_exec(snapshot, t.affix);
            proof {
                assert(target.affixes@.take(i + 1) =~= target.affixes@.take(i as int).push(t));
                target.affixes@.take(i as int).lemma_filter_push(t, pred);
            }
            if keep {
                missing.push(t);
            }
            i += 1;
        }
        assert(target.affixes@.take(target.affixes@.len() as int) =~= target.affixes@);
        if wants_socket && missing.len() > 0 {
            return Ok(None);
        }
        if missing.len() > 1 {
            return Ok(None);
        }
        if wants_socket {
            let group = provider.lookup_base_group(&snapshot.base_id)?;
            if classify(&group) != VaalCategory::SocketableEquipment {
                return Ok(None);
            }
            if target.allowed_sockets - snapshot.allowed_sockets != 1 {
                return Ok(None);
            }
            return Ok(Some(VaalBranch::AddSocket));
        }
        if missing.len() == 1 {
            return Ok(Some(VaalBranch::AddImplicit(missing[0])));
        }
        Ok(None)
    }

    /// Chance `(acceptable, total)` that the implicit branch yields the
    /// wanted implicit: the wanted implicit's acceptable tier weight over
    /// the weight of all corrupted mods of the base.
    pub fn implicit_pick_chance(wanted: &AffixSpecifier, snapshot: &ItemSnapshot, provider: &ItemInfoProvider) -> (r: Result<Option<(u64, u64)>, CraftPathError>)
        requires
            provider.weights_fit(),
        ensures
            r == spec_implicit_pick_chance(*provider, *wanted, *snapshot),
    {
        let pool = provider.lookup_base_item_mods(&snapshot.base_id)?;
        proof {
            provider.lemma_base_pool_fits(snapshot.base_id);
        }
        let mut total: u64 = 0;
        let mut i: usize = 0;
        while i < pool.len()
            invariant
                i <= pool@.len(),
                pool_fits(pool@),
                total == corrupted_weight(*provider, pool@.take(i as int)),
                total <= i * (u32::MAX as nat),
            decreases pool.len() - i,
        {
            assert(pool@.take(i + 1).drop_last() =~= pool@.take(i as int));
            let counted = match provider.lookup_affix_definition(&pool[i].0) {
                Ok(def) => def.affix_location == AffixLocationEnum::Corrupted,
                Err(_) => false,
            };
            if counted {
                assert(tiers_weight(pool@[i as int].1@) <= u32::MAX);
                let w = tier_table_weight(&pool[i].1);
                total = total + w as u64;
            }
            i += 1;
        }
        assert(pool@.take(pool@.len() as int) =~= pool@);
        let acceptable: u64 = match provider.lookup_affix_definition(&wanted.affix) {
            Ok(def) => if def.affix_location == AffixLocationEnum::Corrupted {
                match acceptable_affix_weight(pool, wanted) {
                    Some(w) => w as u64,
                    None => 0,
                }
            } else {
                0
            },
            Err(_) => 0,
        };
        if total == 0 || acceptable == 0 {
            return Ok(None);
        }
        Ok(Some((acceptable, total)))
    }

    /// One propagation step from an item at `proximity` from the target.
    pub fn propagate_step(&self, snapshot: &ItemSnapshot, target: &ItemSnapshot, provider: &ItemInfoProvider, proximity: u64) -> (r: Result<Vec<VaalOutcome>, CraftPathError>)
        requires
            provider.weights_fit(),
        ensures
            match r {
                Ok(v) => spec_propagate(*provider, *snapshot, *target, proximity) == Ok::<Seq<VaalOutcomeView>, CraftPathError>(vaal_views(v@)),
                Err(e) => spec_propagate(*provider, *snapshot, *target, proximity) == Err::<Seq<VaalOutcomeView>, CraftPathError>(e),
            },
    {
        let empty: Vec<VaalOutcome> = Vec::new();
        assert(vaal_views(empty@) =~= Seq::<VaalOutcomeView>::empty());
        if proximity != 1 {
            return Ok(empty);
        }
        let branch = match Self::wanted_branch(snapshot, target, provider)? {
            Some(b) => b,
            None => return Ok(empty),
        };
        let (next, num, den): (ItemSnapshot, u128, u128) = match branch {
            VaalBranch::AddSocket => {
                let next = ItemSnapshot {
                    item_level: snapshot.item_level,
                    rarity: snapshot.rarity,
                    base_id: snapshot.base_id,
                    affixes: copy_specifiers(&snapshot.affixes),
                    corrupted: true,
                    allowed_sockets: snapshot.allowed_sockets + 1,
                    sockets: copy_specifiers(&snapshot.sockets),
                };
                (next, 1, 1)
            },
            VaalBranch::AddImplicit(w) => {
                let (a, t) = match Self::implicit_pick_chance(&w, snapshot, provider)? {
                    Some(c) => c,
                    None => return Ok(empty),
                };
                let mut affixes = copy_specifiers(&snapshot.affixes);
                insert_specifier(&mut affixes, w);
                let next = ItemSnapshot {
                    item_level: snapshot.item_level,
                    rarity: snapshot.rarity,
                    base_id: snapshot.base_id,
                    affixes,
                    corrupted: true,
                    allowed_sockets: snapshot.allowed_sockets,
                    sockets: copy_specifiers(&snapshot.sockets),
                };
                (next, a as u128, t as u128)
            },
        };
        let with_omen = VaalOutcome {
            currencies: vec![CraftCurrencyEnum::VaalOrb(), CraftCurrencyEnum::OmenOfCorruption()],
            chance_num: num,
            chance_den: 3 * den,
            next: next.duplicate(),
        };
        let plain = VaalOutcome {
            currencies: vec![CraftCurrencyEnum::VaalOrb()],
            chance_num: num,
            chance_den: 4 * den,
            next,
        };
        assert(with_omen.currencies@ =~= seq![CraftCurrencyEnum::VaalOrb(), CraftCurrencyEnum::OmenOfCorruption()]);
        assert(plain.currencies@ =~= seq![CraftCurrencyEnum::VaalOrb()]);
        let ghost nv = plain.next@;
        let out = vec![with_omen, plain];
        assert(vaal_views(out@)[0] == vaal_outcomes(nv, num, den)[0]);
        assert(vaal_views(out@)[1] == vaal_outcomes(nv, num, den)[1]);
        assert(vaal_views(out@) =~= vaal_outcomes(nv, num, den));
        Ok(out)
    }

    /// Whether corruption can still make progress on the item.
    pub fn is_applicable(&self, snapshot: &ItemSnapshot, provider: &ItemInfoProvider) -> (r: bool)
        ensures
            r == spec_is_applicable(*provider, *snapshot),
    {
        if snapshot.corrupted {
            return false;
        }
        let group = match provider.lookup_base_group(&snapshot.base_id) {
            Ok(g) => g,
            Err(_) => return false,
        };
        let group_def = match provider.lookup_base_group_definition(&group) {
            Ok(d) => d,
            Err(_) => return false,
        };
        let socket_possible = classify(&group) == VaalCategory::SocketableEquipment
            && group_def.max_sockets >= snapshot.allowed_sockets;
        let implicit_possible = match provider.lookup_base_item_mods(&snapshot.base_id) {
            Ok(pool) => {
                let mut found = false;
                let mut i: usize = 0;
                while i < pool.len()
                    invariant_except_break
                        !found,
                    invariant
                        i <= pool@.len(),
                        forall|k: int| 0 <= k < i ==> !#[trigger] is_corrupted_affix(*provider, pool@[k].0),
                    ensures
                        found == has_corrupted_affix(*provider, pool@),
                    decreases pool.len() - i,
                {
                    let hit = match provider.lookup_affix_definition(&pool[i].0) {
                        Ok(def) => def.affix_location == AffixLocationEnum::Corrupted,
                        Err(_) => false,
                    };
                    if hit {
                        assert(is_corrupted_affix(*provider, pool@[i as int].0));
                        found = true;
                        break;
                    }
                    i += 1;
                }
                found
            },
            Err(_) => false,
        };
        socket_possible || implicit_possible
    }
}


/// A Vaal outcome as a matrix branch: its currencies and its one result.
pub open spec fn outcome_branch(o: VaalOutcomeView) -> BranchView {
    (o.currencies, seq![TargetView { next: o.next, chance: (o.chance_num, o.chance_den), essence_only: false }])
}

/// The matrix branches of Vaal outcomes.
pub open spec fn outcome_branches(v: Seq<VaalOutcomeView>) -> Seq<BranchView> {
    v.map_values(|o: VaalOutcomeView| outcome_branch(o))
}

impl MatrixPropagator for VaalOrbPropagator {
    open spec fn kind(&self) -> PropagatorKind {
        PropagatorKind::VaalOrb
    }

    open spec fn applicable(&self, item: MatrixItem, info: ItemInfoProvider) -> bool {
        spec_is_applicable(info, item.snapshot)
    }

    open spec fn step(&self, item: MatrixItem, target: ItemSnapshot, info: ItemInfoProvider) -> StepOutcome {
        match spec_propagate(info, item.snapshot, target, item.proximity) {
            Ok(v) => Ok(outcome_branches(v)),
            Err(e) => Err(e),
        }
    }

    fn is_applicable(&self, item: &MatrixItem, info: &ItemInfoProvider) -> (r: bool) {
        VaalOrbPropagator::is_applicable(self, &item.snapshot, info)
    }

    fn propagate_step(&self, item: &MatrixItem, target: &ItemSnapshot, info: &ItemInfoProvider) -> (r: Result<Vec<MatrixBranch>, CraftPathError>) {
        let mut outcomes = match VaalOrbPropagator::propagate_step(self, &item.snapshot, target, info, item.proximity) {
            Ok(v) => v,
            Err(e) => return Err(e),
        };
        let ghost ov = vaal_views(outcomes@);
        let mut rev: Vec<MatrixBranch> = Vec::new();
        while outcomes.len() > 0
            invariant
                outcomes@.len() + rev@.len() == ov.len(),
                vaal_views(outcomes@) == ov.take(outcomes@.len() as int),
                forall|i: int| 0 <= i < rev@.len() ==> crate::matrix::branch_view(#[trigger] rev@[i])
                    == outcome_branch(ov[ov.len() - 1 - i]),
            decreases outcomes.len(),
        {
            let ghost before = outcomes@;
            let o = outcomes.pop().unwrap();
            assert(vaal_views(before)[before.len() - 1] == o@);
            assert(vaal_views(outcomes@) =~= ov.take(outcomes@.len() as int));
            let t = PropagationTarget { next: o.next, chance: (o.chance_num, o.chance_den), essence_only: false };
            let targets = vec![t];
            let b: MatrixBranch = (o.currencies, targets);
            assert(crate::matrix::target_views(b.1@) =~= seq![t@]);
            let ghost rb = rev@;
            rev.push(b);
            assert forall|i: int| 0 <= i < rev@.len() implies crate::matrix::branch_view(#[trigger] rev@[i])
                == outcome_branch(ov[ov.len() - 1 - i]) by {
                if i < rb.len() {
                    assert(rev@[i] == rb[i]);
                }
            }
        }
        let mut out: Vec<MatrixBranch> = Vec::new();
        let n = rev.len();
        while rev.len() > 0
            invariant
                rev@.len() + out@.len() == ov.len(),
                n == ov.len(),
                forall|i: int| 0 <= i < rev@.len() ==> crate::matrix::branch_view(#[trigger] rev@[i])
                    == outcome_branch(ov[ov.len() - 1 - i]),
                branch_views(out@) == outcome_branches(ov.take(out@.len() as int)),
            decreases rev.len(),
        {
            let ghost k = out@.len();
            let ghost rb = rev@;
            let b = rev.pop().unwrap();
            assert(b == rb[rb.len() - 1]);
            assert(crate::matrix::branch_view(b) == outcome_branch(ov[k as int]));
            assert forall|i: int| 0 <= i < rev@.len() implies crate::matrix::branch_view(#[trigger] rev@[i])
                == outcome_branch(ov[ov.len() - 1 - i]) by {
                assert(rev@[i] == rb[i]);
            }
            let ghost ob = out@;
            out.push(b);
            assert(branch_views(out@)[k as int] == crate::matrix::branch_view(b));
            assert forall|i: int| 0 <= i < out@.len() implies branch_views(out@)[i] == outcome_branches(ov.take(out@.len() as int))[i] by {
                if i < k {
                    assert(out@[i] == ob[i]);
                    assert(branch_views(ob)[i] == outcome_branches(ov.take(k as int))[i]);
                }
            }
            assert(branch_views(out@) =~= outcome_branches(ov.take(out@.len() as int)));
        }
        assert(ov.take(ov.len() as int) =~= ov);
        Ok(out)
    }
}

} // verus!
