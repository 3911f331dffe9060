//! The happy-path item matrix: starting from an item, the currency steps
//! of the propagators are simulated wave by wave, and every reachable item
//! that can be assessed against the target becomes a node with its
//! outgoing branches; of branches that reach the same outcome with the
//! same chance, only the cheapest keeps it.
//!
//! The propagators, the assessment of an item against the target (its
//! target proximity) and the prices of currency branches are supplied by
//! the caller through the traits below.

use vstd::prelude::*;
use vstd::string::StringExecFns;

use crate::builder::{contains_currency, PropagatorKind};
use crate::currency::CraftCurrencyEnum;
use crate::errors::CraftPathError;
use crate::item::{copy_specifiers, ItemSnapshot, SnapshotView};
use crate::progress::ProgressSink;
use crate::provider::ItemInfoProvider;
use crate::text::{append_decimal, decimal_string};

verus! {

/// An item of the matrix: its snapshot, its distance to the target item
/// (0 when it is the target) and whether only essences may be applied to
/// it next.
#[derive(Debug)]
pub struct MatrixItem {
    pub snapshot: ItemSnapshot,
    pub proximity: u64,
    pub essence_only: bool,
}

/// One outcome of a currency branch: the next item, the chance of reaching
/// it as (numerator, denominator), and whether only essences may follow.
#[derive(Debug)]
pub struct PropagationTarget {
    pub next: ItemSnapshot,
    pub chance: (u128, u128),
    pub essence_only: bool,
}

/// Mathematical value of a [`PropagationTarget`].
pub struct TargetView {
    pub next: SnapshotView,
    pub chance: (u128, u128),
    pub essence_only: bool,
}

impl View for PropagationTarget {
    type V = TargetView;

    open spec fn view(&self) -> TargetView {
        TargetView { next: self.next@, chance: self.chance, essence_only: self.essence_only }
    }
}

/// A currency branch: the currencies applied together and their outcomes.
pub type MatrixBranch = (Vec<CraftCurrencyEnum>, Vec<PropagationTarget>);

/// A node of the matrix: an item and its outgoing branches.
#[derive(Debug)]
pub struct MatrixNode {
    pub item: MatrixItem,
    pub branches: Vec<MatrixBranch>,
}

/// The item matrix: one node per distinct item snapshot.
#[derive(Debug)]
pub struct ItemMatrix {
    pub nodes: Vec<MatrixNode>,
}

/// Mathematical value of a [`MatrixBranch`].
pub type BranchView = (Seq<CraftCurrencyEnum>, Seq<TargetView>);

pub open spec fn target_views(t: Seq<PropagationTarget>) -> Seq<TargetView> {
    t.map_values(|x: PropagationTarget| x@)
}

pub open spec fn branch_view(b: MatrixBranch) -> BranchView {
    (b.0@, target_views(b.1@))
}

pub open spec fn branch_views(v: Seq<MatrixBranch>) -> Seq<BranchView> {
    v.map_values(|b: MatrixBranch| branch_view(b))
}

/// What a step produces on an item.
pub type StepOutcome = Result<Seq<BranchView>, CraftPathError>;

/// One kind of currency step on an item.
pub trait MatrixPropagator {
    /// The registry entry the propagator implements.
    spec fn kind(&self) -> PropagatorKind;

    /// Whether the step applies to the item.
    spec fn applicable(&self, item: MatrixItem, info: ItemInfoProvider) -> bool;

    /// The branches the step produces on the item.
    spec fn step(&self, item: MatrixItem, target: ItemSnapshot, info: ItemInfoProvider) -> StepOutcome;

    fn is_applicable(&self, item: &MatrixItem, info: &ItemInfoProvider) -> (r: bool)
        ensures
            r == self.applicable(*item, *info);

    fn propagate_step(&self, item: &MatrixItem, target: &ItemSnapshot, info: &ItemInfoProvider) -> (r: Result<Vec<MatrixBranch>, CraftPathError>)
        requires
            info.weights_fit(),
        ensures
            match r {
                Ok(v) => self.step(*item, *target, *info) == Ok::<Seq<BranchView>, CraftPathError>(branch_views(v@)),
                Err(e) => self.step(*item, *target, *info) == Err::<Seq<BranchView>, CraftPathError>(e),
            };
}

/// The propagators implement the registry entries, one for one, in order.
pub open spec fn implements_registry<P: MatrixPropagator>(props: Seq<P>, kinds: Seq<PropagatorKind>) -> bool {
    &&& props.len() == kinds.len()
    &&& forall|i: int| 0 <= i < props.len() ==> (#[trigger] props[i]).kind() == kinds[i]
}

/// How far an item is from the target item; `None` when it cannot be
/// assessed (it is then left out of the matrix).
pub trait ItemAssessor {
    spec fn assessed(&self, item: SnapshotView, target: SnapshotView, info: ItemInfoProvider) -> Option<u64>;

    fn assess(&self, item: &ItemSnapshot, target: &ItemSnapshot, info: &ItemInfoProvider) -> (r: Option<u64>)
        ensures
            r == self.assessed(item@, target@, *info);
}

/// Mathematical value of a branch's currency list.
pub type CurrencyListView = Seq<CraftCurrencyEnum>;

/// The price of applying a currency branch once, in the caller's unit.
pub trait BranchCosts {
    spec fn cost_of(&self, currencies: CurrencyListView, info: ItemInfoProvider) -> u64;

    fn cost(&self, currencies: &Vec<CraftCurrencyEnum>, info: &ItemInfoProvider) -> (r: u64)
        ensures
            r == self.cost_of(currencies@, *info);
}

/// The branch uses no disabled currency.
pub open spec fn branch_allowed(currencies: Seq<CraftCurrencyEnum>, disabled: Seq<CraftCurrencyEnum>) -> bool {
    forall|i: int| 0 <= i < currencies.len() ==> !disabled.contains(#[trigger] currencies[i])
}

fn allowed(currencies: &Vec<CraftCurrencyEnum>, disabled: &Vec<CraftCurrencyEnum>) -> (r: bool)
    ensures
        r == branch_allowed(currencies@, disabled@),
{
    let mut i: usize = 0;
    while i < currencies.len()
        invariant
            i <= currencies@.len(),
            forall|j: int| 0 <= j < i ==> !disabled@.contains(#[trigger] currencies@[j]),
        decreases currencies.len() - i,
    {
        if contains_currency(disabled, &currencies[i]) {
            return false;
        }
        i += 1;
    }
    true
}

/// Whether two snapshots are the same item state.
pub fn same_snapshot(a: &ItemSnapshot, b: &ItemSnapshot) -> (r: bool)
    ensures
        r == (a@ == b@),
{
    if a.item_level != b.item_level || a.rarity != b.rarity || a.base_id != b.base_id || a.corrupted != b.corrupted
        || a.allowed_sockets != b.allowed_sockets || a.affixes.len() != b.affixes.len()
        || a.sockets.len() != b.sockets.len() {
        return false;
    }
    let mut i: usize = 0;
    while i < a.affixes.len()
        invariant
            i <= a.affixes@.len(),
            a.affixes@.len() == b.affixes@.len(),
            forall|j: int| 0 <= j < i ==> a.affixes@[j] == b.affixes@[j],
        decreases a.affixes.len() - i,
    {
        if a.affixes[i] != b.affixes[i] {
            return false;
        }
        i += 1;
    }
    let mut i: usize = 0;
    while i < a.sockets.len()
        invariant
            i <= a.sockets@.len(),
            a.sockets@.len() == b.sockets@.len(),
            forall|j: int| 0 <= j < i ==> a.sockets@[j] == b.sockets@[j],
        decreases a.sockets.len() - i,
    {
        if a.sockets[i] != b.sockets[i] {
            return false;
        }
        i += 1;
    }
    assert(a.affixes@ =~= b.affixes@);
    assert(a.sockets@ =~= b.sockets@);
    true
}

/// The propagators that act on an item: the essence-only ones when the
/// item is marked so, else the regular ones.
pub open spec fn props_for<P>(item: MatrixItem, propagators: Seq<P>, essence_only: Seq<P>) -> Seq<P> {
    if item.essence_only {
        essence_only
    } else {
        propagators
    }
}

/// Branch `j` of what propagator `p` produces on the item, if there is one.
pub open spec fn step_branch<P: MatrixPropagator>(p: P, item: MatrixItem, target: ItemSnapshot, info: ItemInfoProvider, j: int) -> Option<BranchView> {
    match p.step(item, target, info) {
        Ok(s) => if 0 <= j < s.len() {
            Some(s[j])
        } else {
            None
        },
        Err(_) => None,
    }
}

/// The outcome is one of the list.
pub open spec fn outcome_in(t: PropagationTarget, src: Seq<TargetView>) -> bool {
    exists|m: int| 0 <= m < src.len() && #[trigger] src[m] == t@
}

/// `b` keeps the currencies of the produced branch `s` and some of its
/// outcomes.
pub open spec fn from_branch(b: MatrixBranch, s: BranchView) -> bool {
    &&& b.0@ == s.0
    &&& forall|k: int| 0 <= k < b.1@.len() ==> outcome_in(#[trigger] b.1@[k], s.1)
}

/// A kept branch: allowed, and made from one of the produced branches.
pub open spec fn kept_branch(b: MatrixBranch, bs: Seq<BranchView>, disabled: Seq<CraftCurrencyEnum>) -> bool {
    &&& branch_allowed(b.0@, disabled)
    &&& exists|j: int| 0 <= j < bs.len() && from_branch(b, #[trigger] bs[j])
}

/// A branch of an item is a branch one applicable propagator produced on
/// it, using no disabled currency, with some of its outcomes (the others
/// are reached more cheaply by an earlier branch).
pub open spec fn branch_from_step<P: MatrixPropagator>(
    b: MatrixBranch,
    item: MatrixItem,
    target: ItemSnapshot,
    info: ItemInfoProvider,
    props: Seq<P>,
    disabled: Seq<CraftCurrencyEnum>,
) -> bool {
    &&& branch_allowed(b.0@, disabled)
    &&& exists|pi: int, j: int| 0 <= pi < props.len() && props[pi].applicable(item, info)
        && ((#[trigger] step_branch(props[pi], item, target, info, j)) matches Some(s) && from_branch(b, s))
}

/// The nodes hold distinct item snapshots.
pub open spec fn distinct_nodes(nodes: Seq<MatrixNode>) -> bool {
    forall|i: int, j: int| 0 <= i < j < nodes.len() ==> (#[trigger] nodes[i]).item.snapshot@ != (#[trigger] nodes[j]).item.snapshot@
}

/// What makes two outcomes the same route: the next item and the chance.
pub type OutcomeKey = (SnapshotView, (u128, u128));

pub open spec fn outcome_key(t: TargetView) -> OutcomeKey {
    (t.next, t.chance)
}

/// The routes reached after the outcomes, in order, starting from `reached`.
pub open spec fn reached_after(outs: Seq<TargetView>, reached: Set<OutcomeKey>) -> Set<OutcomeKey>
    decreases outs.len(),
{
    if outs.len() == 0 {
        reached
    } else {
        reached_after(outs.drop_last(), reached).insert(outcome_key(outs.last()))
    }
}

/// The outcomes, in order, whose route was not reached before them.
pub open spec fn fresh_outcomes(outs: Seq<TargetView>, reached: Set<OutcomeKey>) -> Seq<TargetView>
    decreases outs.len(),
{
    if outs.len() == 0 {
        Seq::empty()
    } else {
        let before = fresh_outcomes(outs.drop_last(), reached);
        if reached_after(outs.drop_last(), reached).contains(outcome_key(outs.last())) {
            before
        } else {
            before.push(outs.last())
        }
    }
}

/// Branch `b` is still open and no open branch is cheaper, nor as cheap
/// and earlier.
pub open spec fn cheapest_open(cost: Seq<u64>, open: Seq<bool>, b: int) -> bool {
    &&& 0 <= b < open.len()
    &&& open[b]
    &&& forall|k: int| 0 <= k < open.len() && #[trigger] open[k] ==> cost[b] < cost[k] || (cost[b] == cost[k] && b <= k)
}

/// The open branches, cheapest first, each with the outcomes whose route
/// no branch before it reached (at most `rounds` of them).
pub open spec fn pruned(bs: Seq<BranchView>, cost: Seq<u64>, open: Seq<bool>, reached: Set<OutcomeKey>, rounds: nat) -> Seq<BranchView>
    decreases rounds,
{
    if rounds == 0 || !(exists|b: int| cheapest_open(cost, open, b)) {
        Seq::empty()
    } else {
        let b = choose|b: int| cheapest_open(cost, open, b);
        seq![(bs[b].0, fresh_outcomes(bs[b].1, reached))]
            + pruned(bs, cost, open.update(b, false), reached_after(bs[b].1, reached), (rounds - 1) as nat)
    }
}

pub open spec fn branch_costs<C: BranchCosts>(costs: C, bs: Seq<BranchView>, info: ItemInfoProvider) -> Seq<u64> {
    Seq::new(bs.len(), |j: int| costs.cost_of(bs[j].0, info))
}

pub open spec fn allowed_flags(bs: Seq<BranchView>, disabled: Seq<CraftCurrencyEnum>) -> Seq<bool> {
    Seq::new(bs.len(), |j: int| branch_allowed(bs[j].0, disabled))
}

/// What is kept of the branches of one step: those using no disabled
/// currency, cheapest first, each without the routes a branch before it
/// already reaches.
pub open spec fn pruned_step<C: BranchCosts>(bs: Seq<BranchView>, disabled: Seq<CraftCurrencyEnum>, costs: C, info: ItemInfoProvider) -> Seq<BranchView> {
    pruned(bs, branch_costs(costs, bs, info), allowed_flags(bs, disabled), Set::empty(), bs.len())
}

fn copy_target(t: &PropagationTarget) -> (r: PropagationTarget)
    ensures
        r@ == t@,
{
    PropagationTarget { next: t.next.duplicate(), chance: t.chance, essence_only: t.essence_only }
}

/// The routes recorded in the list.
pub open spec fn reached_keys(v: Seq<(ItemSnapshot, (u128, u128))>) -> Set<OutcomeKey> {
    Set::new(|k: OutcomeKey| exists|i: int| 0 <= i < v.len() && (#[trigger] v[i]).0@ == k.0 && v[i].1 == k.1)
}

/// Recording a route adds its key.
proof fn lemma_reached_push(v: Seq<(ItemSnapshot, (u128, u128))>, e: (ItemSnapshot, (u128, u128)))
    ensures
        reached_keys(v.push(e)) == reached_keys(v).insert((e.0@, e.1)),
{
    let w = v.push(e);
    assert forall|k: OutcomeKey| reached_keys(w).contains(k) == reached_keys(v).insert((e.0@, e.1)).contains(k) by {
        if reached_keys(w).contains(k) {
            let i = choose|i: int| 0 <= i < w.len() && (#[trigger] w[i]).0@ == k.0 && w[i].1 == k.1;
            if i < v.len() {
                assert(w[i] == v[i]);
            }
        }
        if reached_keys(v).contains(k) {
            let i = choose|i: int| 0 <= i < v.len() && (#[trigger] v[i]).0@ == k.0 && v[i].1 == k.1;
            assert(w[i] == v[i]);
        }
        if k == (e.0@, e.1) {
            assert(w[v.len() as int] == e);
        }
    }
    assert(reached_keys(w) =~= reached_keys(v).insert((e.0@, e.1)));
}

fn reached_before(reached: &Vec<(ItemSnapshot, (u128, u128))>, t: &PropagationTarget) -> (r: bool)
    ensures
        r == reached_keys(reached@).contains(outcome_key(t@)),
{
    let mut i: usize = 0;
    while i < reached.len()
        invariant
            i <= reached@.len(),
            forall|j: int| 0 <= j < i ==> !((#[trigger] reached@[j]).0@ == t.next@ && reached@[j].1 == t.chance),
        decreases reached.len() - i,
    {
        if reached[i].1 .0 == t.chance.0 && reached[i].1 .1 == t.chance.1 && same_snapshot(&reached[i].0, &t.next) {
            assert(reached@[i as int].0@ == outcome_key(t@).0 && reached@[i as int].1 == outcome_key(t@).1);
            return true;
        }
        i += 1;
    }
    false
}

/// The cheapest open branch (the first among equals), or `n` when none is
/// open.
fn pick_cheapest(cost: &Vec<u64>, open: &Vec<bool>) -> (r: usize)
    requires
        cost@.len() == open@.len(),
    ensures
        r <= open@.len(),
        r < open@.len() ==> cheapest_open(cost@, open@, r as int),
        r == open@.len() ==> forall|k: int| 0 <= k < open@.len() ==> !open@[k],
{
    let n = open.len();
    let mut best: usize = n;
    let mut j: usize = 0;
    while j < n
        invariant
            n == open@.len(),
            cost@.len() == n,
            j <= n,
            best == n ==> forall|k: int| 0 <= k < j ==> !open@[k],
            best < n ==> best < j && open@[best as int] && forall|k: int| 0 <= k < j && #[trigger] open@[k]
                ==> cost@[best as int] < cost@[k] || (cost@[best as int] == cost@[k] && best <= k),
            best <= n,
        decreases n - j,
    {
        if open[j] && (best == n || cost[j] < cost[best]) {
            best = j;
        }
        j += 1;
    }
    best
}

/// The outcomes whose route was not reached before, which are then
/// reached.
fn new_outcomes(src: &Vec<PropagationTarget>, reached: &mut Vec<(ItemSnapshot, (u128, u128))>) -> (r: Vec<PropagationTarget>)
    ensures
        forall|k: int| 0 <= k < r@.len() ==> outcome_in(#[trigger] r@[k], target_views(src@)),
        target_views(r@) == fresh_outcomes(target_views(src@), reached_keys(old(reached)@)),
        reached_keys(final(reached)@) == reached_after(target_views(src@), reached_keys(old(reached)@)),
{
    let ghost r0 = reached_keys(reached@);
    let ghost all = target_views(src@);
    let mut kept: Vec<PropagationTarget> = Vec::new();
    let mut m: usize = 0;
    assert(all.take(0) =~= Seq::<TargetView>::empty());
    assert(target_views(kept@) =~= Seq::<TargetView>::empty());
    while m < src.len()
        invariant
            m <= src@.len(),
            all == target_views(src@),
            forall|k: int| 0 <= k < kept@.len() ==> outcome_in(#[trigger] kept@[k], all),
            target_views(kept@) == fresh_outcomes(all.take(m as int), r0),
            reached_keys(reached@) == reached_after(all.take(m as int), r0),
        decreases src.len() - m,
    {
        let ghost pre = all.take(m as int);
        let ghost cur = all.take(m as int + 1);
        assert(cur.drop_last() =~= pre);
        assert(cur.last() == src@[m as int]@);
        let t = &src[m];
        if !reached_before(reached, t) {
            let ghost old_reached = reached@;
            reached.push((t.next.duplicate(), t.chance));
            proof {
                lemma_reached_push(old_reached, reached@.last());
                assert(old_reached.push(reached@.last()) == reached@);
            }
            let c = copy_target(t);
            let ghost before = kept@;
            kept.push(c);
            assert(target_views(kept@) =~= target_views(before).push(src@[m as int]@));
            assert forall|k: int| 0 <= k < kept@.len() implies outcome_in(#[trigger] kept@[k], all) by {
                if k < before.len() {
                    assert(kept@[k] == before[k]);
                } else {
                    assert(all[m as int] == kept@[k]@);
                }
            }
        } else {
            assert(reached_after(pre, r0).insert(outcome_key(src@[m as int]@)) =~= reached_after(pre, r0));
        }
        m += 1;
    }
    assert(all.take(src@.len() as int) =~= all);
    kept
}

/// The branches of one step that use no disabled currency, cheapest first,
/// each without the routes (next item and chance) a cheaper branch already
/// reaches.
fn prune_branches<C: BranchCosts>(
    bs: &Vec<MatrixBranch>,
    disabled: &Vec<CraftCurrencyEnum>,
    costs: &C,
    info: &ItemInfoProvider,
) -> (r: Vec<MatrixBranch>)
    ensures
        forall|k: int| 0 <= k < r@.len() ==> kept_branch(#[trigger] r@[k], branch_views(bs@), disabled@),
        branch_views(r@) == pruned_step(branch_views(bs@), disabled@, *costs, *info),
{
    let ghost bsv = branch_views(bs@);
    let n = bs.len();
    let mut cost: Vec<u64> = Vec::new();
    let mut open: Vec<bool> = Vec::new();
    let mut i: usize = 0;
    while i < n
        invariant
            n == bs@.len(),
            bsv == branch_views(bs@),
            i <= n,
            cost@.len() == i,
            open@.len() == i,
            forall|j: int| 0 <= j < i ==> #[trigger] cost@[j] == costs.cost_of(bsv[j].0, *info),
            forall|j: int| 0 <= j < i ==> #[trigger] open@[j] == branch_allowed(bsv[j].0, disabled@),
        decreases n - i,
    {
        assert(bsv[i as int] == branch_view(bs@[i as int]));
        cost.push(costs.cost(&bs[i].0, info));
        let ok = allowed(&bs[i].0, disabled);
        open.push(ok);
        i += 1;
    }
    assert(cost@ =~= branch_costs(*costs, bsv, *info));
    assert(open@ =~= allowed_flags(bsv, disabled@));
    let ghost whole = pruned_step(bsv, disabled@, *costs, *info);
    let mut out: Vec<MatrixBranch> = Vec::new();
    let mut reached: Vec<(ItemSnapshot, (u128, u128))> = Vec::new();
    assert(reached_keys(reached@) =~= Set::<OutcomeKey>::empty());
    assert(branch_views(out@) + pruned(bsv, cost@, open@, reached_keys(reached@), n as nat) =~= whole);
    let mut round: usize = 0;
    loop
        invariant
            n == bs@.len(),
            bsv == branch_views(bs@),
            cost@.len() == n,
            open@.len() == n,
            round <= n,
            forall|j: int| 0 <= j < n && #[trigger] open@[j] ==> branch_allowed(bs@[j].0@, disabled@),
            forall|k: int| 0 <= k < out@.len() ==> kept_branch(#[trigger] out@[k], bsv, disabled@),
            branch_views(out@) + pruned(bsv, cost@, open@, reached_keys(reached@), (n - round) as nat) == whole,
        ensures
            forall|k: int| 0 <= k < out@.len() ==> kept_branch(#[trigger] out@[k], bsv, disabled@),
            branch_views(out@) == whole,
        decreases n - round,
    {
        if round >= n {
            assert(branch_views(out@) + Seq::<BranchView>::empty() =~= branch_views(out@));
            break;
        }
        let best = pick_cheapest(&cost, &open);
        if best == n {
            assert(!(exists|b: int| cheapest_open(cost@, open@, b)));
            assert(branch_views(out@) + Seq::<BranchView>::empty() =~= branch_views(out@));
            break;
        }
        let ghost rounds = (n - round) as nat;
        let ghost r_old = reached_keys(reached@);
        let ghost open_old = open@;
        let ghost out_old = branch_views(out@);
        proof {
            let pick = choose|b: int| cheapest_open(cost@, open@, b);
            assert(cheapest_open(cost@, open@, pick));
            assert(pick == best as int);
        }
        assert(bsv[best as int] == branch_view(bs@[best as int]));
        assert(branch_allowed(bs@[best as int].0@, disabled@));
        open.set(best, false);
        let src = &bs[best];
        let kept = new_outcomes(&src.1, &mut reached);
        let branch: MatrixBranch = (crate::builder::copy_currencies(&src.0), kept);
        assert(from_branch(branch, bsv[best as int]));
        let ghost before = out@;
        out.push(branch);
        assert(branch_view(branch) == (bsv[best as int].0, fresh_outcomes(bsv[best as int].1, r_old)));
        assert(branch_views(out@) =~= out_old.push(branch_view(branch)));
        assert(pruned(bsv, cost@, open_old, r_old, rounds) == seq![branch_view(branch)]
            + pruned(bsv, cost@, open@, reached_keys(reached@), (rounds - 1) as nat));
        assert(branch_views(out@) + pruned(bsv, cost@, open@, reached_keys(reached@), (rounds - 1) as nat)
            =~= out_old + (seq![branch_view(branch)] + pruned(bsv, cost@, open@, reached_keys(reached@), (rounds - 1) as nat)));
        assert forall|k: int| 0 <= k < out@.len() implies kept_branch(#[trigger] out@[k], bsv, disabled@) by {
            if k < before.len() {
                assert(out@[k] == before[k]);
            } else {
                assert(out@[k] == branch);
                assert(from_branch(out@[k], bsv[best as int]));
            }
        }
        round += 1;
    }
    out
}

/// The branches one propagator adds to an item: the kept branches of its
/// step when it applies and the step succeeds, else none.
pub open spec fn step_branches<P: MatrixPropagator, C: BranchCosts>(
    p: P,
    item: MatrixItem,
    target: ItemSnapshot,
    info: ItemInfoProvider,
    disabled: Seq<CraftCurrencyEnum>,
    costs: C,
) -> Seq<BranchView> {
    if p.applicable(item, info) {
        match p.step(item, target, info) {
            Ok(bs) => pruned_step(bs, disabled, costs, info),
            Err(_) => Seq::empty(),
        }
    } else {
        Seq::empty()
    }
}

/// Some branch of the list applies exactly these currencies.
pub open spec fn has_currencies(bs: Seq<BranchView>, c: Seq<CraftCurrencyEnum>) -> bool {
    exists|j: int| 0 <= j < bs.len() && (#[trigger] bs[j]).0 == c
}

/// The branches of `a`, in order, whose currency list no branch of `b`
/// applies: a later propagator's branch replaces an earlier one with the
/// same currencies.
pub open spec fn not_replaced(a: Seq<BranchView>, b: Seq<BranchView>) -> Seq<BranchView>
    decreases a.len(),
{
    if a.len() == 0 {
        Seq::empty()
    } else {
        let rest = not_replaced(a.drop_last(), b);
        if has_currencies(b, a.last().0) {
            rest
        } else {
            rest.push(a.last())
        }
    }
}

/// The branches the propagators add to an item, propagator by propagator;
/// a branch replaces an earlier one with the same currencies.
pub open spec fn expanded<P: MatrixPropagator, C: BranchCosts>(
    props: Seq<P>,
    item: MatrixItem,
    target: ItemSnapshot,
    info: ItemInfoProvider,
    disabled: Seq<CraftCurrencyEnum>,
    costs: C,
) -> Seq<BranchView>
    decreases props.len(),
{
    if props.len() == 0 {
        Seq::empty()
    } else {
        let added = step_branches(props.last(), item, target, info, disabled, costs);
        not_replaced(expanded(props.drop_last(), item, target, info, disabled, costs), added) + added
    }
}

fn same_currencies(a: &Vec<CraftCurrencyEnum>, b: &Vec<CraftCurrencyEnum>) -> (r: bool)
    ensures
        r == (a@ == b@),
{
    if a.len() != b.len() {
        return false;
    }
    let mut i: usize = 0;
    while i < a.len()
        invariant
            i <= a@.len(),
            a@.len() == b@.len(),
            forall|k: int| 0 <= k < i ==> a@[k] == b@[k],
        decreases a.len() - i,
    {
        if a[i] != b[i] {
            return false;
        }
        i += 1;
    }
    assert(a@ =~= b@);
    true
}

fn has_currency_list(bs: &Vec<MatrixBranch>, c: &Vec<CraftCurrencyEnum>) -> (r: bool)
    ensures
        r == has_currencies(branch_views(bs@), c@),
{
    let mut j: usize = 0;
    while j < bs.len()
        invariant
            j <= bs@.len(),
            forall|k: int| 0 <= k < j ==> (#[trigger] branch_views(bs@)[k]).0 != c@,
        decreases bs.len() - j,
    {
        assert(branch_views(bs@)[j as int] == branch_view(bs@[j as int]));
        if same_currencies(&bs[j].0, c) {
            return true;
        }
        j += 1;
    }
    false
}

/// The branches of `out`, in order, except those whose currencies a branch
/// of `added` applies.
fn drop_replaced(out: Vec<MatrixBranch>, added: &Vec<MatrixBranch>) -> (r: Vec<MatrixBranch>)
    ensures
        branch_views(r@) == not_replaced(branch_views(out@), branch_views(added@)),
        forall|k: int| 0 <= k < r@.len() ==> exists|i: int| 0 <= i < out@.len() && #[trigger] r@[k] == out@[i],
{
    let ghost all = out@;
    let ghost av = branch_views(all);
    let ghost bv = branch_views(added@);
    let n = out.len();
    let mut rest: Vec<MatrixBranch> = Vec::new();
    let mut src = out;
    let mut rev: Vec<MatrixBranch> = Vec::new();
    while src.len() > 0
        invariant
            src@.len() + rev@.len() == all.len(),
            forall|i: int| 0 <= i < src@.len() ==> src@[i] == all[i],
            forall|i: int| 0 <= i < rev@.len() ==> rev@[i] == all[all.len() - 1 - i],
        decreases src.len(),
    {
        let b = src.pop().unwrap();
        rev.push(b);
    }
    assert(branch_views(rest@) =~= not_replaced(av.take(0), bv));
    let mut i: usize = 0;
    while rev.len() > 0
        invariant
            i + rev@.len() == all.len(),
            all.len() == n,
            av == branch_views(all),
            bv == branch_views(added@),
            forall|q: int| 0 <= q < rev@.len() ==> rev@[q] == all[all.len() - 1 - q],
            branch_views(rest@) == not_replaced(av.take(i as int), bv),
            forall|k: int| 0 <= k < rest@.len() ==> exists|q: int| 0 <= q < all.len() && #[trigger] rest@[k] == all[q],
        decreases rev.len(),
    {
        let b = rev.pop().unwrap();
        assert(b == all[i as int]);
        let ghost pre = av.take(i as int);
        let ghost cur = av.take(i as int + 1);
        assert(cur.drop_last() =~= pre);
        assert(cur.last() == branch_view(b));
        let ghost before = rest@;
        if !has_currency_list(added, &b.0) {
            rest.push(b);
            assert(branch_views(rest@) =~= branch_views(before).push(branch_view(b)));
            assert forall|k: int| 0 <= k < rest@.len() implies exists|q: int| 0 <= q < all.len() && #[trigger] rest@[k] == all[q] by {
                if k < before.len() {
                    assert(rest@[k] == before[k]);
                } else {
                    assert(rest@[k] == all[i as int]);
                }
            }
        }
        i += 1;
    }
    assert(av.take(all.len() as int) =~= av);
    rest
}

/// Adding no branch replaces none.
proof fn lemma_nothing_replaced(a: Seq<BranchView>)
    ensures
        not_replaced(a, Seq::empty()) == a,
    decreases a.len(),
{
    if a.len() > 0 {
        lemma_nothing_replaced(a.drop_last());
        assert(a.drop_last().push(a.last()) =~= a);
    }
}

/// The branches of an item: for each propagator, in order, that applies,
/// the kept branches of its step, each replacing an earlier branch with the
/// same currencies; a step that fails adds none.
fn expand<P: MatrixPropagator, C: BranchCosts>(
    item: &MatrixItem,
    target: &ItemSnapshot,
    info: &ItemInfoProvider,
    props: &Vec<P>,
    disabled: &Vec<CraftCurrencyEnum>,
    costs: &C,
) -> (r: Vec<MatrixBranch>)
    requires
        info.weights_fit(),
    ensures
        forall|k: int| 0 <= k < r@.len() ==> branch_from_step(#[trigger] r@[k], *item, *target, *info, props@, disabled@),
        branch_views(r@) == expanded(props@, *item, *target, *info, disabled@, *costs),
{
    let mut out: Vec<MatrixBranch> = Vec::new();
    let mut pi: usize = 0;
    assert(props@.take(0) =~= Seq::<P>::empty());
    assert(branch_views(out@) =~= Seq::<BranchView>::empty());
    while pi < props.len()
        invariant
            pi <= props@.len(),
            info.weights_fit(),
            forall|k: int| 0 <= k < out@.len() ==> branch_from_step(#[trigger] out@[k], *item, *target, *info, props@, disabled@),
            branch_views(out@) == expanded(props@.take(pi as int), *item, *target, *info, disabled@, *costs),
        decreases props.len() - pi,
    {
        let ghost pre = props@.take(pi as int);
        let ghost cur = props@.take(pi as int + 1);
        let ghost out_old = branch_views(out@);
        assert(cur.drop_last() =~= pre);
        assert(cur.last() == props@[pi as int]);
        let mut added = false;
        if props[pi].is_applicable(item, info) {
            match props[pi].propagate_step(item, target, info) {
                Ok(bs) => {
                    let mut kept = prune_branches(&bs, disabled, costs, info);
                    assert forall|q: int| 0 <= q < kept@.len() implies branch_from_step(
                        #[trigger] kept@[q], *item, *target, *info, props@, disabled@) by {
                        assert(kept_branch(kept@[q], branch_views(bs@), disabled@));
                        let j = choose|j: int| 0 <= j < branch_views(bs@).len() && from_branch(kept@[q], #[trigger] branch_views(bs@)[j]);
                        assert(step_branch(props@[pi as int], *item, *target, *info, j) == Some(branch_views(bs@)[j]));
                    }
                    let ghost old_out = out@;
                    let mut kept_out = drop_replaced(out, &kept);
                    let ghost before = kept_out@;
                    assert forall|k: int| 0 <= k < before.len() implies branch_from_step(
                        #[trigger] before[k], *item, *target, *info, props@, disabled@) by {
                        let i = choose|i: int| 0 <= i < old_out.len() && #[trigger] before[k] == old_out[i];
                        assert(branch_from_step(old_out[i], *item, *target, *info, props@, disabled@));
                    }
                    let ghost added_v = kept@;
                    kept_out.append(&mut kept);
                    out = kept_out;
                    assert(branch_views(out@) =~= branch_views(before) + branch_views(added_v));
                    assert forall|k: int| 0 <= k < out@.len() implies branch_from_step(
                        #[trigger] out@[k], *item, *target, *info, props@, disabled@) by {
                        if k < before.len() {
                            assert(out@[k] == before[k]);
                        } else {
                            assert(out@[k] == added_v[k - before.len()]);
                        }
                    }
                    added = true;
                },
                Err(_) => {},
            }
        }
        if !added {
            assert(step_branches(props@[pi as int], *item, *target, *info, disabled@, *costs) =~= Seq::<BranchView>::empty());
            proof {
                lemma_nothing_replaced(out_old);
            }
            assert(out_old + Seq::<BranchView>::empty() =~= out_old);
        }
        pi += 1;
    }
    assert(props@.take(props@.len() as int) =~= props@);
    out
}

/// The branches an item of the matrix gets: none at the target or when
/// corrupted, else those of the propagators that act on it.
pub open spec fn node_branches<P: MatrixPropagator, C: BranchCosts>(
    item: MatrixItem,
    target: ItemSnapshot,
    info: ItemInfoProvider,
    propagators: Seq<P>,
    essence_only: Seq<P>,
    disabled: Seq<CraftCurrencyEnum>,
    costs: C,
) -> Seq<BranchView> {
    if item.proximity == 0 || item.snapshot.corrupted {
        Seq::empty()
    } else {
        expanded(props_for(item, propagators, essence_only), item, target, info, disabled, costs)
    }
}

/// A node of the matrix: its item is assessed at its proximity and has
/// exactly the branches [`node_branches`] gives it; each of them is a
/// step of a propagator that acts on it.
pub open spec fn node_ok<P: MatrixPropagator, A: ItemAssessor, C: BranchCosts>(
    n: MatrixNode,
    target: ItemSnapshot,
    info: ItemInfoProvider,
    propagators: Seq<P>,
    essence_only: Seq<P>,
    disabled: Seq<CraftCurrencyEnum>,
    assessor: A,
    costs: C,
) -> bool {
    &&& assessor.assessed(n.item.snapshot@, target@, info) == Some(n.item.proximity)
    &&& branch_views(n.branches@) == node_branches(n.item, target, info, propagators, essence_only, disabled, costs)
    &&& forall|k: int| 0 <= k < n.branches@.len() ==> branch_from_step(
        #[trigger] n.branches@[k], n.item, target, info, props_for(n.item, propagators, essence_only), disabled)
}

/// Outcome `m` of branch `j` of what propagator `p` produces on the item,
/// if there is one.
pub open spec fn step_outcome<P: MatrixPropagator>(p: P, item: MatrixItem, target: ItemSnapshot, info: ItemInfoProvider, j: int, m: int) -> Option<TargetView> {
    match step_branch(p, item, target, info, j) {
        Some(b) => if 0 <= m < b.1.len() {
            Some(b.1[m])
        } else {
            None
        },
        None => None,
    }
}

/// Some outcome of the step of `p` on the item is the item state `s`.
pub open spec fn step_reaches<P: MatrixPropagator>(p: P, item: MatrixItem, target: ItemSnapshot, info: ItemInfoProvider, s: SnapshotView) -> bool {
    exists|j: int, m: int| (#[trigger] step_outcome(p, item, target, info, j, m)) matches Some(t) && t.next == s
}

/// No step of the propagators that the build takes on an item of `u` (one
/// assessed at its proximity, neither at the target nor corrupted, to which
/// the propagator applies) leads out of `u`.
pub open spec fn closed_under<P: MatrixPropagator, A: ItemAssessor>(
    u: Set<SnapshotView>,
    props: Seq<P>,
    target: ItemSnapshot,
    info: ItemInfoProvider,
    assessor: A,
) -> bool {
    forall|pi: int, item: MatrixItem, s: SnapshotView|
        0 <= pi < props.len() && u.contains(item.snapshot@)
        && assessor.assessed(item.snapshot@, target@, info) == Some(item.proximity)
        && item.proximity != 0 && !item.snapshot.corrupted
        && props[pi].applicable(item, info)
        && #[trigger] step_reaches(props[pi], item, target, info, s) ==> u.contains(s)
}

/// `u` is a finite set of item states that holds the start and that the
/// steps of the propagators never leave: the items the build can reach
/// are finitely many.
pub open spec fn finitely_reachable<P: MatrixPropagator, A: ItemAssessor>(
    u: Set<SnapshotView>,
    start: SnapshotView,
    target: ItemSnapshot,
    info: ItemInfoProvider,
    propagators: Seq<P>,
    essence_only: Seq<P>,
    assessor: A,
) -> bool {
    &&& u.finite()
    &&& u.contains(start)
    &&& closed_under(u, propagators, target, info, assessor)
    &&& closed_under(u, essence_only, target, info, assessor)
}

/// The item state is a node of the matrix.
pub open spec fn in_matrix(s: SnapshotView, nodes: Seq<MatrixNode>) -> bool {
    exists|i: int| 0 <= i < nodes.len() && (#[trigger] nodes[i]).item.snapshot@ == s
}

/// The item state waits in the queue of the next wave.
pub open spec fn waiting(s: SnapshotView, todo: Seq<PropagationTarget>) -> bool {
    exists|j: int| 0 <= j < todo.len() && (#[trigger] todo[j]).next@ == s
}

/// The item state is a node, or cannot be assessed (and so never becomes
/// one), or waits in the queue.
pub open spec fn covered<A: ItemAssessor>(
    s: SnapshotView,
    nodes: Seq<MatrixNode>,
    todo: Seq<PropagationTarget>,
    target: ItemSnapshot,
    info: ItemInfoProvider,
    assessor: A,
) -> bool {
    ||| in_matrix(s, nodes)
    ||| assessor.assessed(s, target@, info) is None
    ||| waiting(s, todo)
}

/// Every outcome of every branch of the node is covered.
pub open spec fn outcomes_covered<A: ItemAssessor>(
    n: MatrixNode,
    nodes: Seq<MatrixNode>,
    todo: Seq<PropagationTarget>,
    target: ItemSnapshot,
    info: ItemInfoProvider,
    assessor: A,
) -> bool {
    forall|k: int, m: int| 0 <= k < n.branches@.len() && 0 <= m < n.branches@[k].1@.len()
        ==> covered((#[trigger] n.branches@[k].1@[m]).next@, nodes, todo, target, info, assessor)
}

/// Coverage survives adding a node.
proof fn lemma_covered_more_nodes<A: ItemAssessor>(
    n: MatrixNode,
    nodes: Seq<MatrixNode>,
    node: MatrixNode,
    todo: Seq<PropagationTarget>,
    target: ItemSnapshot,
    info: ItemInfoProvider,
    assessor: A,
)
    requires
        outcomes_covered(n, nodes, todo, target, info, assessor),
    ensures
        outcomes_covered(n, nodes.push(node), todo, target, info, assessor),
{
    assert forall|k: int, m: int| 0 <= k < n.branches@.len() && 0 <= m < n.branches@[k].1@.len()
        implies covered((#[trigger] n.branches@[k].1@[m]).next@, nodes.push(node), todo, target, info, assessor) by {
        let s = n.branches@[k].1@[m].next@;
        if in_matrix(s, nodes) {
            let i = choose|i: int| 0 <= i < nodes.len() && (#[trigger] nodes[i]).item.snapshot@ == s;
            assert(nodes.push(node)[i] == nodes[i]);
        }
    }
}

/// Coverage survives growing the queue at its end.
proof fn lemma_covered_more_todo<A: ItemAssessor>(
    n: MatrixNode,
    nodes: Seq<MatrixNode>,
    todo: Seq<PropagationTarget>,
    more: Seq<PropagationTarget>,
    target: ItemSnapshot,
    info: ItemInfoProvider,
    assessor: A,
)
    requires
        outcomes_covered(n, nodes, todo, target, info, assessor),
        todo.len() <= more.len(),
        forall|j: int| 0 <= j < todo.len() ==> more[j] == todo[j],
    ensures
        outcomes_covered(n, nodes, more, target, info, assessor),
{
    assert forall|k: int, m: int| 0 <= k < n.branches@.len() && 0 <= m < n.branches@[k].1@.len()
        implies covered((#[trigger] n.branches@[k].1@[m]).next@, nodes, more, target, info, assessor) by {
        let s = n.branches@[k].1@[m].next@;
        if waiting(s, todo) {
            let j = choose|j: int| 0 <= j < todo.len() && (#[trigger] todo[j]).next@ == s;
            assert(more[j] == todo[j]);
        }
    }
}

/// Once every queued item state is a node or cannot be assessed, the
/// queue is no longer needed to cover the outcomes.
proof fn lemma_covered_settle<A: ItemAssessor>(
    n: MatrixNode,
    nodes: Seq<MatrixNode>,
    todo: Seq<PropagationTarget>,
    target: ItemSnapshot,
    info: ItemInfoProvider,
    assessor: A,
)
    requires
        outcomes_covered(n, nodes, todo, target, info, assessor),
        forall|j: int| 0 <= j < todo.len() ==> in_matrix((#[trigger] todo[j]).next@, nodes)
            || assessor.assessed(todo[j].next@, target@, info) is None,
    ensures
        outcomes_covered(n, nodes, Seq::empty(), target, info, assessor),
{
    assert forall|k: int, m: int| 0 <= k < n.branches@.len() && 0 <= m < n.branches@[k].1@.len()
        implies covered((#[trigger] n.branches@[k].1@[m]).next@, nodes, Seq::empty(), target, info, assessor) by {
        let s = n.branches@[k].1@[m].next@;
        if waiting(s, todo) {
            let j = choose|j: int| 0 <= j < todo.len() && (#[trigger] todo[j]).next@ == s;
            assert(in_matrix(todo[j].next@, nodes) || assessor.assessed(todo[j].next@, target@, info) is None);
        }
    }
}

/// The outcomes of a node whose item lies in `u` lie in `u`.
proof fn lemma_outcomes_within<P: MatrixPropagator, A: ItemAssessor, C: BranchCosts>(
    n: MatrixNode,
    u: Set<SnapshotView>,
    target: ItemSnapshot,
    info: ItemInfoProvider,
    propagators: Seq<P>,
    essence_only: Seq<P>,
    disabled: Seq<CraftCurrencyEnum>,
    assessor: A,
    costs: C,
)
    requires
        node_ok(n, target, info, propagators, essence_only, disabled, assessor, costs),
        u.contains(n.item.snapshot@),
        closed_under(u, propagators, target, info, assessor),
        closed_under(u, essence_only, target, info, assessor),
    ensures
        forall|k: int, m: int| 0 <= k < n.branches@.len() && 0 <= m < n.branches@[k].1@.len()
            ==> u.contains((#[trigger] n.branches@[k].1@[m]).next@),
{
    let props = props_for(n.item, propagators, essence_only);
    assert forall|k: int, m: int| 0 <= k < n.branches@.len() && 0 <= m < n.branches@[k].1@.len()
        implies u.contains((#[trigger] n.branches@[k].1@[m]).next@) by {
        let b = n.branches@[k];
        if n.item.proximity == 0 || n.item.snapshot.corrupted {
            assert(branch_views(n.branches@).len() == 0);
        }
        assert(branch_from_step(b, n.item, target, info, props, disabled));
        let (pi, j) = choose|pi: int, j: int| 0 <= pi < props.len() && props[pi].applicable(n.item, info)
            && ((#[trigger] step_branch(props[pi], n.item, target, info, j)) matches Some(s) && from_branch(b, s));
        let s = step_branch(props[pi], n.item, target, info, j)->Some_0;
        assert(outcome_in(b.1@[m], s.1));
        let mm = choose|mm: int| 0 <= mm < s.1.len() && #[trigger] s.1[mm] == b.1@[m]@;
        assert(step_outcome(props[pi], n.item, target, info, j, mm) == Some(s.1[mm]));
        assert(step_reaches(props[pi], n.item, target, info, b.1@[m].next@));
    }
}

/// Distinct nodes whose items lie in the finite set `u` are at most as
/// many as `u` holds.
proof fn lemma_nodes_within(nodes: Seq<MatrixNode>, u: Set<SnapshotView>)
    requires
        distinct_nodes(nodes),
        u.finite(),
        forall|i: int| 0 <= i < nodes.len() ==> u.contains((#[trigger] nodes[i]).item.snapshot@),
    ensures
        nodes.len() <= u.len(),
{
    let s = nodes.map_values(|n: MatrixNode| n.item.snapshot@);
    assert forall|i: int, j: int| 0 <= i < s.len() && 0 <= j < s.len() && i != j implies s[i] != s[j] by {
        if i < j {
            assert(nodes[i].item.snapshot@ != nodes[j].item.snapshot@);
        } else {
            assert(nodes[j].item.snapshot@ != nodes[i].item.snapshot@);
        }
    }
    assert(s.no_duplicates());
    s.unique_seq_to_set();
    assert forall|x: SnapshotView| s.to_set().contains(x) implies u.contains(x) by {
        assert(s.contains(x));
        let i = choose|i: int| 0 <= i < s.len() && s[i] == x;
        assert(u.contains(nodes[i].item.snapshot@));
    }
    vstd::set_lib::lemma_len_subset(s.to_set(), u);
}

/// The outcome is one of a branch of a node of the matrix.
pub open spec fn target_reached(t: TargetView, nodes: Seq<MatrixNode>) -> bool {
    exists|i: int, k: int, m: int| 0 <= i < nodes.len() && 0 <= k < nodes[i].branches@.len()
        && 0 <= m < nodes[i].branches@[k].1@.len() && (#[trigger] nodes[i].branches@[k].1@[m])@ == t
}

/// The node's item, with its essence-only mark, is an outcome of a branch
/// of a node of the matrix.
pub open spec fn reached_in(n: MatrixNode, nodes: Seq<MatrixNode>) -> bool {
    exists|i: int, k: int, m: int| 0 <= i < nodes.len() && 0 <= k < nodes[i].branches@.len()
        && 0 <= m < nodes[i].branches@[k].1@.len()
        && (#[trigger] nodes[i].branches@[k].1@[m]).next@ == n.item.snapshot@
        && nodes[i].branches@[k].1@[m].essence_only == n.item.essence_only
}

fn in_nodes(nodes: &Vec<MatrixNode>, s: &ItemSnapshot) -> (r: bool)
    ensures
        r == in_matrix(s@, nodes@),
{
    let mut i: usize = 0;
    while i < nodes.len()
        invariant
            i <= nodes@.len(),
            forall|j: int| 0 <= j < i ==> (#[trigger] nodes@[j]).item.snapshot@ != s@,
        decreases nodes.len() - i,
    {
        if same_snapshot(&nodes[i].item.snapshot, s) {
            return true;
        }
        i += 1;
    }
    false
}

fn in_queue(todo: &Vec<PropagationTarget>, t: &PropagationTarget) -> (r: bool)
    ensures
        r == exists|j: int| 0 <= j < todo@.len() && (#[trigger] todo@[j])@ == t@,
{
    let mut j: usize = 0;
    while j < todo.len()
        invariant
            j <= todo@.len(),
            forall|k: int| 0 <= k < j ==> (#[trigger] todo@[k])@ != t@,
        decreases todo.len() - j,
    {
        let q = &todo[j];
        if q.chance.0 == t.chance.0 && q.chance.1 == t.chance.1 && q.essence_only == t.essence_only && same_snapshot(&q.next, &t.next) {
            assert(todo@[j as int]@ == t@);
            return true;
        }
        j += 1;
    }
    false
}

/// Queue the outcomes of a node for the next wave, leaving out item states
/// already in the matrix and outcomes already queued.
fn enqueue_outcomes(node: &MatrixNode, nodes: &Vec<MatrixNode>, next: &mut Vec<PropagationTarget>, Ghost(u): Ghost<Set<SnapshotView>>, Ghost(at): Ghost<int>)
    requires
        0 <= at < nodes@.len(),
        nodes@[at] == *node,
        forall|k: int, m: int| 0 <= k < node.branches@.len() && 0 <= m < node.branches@[k].1@.len()
            ==> u.contains((#[trigger] node.branches@[k].1@[m]).next@),
        forall|j: int| 0 <= j < old(next)@.len() ==> u.contains((#[trigger] old(next)@[j]).next@),
    ensures
        old(next)@.len() <= final(next)@.len(),
        forall|j: int| 0 <= j < old(next)@.len() ==> final(next)@[j] == old(next)@[j],
        forall|j: int| 0 <= j < final(next)@.len() ==> u.contains((#[trigger] final(next)@[j]).next@),
        forall|j: int| old(next)@.len() <= j < final(next)@.len() ==> target_reached((#[trigger] final(next)@[j])@, nodes@),
        forall|k: int, m: int| 0 <= k < node.branches@.len() && 0 <= m < node.branches@[k].1@.len()
            ==> in_matrix((#[trigger] node.branches@[k].1@[m]).next@, nodes@) || waiting(node.branches@[k].1@[m].next@, final(next)@),
{
    let ghost start = next@;
    let mut k: usize = 0;
    while k < node.branches.len()
        invariant
            k <= node.branches@.len(),
            forall|kk: int, m: int| 0 <= kk < node.branches@.len() && 0 <= m < node.branches@[kk].1@.len()
                ==> u.contains((#[trigger] node.branches@[kk].1@[m]).next@),
            start.len() <= next@.len(),
            forall|j: int| 0 <= j < start.len() ==> next@[j] == start[j],
            forall|j: int| 0 <= j < next@.len() ==> u.contains((#[trigger] next@[j]).next@),
            0 <= at < nodes@.len(),
            nodes@[at] == *node,
            forall|j: int| start.len() <= j < next@.len() ==> target_reached((#[trigger] next@[j])@, nodes@),
            forall|kk: int, m: int| 0 <= kk < k && 0 <= m < node.branches@[kk].1@.len()
                ==> in_matrix((#[trigger] node.branches@[kk].1@[m]).next@, nodes@) || waiting(node.branches@[kk].1@[m].next@, next@),
        decreases node.branches.len() - k,
    {
        let outcomes = &node.branches[k].1;
        let mut m: usize = 0;
        while m < outcomes.len()
            invariant
                k < node.branches@.len(),
                outcomes == node.branches@[k as int].1,
                m <= outcomes@.len(),
                forall|kk: int, mm: int| 0 <= kk < node.branches@.len() && 0 <= mm < node.branches@[kk].1@.len()
                    ==> u.contains((#[trigger] node.branches@[kk].1@[mm]).next@),
                start.len() <= next@.len(),
                forall|j: int| 0 <= j < start.len() ==> next@[j] == start[j],
                forall|j: int| 0 <= j < next@.len() ==> u.contains((#[trigger] next@[j]).next@),
                0 <= at < nodes@.len(),
                nodes@[at] == *node,
                forall|j: int| start.len() <= j < next@.len() ==> target_reached((#[trigger] next@[j])@, nodes@),
                forall|kk: int, mm: int| 0 <= kk < k && 0 <= mm < node.branches@[kk].1@.len()
                    ==> in_matrix((#[trigger] node.branches@[kk].1@[mm]).next@, nodes@) || waiting(node.branches@[kk].1@[mm].next@, next@),
                forall|mm: int| 0 <= mm < m
                    ==> in_matrix((#[trigger] outcomes@[mm]).next@, nodes@) || waiting(outcomes@[mm].next@, next@),
            decreases outcomes.len() - m,
        {
            let t = &outcomes[m];
            if !in_nodes(nodes, &t.next) {
                if in_queue(next, t) {
                    proof {
                        let j = choose|j: int| 0 <= j < next@.len() && (#[trigger] next@[j])@ == t@;
                        assert(next@[j].next@ == t.next@);
                    }
                } else {
                    let ghost before = next@;
                    assert(u.contains(node.branches@[k as int].1@[m as int].next@));
                    next.push(copy_target(t));
                    assert(next@[before.len() as int].next@ == t.next@);
                    assert forall|kk: int, mm: int| 0 <= kk < k && 0 <= mm < node.branches@[kk].1@.len()
                        implies in_matrix((#[trigger] node.branches@[kk].1@[mm]).next@, nodes@)
                            || waiting(node.branches@[kk].1@[mm].next@, next@) by {
                        let s = node.branches@[kk].1@[mm].next@;
                        if waiting(s, before) {
                            let j = choose|j: int| 0 <= j < before.len() && (#[trigger] before[j]).next@ == s;
                            assert(next@[j] == before[j]);
                        }
                    }
                    assert forall|mm: int| 0 <= mm < m
                        implies in_matrix((#[trigger] outcomes@[mm]).next@, nodes@) || waiting(outcomes@[mm].next@, next@) by {
                        let s = outcomes@[mm].next@;
                        if waiting(s, before) {
                            let j = choose|j: int| 0 <= j < before.len() && (#[trigger] before[j]).next@ == s;
                            assert(next@[j] == before[j]);
                        }
                    }
                    assert forall|j: int| 0 <= j < next@.len() implies u.contains((#[trigger] next@[j]).next@) by {
                        if j < before.len() {
                            assert(next@[j] == before[j]);
                        }
                    }
                    assert forall|j: int| start.len() <= j < next@.len() implies target_reached((#[trigger] next@[j])@, nodes@) by {
                        if j < before.len() {
                            assert(next@[j] == before[j]);
                        } else {
                            assert(nodes@[at].branches@[k as int].1@[m as int] == outcomes@[m as int]);
                            assert(next@[j]@ == outcomes@[m as int]@);
                        }
                    }
                }
            }
            assert(in_matrix(outcomes@[m as int].next@, nodes@) || waiting(outcomes@[m as int].next@, next@));
            m += 1;
        }
        assert forall|kk: int, mm: int| 0 <= kk < k + 1 && 0 <= mm < node.branches@[kk].1@.len()
            implies in_matrix((#[trigger] node.branches@[kk].1@[mm]).next@, nodes@) || waiting(node.branches@[kk].1@[mm].next@, next@) by {
            if kk == k {
                assert(node.branches@[kk].1@[mm] == outcomes@[mm]);
            }
        }
        k += 1;
    }
}

/// The progress line of a wave.
pub open spec fn wave_message(nodes: nat, wave: nat) -> Seq<char> {
    "Building item matrix: "@ + decimal_string(nodes) + " nodes so far, "@ + decimal_string(wave) + " items in current wave"@
}

/// What the sink is told before a wave: the progress line, the number of
/// nodes built so far as the counter, and no total.
pub fn wave_progress(nodes: usize, wave: usize) -> (r: (String, u64, Option<u64>))
    ensures
        r.0@ == wave_message(nodes as nat, wave as nat),
        r.1 == nodes,
        r.2 is None,
{
    let mut m = String::from_str("Building item matrix: ");
    append_decimal(&mut m, nodes as u64);
    m.append(" nodes so far, ");
    append_decimal(&mut m, wave as u64);
    m.append(" items in current wave");
    (m, nodes as u64, None)
}

/// The matrix built from the start item: its nodes hold distinct item
/// states, each with exactly the branches [`node_branches`] gives it; the
/// start is the first node when it can be assessed, and there is no node
/// when it cannot; every outcome of a branch that can be assessed is a
/// node, and every node after the first is such an outcome, with its
/// essence-only mark.
pub open spec fn built_matrix<P: MatrixPropagator, A: ItemAssessor, C: BranchCosts>(
    m: ItemMatrix,
    start: SnapshotView,
    target: ItemSnapshot,
    info: ItemInfoProvider,
    propagators: Seq<P>,
    essence_only: Seq<P>,
    disabled: Seq<CraftCurrencyEnum>,
    assessor: A,
    costs: C,
) -> bool {
    &&& distinct_nodes(m.nodes@)
    &&& forall|i: int| 0 <= i < m.nodes@.len() ==> node_ok(
        #[trigger] m.nodes@[i], target, info, propagators, essence_only, disabled, assessor, costs)
    &&& assessor.assessed(start, target@, info) is Some <==> m.nodes@.len() > 0
    &&& m.nodes@.len() > 0 ==> m.nodes@[0].item.snapshot@ == start && !m.nodes@[0].item.essence_only
    &&& forall|i: int| 0 <= i < m.nodes@.len() ==> outcomes_covered(
        #[trigger] m.nodes@[i], m.nodes@, Seq::empty(), target, info, assessor)
    &&& forall|i: int| 1 <= i < m.nodes@.len() ==> reached_in(#[trigger] m.nodes@[i], m.nodes@)
}

/// No branch of a built matrix uses a disabled currency.
pub proof fn law_matrix_avoids_disabled<P: MatrixPropagator, A: ItemAssessor, C: BranchCosts>(
    m: ItemMatrix,
    start: SnapshotView,
    target: ItemSnapshot,
    info: ItemInfoProvider,
    propagators: Seq<P>,
    essence_only: Seq<P>,
    disabled: Seq<CraftCurrencyEnum>,
    assessor: A,
    costs: C,
)
    requires
        built_matrix(m, start, target, info, propagators, essence_only, disabled, assessor, costs),
    ensures
        forall|i: int, k: int, j: int| 0 <= i < m.nodes@.len() && 0 <= k < m.nodes@[i].branches@.len()
            && 0 <= j < m.nodes@[i].branches@[k].0@.len()
            ==> !disabled.contains(#[trigger] m.nodes@[i].branches@[k].0@[j]),
{
    assert forall|i: int, k: int, j: int| 0 <= i < m.nodes@.len() && 0 <= k < m.nodes@[i].branches@.len()
        && 0 <= j < m.nodes@[i].branches@[k].0@.len()
        implies !disabled.contains(#[trigger] m.nodes@[i].branches@[k].0@[j]) by {
        let n = m.nodes@[i];
        assert(node_ok(n, target, info, propagators, essence_only, disabled, assessor, costs));
        assert(branch_from_step(n.branches@[k], n.item, target, info, props_for(n.item, propagators, essence_only), disabled));
    }
}

/// Build the item matrix wave by wave from the start item. Each wave,
/// after the sink is polled (asking to cancel ends the build with
/// `Cancelled`, the only error) and told the progress, turns its queued
/// outcomes into nodes: an outcome that cannot be assessed is dropped, one
/// whose item state is already a node adds nothing (so an item state that
/// one wave reaches both with and without the essence-only mark keeps the
/// branches of the first it meets), any other becomes a
/// node with its proximity, its essence-only mark and the branches
/// [`node_branches`] gives it. The outcomes of the new nodes that are not
/// yet nodes form the next wave, until none is left. The build ends only
/// when the items it can reach are finitely many, which `requires` asks.
pub fn generate_item_matrix<P: MatrixPropagator, A: ItemAssessor, C: BranchCosts, S: ProgressSink>(
    start: ItemSnapshot,
    target: &ItemSnapshot,
    info: &ItemInfoProvider,
    propagators: &Vec<P>,
    essence_only: &Vec<P>,
    disabled: &Vec<CraftCurrencyEnum>,
    assessor: &A,
    costs: &C,
    sink: &S,
) -> (r: Result<ItemMatrix, CraftPathError>)
    requires
        info.weights_fit(),
        exists|u: Set<SnapshotView>| finitely_reachable(u, start@, *target, *info, propagators@, essence_only@, *assessor),
    ensures
        r is Err ==> r == Err::<ItemMatrix, CraftPathError>(CraftPathError::Cancelled()) && !sink.never_cancels(),
        sink.never_cancels() ==> r is Ok,
        sink.always_cancels() ==> r is Err,
        r matches Ok(m) ==> built_matrix(m, start@, *target, *info, propagators@, essence_only@, disabled@, *assessor, *costs),
{
    let ghost u = choose|u: Set<SnapshotView>| finitely_reachable(u, start@, *target, *info, propagators@, essence_only@, *assessor);
    let ghost start_view = start@;
    let mut nodes: Vec<MatrixNode> = Vec::new();
    let mut todo: Vec<PropagationTarget> = Vec::new();
    todo.push(PropagationTarget { next: start, chance: (1, 1), essence_only: false });
    while todo.len() > 0
        invariant
            info.weights_fit(),
            finitely_reachable(u, start_view, *target, *info, propagators@, essence_only@, *assessor),
            distinct_nodes(nodes@),
            forall|i: int| 0 <= i < nodes@.len() ==> node_ok(
                #[trigger] nodes@[i], *target, *info, propagators@, essence_only@, disabled@, *assessor, *costs),
            forall|i: int| 0 <= i < nodes@.len() ==> u.contains((#[trigger] nodes@[i]).item.snapshot@),
            forall|j: int| 0 <= j < todo@.len() ==> u.contains((#[trigger] todo@[j]).next@),
            forall|i: int| 0 <= i < nodes@.len() ==> outcomes_covered(#[trigger] nodes@[i], nodes@, todo@, *target, *info, *assessor),
            nodes@.len() == 0 ==> todo@.len() <= 1,
            nodes@.len() == 0 && todo@.len() == 1 ==> todo@[0].next@ == start_view && !todo@[0].essence_only,
            nodes@.len() == 0 && todo@.len() == 0 ==> assessor.assessed(start_view, target@, *info) is None,
            nodes@.len() > 0 ==> nodes@[0].item.snapshot@ == start_view && !nodes@[0].item.essence_only,
            sink.always_cancels() ==> nodes@.len() == 0 && todo@.len() == 1,
            forall|i: int| 1 <= i < nodes@.len() ==> reached_in(#[trigger] nodes@[i], nodes@),
            nodes@.len() > 0 ==> forall|j: int| 0 <= j < todo@.len() ==> target_reached((#[trigger] todo@[j])@, nodes@),
        decreases 2 * (u.len() - nodes@.len()) + if todo@.len() > 0 { 1int } else { 0int },
    {
        proof {
            lemma_nodes_within(nodes@, u);
        }
        if sink.is_cancelled() {
            return Err(CraftPathError::Cancelled());
        }
        let (message, current, total) = wave_progress(nodes.len(), todo.len());
        sink.report(message.as_str(), current, total);
        let wave_start = nodes.len();
        let ghost before = nodes@;
        let mut q: usize = 0;
        while q < todo.len()
            invariant
                info.weights_fit(),
                finitely_reachable(u, start_view, *target, *info, propagators@, essence_only@, *assessor),
                wave_start == before.len(),
                wave_start <= nodes@.len(),
                forall|i: int| 0 <= i < wave_start ==> nodes@[i] == before[i],
                q <= todo@.len(),
                distinct_nodes(nodes@),
                forall|i: int| 0 <= i < nodes@.len() ==> node_ok(
                    #[trigger] nodes@[i], *target, *info, propagators@, essence_only@, disabled@, *assessor, *costs),
                forall|i: int| 0 <= i < nodes@.len() ==> u.contains((#[trigger] nodes@[i]).item.snapshot@),
                forall|j: int| 0 <= j < todo@.len() ==> u.contains((#[trigger] todo@[j]).next@),
                forall|i: int| 0 <= i < wave_start ==> outcomes_covered(#[trigger] nodes@[i], nodes@, todo@, *target, *info, *assessor),
                forall|p: int| 0 <= p < q ==> in_matrix((#[trigger] todo@[p]).next@, nodes@)
                    || assessor.assessed(todo@[p].next@, target@, *info) is None,
                wave_start == 0 ==> todo@.len() <= 1,
                wave_start == 0 && todo@.len() == 1 ==> todo@[0].next@ == start_view && !todo@[0].essence_only,
                wave_start == 0 ==> forall|i: int| 0 <= i < nodes@.len() ==> (#[trigger] nodes@[i]).item.snapshot@ == start_view
                    && !nodes@[i].item.essence_only,
                wave_start > 0 ==> nodes@[0].item.snapshot@ == start_view && !nodes@[0].item.essence_only,
                forall|i: int| 1 <= i < nodes@.len() ==> reached_in(#[trigger] nodes@[i], nodes@),
                wave_start > 0 ==> forall|j: int| 0 <= j < todo@.len() ==> target_reached((#[trigger] todo@[j])@, before),
            decreases todo.len() - q,
        {
            let t = &todo[q];
            let ghost old_nodes = nodes@;
            match assessor.assess(&t.next, target, info) {
                Some(p) => {
                    if !in_nodes(&nodes, &t.next) {
                        let item = MatrixItem { snapshot: t.next.duplicate(), proximity: p, essence_only: t.essence_only };
                        let branches = if p != 0 && !item.snapshot.corrupted {
                            if item.essence_only {
                                expand(&item, target, info, essence_only, disabled, costs)
                            } else {
                                expand(&item, target, info, propagators, disabled, costs)
                            }
                        } else {
                            Vec::new()
                        };
                        let node = MatrixNode { item, branches };
                        assert(branch_views(node.branches@) =~= node_branches(
                            node.item, *target, *info, propagators@, essence_only@, disabled@, *costs));
                        assert(node_ok(node, *target, *info, propagators@, essence_only@, disabled@, *assessor, *costs));
                        nodes.push(node);
                        assert(nodes@[old_nodes.len() as int] == node);
                        assert forall|i: int, j: int| 0 <= i < j < nodes@.len() implies (#[trigger] nodes@[i]).item.snapshot@
                            != (#[trigger] nodes@[j]).item.snapshot@ by {
                            assert(nodes@[i] == old_nodes[i]);
                            if j < old_nodes.len() {
                                assert(nodes@[j] == old_nodes[j]);
                            }
                        }
                        assert forall|i: int| 0 <= i < nodes@.len() implies node_ok(
                            #[trigger] nodes@[i], *target, *info, propagators@, essence_only@, disabled@, *assessor, *costs)
                            && u.contains(nodes@[i].item.snapshot@) by {
                            if i < old_nodes.len() {
                                assert(nodes@[i] == old_nodes[i]);
                            }
                        }
                        assert forall|i: int| 0 <= i < wave_start implies outcomes_covered(
                            #[trigger] nodes@[i], nodes@, todo@, *target, *info, *assessor) by {
                            assert(nodes@[i] == old_nodes[i]);
                            lemma_covered_more_nodes(old_nodes[i], old_nodes, node, todo@, *target, *info, *assessor);
                            assert(old_nodes.push(node) == nodes@);
                        }
                        assert forall|pp: int| 0 <= pp < q + 1 implies in_matrix((#[trigger] todo@[pp]).next@, nodes@)
                            || assessor.assessed(todo@[pp].next@, target@, *info) is None by {
                            let s = todo@[pp].next@;
                            if pp == q {
                                assert(nodes@[old_nodes.len() as int].item.snapshot@ == s);
                            } else if in_matrix(s, old_nodes) {
                                let i = choose|i: int| 0 <= i < old_nodes.len() && (#[trigger] old_nodes[i]).item.snapshot@ == s;
                                assert(nodes@[i] == old_nodes[i]);
                            }
                        }
                        assert forall|i: int| 0 <= i < wave_start implies nodes@[i] == before[i] by {
                            assert(nodes@[i] == old_nodes[i]);
                        }
                        proof {
                            if wave_start > 0 {
                                assert(nodes@[0] == old_nodes[0]);
                            }
                        }
                        assert forall|i: int| 1 <= i < nodes@.len() implies reached_in(#[trigger] nodes@[i], nodes@) by {
                            if i < old_nodes.len() {
                                assert(nodes@[i] == old_nodes[i]);
                                assert(reached_in(old_nodes[i], old_nodes));
                                let (a, b, c) = choose|a: int, b: int, c: int| 0 <= a < old_nodes.len() && 0 <= b < old_nodes[a].branches@.len()
                                    && 0 <= c < old_nodes[a].branches@[b].1@.len()
                                    && (#[trigger] old_nodes[a].branches@[b].1@[c]).next@ == old_nodes[i].item.snapshot@
                                    && old_nodes[a].branches@[b].1@[c].essence_only == old_nodes[i].item.essence_only;
                                assert(nodes@[a] == old_nodes[a]);
                            } else {
                                assert(wave_start > 0);
                                assert(target_reached(todo@[q as int]@, before));
                                let (a, b, c) = choose|a: int, b: int, c: int| 0 <= a < before.len() && 0 <= b < before[a].branches@.len()
                                    && 0 <= c < before[a].branches@[b].1@.len() && (#[trigger] before[a].branches@[b].1@[c])@ == todo@[q as int]@;
                                assert(nodes@[a] == before[a]);
                            }
                        }
                    }
                },
                None => {},
            }
            q += 1;
        }
        assert forall|i: int| 0 <= i < wave_start implies outcomes_covered(
            #[trigger] nodes@[i], nodes@, Seq::empty(), *target, *info, *assessor) by {
            lemma_covered_settle(nodes@[i], nodes@, todo@, *target, *info, *assessor);
        }
        let mut next: Vec<PropagationTarget> = Vec::new();
        let mut i: usize = wave_start;
        while i < nodes.len()
            invariant
                wave_start <= i <= nodes@.len(),
                i == wave_start ==> next@.len() == 0,
                finitely_reachable(u, start_view, *target, *info, propagators@, essence_only@, *assessor),
                forall|j: int| 0 <= j < nodes@.len() ==> node_ok(
                    #[trigger] nodes@[j], *target, *info, propagators@, essence_only@, disabled@, *assessor, *costs),
                forall|j: int| 0 <= j < nodes@.len() ==> u.contains((#[trigger] nodes@[j]).item.snapshot@),
                forall|j: int| 0 <= j < next@.len() ==> u.contains((#[trigger] next@[j]).next@),
                forall|j: int| 0 <= j < wave_start ==> outcomes_covered(#[trigger] nodes@[j], nodes@, Seq::empty(), *target, *info, *assessor),
                forall|j: int| wave_start <= j < i ==> outcomes_covered(#[trigger] nodes@[j], nodes@, next@, *target, *info, *assessor),
                forall|j: int| 0 <= j < next@.len() ==> target_reached((#[trigger] next@[j])@, nodes@),
            decreases nodes.len() - i,
        {
            proof {
                lemma_outcomes_within(nodes@[i as int], u, *target, *info, propagators@, essence_only@, disabled@, *assessor, *costs);
            }
            let ghost prev = next@;
            enqueue_outcomes(&nodes[i], &nodes, &mut next, Ghost(u), Ghost(i as int));
            assert forall|j: int| wave_start <= j < i + 1 implies outcomes_covered(
                #[trigger] nodes@[j], nodes@, next@, *target, *info, *assessor) by {
                if j < i {
                    lemma_covered_more_todo(nodes@[j], nodes@, prev, next@, *target, *info, *assessor);
                }
            }
            i += 1;
        }
        assert forall|j: int| 0 <= j < nodes@.len() implies outcomes_covered(
            #[trigger] nodes@[j], nodes@, next@, *target, *info, *assessor) by {
            if j < wave_start {
                lemma_covered_more_todo(nodes@[j], nodes@, Seq::empty(), next@, *target, *info, *assessor);
            }
        }
        proof {
            if nodes@.len() == 0 {
                assert(todo@.len() == 1);
                assert(in_matrix(todo@[0].next@, nodes@) || assessor.assessed(todo@[0].next@, target@, *info) is None);
            }
            lemma_nodes_within(nodes@, u);
        }
        todo = next;
    }
    Ok(ItemMatrix { nodes })
}

} // verus!
