//! Pool-weight helpers shared by the orb propagators.

use vstd::prelude::*;

use crate::provider::{AffixWeightTable, TierTable};
use crate::table::{has_key, is_first_key, lemma_table_get_at, table_find, table_get};
use crate::types::{AffixSpecifier, AffixTierConstraints, AffixTierLevel, AffixTierLevelBoundsEnum, AffixTierLevelMeta};

verus! {

/// Sum of the weights of all tiers in a tier list.
pub open spec fn tiers_weight(t: Seq<(AffixTierLevel, AffixTierLevelMeta)>) -> nat
    decreases t.len(),
{
    if t.len() == 0 {
        0
    } else {
        tiers_weight(t.drop_last()) + t.last().1.weight.0 as nat
    }
}

/// Sum of the weights of the tiers of level `bound` or better (numerically
/// at most `bound`).
pub open spec fn tiers_weight_up_to(t: Seq<(AffixTierLevel, AffixTierLevelMeta)>, bound: u8) -> nat
    decreases t.len(),
{
    if t.len() == 0 {
        0
    } else {
        tiers_weight_up_to(t.drop_last(), bound) + if t.last().0.0 <= bound {
            t.last().1.weight.0 as nat
        } else {
            0
        }
    }
}

/// Total weight of a pool: all tiers of all affixes.
pub open spec fn pool_weight(p: Seq<(crate::types::AffixId, TierTable)>) -> nat
    decreases p.len(),
{
    if p.len() == 0 {
        0
    } else {
        pool_weight(p.drop_last()) + tiers_weight(p.last().1@)
    }
}

/// Weight of the tiers of `affix` acceptable under its tier bounds, or 0
/// when the affix is not in the pool.
pub open spec fn acceptable_weight(p: Seq<(crate::types::AffixId, TierTable)>, affix: AffixSpecifier) -> nat {
    match table_get(p, affix.affix) {
        None => 0,
        Some(tiers) => match affix.tier.bounds {
            AffixTierLevelBoundsEnum::Minimum => tiers_weight_up_to(tiers@, affix.tier.tier.0),
            AffixTierLevelBoundsEnum::Exact => match table_get(tiers@, affix.tier.tier) {
                Some(meta) => meta.weight.0 as nat,
                None => 0,
            },
        },
    }
}

/// Under an Exact bound only the requested tier is acceptable: the weight
/// is that tier's own weight in the affix's tier table (its first entry),
/// and 0 when the table has no such tier or the pool no such affix.
pub proof fn law_exact_bound_weighs_one_tier(p: Seq<(crate::types::AffixId, TierTable)>, affix: AffixSpecifier)
    requires
        affix.tier.bounds == AffixTierLevelBoundsEnum::Exact,
    ensures
        table_get(p, affix.affix) is None ==> acceptable_weight(p, affix) == 0,
        table_get(p, affix.affix) matches Some(tiers) ==> {
            &&& forall|k: int| is_first_key(tiers@, affix.tier.tier, k) ==> acceptable_weight(p, affix) == tiers@[k].1.weight.0
            &&& !has_key(tiers@, affix.tier.tier) ==> acceptable_weight(p, affix) == 0
        },
{
    if let Some(tiers) = table_get(p, affix.affix) {
        assert forall|k: int| is_first_key(tiers@, affix.tier.tier, k) implies acceptable_weight(p, affix) == tiers@[k].1.weight.0 by {
            lemma_table_get_at(tiers@, affix.tier.tier, k);
        }
        if !has_key(tiers@, affix.tier.tier) {
            if exists|k: int| is_first_key(tiers@, affix.tier.tier, k) {
                let k = choose|k: int| is_first_key(tiers@, affix.tier.tier, k);
                assert(tiers@[k].0 == affix.tier.tier);
            }
        }
    }
}

/// No tier level occurs twice in the tier list.
pub open spec fn distinct_levels(t: Seq<(AffixTierLevel, AffixTierLevelMeta)>) -> bool {
    forall|i: int, j: int| 0 <= i < j < t.len() ==> (#[trigger] t[i]).0 != (#[trigger] t[j]).0
}

/// Sum of the weights of the tiers of exactly level `b`.
spec fn level_weight(t: Seq<(AffixTierLevel, AffixTierLevelMeta)>, b: u8) -> nat
    decreases t.len(),
{
    if t.len() == 0 {
        0
    } else {
        level_weight(t.drop_last(), b) + if t.last().0.0 == b {
            t.last().1.weight.0 as nat
        } else {
            0
        }
    }
}

proof fn lemma_up_to_split(t: Seq<(AffixTierLevel, AffixTierLevelMeta)>, b: u8)
    requires
        b >= 1,
    ensures
        tiers_weight_up_to(t, b) == tiers_weight_up_to(t, (b - 1) as u8) + level_weight(t, b),
    decreases t.len(),
{
    if t.len() > 0 {
        lemma_up_to_split(t.drop_last(), b);
    }
}

proof fn lemma_level_weight_distinct(t: Seq<(AffixTierLevel, AffixTierLevelMeta)>, b: u8)
    requires
        distinct_levels(t),
    ensures
        forall|k: int| is_first_key(t, AffixTierLevel(b), k) ==> level_weight(t, b) == t[k].1.weight.0,
        !has_key(t, AffixTierLevel(b)) ==> level_weight(t, b) == 0,
    decreases t.len(),
{
    if t.len() > 0 {
        let d = t.drop_last();
        assert(distinct_levels(d)) by {
            assert forall|i: int, j: int| 0 <= i < j < d.len() implies (#[trigger] d[i]).0 != (#[trigger] d[j]).0 by {
                assert(d[i] == t[i] && d[j] == t[j]);
            }
        }
        lemma_level_weight_distinct(d, b);
        let n = t.len() - 1;
        if t[n].0.0 == b {
            assert forall|k: int| 0 <= k < d.len() implies #[trigger] d[k].0 != AffixTierLevel(b) by {
                assert(d[k] == t[k]);
                assert(t[k].0 != t[n].0);
            }
            assert(!has_key(d, AffixTierLevel(b)));
            assert forall|k: int| is_first_key(t, AffixTierLevel(b), k) implies level_weight(t, b) == t[k].1.weight.0 by {
                if k < n {
                    assert(d[k] == t[k]);
                }
            }
        } else {
            assert forall|k: int| is_first_key(t, AffixTierLevel(b), k) implies level_weight(t, b) == t[k].1.weight.0 by {
                assert(k < n);
                assert(d[k] == t[k]);
                assert forall|j: int| 0 <= j < k implies #[trigger] d[j].0 != AffixTierLevel(b) by {
                    assert(d[j] == t[j]);
                }
                assert(is_first_key(d, AffixTierLevel(b), k));
            }
            if !has_key(t, AffixTierLevel(b)) {
                assert forall|k: int| 0 <= k < d.len() implies #[trigger] d[k].0 != AffixTierLevel(b) by {
                    assert(d[k] == t[k]);
                }
            }
        }
    }
}

proof fn lemma_up_to_all(t: Seq<(AffixTierLevel, AffixTierLevelMeta)>)
    ensures
        tiers_weight_up_to(t, 255) == tiers_weight(t),
    decreases t.len(),
{
    if t.len() > 0 {
        lemma_up_to_all(t.drop_last());
    }
}

/// The affix specifier for `affix` at tier `b` under `bounds`.
pub open spec fn wanted_at(affix: crate::types::AffixId, b: u8, bounds: AffixTierLevelBoundsEnum) -> AffixSpecifier {
    AffixSpecifier { affix, fractured: false, tier: AffixTierConstraints { tier: AffixTierLevel(b), bounds } }
}

/// A Minimum bound accepts exactly the tiers of its level or better: the
/// weight at the worst level (255) is that of the whole tier table, and
/// (with distinct tier levels) lowering the bound by one level gives up
/// exactly the weight an Exact bound at that level accepts.
pub proof fn law_minimum_bound_accepts_tiers_up_to(p: Seq<(crate::types::AffixId, TierTable)>, affix: crate::types::AffixId, b: u8)
    ensures
        acceptable_weight(p, wanted_at(affix, 255, AffixTierLevelBoundsEnum::Minimum)) == match table_get(p, affix) {
            Some(tiers) => tiers_weight(tiers@),
            None => 0,
        },
        b >= 1 && (table_get(p, affix) matches Some(tiers) ==> distinct_levels(tiers@)) ==>
            acceptable_weight(p, wanted_at(affix, b, AffixTierLevelBoundsEnum::Minimum))
                == acceptable_weight(p, wanted_at(affix, (b - 1) as u8, AffixTierLevelBoundsEnum::Minimum))
                + acceptable_weight(p, wanted_at(affix, b, AffixTierLevelBoundsEnum::Exact)),
{
    if let Some(tiers) = table_get(p, affix) {
        lemma_up_to_all(tiers@);
        if b >= 1 && distinct_levels(tiers@) {
            lemma_up_to_split(tiers@, b);
            lemma_level_weight_distinct(tiers@, b);
            law_exact_bound_weighs_one_tier(p, wanted_at(affix, b, AffixTierLevelBoundsEnum::Exact));
            if has_key(tiers@, AffixTierLevel(b)) {
                crate::table::lemma_first_key_exists(tiers@, AffixTierLevel(b));
            }
        }
    }
}

/// A prefix of a tier table weighs no more than the table.
pub proof fn lemma_tiers_weight_prefix(t: Seq<(AffixTierLevel, AffixTierLevelMeta)>, i: int)
    requires
        0 <= i <= t.len(),
    ensures
        tiers_weight(t.subrange(0, i)) <= tiers_weight(t),
    decreases t.len() - i,
{
    if i < t.len() {
        lemma_tiers_weight_prefix(t, i + 1);
        assert(t.subrange(0, i + 1).drop_last() =~= t.subrange(0, i));
    } else {
        assert(t.subrange(0, i) =~= t);
    }
}

/// The tiers up to a bound weigh no more than the table.
pub proof fn lemma_tiers_weight_up_to_le(t: Seq<(AffixTierLevel, AffixTierLevelMeta)>, bound: u8)
    ensures
        tiers_weight_up_to(t, bound) <= tiers_weight(t),
    decreases t.len(),
{
    if t.len() > 0 {
        lemma_tiers_weight_up_to_le(t.drop_last(), bound);
    }
}

/// A prefix of a pool weighs no more than the pool.
pub proof fn lemma_pool_weight_prefix(p: Seq<(crate::types::AffixId, TierTable)>, i: int)
    requires
        0 <= i <= p.len(),
    ensures
        pool_weight(p.subrange(0, i)) <= pool_weight(p),
    decreases p.len() - i,
{
    if i < p.len() {
        lemma_pool_weight_prefix(p, i + 1);
        assert(p.subrange(0, i + 1).drop_last() =~= p.subrange(0, i));
    } else {
        assert(p.subrange(0, i) =~= p);
    }
}

/// Sum of all tier weights of one tier list.
pub fn tier_table_weight(t: &TierTable) -> (r: u32)
    requires
        tiers_weight(t@) <= u32::MAX,
    ensures
        r == tiers_weight(t@),
{
    let mut acc: u32 = 0;
    let mut i: usize = 0;
    while i < t.len()
        invariant
            i <= t.len(),
            tiers_weight(t@) <= u32::MAX,
            acc == tiers_weight(t@.subrange(0, i as int)),
        decreases t.len() - i,
    {
        proof {
            lemma_tiers_weight_prefix(t@, i + 1);
            assert(t@.subrange(0, i + 1).drop_last() =~= t@.subrange(0, i as int));
        }
        acc = acc + t[i].1.weight.0;
        i += 1;
    }
    assert(t@.subrange(0, i as int) =~= t@);
    acc
}

/// Total weight of all surviving tiers in the pool (the probability
/// denominator).
pub fn pool_total_weight(pool: &AffixWeightTable) -> (r: u32)
    requires
        pool_weight(pool@) <= u32::MAX,
    ensures
        r == pool_weight(pool@),
{
    let mut acc: u32 = 0;
    let mut i: usize = 0;
    while i < pool.len()
        invariant
            i <= pool.len(),
            pool_weight(pool@) <= u32::MAX,
            acc == pool_weight(pool@.subrange(0, i as int)),
        decreases pool.len() - i,
    {
        proof {
            lemma_pool_weight_prefix(pool@, i + 1);
            assert(pool@.subrange(0, i + 1).drop_last() =~= pool@.subrange(0, i as int));
        }
        let w = tier_table_weight(&pool[i].1);
        acc = acc + w;
        i += 1;
    }
    assert(pool@.subrange(0, i as int) =~= pool@);
    acc
}

/// Weight of the tiers of level `bound` or better in a tier list.
pub fn tier_table_weight_up_to(t: &TierTable, bound: u8) -> (r: u32)
    requires
        tiers_weight(t@) <= u32::MAX,
    ensures
        r == tiers_weight_up_to(t@, bound),
{
    let mut acc: u32 = 0;
    let mut i: usize = 0;
    while i < t.len()
        invariant
            i <= t.len(),
            tiers_weight(t@) <= u32::MAX,
            acc == tiers_weight_up_to(t@.subrange(0, i as int), bound),
        decreases t.len() - i,
    {
        proof {
            lemma_tiers_weight_prefix(t@, i + 1);
            lemma_tiers_weight_up_to_le(t@.subrange(0, i + 1), bound);
            assert(t@.subrange(0, i + 1).drop_last() =~= t@.subrange(0, i as int));
        }
        if t[i].0.0 <= bound {
            acc = acc + t[i].1.weight.0;
        }
        i += 1;
    }
    assert(t@.subrange(0, i as int) =~= t@);
    acc
}

/// Weight of the tiers of `affix` acceptable under its tier bounds
/// (Minimum: all tiers at or better than the requested one; Exact: exactly
/// the requested tier). `None` when the affix is not in the pool or no tier
/// qualifies.
pub fn acceptable_affix_weight(pool: &AffixWeightTable, affix: &AffixSpecifier) -> (r: Option<u32>)
    requires
        forall|i: int| 0 <= i < pool@.len() ==> tiers_weight(#[trigger] pool@[i].1@) <= u32::MAX,
    ensures
        match r {
            Some(w) => w > 0 && w == acceptable_weight(pool@, *affix),
            None => acceptable_weight(pool@, *affix) == 0,
        },
{
    let idx = match table_find(pool, &affix.affix) {
        Some(i) => i,
        None => return None,
    };
    let tiers = &pool[idx].1;
    let weight: u32 = match affix.tier.bounds {
        AffixTierLevelBoundsEnum::Minimum => tier_table_weight_up_to(tiers, affix.tier.tier.0),
        AffixTierLevelBoundsEnum::Exact => match table_find(tiers, &affix.tier.tier) {
            Some(j) => tiers[j].1.weight.0,
            None => 0,
        },
    };
    if weight > 0 {
        Some(weight)
    } else {
        None
    }
}

} // verus!
