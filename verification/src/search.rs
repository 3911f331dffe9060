//! Affix and base-item search over the game data, as offered to
//! assistants: filters by name, location, class and base item, in a
//! stable, documented order.

use vstd::prelude::*;

use crate::errors::CraftPathError;
use crate::lookup::{parse_affix_class, parse_location, spec_parse_affix_class, spec_parse_location, LookupError};
use crate::meta::{copy_strings, strings_view};
use crate::provider::{AffixDefinition, AffixWeightTable, ItemInfoProvider, TierTable};
use crate::sorting::{sort_asc, sort_by_key_asc, SortKey, SpecSortKey};
use crate::table::{table_find, table_get};
use crate::text::{chars_of, lowercase, seq_contains, str_contains, to_lowercase, trim, trim_str};
use crate::provider::BaseGroupDefinition;
use crate::types::{AffixClassEnum, AffixId, AffixLocationEnum, AffixTierLevel, AffixTierLevelMeta, BaseGroupId, BaseItemId, ItemRarityEnum};

verus! {

/// Lexicographic order of texts by character (the order of `str`'s `Ord`).
pub open spec fn text_le(a: Seq<char>, b: Seq<char>) -> bool
    decreases a.len(),
{
    if a.len() == 0 {
        true
    } else if b.len() == 0 {
        false
    } else if a[0] < b[0] {
        true
    } else if a[0] > b[0] {
        false
    } else {
        text_le(a.drop_first(), b.drop_first())
    }
}

/// `text_le` on character vectors.
pub fn chars_le(a: &Vec<char>, b: &Vec<char>) -> (r: bool)
    ensures
        r == text_le(a@, b@),
{
    let mut i: usize = 0;
    assert(a@.skip(0) =~= a@);
    assert(b@.skip(0) =~= b@);
    while i < a.len() && i < b.len() && a[i] == b[i]
        invariant
            i <= a@.len(),
            i <= b@.len(),
            text_le(a@, b@) == text_le(a@.skip(i as int), b@.skip(i as int)),
        decreases a.len() - i,
    {
        assert(a@.skip(i as int).drop_first() =~= a@.skip(i + 1));
        assert(b@.skip(i as int).drop_first() =~= b@.skip(i + 1));
        i += 1;
    }
    if i == a.len() {
        return true;
    }
    if i == b.len() {
        return false;
    }
    assert(a@.skip(i as int)[0] == a@[i as int]);
    assert(b@.skip(i as int)[0] == b@[i as int]);
    assert(a@[i as int] != b@[i as int]);
    a[i] < b[i]
}

/// Stable insertion of index `x` into `s` (indices ordered by their key
/// texts): `x` goes after every index whose key is at most its own.
pub open spec fn ins_by_key(keys: Seq<Seq<char>>, s: Seq<int>, x: int) -> Seq<int>
    decreases s.len(),
{
    if s.len() == 0 {
        seq![x]
    } else if text_le(keys[s.last()], keys[x]) {
        s.push(x)
    } else {
        ins_by_key(keys, s.drop_last(), x).push(s.last())
    }
}

/// The indices `0..n` stably sorted by their key texts.
pub open spec fn sort_by_key_text(keys: Seq<Seq<char>>, n: int) -> Seq<int>
    decreases n,
{
    if n <= 0 {
        Seq::empty()
    } else {
        ins_by_key(keys, sort_by_key_text(keys, n - 1), n - 1)
    }
}

pub open spec fn index_views(v: Seq<usize>) -> Seq<int> {
    v.map_values(|i: usize| i as int)
}

pub open spec fn chars_views(v: Seq<Vec<char>>) -> Seq<Seq<char>> {
    v.map_values(|c: Vec<char>| c@)
}

/// Indices `0..keys.len()` stably sorted by their key texts.
pub fn sorted_indices(keys: &Vec<Vec<char>>) -> (r: Vec<usize>)
    ensures
        index_views(r@) == sort_by_key_text(chars_views(keys@), keys@.len() as int),
        forall|i: int| 0 <= i < r@.len() ==> #[trigger] r@[i] < keys@.len(),
{
    let ghost kv = chars_views(keys@);
    let mut out: Vec<usize> = Vec::new();
    let mut n: usize = 0;
    assert(index_views(out@) =~= Seq::<int>::empty());
    while n < keys.len()
        invariant
            n <= keys@.len(),
            kv == chars_views(keys@),
            index_views(out@) == sort_by_key_text(kv, n as int),
            forall|i: int| 0 <= i < out@.len() ==> #[trigger] out@[i] < n,
        decreases keys.len() - n,
    {
        let ghost before = index_views(out@);
        let mut stash: Vec<usize> = Vec::new();
        loop
            invariant
                kv == chars_views(keys@),
                n < keys@.len(),
                forall|i: int| 0 <= i < out@.len() ==> #[trigger] out@[i] < n,
                forall|i: int| 0 <= i < stash@.len() ==> #[trigger] stash@[i] < n,
                ins_by_key(kv, before, n as int)
                    == ins_by_key(kv, index_views(out@), n as int) + index_views(stash@).reverse(),
            ensures
                forall|i: int| 0 <= i < out@.len() ==> #[trigger] out@[i] < n,
                forall|i: int| 0 <= i < stash@.len() ==> #[trigger] stash@[i] < n,
                ins_by_key(kv, before, n as int)
                    == ins_by_key(kv, index_views(out@), n as int) + index_views(stash@).reverse(),
                out@.len() == 0 || text_le(kv[out@[out@.len() - 1] as int], kv[n as int]),
            decreases out.len(),
        {
            if out.len() == 0 {
                break;
            }
            let last = out[out.len() - 1];
            assert(kv[last as int] == keys@[last as int]@);
            assert(kv[n as int] == keys@[n as int]@);
            if chars_le(&keys[last], &keys[n]) {
                break;
            }
            let ghost o = index_views(out@);
            let popped = out.pop().unwrap();
            assert(index_views(out@) =~= o.drop_last());
            stash.push(popped);
            assert(index_views(stash@).reverse() =~= seq![popped as int] + index_views(stash@).drop_last().reverse());
            assert(ins_by_key(kv, o, n as int) == ins_by_key(kv, o.drop_last(), n as int).push(o.last()));
            assert(index_views(stash@).drop_last() =~= index_views(stash@.drop_last()));
        }
        proof {
            let o = index_views(out@);
            if o.len() > 0 {
                assert(ins_by_key(kv, o, n as int) == o.push(n as int));
            }
        }
        out.push(n);
        while stash.len() > 0
            invariant
                kv == chars_views(keys@),
                n < keys@.len(),
                forall|i: int| 0 <= i < out@.len() ==> #[trigger] out@[i] <= n,
                forall|i: int| 0 <= i < stash@.len() ==> #[trigger] stash@[i] < n,
                ins_by_key(kv, before, n as int) == index_views(out@) + index_views(stash@).reverse(),
            decreases stash.len(),
        {
            let ghost s = index_views(stash@);
            let ghost o = index_views(out@);
            let x = stash.pop().unwrap();
            out.push(x);
            assert(index_views(out@) =~= o.push(x as int));
            assert(index_views(stash@) =~= s.drop_last());
            assert(s.reverse() =~= seq![x as int] + s.drop_last().reverse());
            assert(o + s.reverse() =~= o.push(x as int) + s.drop_last().reverse());
        }
        assert(index_views(out@) + index_views(stash@).reverse() =~= index_views(out@));
        n += 1;
    }
    out
}

/// Parameters of an affix search.
#[derive(Clone, Debug)]
pub struct SearchAffixesParams {
    /// Case-insensitive substring of the affix description; empty lists
    /// everything.
    pub query: Option<String>,
    /// Restrict to (and attach tier tables of) this base item id.
    pub base_id: Option<u16>,
    /// prefix | suffix | socket
    pub location: Option<String>,
    /// base | essence | desecrated
    pub affix_class: Option<String>,
    pub league: Option<String>,
    /// Max results (default 25, cap 100).
    pub limit: Option<usize>,
}

/// Parameters of a base item listing.
#[derive(Clone, Debug)]
pub struct GetBaseItemsParams {
    /// Case-insensitive substring of the base group name.
    pub query: Option<String>,
    pub league: Option<String>,
}

pub open spec fn opt_string_view(o: Option<String>) -> Option<Seq<char>> {
    match o {
        Some(s) => Some(s@),
        None => None,
    }
}

/// The search query: trimmed and lower-cased (absent counts as empty).
pub open spec fn spec_query(q: Option<Seq<char>>) -> Seq<char> {
    match q {
        Some(t) => lowercase(trim(t)),
        None => lowercase(Seq::empty()),
    }
}

fn query_text(q: &Option<String>) -> (r: String)
    ensures
        r@ == spec_query(opt_string_view(*q)),
{
    match q {
        Some(t) => to_lowercase(trim_str(t.as_str())),
        None => {
            proof {
                reveal_strlit("");
            }
            let e = to_lowercase("");
            assert(""@ =~= Seq::<char>::empty());
            e
        },
    }
}

/// One tier of an affix on the searched base.
#[derive(Clone, Copy, Debug, PartialEq, Eq, Structural)]
pub struct TierRow {
    pub tier: u8,
    pub weight: u32,
    pub min_item_level: u8,
}

impl SpecSortKey for TierRow {
    open spec fn sort_key(&self) -> int {
        self.tier as int
    }
}

impl SortKey for TierRow {
    fn key(&self) -> (k: u64) {
        self.tier as u64
    }
}

/// The rows of a tier table, in table order.
pub open spec fn tier_rows(t: Seq<(AffixTierLevel, AffixTierLevelMeta)>) -> Seq<TierRow> {
    t.map_values(|e: (AffixTierLevel, AffixTierLevelMeta)| TierRow { tier: e.0.0, weight: e.1.weight.0, min_item_level: e.1.min_item_level.0 })
}

/// One search result.
#[derive(Clone, Debug)]
pub struct AffixMatch {
    pub affix_id: AffixId,
    pub description: String,
    pub location: AffixLocationEnum,
    pub class: AffixClassEnum,
    pub exclusive_groups: Vec<String>,
    /// The tiers on the searched base, by tier; `None` without a base.
    pub tiers: Option<Vec<TierRow>>,
}

/// The search outcome: how many affixes matched and the first `limit` of
/// them.
#[derive(Clone, Debug)]
pub struct AffixSearch {
    pub total_matches: usize,
    pub results: Vec<AffixMatch>,
}

/// An affix definition passes the filters: location, class, the
/// (lower-cased, trimmed) query as a substring of its lower-cased
/// description, and presence in the base's pool.
pub open spec fn search_hit(
    id: AffixId,
    def: AffixDefinition,
    query: Seq<char>,
    loc: Option<AffixLocationEnum>,
    cls: Option<AffixClassEnum>,
    pool: Option<Seq<(AffixId, TierTable)>>,
) -> bool {
    &&& (loc matches Some(l) ==> def.affix_location == l)
    &&& (cls matches Some(c) ==> def.affix_class == c)
    &&& (query.len() == 0 || seq_contains(lowercase(def.description_template@), query))
    &&& (pool matches Some(p) ==> table_get(p, id) is Some)
}

/// The description texts of the definitions.
pub open spec fn description_keys(defs: Seq<(AffixId, AffixDefinition)>) -> Seq<Seq<char>> {
    defs.map_values(|d: (AffixId, AffixDefinition)| d.1.description_template@)
}

/// The filter on definition indices.
pub open spec fn hit_pred(
    defs: Seq<(AffixId, AffixDefinition)>,
    query: Seq<char>,
    loc: Option<AffixLocationEnum>,
    cls: Option<AffixClassEnum>,
    pool: Option<Seq<(AffixId, TierTable)>>,
) -> spec_fn(int) -> bool {
    |i: int| search_hit(defs[i].0, defs[i].1, query, loc, cls, pool)
}

/// The matching definitions (as indices), in description order.
pub open spec fn search_hits(
    defs: Seq<(AffixId, AffixDefinition)>,
    query: Seq<char>,
    loc: Option<AffixLocationEnum>,
    cls: Option<AffixClassEnum>,
    pool: Option<Seq<(AffixId, TierTable)>>,
) -> Seq<int> {
    sort_by_key_text(description_keys(defs), defs.len() as int).filter(hit_pred(defs, query, loc, cls, pool))
}

/// A result row is the definition's data, with its tiers on the base
/// sorted by tier.
pub open spec fn match_row_ok(m: AffixMatch, id: AffixId, def: AffixDefinition, pool: Option<Seq<(AffixId, TierTable)>>) -> bool {
    &&& m.affix_id == id
    &&& m.description@ == def.description_template@
    &&& m.location == def.affix_location
    &&& m.class == def.affix_class
    &&& strings_view(m.exclusive_groups@) == strings_view(def.exlusive_groups@)
    &&& match pool {
        None => m.tiers is None,
        Some(p) => m.tiers matches Some(rows) && rows@ == sort_asc(tier_rows(table_get(p, id).unwrap()@)),
    }
}

/// The parsed filters: location and class names, then the base's pool.
pub open spec fn spec_filters(
    pv: ItemInfoProvider,
    base_id: Option<u16>,
    location: Option<Seq<char>>,
    affix_class: Option<Seq<char>>,
) -> Result<(Option<AffixLocationEnum>, Option<AffixClassEnum>, Option<Seq<(AffixId, TierTable)>>), LookupError> {
    let loc = match location {
        None => Ok(None),
        Some(s) => match spec_parse_location(s) {
            Ok(l) => Ok(Some(l)),
            Err(e) => Err(e),
        },
    };
    let cls = match affix_class {
        None => Ok(None),
        Some(s) => match spec_parse_affix_class(s) {
            Ok(c) => Ok(Some(c)),
            Err(e) => Err(e),
        },
    };
    match loc {
        Err(e) => Err(e),
        Ok(l) => match cls {
            Err(e) => Err(e),
            Ok(c) => match base_id {
                None => Ok((l, c, None)),
                Some(b) => match pv.base_pool(BaseItemId(b)) {
                    None => Err(LookupError::Lookup(CraftPathError::ItemWithoutAffixInformation(BaseItemId(b)))),
                    Some(p) => Ok((l, c, Some(p@))),
                },
            },
        },
    }
}

/// The tier rows of a table, sorted by tier.
fn sorted_tier_rows(t: &TierTable) -> (r: Vec<TierRow>)
    ensures
        r@ == sort_asc(tier_rows(t@)),
{
    let mut rows: Vec<TierRow> = Vec::new();
    let mut i: usize = 0;
    while i < t.len()
        invariant
            i <= t@.len(),
            rows@ == tier_rows(t@).take(i as int),
        decreases t.len() - i,
    {
        rows.push(TierRow { tier: t[i].0.0, weight: t[i].1.weight.0, min_item_level: t[i].1.min_item_level.0 });
        i += 1;
        assert(rows@ =~= tier_rows(t@).take(i as int));
    }
    assert(tier_rows(t@).take(t@.len() as int) =~= tier_rows(t@));
    sort_by_key_asc(rows)
}

/// Search the affix definitions: the query (trimmed, lower-cased; empty
/// lists everything) must occur in the lower-cased description; location
/// and class names filter when given; a base id restricts the results to
/// the base's pool and attaches their tiers. Results come in description
/// order; `total_matches` counts all matches, `results` holds the first
/// `limit` (25 by default, at most 100).
pub fn search_affixes(items: &ItemInfoProvider, params: &SearchAffixesParams) -> (r: Result<AffixSearch, LookupError>)
    ensures
        match spec_filters(*items, params.base_id, opt_string_view(params.location), opt_string_view(params.affix_class)) {
            Err(e) => r == Err::<AffixSearch, LookupError>(e),
            Ok((loc, cls, pool)) => r matches Ok(s) && {
                let q = spec_query(opt_string_view(params.query));
                let limit = params.limit;
                let defs = items.cache_affix_def@;
                let hits = search_hits(defs, q, loc, cls, pool);
                let lim = match limit {
                    Some(l) => if l < 100 { l as int } else { 100 },
                    None => 25,
                };
                &&& s.total_matches == hits.len()
                &&& s.results@.len() == if hits.len() < lim { hits.len() as int } else { lim }
                &&& forall|k: int| 0 <= k < s.results@.len() ==> match_row_ok(#[trigger] s.results@[k], defs[hits[k]].0, defs[hits[k]].1, pool)
            },
        },
{
    let q = query_text(&params.query);
    let limit = params.limit;
    let base_id = params.base_id;
    let loc: Option<AffixLocationEnum> = match &params.location {
        None => None,
        Some(s) => match parse_location(s.as_str()) {
            Ok(l) => Some(l),
            Err(e) => return Err(e),
        },
    };
    let cls: Option<AffixClassEnum> = match &params.affix_class {
        None => None,
        Some(s) => match parse_affix_class(s.as_str()) {
            Ok(c) => Some(c),
            Err(e) => return Err(e),
        },
    };
    let pool: Option<&AffixWeightTable> = match base_id {
        None => None,
        Some(b) => match items.lookup_base_item_mods(&BaseItemId(b)) {
            Ok(p) => Some(p),
            Err(e) => return Err(LookupError::Lookup(e)),
        },
    };
    let ghost pool_v: Option<Seq<(AffixId, TierTable)>> = match pool {
        Some(p) => Some(p@),
        None => None,
    };
    let lim: usize = match limit {
        Some(l) => if l < 100 { l } else { 100 },
        None => 25,
    };
    let defs = &items.cache_affix_def;
    let ghost dv = defs@;
    let mut keys: Vec<Vec<char>> = Vec::new();
    let mut i: usize = 0;
    while i < defs.len()
        invariant
            i <= defs@.len(),
            keys@.len() == i,
            chars_views(keys@) == description_keys(defs@).take(i as int),
        decreases defs.len() - i,
    {
        let c = chars_of(defs[i].1.description_template.as_str());
        let ghost before = keys@;
        keys.push(c);
        assert(chars_views(keys@) =~= description_keys(defs@).take(i + 1)) by {
            assert(keys@ =~= before.push(c));
            assert(chars_views(keys@)[i as int] == c@);
        }
        i += 1;
    }
    assert(description_keys(defs@).take(defs@.len() as int) =~= description_keys(defs@));
    let order = sorted_indices(&keys);
    let ghost ov = index_views(order@);
    let ghost f = hit_pred(dv, q@, loc, cls, pool_v);
    let mut total: usize = 0;
    let mut results: Vec<AffixMatch> = Vec::new();
    let mut k: usize = 0;
    assert(ov.take(0).filter(f) =~= Seq::<int>::empty()) by {
        assert(ov.take(0) =~= Seq::<int>::empty());
    }
    while k < order.len()
        invariant
            k <= order@.len(),
            dv == defs@,
            ov == index_views(order@),
            ov == sort_by_key_text(description_keys(dv), dv.len() as int),
            forall|j: int| 0 <= j < order@.len() ==> #[trigger] order@[j] < dv.len(),
            f == hit_pred(dv, q@, loc, cls, pool_v),
            pool_v == (match pool { Some(p) => Some(p@), None => None::<Seq<(AffixId, TierTable)>> }),
            total == ov.take(k as int).filter(f).len(),
            total <= k,
            results@.len() == if total < lim { total as int } else { lim as int },
            forall|j: int| 0 <= j < results@.len() ==> match_row_ok(#[trigger] results@[j], dv[ov.take(k as int).filter(f)[j]].0, dv[ov.take(k as int).filter(f)[j]].1, pool_v),
        decreases order.len() - k,
    {
        let idx = order[k];
        let id = defs[idx].0;
        let def = &defs[idx].1;
        let loc_ok = match loc {
            Some(l) => def.affix_location == l,
            None => true,
        };
        let cls_ok = match cls {
            Some(c) => def.affix_class == c,
            None => true,
        };
        let query_ok = q.as_str().unicode_len() == 0 || str_contains(to_lowercase(def.description_template.as_str()).as_str(), q.as_str());
        let pool_ok = match pool {
            Some(p) => table_find(p, &id).is_some(),
            None => true,
        };
        let hit = loc_ok && cls_ok && query_ok && pool_ok;
        let ghost hk = ov.take(k as int).filter(f);
        proof {
            assert(ov[k as int] == idx as int);
            assert(ov.take(k + 1) =~= ov.take(k as int).push(idx as int));
            ov.take(k as int).lemma_filter_push(idx as int, f);
            assert(hit == f(idx as int));
        }
        if hit {
            total += 1;
            if results.len() < lim {
                let tiers = match pool {
                    None => None,
                    Some(p) => {
                        let j = table_find(p, &id).unwrap();
                        Some(sorted_tier_rows(&p[j].1))
                    },
                };
                let row = AffixMatch {
                    affix_id: id,
                    description: def.description_template.clone(),
                    location: def.affix_location,
                    class: def.affix_class,
                    exclusive_groups: copy_strings(&def.exlusive_groups),
                    tiers,
                };
                assert(match_row_ok(row, dv[idx as int].0, dv[idx as int].1, pool_v));
                results.push(row);
            }
        }
        proof {
            let hk1 = ov.take(k + 1).filter(f);
            assert forall|j: int| 0 <= j < results@.len() implies match_row_ok(#[trigger] results@[j], dv[hk1[j]].0, dv[hk1[j]].1, pool_v) by {
                if j < hk.len() {
                    assert(hk1[j] == hk[j]);
                }
            }
        }
        k += 1;
    }
    assert(ov.take(order@.len() as int) =~= ov);
    Ok(AffixSearch { total_matches: total, results })
}


impl SpecSortKey for u16 {
    open spec fn sort_key(&self) -> int {
        *self as int
    }
}

impl SortKey for u16 {
    fn key(&self) -> (k: u64) {
        *self as u64
    }
}

/// A base group definition by position, ordered by its id.
#[derive(Clone, Copy, Debug, PartialEq, Eq, Structural)]
pub struct GroupRef {
    pub id: u16,
    pub index: usize,
}

impl SpecSortKey for GroupRef {
    open spec fn sort_key(&self) -> int {
        self.id as int
    }
}

impl SortKey for GroupRef {
    fn key(&self) -> (k: u64) {
        self.id as u64
    }
}

/// Summary of a base group and its base items.
#[derive(Clone, Debug)]
pub struct BaseGroupSummary {
    pub base_group_id: u16,
    pub name: String,
    pub max_affix: u8,
    pub max_sockets: u8,
    /// The best rarity items of the group reach.
    pub max_rarity: ItemRarityEnum,
    /// The group's base items, ascending.
    pub base_item_ids: Vec<u16>,
}

/// The definitions by position, with their ids.
pub open spec fn group_refs(defs: Seq<(BaseGroupId, BaseGroupDefinition)>) -> Seq<GroupRef> {
    Seq::new(defs.len(), |i: int| GroupRef { id: defs[i].0.0, index: i as usize })
}

/// The ids of the base items of a group, in table order.
pub open spec fn group_members(table: Seq<(BaseItemId, BaseGroupId)>, g: BaseGroupId) -> Seq<u16>
    decreases table.len(),
{
    if table.len() == 0 {
        Seq::empty()
    } else {
        let prev = group_members(table.drop_last(), g);
        if table.last().1 == g {
            prev.push(table.last().0.0)
        } else {
            prev
        }
    }
}

/// A group passes the name filter.
pub open spec fn group_kept(def: BaseGroupDefinition, query: Seq<char>) -> bool {
    query.len() == 0 || seq_contains(lowercase(def.name_base_group@), query)
}

/// A summary row describes its group.
pub open spec fn summary_ok(s: BaseGroupSummary, id: BaseGroupId, def: BaseGroupDefinition, table: Seq<(BaseItemId, BaseGroupId)>) -> bool {
    &&& s.base_group_id == id.0
    &&& s.name@ == def.name_base_group@
    &&& s.max_affix == def.max_affix
    &&& s.max_sockets == def.max_sockets
    &&& s.max_rarity == (if def.is_rare { ItemRarityEnum::Rare } else { ItemRarityEnum::Magic })
    &&& s.base_item_ids@ == sort_asc(group_members(table, id))
}

fn group_members_exec(table: &Vec<(BaseItemId, BaseGroupId)>, g: BaseGroupId) -> (r: Vec<u16>)
    ensures
        r@ == sort_asc(group_members(table@, g)),
{
    let mut ids: Vec<u16> = Vec::new();
    let mut i: usize = 0;
    while i < table.len()
        invariant
            i <= table@.len(),
            ids@ == group_members(table@.take(i as int), g),
        decreases table.len() - i,
    {
        assert(table@.take(i + 1).drop_last() =~= table@.take(i as int));
        if table[i].1.0 == g.0 {
            ids.push(table[i].0.0);
        }
        i += 1;
    }
    assert(table@.take(table@.len() as int) =~= table@);
    sort_by_key_asc(ids)
}

/// The base groups whose name contains the (trimmed, lower-cased) query,
/// ignoring case (all when it is empty), by ascending group id, each with
/// its base items.
pub fn base_item_groups(items: &ItemInfoProvider, params: &GetBaseItemsParams) -> (r: Vec<BaseGroupSummary>)
    ensures
        ({
            let q = spec_query(opt_string_view(params.query));
            let defs = items.base_group_definition@;
            let kept = sort_asc(group_refs(defs)).filter(|g: GroupRef| group_kept(defs[g.index as int].1, q));
            &&& r@.len() == kept.len()
            &&& forall|k: int| 0 <= k < r@.len() ==> summary_ok(#[trigger] r@[k], defs[kept[k].index as int].0,
                defs[kept[k].index as int].1, items.cache_base_group_table@)
        }),
{
    let q = query_text(&params.query);
    let defs = &items.base_group_definition;
    let mut refs: Vec<GroupRef> = Vec::new();
    let mut i: usize = 0;
    while i < defs.len()
        invariant
            i <= defs@.len(),
            refs@ == group_refs(defs@).take(i as int),
        decreases defs.len() - i,
    {
        refs.push(GroupRef { id: defs[i].0.0, index: i });
        i += 1;
        assert(refs@ =~= group_refs(defs@).take(i as int));
    }
    assert(group_refs(defs@).take(defs@.len() as int) =~= group_refs(defs@));
    let sorted = sort_by_key_asc(refs);
    proof {
        crate::sorting::lemma_sort_asc_props(group_refs(defs@));
        sorted@.to_multiset_ensures();
        group_refs(defs@).to_multiset_ensures();
        assert forall|k: int| 0 <= k < sorted@.len() implies (#[trigger] sorted@[k]).index < defs@.len() by {
            assert(sorted@.contains(sorted@[k]));
            assert(group_refs(defs@).to_multiset().count(sorted@[k]) > 0);
            assert(group_refs(defs@).contains(sorted@[k]));
        }
    }
    let ghost f = |g: GroupRef| group_kept(defs@[g.index as int].1, q@);
    let mut out: Vec<BaseGroupSummary> = Vec::new();
    let mut k: usize = 0;
    assert(sorted@.take(0).filter(f) =~= Seq::<GroupRef>::empty()) by {
        assert(sorted@.take(0) =~= Seq::<GroupRef>::empty());
    }
    while k < sorted.len()
        invariant
            k <= sorted@.len(),
            forall|j: int| 0 <= j < sorted@.len() ==> (#[trigger] sorted@[j]).index < defs@.len(),
            defs == &items.base_group_definition,
            f == (|g: GroupRef| group_kept(defs@[g.index as int].1, q@)),
            out@.len() == sorted@.take(k as int).filter(f).len(),
            forall|j: int| 0 <= j < out@.len() ==> summary_ok(#[trigger] out@[j], defs@[sorted@.take(k as int).filter(f)[j].index as int].0,
                defs@[sorted@.take(k as int).filter(f)[j].index as int].1, items.cache_base_group_table@),
        decreases sorted.len() - k,
    {
        let gref = sorted[k];
        let (gid, def) = (defs[gref.index].0, &defs[gref.index].1);
        let keep = q.as_str().unicode_len() == 0 || str_contains(to_lowercase(def.name_base_group.as_str()).as_str(), q.as_str());
        let ghost hk = sorted@.take(k as int).filter(f);
        proof {
            assert(sorted@.take(k + 1) =~= sorted@.take(k as int).push(gref));
            sorted@.take(k as int).lemma_filter_push(gref, f);
        }
        if keep {
            let row = BaseGroupSummary {
                base_group_id: gid.0,
                name: def.name_base_group.clone(),
                max_affix: def.max_affix,
                max_sockets: def.max_sockets,
                max_rarity: if def.is_rare { ItemRarityEnum::Rare } else { ItemRarityEnum::Magic },
                base_item_ids: group_members_exec(&items.cache_base_group_table, gid),
            };
            out.push(row);
        }
        proof {
            let hk1 = sorted@.take(k + 1).filter(f);
            assert forall|j: int| 0 <= j < out@.len() implies summary_ok(#[trigger] out@[j], defs@[hk1[j].index as int].0,
                defs@[hk1[j].index as int].1, items.cache_base_group_table@) by {
                if j < hk.len() {
                    assert(hk1[j] == hk[j]);
                }
            }
        }
        k += 1;
    }
    assert(sorted@.take(sorted@.len() as int) =~= sorted@);
    out
}

} // verus!
