//! Inputs of the assistant-facing tools and the decisions the tools make
//! on them before and after their calls into the library.

use vstd::prelude::*;
use vstd::string::StringExecFns;

use crate::convert::{WireGroupPreset, WireItemSnapshot, WireMatrixBuilderPreset, WirePathPreset};
use crate::worker::{Limits, ResultOptions, SubmitJobRequest};
use crate::craftspec::{parse_craft_spec, spec_parse_craft_spec, CraftSpecError, CraftSpecTemplate, TemplateView};
use crate::meta::{archetype_kept, archetype_views, filter_archetypes, ArchetypeView, MetaArchetype, MetaCatalog};
use crate::provider::ItemInfoProvider;
use crate::search::opt_string_view;
use crate::text::{parse_unsigned, parse_unsigned_spec, str_eq};
use crate::types::{AffixId, BaseItemId, ItemLevel};

verus! {

/// A job to look at.
#[derive(Clone, Debug)]
pub struct JobIdParams {
    pub job_id: String,
}

/// A job whose result to fetch.
#[derive(Clone, Debug)]
pub struct GetResultParams {
    pub job_id: String,
    /// How many routes to include (default 5).
    pub top_n: Option<u32>,
    /// "pretty" (default) or "json".
    pub format: Option<String>,
}

impl GetResultParams {
    /// How many routes (and groups) per analyzer the result keeps.
    pub fn top_n_routes(&self) -> (r: u64)
        ensures
            r == match self.top_n {
                Some(n) => n as u64,
                None => 5,
            },
    {
        match self.top_n {
            Some(n) => n as u64,
            None => 5,
        }
    }

    /// Whether the result is rendered as JSON (only when asked for by
    /// exactly "json").
    pub fn wants_json(&self) -> (r: bool)
        ensures
            r == (self.format matches Some(f) && f@ == "json"@),
    {
        match &self.format {
            Some(f) => str_eq(f.as_str(), "json"),
            None => false,
        }
    }
}

/// A league to look up.
#[derive(Clone, Debug)]
pub struct LeagueParams {
    pub league: Option<String>,
}

/// An item export to import.
#[derive(Clone, Debug)]
pub struct ParseItemParams {
    /// Craft of Exile emulator export JSON.
    pub item_json: String,
    pub league: Option<String>,
}

/// A craft spec to parse.
#[derive(Clone, Debug)]
pub struct ParseCraftSpecParams {
    pub spec: String,
    /// Base item id.
    pub base_id: u16,
    /// Target item level (default 81).
    pub item_level: Option<u8>,
    /// Slots pinned by 0-based index (as text) to affix ids.
    pub bindings: Option<Vec<(String, u16)>>,
    pub league: Option<String>,
}

/// Filters of the meta archetypes.
#[derive(Clone, Debug)]
pub struct GetMetaItemsParams {
    /// Item class or slot, e.g. "bow", "ring".
    pub item_class: Option<String>,
    /// Character class, e.g. "Amazon".
    pub char_class: Option<String>,
    /// "leveling" or "endgame".
    pub level_bracket: Option<String>,
}

/// A job to wait for.
#[derive(Clone, Debug)]
pub struct AwaitJobParams {
    pub job_id: String,
    /// How long to wait for a state change (default 30s, cap 120s).
    pub timeout_seconds: Option<u64>,
}

impl AwaitJobParams {
    /// The wait in seconds: the requested one (30 by default) clamped to
    /// `[1, 120]`.
    pub fn timeout_secs(&self) -> (r: u64)
        ensures
            r == ({
                let t = match self.timeout_seconds {
                    Some(t) => t,
                    None => 30,
                };
                if t < 1 { 1 } else if t > 120 { 120 } else { t }
            }),
    {
        let t = match self.timeout_seconds {
            Some(t) => t,
            None => 30,
        };
        if t < 1 {
            1
        } else if t > 120 {
            120
        } else {
            t
        }
    }
}

/// A build code to import.
#[derive(Clone, Debug)]
pub struct ImportPobBuildParams {
    pub code: String,
}

/// Why a tool refused its input.
#[derive(Clone, Debug, PartialEq, Eq)]
pub enum ToolError {
    /// A bindings key is not a slot index.
    BadBindingKey(String),
    /// The craft spec was refused.
    Spec(CraftSpecError),
}

/// Set a slot's pin, replacing an earlier pin of the same slot.
pub open spec fn pin_slot(t: Seq<(u8, AffixId)>, k: u8, v: AffixId) -> Seq<(u8, AffixId)>
    decreases t.len(),
{
    if t.len() == 0 {
        seq![(k, v)]
    } else if t[0].0 == k {
        seq![(k, v)] + t.drop_first()
    } else {
        seq![t[0]] + pin_slot(t.drop_first(), k, v)
    }
}

/// The pins of the bindings, in order; a later pin of the same slot
/// replaces an earlier one; the first key that is not a `u8` fails.
pub open spec fn spec_pins(b: Seq<(Seq<char>, u16)>) -> Result<Seq<(u8, AffixId)>, Seq<char>>
    decreases b.len(),
{
    if b.len() == 0 {
        Ok(Seq::empty())
    } else {
        match spec_pins(b.drop_last()) {
            Err(k) => Err(k),
            Ok(prev) => match parse_unsigned_spec(b.last().0, 255) {
                None => Err(b.last().0),
                Some(i) => Ok(pin_slot(prev, i as u8, AffixId(b.last().1))),
            },
        }
    }
}

pub open spec fn binding_views(b: Seq<(String, u16)>) -> Seq<(Seq<char>, u16)> {
    b.map_values(|p: (String, u16)| (p.0@, p.1))
}

fn pin(t: &mut Vec<(u8, AffixId)>, k: u8, v: AffixId)
    ensures
        final(t)@ == pin_slot(old(t)@, k, v),
{
    let mut i: usize = 0;
    assert(old(t)@.skip(0) =~= old(t)@);
    while i < t.len()
        invariant
            i <= t@.len(),
            t@ == old(t)@,
            forall|j: int| 0 <= j < i ==> t@[j].0 != k,
            pin_slot(old(t)@, k, v) == t@.take(i as int) + pin_slot(t@.skip(i as int), k, v),
        decreases t.len() - i,
    {
        assert(t@.skip(i as int)[0] == t@[i as int]);
        assert(t@.skip(i as int).drop_first() =~= t@.skip(i + 1));
        if t[i].0 == k {
            let ghost before = t@;
            t.set(i, (k, v));
            assert(t@ =~= before.take(i as int) + (seq![(k, v)] + before.skip(i + 1)));
            return;
        }
        assert(t@.take(i + 1) =~= t@.take(i as int).push(t@[i as int]));
        assert(t@.take(i as int) + (seq![t@[i as int]] + pin_slot(t@.skip(i + 1), k, v))
            =~= t@.take(i + 1) + pin_slot(t@.skip(i + 1), k, v));
        i += 1;
    }
    assert(t@.skip(i as int) =~= Seq::<(u8, AffixId)>::empty());
    assert(t@.take(i as int) =~= t@);
    t.push((k, v));
}

/// The slot pins of the bindings parameter.
pub fn pins_from_bindings(bindings: &Vec<(String, u16)>) -> (r: Result<Vec<(u8, AffixId)>, String>)
    ensures
        match r {
            Ok(v) => spec_pins(binding_views(bindings@)) == Ok::<Seq<(u8, AffixId)>, Seq<char>>(v@),
            Err(k) => spec_pins(binding_views(bindings@)) == Err::<Seq<(u8, AffixId)>, Seq<char>>(k@),
        },
{
    let ghost bv = binding_views(bindings@);
    let mut out: Vec<(u8, AffixId)> = Vec::new();
    let mut i: usize = 0;
    assert(bv.take(0) =~= Seq::<(Seq<char>, u16)>::empty());
    while i < bindings.len()
        invariant
            i <= bindings@.len(),
            bv == binding_views(bindings@),
            spec_pins(bv.take(i as int)) == Ok::<Seq<(u8, AffixId)>, Seq<char>>(out@),
        decreases bindings.len() - i,
    {
        assert(bv.take(i + 1).drop_last() =~= bv.take(i as int));
        assert(bv[i as int] == (bindings@[i as int].0@, bindings@[i as int].1));
        match parse_unsigned(bindings[i].0.as_str(), 255) {
            None => {
                proof {
                    lemma_pins_err(bv, i + 1);
                }
                return Err(bindings[i].0.clone());
            },
            Some(k) => pin(&mut out, k as u8, AffixId(bindings[i].1)),
        }
        i += 1;
    }
    assert(bv.take(bindings@.len() as int) =~= bv);
    Ok(out)
}

proof fn lemma_pins_err(b: Seq<(Seq<char>, u16)>, n: int)
    requires
        0 <= n <= b.len(),
        spec_pins(b.take(n)) is Err,
    ensures
        spec_pins(b) == spec_pins(b.take(n)),
    decreases b.len() - n,
{
    if n < b.len() {
        assert(b.take(n + 1).drop_last() =~= b.take(n));
        lemma_pins_err(b, n + 1);
    } else {
        assert(b.take(n) =~= b);
    }
}

/// Parse the tool's craft spec: the bindings' keys must be slot indices;
/// the item level defaults to 81.
pub fn parse_craft_spec_params(items: &ItemInfoProvider, params: &ParseCraftSpecParams) -> (r: Result<CraftSpecTemplate, ToolError>)
    ensures
        ({
            let b = match params.bindings {
                Some(v) => binding_views(v@),
                None => Seq::empty(),
            };
            let ilvl = ItemLevel(match params.item_level {
                Some(l) => l,
                None => 81,
            });
            match spec_pins(b) {
                Err(k) => r matches Err(ToolError::BadBindingKey(s)) && s@ == k,
                Ok(pins) => match spec_parse_craft_spec(params.spec@, BaseItemId(params.base_id), ilvl, pins, *items) {
                    Ok(t) => r matches Ok(x) && x@ == t,
                    Err(e) => r == Err::<CraftSpecTemplate, ToolError>(ToolError::Spec(e)),
                },
            }
        }),
{
    let pins = match &params.bindings {
        Some(v) => match pins_from_bindings(v) {
            Ok(p) => p,
            Err(k) => return Err(ToolError::BadBindingKey(k)),
        },
        None => {
            let e: Vec<(u8, AffixId)> = Vec::new();
            assert(binding_views(Seq::<(String, u16)>::empty()) =~= Seq::<(Seq<char>, u16)>::empty());
            e
        },
    };
    let ilvl = ItemLevel(match params.item_level {
        Some(l) => l,
        None => 81,
    });
    match parse_craft_spec(params.spec.as_str(), BaseItemId(params.base_id), ilvl, &pins, items) {
        Ok(t) => Ok(t),
        Err(e) => Err(ToolError::Spec(e)),
    }
}

/// The archetypes the meta-items tool lists.
pub fn meta_items(catalog: &MetaCatalog, params: &GetMetaItemsParams) -> (r: Vec<MetaArchetype>)
    ensures
        archetype_views(r@) == archetype_views(catalog.archetypes@).filter(
            |a: ArchetypeView| archetype_kept(a, opt_string_view(params.item_class), opt_string_view(params.char_class), opt_string_view(params.level_bracket)),
        ),
{
    let item_class: Option<&str> = match &params.item_class {
        Some(s) => Some(s.as_str()),
        None => None,
    };
    let char_class: Option<&str> = match &params.char_class {
        Some(s) => Some(s.as_str()),
        None => None,
    };
    let level_bracket: Option<&str> = match &params.level_bracket {
        Some(s) => Some(s.as_str()),
        None => None,
    };
    filter_archetypes(catalog, item_class, char_class, level_bracket)
}


/// A calculation to submit.
#[derive(Clone, Debug)]
pub struct SubmitCalculationParams {
    pub start_item: WireItemSnapshot,
    pub target_item: WireItemSnapshot,
    /// League (the server's default when absent).
    pub league: Option<String>,
    /// Number of best routes to return (default 5).
    pub max_routes: Option<u32>,
    /// RAM budget in bytes (default 1 GB).
    pub max_ram_bytes: Option<u64>,
    /// Also compute currency-group statistics.
    pub include_groups: bool,
}

/// The job request of a calculation: the happy-path builder, the chance,
/// efficiency and cost path analyzers, the group chance analyzer when asked
/// for, the given limits (5 routes and 1 GB by default) and pretty strings
/// for as many routes as asked for.
pub fn calculation_request(params: &SubmitCalculationParams, default_league: &str) -> (r: SubmitJobRequest)
    ensures
        r.start matches Some(s) && s.fields() == params.start_item.fields(),
        r.target matches Some(t) && t.fields() == params.target_item.fields(),
        r.league@ == match params.league {
            Some(l) => l@,
            None => default_league@,
        },
        r.matrix_builder == WireMatrixBuilderPreset::HappyPath,
        r.path_analyzers@ == seq![WirePathPreset::UniquePathChance, WirePathPreset::UniquePathEfficiency, WirePathPreset::UniquePathCost],
        r.group_analyzers@ == if params.include_groups { seq![WireGroupPreset::CurrencyGroupChance] } else { Seq::empty() },
        r.limits == Some(Limits {
            max_routes: match params.max_routes {
                Some(n) => n,
                None => 5,
            },
            max_ram_in_bytes: match params.max_ram_bytes {
                Some(n) => n,
                None => 1_000_000_000,
            },
            timeout_seconds: None,
        }),
        r.result_options == Some(ResultOptions {
            include_pretty_strings: true,
            include_route_snapshots: false,
            top_n_pretty: params.max_routes,
        }),
{
    let league = match &params.league {
        Some(l) => l.clone(),
        None => String::from_str(default_league),
    };
    let paths = vec![WirePathPreset::UniquePathChance, WirePathPreset::UniquePathEfficiency, WirePathPreset::UniquePathCost];
    assert(paths@ =~= seq![WirePathPreset::UniquePathChance, WirePathPreset::UniquePathEfficiency, WirePathPreset::UniquePathCost]);
    let groups = if params.include_groups {
        let g = vec![WireGroupPreset::CurrencyGroupChance];
        assert(g@ =~= seq![WireGroupPreset::CurrencyGroupChance]);
        g
    } else {
        let g: Vec<WireGroupPreset> = Vec::new();
        assert(g@ =~= Seq::<WireGroupPreset>::empty());
        g
    };
    SubmitJobRequest {
        start: Some(params.start_item.duplicate()),
        target: Some(params.target_item.duplicate()),
        matrix_builder: WireMatrixBuilderPreset::HappyPath,
        path_analyzers: paths,
        group_analyzers: groups,
        limits: Some(Limits {
            max_routes: match params.max_routes {
                Some(n) => n,
                None => 5,
            },
            max_ram_in_bytes: match params.max_ram_bytes {
                Some(n) => n,
                None => 1_000_000_000,
            },
            timeout_seconds: None,
        }),
        result_options: Some(ResultOptions { include_pretty_strings: true, include_route_snapshots: false, top_n_pretty: params.max_routes }),
        league,
    }
}

/// An item to inspect.
#[derive(Clone, Debug)]
pub struct ItemParams {
    pub item: WireItemSnapshot,
    pub league: Option<String>,
}

/// A currency to simulate on an item.
#[derive(Clone, Debug)]
pub struct SimulateActionParams {
    pub item: WireItemSnapshot,
    /// Currency name, e.g. "Exalted Orb" or an essence name.
    pub currency: String,
    pub league: Option<String>,
    /// Max outcomes to return (default 25, cap 100).
    pub top_n: Option<usize>,
}

impl SimulateActionParams {
    /// How many outcomes the tool returns.
    pub fn outcome_limit(&self) -> (r: usize)
        ensures
            r == match self.top_n {
                Some(n) => if n < 100 { n } else { 100 },
                None => 25,
            },
    {
        match self.top_n {
            Some(n) => if n < 100 { n } else { 100 },
            None => 25,
        }
    }
}

} // verus!
