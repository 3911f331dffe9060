//! Human input to domain values: currency names, affix locations and
//! affix classes, as typed by a person or an assistant.

use vstd::prelude::*;

use crate::currency::{spec_item_name, CraftCurrencyEnum};
use crate::errors::CraftPathError;
use crate::item::ItemSnapshot;
use crate::provider::ItemInfoProvider;
use crate::text::{lowercase, seq_contains, str_contains, str_eq, to_lowercase, trim, trim_str};
use crate::types::{AffixClassEnum, AffixLocationEnum, BaseItemId, EssenceId};

verus! {

/// Why an input was not understood.
#[derive(Clone, Copy, Debug, PartialEq, Eq, Structural)]
pub enum LookupError {
    /// The currency name is empty once trimmed.
    EmptyCurrencyName(),
    /// No currency matches the name.
    UnknownCurrency(),
    /// The name matches this many currencies.
    AmbiguousCurrency(usize),
    /// Not `prefix`, `suffix` or `socket`.
    UnknownLocation(),
    /// Not `base`, `essence` or `desecrated` (or `abyss`, `abyssal`).
    UnknownAffixClass(),
    /// A lookup in the item data failed.
    Lookup(CraftPathError),
}

/// All currencies whose display names need no context (everything except
/// essences and desecration bones), in listing order.
pub open spec fn static_list() -> Seq<CraftCurrencyEnum> {
    seq![
        CraftCurrencyEnum::OrbOfTransmutationNormal(),
        CraftCurrencyEnum::OrbOfTransmutationGreater(),
        CraftCurrencyEnum::OrbOfTransmutationPerfect(),
        CraftCurrencyEnum::OrbOfAugmentationNormal(),
        CraftCurrencyEnum::OrbOfAugmentationGreater(),
        CraftCurrencyEnum::OrbOfAugmentationPerfect(),
        CraftCurrencyEnum::RegalOrbNormal(),
        CraftCurrencyEnum::RegalOrbGreater(),
        CraftCurrencyEnum::RegalOrbPerfect(),
        CraftCurrencyEnum::ExaltedOrbNormal(),
        CraftCurrencyEnum::ExaltedOrbGreater(),
        CraftCurrencyEnum::ExaltedOrbPerfect(),
        CraftCurrencyEnum::ChaosOrbNormal(),
        CraftCurrencyEnum::ChaosOrbGreater(),
        CraftCurrencyEnum::ChaosOrbPerfect(),
        CraftCurrencyEnum::OrbOfAnnulment(),
        CraftCurrencyEnum::ArtificersOrb(),
        CraftCurrencyEnum::VaalOrb(),
        CraftCurrencyEnum::FracturingOrb(),
        CraftCurrencyEnum::OmenOfCorruption(),
        CraftCurrencyEnum::AbyssalEchoes(),
        CraftCurrencyEnum::OmenOfLight(),
        CraftCurrencyEnum::OmenOfGreaterExaltation(),
        CraftCurrencyEnum::TheBlackblooded(),
        CraftCurrencyEnum::TheSovereign(),
        CraftCurrencyEnum::TheLiege(),
        CraftCurrencyEnum::DextralNecromancy(),
        CraftCurrencyEnum::SinistralNecromancy(),
        CraftCurrencyEnum::HomogenisingCoronation(),
        CraftCurrencyEnum::HomogenisingExaltation(),
        CraftCurrencyEnum::DextralExaltation(),
        CraftCurrencyEnum::SinistralExaltation(),
        CraftCurrencyEnum::DextralAnnulment(),
        CraftCurrencyEnum::SinistralAnnulment(),
        CraftCurrencyEnum::DextralCrystallisation(),
        CraftCurrencyEnum::SinistralCrystallisation(),
        CraftCurrencyEnum::DextralErasure(),
        CraftCurrencyEnum::SinistralErasure(),
        CraftCurrencyEnum::Whittling()
    ]
}

/// All currencies with provider-independent display names.
pub fn static_currencies() -> (r: Vec<CraftCurrencyEnum>)
    ensures
        r@ == static_list(),
{
    let r = vec![
        CraftCurrencyEnum::OrbOfTransmutationNormal(),
        CraftCurrencyEnum::OrbOfTransmutationGreater(),
        CraftCurrencyEnum::OrbOfTransmutationPerfect(),
        CraftCurrencyEnum::OrbOfAugmentationNormal(),
        CraftCurrencyEnum::OrbOfAugmentationGreater(),
        CraftCurrencyEnum::OrbOfAugmentationPerfect(),
        CraftCurrencyEnum::RegalOrbNormal(),
        CraftCurrencyEnum::RegalOrbGreater(),
        CraftCurrencyEnum::RegalOrbPerfect(),
        CraftCurrencyEnum::ExaltedOrbNormal(),
        CraftCurrencyEnum::ExaltedOrbGreater(),
        CraftCurrencyEnum::ExaltedOrbPerfect(),
        CraftCurrencyEnum::ChaosOrbNormal(),
        CraftCurrencyEnum::ChaosOrbGreater(),
        CraftCurrencyEnum::ChaosOrbPerfect(),
        CraftCurrencyEnum::OrbOfAnnulment(),
        CraftCurrencyEnum::ArtificersOrb(),
        CraftCurrencyEnum::VaalOrb(),
        CraftCurrencyEnum::FracturingOrb(),
        CraftCurrencyEnum::OmenOfCorruption(),
        CraftCurrencyEnum::AbyssalEchoes(),
        CraftCurrencyEnum::OmenOfLight(),
        CraftCurrencyEnum::OmenOfGreaterExaltation(),
        CraftCurrencyEnum::TheBlackblooded(),
        CraftCurrencyEnum::TheSovereign(),
        CraftCurrencyEnum::TheLiege(),
        CraftCurrencyEnum::DextralNecromancy(),
        CraftCurrencyEnum::SinistralNecromancy(),
        CraftCurrencyEnum::HomogenisingCoronation(),
        CraftCurrencyEnum::HomogenisingExaltation(),
        CraftCurrencyEnum::DextralExaltation(),
        CraftCurrencyEnum::SinistralExaltation(),
        CraftCurrencyEnum::DextralAnnulment(),
        CraftCurrencyEnum::SinistralAnnulment(),
        CraftCurrencyEnum::DextralCrystallisation(),
        CraftCurrencyEnum::SinistralCrystallisation(),
        CraftCurrencyEnum::DextralErasure(),
        CraftCurrencyEnum::SinistralErasure(),
        CraftCurrencyEnum::Whittling()
    ];
    assert(r@ =~= static_list());
    r
}

pub open spec fn spec_parse_location(input: Seq<char>) -> Result<AffixLocationEnum, LookupError> {
    let s = lowercase(trim(input));
    if s == "prefix"@ {
        Ok(AffixLocationEnum::Prefix)
    } else if s == "suffix"@ {
        Ok(AffixLocationEnum::Suffix)
    } else if s == "socket"@ {
        Ok(AffixLocationEnum::Socket)
    } else {
        Err(LookupError::UnknownLocation())
    }
}

/// An affix location from its name, ignoring case and surrounding
/// whitespace.
pub fn parse_location(input: &str) -> (r: Result<AffixLocationEnum, LookupError>)
    ensures
        r == spec_parse_location(input@),
{
    let s = to_lowercase(trim_str(input));
    if str_eq(s.as_str(), "prefix") {
        Ok(AffixLocationEnum::Prefix)
    } else if str_eq(s.as_str(), "suffix") {
        Ok(AffixLocationEnum::Suffix)
    } else if str_eq(s.as_str(), "socket") {
        Ok(AffixLocationEnum::Socket)
    } else {
        Err(LookupError::UnknownLocation())
    }
}

pub open spec fn spec_parse_affix_class(input: Seq<char>) -> Result<AffixClassEnum, LookupError> {
    let s = lowercase(trim(input));
    if s == "base"@ {
        Ok(AffixClassEnum::Base)
    } else if s == "essence"@ {
        Ok(AffixClassEnum::Essence)
    } else if s == "desecrated"@ || s == "abyss"@ || s == "abyssal"@ {
        Ok(AffixClassEnum::Desecrated)
    } else {
        Err(LookupError::UnknownAffixClass())
    }
}

/// An affix class from its name, ignoring case and surrounding whitespace.
pub fn parse_affix_class(input: &str) -> (r: Result<AffixClassEnum, LookupError>)
    ensures
        r == spec_parse_affix_class(input@),
{
    let s = to_lowercase(trim_str(input));
    if str_eq(s.as_str(), "base") {
        Ok(AffixClassEnum::Base)
    } else if str_eq(s.as_str(), "essence") {
        Ok(AffixClassEnum::Essence)
    } else if str_eq(s.as_str(), "desecrated") || str_eq(s.as_str(), "abyss") || str_eq(s.as_str(), "abyssal") {
        Ok(AffixClassEnum::Desecrated)
    } else {
        Err(LookupError::UnknownAffixClass())
    }
}

/// Views of a list of strings.
pub open spec fn string_views(v: Seq<String>) -> Seq<Seq<char>> {
    v.map_values(|s: String| s@)
}

/// Views of a list of (essence, name) pairs.
pub open spec fn essence_name_views(v: Seq<(EssenceId, String)>) -> Seq<(EssenceId, Seq<char>)> {
    v.map_values(|p: (EssenceId, String)| (p.0, p.1@))
}

/// The first currency from position `i` on whose name equals the needle.
pub open spec fn first_exact(statics: Seq<CraftCurrencyEnum>, names: Seq<Seq<char>>, needle: Seq<char>, i: int) -> Option<CraftCurrencyEnum>
    decreases statics.len() - i,
{
    if i < 0 || i >= statics.len() {
        None
    } else if names[i] == needle {
        Some(statics[i])
    } else {
        first_exact(statics, names, needle, i + 1)
    }
}

/// The first `n` currencies whose name contains the needle, in order.
pub open spec fn static_matches(statics: Seq<CraftCurrencyEnum>, names: Seq<Seq<char>>, needle: Seq<char>, n: int) -> Seq<CraftCurrencyEnum>
    decreases n,
{
    if n <= 0 {
        Seq::empty()
    } else {
        let prev = static_matches(statics, names, needle, n - 1);
        if seq_contains(names[n - 1], needle) {
            prev.push(statics[n - 1])
        } else {
            prev
        }
    }
}

/// The essences whose name contains the needle, in order.
pub open spec fn essence_matches(es: Seq<(EssenceId, Seq<char>)>, needle: Seq<char>) -> Seq<CraftCurrencyEnum>
    decreases es.len(),
{
    if es.len() == 0 {
        Seq::empty()
    } else {
        let prev = essence_matches(es.drop_last(), needle);
        if seq_contains(es.last().1, needle) {
            prev.push(CraftCurrencyEnum::Essence(es.last().0))
        } else {
            prev
        }
    }
}

/// How a (trimmed, lower-cased) needle resolves against lower-cased
/// currency names: an exact static name wins; otherwise "desecrat" or
/// "bone" names the desecration bone of the item's base; otherwise exactly
/// one static or essence name must contain the needle.
pub open spec fn spec_pick_currency(
    needle: Seq<char>,
    statics: Seq<CraftCurrencyEnum>,
    names: Seq<Seq<char>>,
    essences: Seq<(EssenceId, Seq<char>)>,
    base: BaseItemId,
    pv: ItemInfoProvider,
) -> Result<CraftCurrencyEnum, LookupError> {
    if needle.len() == 0 {
        Err(LookupError::EmptyCurrencyName())
    } else {
        match first_exact(statics, names, needle, 0) {
            Some(c) => Ok(c),
            None => if seq_contains(needle, "desecrat"@) || seq_contains(needle, "bone"@) {
                match pv.base_group_of(base) {
                    None => Err(LookupError::Lookup(CraftPathError::BaseItemWithoutBaseGroup(base))),
                    Some(g) => Ok(CraftCurrencyEnum::Desecrator(base, g)),
                }
            } else {
                let m = static_matches(statics, names, needle, statics.len() as int) + essence_matches(essences, needle);
                if m.len() == 1 {
                    Ok(m[0])
                } else if m.len() == 0 {
                    Err(LookupError::UnknownCurrency())
                } else {
                    Err(LookupError::AmbiguousCurrency(m.len() as usize))
                }
            },
        }
    }
}

/// Resolve a needle against lower-cased names: `names[i]` is the name of
/// `statics[i]`, `essences` pairs each essence with its name.
pub fn pick_currency(
    needle: &str,
    statics: &Vec<CraftCurrencyEnum>,
    names: &Vec<String>,
    essences: &Vec<(EssenceId, String)>,
    base_id: BaseItemId,
    items: &ItemInfoProvider,
) -> (r: Result<CraftCurrencyEnum, LookupError>)
    requires
        names@.len() == statics@.len(),
    ensures
        r == spec_pick_currency(needle@, statics@, string_views(names@), essence_name_views(essences@), base_id, *items),
{
    let ghost nv = string_views(names@);
    let ghost ev = essence_name_views(essences@);
    if needle.unicode_len() == 0 {
        return Err(LookupError::EmptyCurrencyName());
    }
    let mut i: usize = 0;
    while i < statics.len()
        invariant
            i <= statics@.len(),
            names@.len() == statics@.len(),
            nv == string_views(names@),
            first_exact(statics@, nv, needle@, 0) == first_exact(statics@, nv, needle@, i as int),
            needle@.len() > 0,
        decreases statics.len() - i,
    {
        assert(nv[i as int] == names@[i as int]@);
        if str_eq(names[i].as_str(), needle) {
            return Ok(statics[i]);
        }
        i += 1;
    }
    if str_contains(needle, "desecrat") || str_contains(needle, "bone") {
        let group = match items.lookup_base_group(&base_id) {
            Ok(g) => g,
            Err(e) => return Err(LookupError::Lookup(e)),
        };
        return Ok(CraftCurrencyEnum::Desecrator(base_id, group));
    }
    let mut found: Vec<CraftCurrencyEnum> = Vec::new();
    let mut k: usize = 0;
    while k < statics.len()
        invariant
            k <= statics@.len(),
            names@.len() == statics@.len(),
            nv == string_views(names@),
            found@ == static_matches(statics@, nv, needle@, k as int),
        decreases statics.len() - k,
    {
        if str_contains(names[k].as_str(), needle) {
            found.push(statics[k]);
        }
        k += 1;
    }
    let ghost sm = found@;
    let mut e: usize = 0;
    while e < essences.len()
        invariant
            e <= essences@.len(),
            ev == essence_name_views(essences@),
            found@ == sm + essence_matches(ev.take(e as int), needle@),
        decreases essences.len() - e,
    {
        assert(ev.take(e + 1).drop_last() =~= ev.take(e as int));
        let ghost before = found@;
        if str_contains(essences[e].1.as_str(), needle) {
            found.push(CraftCurrencyEnum::Essence(essences[e].0));
            assert(found@ =~= sm + essence_matches(ev.take(e + 1), needle@));
        }
        e += 1;
    }
    assert(ev.take(essences@.len() as int) =~= ev);
    if found.len() == 1 {
        Ok(found[0])
    } else if found.len() == 0 {
        Err(LookupError::UnknownCurrency())
    } else {
        Err(LookupError::AmbiguousCurrency(found.len()))
    }
}

/// The lower-cased static names.
pub open spec fn lowered_static_names(statics: Seq<CraftCurrencyEnum>, pv: ItemInfoProvider) -> Seq<Seq<char>> {
    statics.map_values(|c: CraftCurrencyEnum| lowercase(spec_item_name(c, pv)))
}

/// The essences with their lower-cased names.
pub open spec fn lowered_essence_names(pv: ItemInfoProvider) -> Seq<(EssenceId, Seq<char>)> {
    pv.cache_essence_def@.map_values(|e: (EssenceId, crate::provider::EssenceDefinition)| (e.0, lowercase(e.1.name_essence@)))
}

/// Resolve a human currency name ("exalted orb", "greater chaos",
/// "desecrate", an essence name): the trimmed, lower-cased input is matched
/// against the lower-cased names as [`pick_currency`] does.
pub fn resolve_currency(input: &str, snapshot: &ItemSnapshot, items: &ItemInfoProvider) -> (r: Result<CraftCurrencyEnum, LookupError>)
    ensures
        r == spec_pick_currency(
            lowercase(trim(input@)),
            static_list(),
            lowered_static_names(static_list(), *items),
            lowered_essence_names(*items),
            snapshot.base_id,
            *items,
        ),
{
    let needle = to_lowercase(trim_str(input));
    let statics = static_currencies();
    let mut names: Vec<String> = Vec::new();
    let mut i: usize = 0;
    while i < statics.len()
        invariant
            i <= statics@.len(),
            names@.len() == i,
            string_views(names@) == lowered_static_names(statics@, *items).take(i as int),
        decreases statics.len() - i,
    {
        let name = statics[i].get_item_name(items);
        let lowered = to_lowercase(name.as_str());
        let ghost before = names@;
        names.push(lowered);
        assert(string_views(names@) =~= lowered_static_names(statics@, *items).take(i + 1)) by {
            assert(names@ =~= before.push(lowered));
            assert(string_views(names@)[i as int] == lowered@);
        }
        i += 1;
    }
    assert(lowered_static_names(statics@, *items).take(statics@.len() as int) =~= lowered_static_names(statics@, *items));
    let es = &items.cache_essence_def;
    let mut essences: Vec<(EssenceId, String)> = Vec::new();
    let mut j: usize = 0;
    while j < es.len()
        invariant
            j <= es@.len(),
            essences@.len() == j,
            es == &items.cache_essence_def,
            essence_name_views(essences@) == lowered_essence_names(*items).take(j as int),
        decreases es.len() - j,
    {
        let lowered = to_lowercase(es[j].1.name_essence.as_str());
        let ghost before = essences@;
        let pair = (es[j].0, lowered);
        essences.push(pair);
        assert(essence_name_views(essences@) =~= lowered_essence_names(*items).take(j + 1)) by {
            assert(essences@ =~= before.push(pair));
            assert(essence_name_views(essences@)[j as int] == (es@[j as int].0, lowered@));
        }
        j += 1;
    }
    assert(lowered_essence_names(*items).take(es@.len() as int) =~= lowered_essence_names(*items));
    pick_currency(needle.as_str(), &statics, &names, &essences, snapshot.base_id, items)
}

} // verus!
