//! Curated "what is currently good" meta archetypes and their filters.

use vstd::prelude::*;

use crate::text::{lowercase, seq_contains, str_contains, to_lowercase, trim, trim_str};

verus! {

/// One curated archetype: which item it is about and the affixes it wants.
#[derive(Clone, Debug)]
pub struct MetaArchetype {
    pub slot: String,
    pub item_class: String,
    pub char_classes: Vec<String>,
    pub level_bracket: String,
    pub archetype: String,
    pub affixes: Vec<String>,
    pub craft_spec: Option<String>,
    pub notes: Option<String>,
}

/// The curated catalog.
#[derive(Clone, Debug)]
pub struct MetaCatalog {
    pub source: String,
    pub updated: String,
    pub game_patch: String,
    pub disclaimer: String,
    pub archetypes: Vec<MetaArchetype>,
}

/// Mathematical value of a [`MetaArchetype`].
pub struct ArchetypeView {
    pub slot: Seq<char>,
    pub item_class: Seq<char>,
    pub char_classes: Seq<Seq<char>>,
    pub level_bracket: Seq<char>,
    pub archetype: Seq<char>,
    pub affixes: Seq<Seq<char>>,
    pub craft_spec: Option<Seq<char>>,
    pub notes: Option<Seq<char>>,
}

pub open spec fn opt_view(o: Option<String>) -> Option<Seq<char>> {
    match o {
        Some(s) => Some(s@),
        None => None,
    }
}

pub open spec fn strings_view(v: Seq<String>) -> Seq<Seq<char>> {
    v.map_values(|s: String| s@)
}

impl View for MetaArchetype {
    type V = ArchetypeView;

    open spec fn view(&self) -> ArchetypeView {
        ArchetypeView {
            slot: self.slot@,
            item_class: self.item_class@,
            char_classes: strings_view(self.char_classes@),
            level_bracket: self.level_bracket@,
            archetype: self.archetype@,
            affixes: strings_view(self.affixes@),
            craft_spec: opt_view(self.craft_spec),
            notes: opt_view(self.notes),
        }
    }
}

pub open spec fn archetype_views(v: Seq<MetaArchetype>) -> Seq<ArchetypeView> {
    v.map_values(|a: MetaArchetype| a@)
}

/// ASCII lower case of one character.
pub open spec fn ascii_lower(c: char) -> char {
    if 'A' <= c && c <= 'Z' {
        ((c as u32) + 32) as char
    } else {
        c
    }
}

/// `str::eq_ignore_ascii_case`: equal up to ASCII case.
pub open spec fn eq_ignore_ascii_case(a: Seq<char>, b: Seq<char>) -> bool {
    a.len() == b.len() && forall|i: int| 0 <= i < a.len() ==> #[trigger] ascii_lower(a[i]) == ascii_lower(b[i])
}

fn ascii_lower_exec(c: char) -> (r: char)
    ensures
        r == ascii_lower(c),
{
    if 'A' <= c && c <= 'Z' {
        let v = (c as u32) + 32;
        assert(0x61 <= v <= 0x7a);
        let r = v as u8 as char;
        r
    } else {
        c
    }
}

fn eq_ignore_ascii_case_exec(a: &str, b: &str) -> (r: bool)
    ensures
        r == eq_ignore_ascii_case(a@, b@),
{
    let x = crate::text::chars_of(a);
    let y = crate::text::chars_of(b);
    if x.len() != y.len() {
        return false;
    }
    let mut i: usize = 0;
    while i < x.len()
        invariant
            i <= x@.len(),
            x@ == a@,
            y@ == b@,
            x@.len() == y@.len(),
            forall|k: int| 0 <= k < i ==> #[trigger] ascii_lower(x@[k]) == ascii_lower(y@[k]),
        decreases x.len() - i,
    {
        if ascii_lower_exec(x[i]) != ascii_lower_exec(y[i]) {
            return false;
        }
        i += 1;
    }
    true
}

/// A text filter: absent or blank matches everything, otherwise the
/// trimmed needle must occur in the text, ignoring case.
pub open spec fn text_matches(needle: Option<Seq<char>>, hay: Seq<char>) -> bool {
    match needle {
        None => true,
        Some(n) => trim(n).len() == 0 || seq_contains(lowercase(hay), lowercase(trim(n))),
    }
}

/// The character-class filter: absent or blank matches everything,
/// otherwise some class of the archetype is "any" or contains the needle.
pub open spec fn class_matches(needle: Option<Seq<char>>, classes: Seq<Seq<char>>) -> bool {
    match needle {
        None => true,
        Some(c) => trim(c).len() == 0 || exists|i: int| 0 <= i < classes.len() && (eq_ignore_ascii_case(#[trigger] classes[i], "any"@)
            || seq_contains(lowercase(classes[i]), lowercase(trim(c)))),
    }
}

/// An archetype passes the three filters.
pub open spec fn archetype_kept(
    a: ArchetypeView,
    item_class: Option<Seq<char>>,
    char_class: Option<Seq<char>>,
    level_bracket: Option<Seq<char>>,
) -> bool {
    &&& (text_matches(item_class, a.item_class) || text_matches(item_class, a.slot))
    &&& class_matches(char_class, a.char_classes)
    &&& (text_matches(level_bracket, a.level_bracket) || eq_ignore_ascii_case(a.level_bracket, "any"@))
}

pub open spec fn str_opt(o: Option<&str>) -> Option<Seq<char>> {
    match o {
        Some(s) => Some(s@),
        None => None,
    }
}

fn text_matches_exec(needle: Option<&str>, hay: &str) -> (r: bool)
    ensures
        r == text_matches(str_opt(needle), hay@),
{
    match needle {
        None => true,
        Some(n) => {
            let t = trim_str(n);
            if t.unicode_len() == 0 {
                return true;
            }
            let h = to_lowercase(hay);
            let l = to_lowercase(t);
            str_contains(h.as_str(), l.as_str())
        },
    }
}

fn class_matches_exec(needle: Option<&str>, classes: &Vec<String>) -> (r: bool)
    ensures
        r == class_matches(str_opt(needle), strings_view(classes@)),
{
    match needle {
        None => true,
        Some(c) => {
            let t = trim_str(c);
            if t.unicode_len() == 0 {
                return true;
            }
            let l = to_lowercase(t);
            let ghost cv = strings_view(classes@);
            let mut i: usize = 0;
            while i < classes.len()
                invariant
                    i <= classes@.len(),
                    cv == strings_view(classes@),
                    str_opt(needle) == Some(c@),
                    t@ == trim(c@),
                    l@ == lowercase(trim(c@)),
                    forall|k: int| 0 <= k < i ==> !(eq_ignore_ascii_case(#[trigger] cv[k], "any"@)
                        || seq_contains(lowercase(cv[k]), lowercase(trim(c@)))),
                decreases classes.len() - i,
            {
                let cc = classes[i].as_str();
                assert(cv[i as int] == cc@);
                let hit = eq_ignore_ascii_case_exec(cc, "any") || str_contains(to_lowercase(cc).as_str(), l.as_str());
                if hit {
                    assert(eq_ignore_ascii_case(cv[i as int], "any"@) || seq_contains(lowercase(cv[i as int]), lowercase(trim(c@))));
                    return true;
                }
                i += 1;
            }
            false
        },
    }
}

pub fn copy_strings(v: &Vec<String>) -> (r: Vec<String>)
    ensures
        strings_view(r@) == strings_view(v@),
{
    let mut r: Vec<String> = Vec::new();
    let mut i: usize = 0;
    while i < v.len()
        invariant
            i <= v@.len(),
            r@.len() == i,
            strings_view(r@) == strings_view(v@).take(i as int),
        decreases v.len() - i,
    {
        let s = v[i].clone();
        let ghost before = r@;
        r.push(s);
        assert(strings_view(r@) =~= strings_view(v@).take(i + 1)) by {
            assert(r@ =~= before.push(s));
            assert(strings_view(r@)[i as int] == v@[i as int]@);
        }
        i += 1;
    }
    assert(strings_view(v@).take(v@.len() as int) =~= strings_view(v@));
    r
}

fn copy_opt(o: &Option<String>) -> (r: Option<String>)
    ensures
        opt_view(r) == opt_view(*o),
{
    match o {
        Some(s) => Some(s.clone()),
        None => None,
    }
}

impl MetaArchetype {
    /// A copy of the archetype.
    pub fn duplicate(&self) -> (r: MetaArchetype)
        ensures
            r@ == self@,
    {
        MetaArchetype {
            slot: self.slot.clone(),
            item_class: self.item_class.clone(),
            char_classes: copy_strings(&self.char_classes),
            level_bracket: self.level_bracket.clone(),
            archetype: self.archetype.clone(),
            affixes: copy_strings(&self.affixes),
            craft_spec: copy_opt(&self.craft_spec),
            notes: copy_opt(&self.notes),
        }
    }
}

/// The archetypes that pass all filters, in catalog order. Filters are
/// case-insensitive substrings; an absent or blank filter matches
/// everything, and the classes or level bracket "any" match every class or
/// bracket.
pub fn filter_archetypes(
    catalog: &MetaCatalog,
    item_class: Option<&str>,
    char_class: Option<&str>,
    level_bracket: Option<&str>,
) -> (r: Vec<MetaArchetype>)
    ensures
        archetype_views(r@) == archetype_views(catalog.archetypes@).filter(
            |a: ArchetypeView| archetype_kept(a, str_opt(item_class), str_opt(char_class), str_opt(level_bracket)),
        ),
{
    let ghost f = |a: ArchetypeView| archetype_kept(a, str_opt(item_class), str_opt(char_class), str_opt(level_bracket));
    let ghost all = archetype_views(catalog.archetypes@);
    let mut out: Vec<MetaArchetype> = Vec::new();
    let mut i: usize = 0;
    assert(all.take(0) =~= Seq::<ArchetypeView>::empty());
    assert(archetype_views(out@) =~= Seq::<ArchetypeView>::empty());
    while i < catalog.archetypes.len()
        invariant
            i <= catalog.archetypes@.len(),
            all == archetype_views(catalog.archetypes@),
            f == (|a: ArchetypeView| archetype_kept(a, str_opt(item_class), str_opt(char_class), str_opt(level_bracket))),
            archetype_views(out@) == all.take(i as int).filter(f),
        decreases catalog.archetypes.len() - i,
    {
        let a = &catalog.archetypes[i];
        let keep = (text_matches_exec(item_class, a.item_class.as_str()) || text_matches_exec(item_class, a.slot.as_str()))
            && class_matches_exec(char_class, &a.char_classes)
            && (text_matches_exec(level_bracket, a.level_bracket.as_str()) || eq_ignore_ascii_case_exec(a.level_bracket.as_str(), "any"));
        proof {
            assert(all.take(i + 1) =~= all.take(i as int).push(a@));
            all.take(i as int).lemma_filter_push(a@, f);
        }
        if keep {
            let copy = a.duplicate();
            let ghost before = out@;
            out.push(copy);
            assert(archetype_views(out@) =~= archetype_views(before).push(a@));
        }
        i += 1;
    }
    assert(all.take(catalog.archetypes@.len() as int) =~= all);
    out
}

} // verus!
