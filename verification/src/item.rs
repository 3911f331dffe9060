//! Item snapshots: the complete craft-relevant state of one item.

use vstd::prelude::*;

use crate::types::{AffixId, AffixSpecifier, BaseItemId, ItemLevel, ItemRarityEnum};

verus! {

/// Craft-relevant state of an item. `affixes` and `sockets` are sets: no
/// specifier occurs twice (see [`ItemSnapshot::wf`]).
#[derive(Clone, Debug, PartialEq, Eq)]
pub struct ItemSnapshot {
    pub item_level: ItemLevel,
    pub rarity: ItemRarityEnum,
    pub base_id: BaseItemId,
    pub affixes: Vec<AffixSpecifier>,
    pub corrupted: bool,
    pub allowed_sockets: u8,
    pub sockets: Vec<AffixSpecifier>,
}

/// Mathematical value of a snapshot.
pub struct SnapshotView {
    pub item_level: ItemLevel,
    pub rarity: ItemRarityEnum,
    pub base_id: BaseItemId,
    pub affixes: Seq<AffixSpecifier>,
    pub corrupted: bool,
    pub allowed_sockets: u8,
    pub sockets: Seq<AffixSpecifier>,
}

impl View for ItemSnapshot {
    type V = SnapshotView;

    open spec fn view(&self) -> SnapshotView {
        SnapshotView {
            item_level: self.item_level,
            rarity: self.rarity,
            base_id: self.base_id,
            affixes: self.affixes@,
            corrupted: self.corrupted,
            allowed_sockets: self.allowed_sockets,
            sockets: self.sockets@,
        }
    }
}

impl ItemSnapshot {
    /// Affix and socket lists hold no specifier twice.
    pub open spec fn wf(&self) -> bool {
        self.affixes@.no_duplicates() && self.sockets@.no_duplicates()
    }

    /// The item carries an affix with this id (any tier, fractured or not).
    pub open spec fn has_affix_id(&self, id: AffixId) -> bool {
        exists|i: int| 0 <= i < self.affixes@.len() && #[trigger] self.affixes@[i].affix == id
    }

    /// An exact copy of the snapshot.
    pub fn duplicate(&self) -> (r: ItemSnapshot)
        ensures
            r@ == self@,
    {
        ItemSnapshot {
            item_level: self.item_level,
            rarity: self.rarity,
            base_id: self.base_id,
            affixes: copy_specifiers(&self.affixes),
            corrupted: self.corrupted,
            allowed_sockets: self.allowed_sockets,
            sockets: copy_specifiers(&self.sockets),
        }
    }
}

/// An element-wise copy of a specifier list.
pub fn copy_specifiers(v: &Vec<AffixSpecifier>) -> (r: Vec<AffixSpecifier>)
    ensures
        r@ == v@,
{
    let mut r: Vec<AffixSpecifier> = Vec::new();
    let mut i: usize = 0;
    while i < v.len()
        invariant
            i <= v.len(),
            r@ == v@.subrange(0, i as int),
        decreases v.len() - i,
    {
        r.push(v[i]);
        i += 1;
        assert(r@ =~= v@.subrange(0, i as int));
    }
    assert(r@ =~= v@);
    r
}

/// Whether some specifier in the list has this affix id.
pub fn contains_affix_id(v: &Vec<AffixSpecifier>, id: AffixId) -> (r: bool)
    ensures
        r == exists|i: int| 0 <= i < v@.len() && #[trigger] v@[i].affix == id,
{
    let mut i: usize = 0;
    while i < v.len()
        invariant
            i <= v.len(),
            forall|j: int| 0 <= j < i ==> #[trigger] v@[j].affix != id,
        decreases v.len() - i,
    {
        if v[i].affix.0 == id.0 {
            return true;
        }
        i += 1;
    }
    false
}

/// Set insertion: appends the specifier unless it is already present.
pub fn insert_specifier(v: &mut Vec<AffixSpecifier>, s: AffixSpecifier)
    ensures
        old(v)@.contains(s) ==> final(v)@ == old(v)@,
        !old(v)@.contains(s) ==> final(v)@ == old(v)@.push(s),
{
    let mut i: usize = 0;
    while i < v.len()
        invariant
            i <= v.len(),
            v@ == old(v)@,
            forall|j: int| 0 <= j < i ==> #[trigger] v@[j] != s,
        decreases v.len() - i,
    {
        if v[i] == s {
            return;
        }
        i += 1;
    }
    v.push(s);
}

} // verus!
