//! Conversions between the domain types and their wire form (the messages
//! of the job API). Domain to wire is total; wire to domain is checked:
//! out-of-range ids, unspecified enums and missing payloads are rejected
//! with a [`ConvertError`].

use vstd::prelude::*;
use vstd::string::StringExecFns;

use crate::currency::{spec_item_name, CraftCurrencyEnum};
use crate::text::{append_decimal, decimal_string};
use crate::item::{insert_specifier, ItemSnapshot, SnapshotView};
use crate::provider::ItemInfoProvider;
use crate::types::{
    AffixId, AffixSpecifier, AffixTierConstraints, AffixTierLevel, AffixTierLevelBoundsEnum,
    BaseGroupId, BaseItemId, EssenceId, ItemLevel, ItemRarityEnum,
};

verus! {

/// A wire field that a conversion checks.
#[derive(Clone, Copy, Debug, PartialEq, Eq, Structural)]
pub enum WireField {
    ItemLevel,
    Rarity,
    BaseId,
    AllowedSockets,
    AffixId,
    AffixTier,
    TierTier,
    TierBounds,
    CurrencyKind,
    DesecratorBaseItemId,
    DesecratorBaseGroupId,
    EssenceId,
    MatrixBuilder,
    PathAnalyzers,
    GroupAnalyzers,
}

pub open spec fn spec_field_name(f: WireField) -> Seq<char> {
    match f {
        WireField::ItemLevel => "item_level"@,
        WireField::Rarity => "rarity"@,
        WireField::BaseId => "base_id"@,
        WireField::AllowedSockets => "allowed_sockets"@,
        WireField::AffixId => "affix_id"@,
        WireField::AffixTier => "affix.tier"@,
        WireField::TierTier => "tier.tier"@,
        WireField::TierBounds => "tier.bounds"@,
        WireField::CurrencyKind => "currency.kind"@,
        WireField::DesecratorBaseItemId => "desecrator.base_item_id"@,
        WireField::DesecratorBaseGroupId => "desecrator.base_group_id"@,
        WireField::EssenceId => "essence_id"@,
        WireField::MatrixBuilder => "matrix_builder"@,
        WireField::PathAnalyzers => "path_analyzers"@,
        WireField::GroupAnalyzers => "group_analyzers"@,
    }
}

impl WireField {
    /// The field's name in the wire schema.
    pub fn name(&self) -> (r: &'static str)
        ensures
            r@ == spec_field_name(*self),
    {
        match self {
            WireField::ItemLevel => "item_level",
            WireField::Rarity => "rarity",
            WireField::BaseId => "base_id",
            WireField::AllowedSockets => "allowed_sockets",
            WireField::AffixId => "affix_id",
            WireField::AffixTier => "affix.tier",
            WireField::TierTier => "tier.tier",
            WireField::TierBounds => "tier.bounds",
            WireField::CurrencyKind => "currency.kind",
            WireField::DesecratorBaseItemId => "desecrator.base_item_id",
            WireField::DesecratorBaseGroupId => "desecrator.base_group_id",
            WireField::EssenceId => "essence_id",
            WireField::MatrixBuilder => "matrix_builder",
            WireField::PathAnalyzers => "path_analyzers",
            WireField::GroupAnalyzers => "group_analyzers",
        }
    }
}

/// A currency kind that needs a payload.
#[derive(Clone, Copy, Debug, PartialEq, Eq, Structural)]
pub enum PayloadKind {
    /// `DESECRATOR` needs the `desecrator` payload.
    Desecrator,
    /// `ESSENCE` needs the `essence_id` payload.
    Essence,
}

/// Why a wire value was rejected.
#[derive(Clone, Copy, Debug, PartialEq, Eq, Structural)]
pub enum ConvertError {
    /// The field's value (second) exceeds the allowed maximum (third).
    OutOfRange(WireField, u64, u64),
    /// The field's enum value is unspecified.
    UnspecifiedEnum(WireField),
    /// The currency kind lacks its payload.
    MissingPayload(PayloadKind),
}

/// The range check of a `u8` field.
pub open spec fn spec_check_u8(field: WireField, value: u32) -> Result<u8, ConvertError> {
    if value <= u8::MAX {
        Ok(value as u8)
    } else {
        Err(ConvertError::OutOfRange(field, value as u64, u8::MAX as u64))
    }
}

/// The range check of a `u16` field.
pub open spec fn spec_check_u16(field: WireField, value: u32) -> Result<u16, ConvertError> {
    if value <= u16::MAX {
        Ok(value as u16)
    } else {
        Err(ConvertError::OutOfRange(field, value as u64, u16::MAX as u64))
    }
}

pub fn check_u8(field: WireField, value: u32) -> (r: Result<u8, ConvertError>)
    ensures
        r == spec_check_u8(field, value),
{
    if value <= 255 {
        Ok(value as u8)
    } else {
        Err(ConvertError::OutOfRange(field, value as u64, 255))
    }
}

pub fn check_u16(field: WireField, value: u32) -> (r: Result<u16, ConvertError>)
    ensures
        r == spec_check_u16(field, value),
{
    if value <= 65535 {
        Ok(value as u16)
    } else {
        Err(ConvertError::OutOfRange(field, value as u64, 65535))
    }
}

pub open spec fn spec_payload_names(k: PayloadKind) -> (Seq<char>, Seq<char>) {
    match k {
        PayloadKind::Desecrator => ("DESECRATOR"@, "desecrator"@),
        PayloadKind::Essence => ("ESSENCE"@, "essence_id"@),
    }
}

/// The human-readable message of an error.
pub open spec fn spec_message(e: ConvertError) -> Seq<char> {
    match e {
        ConvertError::OutOfRange(f, v, m) => "field '"@ + spec_field_name(f) + "': value "@ + decimal_string(v as nat)
            + " exceeds the allowed maximum of "@ + decimal_string(m as nat),
        ConvertError::UnspecifiedEnum(f) => "field '"@ + spec_field_name(f) + "': enum value is unspecified or unknown"@,
        ConvertError::MissingPayload(k) => "craft currency kind '"@ + spec_payload_names(k).0 + "' requires the payload field '"@
            + spec_payload_names(k).1 + "'"@,
    }
}

impl ConvertError {
    /// The human-readable message of the error.
    pub fn message(&self) -> (r: String)
        ensures
            r@ == spec_message(*self),
    {
        match self {
            ConvertError::OutOfRange(f, v, m) => {
                let mut s = String::from_str("field '");
                s.append(f.name());
                s.append("': value ");
                append_decimal(&mut s, *v);
                s.append(" exceeds the allowed maximum of ");
                append_decimal(&mut s, *m);
                s
            },
            ConvertError::UnspecifiedEnum(f) => {
                let mut s = String::from_str("field '");
                s.append(f.name());
                s.append("': enum value is unspecified or unknown");
                s
            },
            ConvertError::MissingPayload(k) => {
                let (kind, payload) = match k {
                    PayloadKind::Desecrator => ("DESECRATOR", "desecrator"),
                    PayloadKind::Essence => ("ESSENCE", "essence_id"),
                };
                let mut s = String::from_str("craft currency kind '");
                s.append(kind);
                s.append("' requires the payload field '");
                s.append(payload);
                s.append("'");
                s
            },
        }
    }
}

/// Wire form of an item rarity.
#[derive(Clone, Copy, Debug, PartialEq, Eq, Structural)]
pub enum WireItemRarity {
    Unspecified,
    Normal,
    Magic,
    Rare,
    Unique,
}

/// Wire form of a tier bound.
#[derive(Clone, Copy, Debug, PartialEq, Eq, Structural)]
pub enum WireTierBounds {
    Unspecified,
    Exact,
    Minimum,
}

/// Wire form of a tier constraint.
#[derive(Clone, Copy, Debug, PartialEq, Eq, Structural)]
pub struct WireAffixTierConstraints {
    pub tier: u32,
    pub bounds: WireTierBounds,
}

/// Wire form of an affix specifier.
#[derive(Clone, Copy, Debug, PartialEq, Eq, Structural)]
pub struct WireAffixSpecifier {
    pub affix_id: u32,
    pub fractured: bool,
    pub tier: Option<WireAffixTierConstraints>,
}

/// Wire form of an item snapshot.
#[derive(Clone, Debug)]
pub struct WireItemSnapshot {
    pub item_level: u32,
    pub rarity: WireItemRarity,
    pub base_id: u32,
    pub affixes: Vec<WireAffixSpecifier>,
    pub corrupted: bool,
    pub allowed_sockets: u32,
    pub sockets: Vec<WireAffixSpecifier>,
}

pub open spec fn spec_rarity_to_wire(r: ItemRarityEnum) -> WireItemRarity {
    match r {
        ItemRarityEnum::Normal => WireItemRarity::Normal,
        ItemRarityEnum::Magic => WireItemRarity::Magic,
        ItemRarityEnum::Rare => WireItemRarity::Rare,
        ItemRarityEnum::Unique => WireItemRarity::Unique,
    }
}

pub open spec fn spec_rarity_from_wire(r: WireItemRarity) -> Result<ItemRarityEnum, ConvertError> {
    match r {
        WireItemRarity::Normal => Ok(ItemRarityEnum::Normal),
        WireItemRarity::Magic => Ok(ItemRarityEnum::Magic),
        WireItemRarity::Rare => Ok(ItemRarityEnum::Rare),
        WireItemRarity::Unique => Ok(ItemRarityEnum::Unique),
        WireItemRarity::Unspecified => Err(ConvertError::UnspecifiedEnum(WireField::Rarity)),
    }
}

pub fn rarity_to_wire(r: &ItemRarityEnum) -> (w: WireItemRarity)
    ensures
        w == spec_rarity_to_wire(*r),
{
    match r {
        ItemRarityEnum::Normal => WireItemRarity::Normal,
        ItemRarityEnum::Magic => WireItemRarity::Magic,
        ItemRarityEnum::Rare => WireItemRarity::Rare,
        ItemRarityEnum::Unique => WireItemRarity::Unique,
    }
}

pub fn rarity_from_wire(r: WireItemRarity) -> (d: Result<ItemRarityEnum, ConvertError>)
    ensures
        d == spec_rarity_from_wire(r),
{
    match r {
        WireItemRarity::Normal => Ok(ItemRarityEnum::Normal),
        WireItemRarity::Magic => Ok(ItemRarityEnum::Magic),
        WireItemRarity::Rare => Ok(ItemRarityEnum::Rare),
        WireItemRarity::Unique => Ok(ItemRarityEnum::Unique),
        WireItemRarity::Unspecified => Err(ConvertError::UnspecifiedEnum(WireField::Rarity)),
    }
}

pub open spec fn spec_bounds_to_wire(b: AffixTierLevelBoundsEnum) -> WireTierBounds {
    match b {
        AffixTierLevelBoundsEnum::Exact => WireTierBounds::Exact,
        AffixTierLevelBoundsEnum::Minimum => WireTierBounds::Minimum,
    }
}

pub open spec fn spec_bounds_from_wire(b: WireTierBounds) -> Result<AffixTierLevelBoundsEnum, ConvertError> {
    match b {
        WireTierBounds::Exact => Ok(AffixTierLevelBoundsEnum::Exact),
        WireTierBounds::Minimum => Ok(AffixTierLevelBoundsEnum::Minimum),
        WireTierBounds::Unspecified => Err(ConvertError::UnspecifiedEnum(WireField::TierBounds)),
    }
}

/// Wire form of an affix specifier.
pub open spec fn spec_affix_to_wire(a: AffixSpecifier) -> WireAffixSpecifier {
    WireAffixSpecifier {
        affix_id: a.affix.0 as u32,
        fractured: a.fractured,
        tier: Some(WireAffixTierConstraints { tier: a.tier.tier.0 as u32, bounds: spec_bounds_to_wire(a.tier.bounds) }),
    }
}

/// Checked domain form of a wire affix specifier: the tier constraint must
/// be present, then the id, the tier and the bounds are checked in that
/// order.
pub open spec fn spec_affix_from_wire(a: WireAffixSpecifier) -> Result<AffixSpecifier, ConvertError> {
    match a.tier {
        None => Err(ConvertError::UnspecifiedEnum(WireField::AffixTier)),
        Some(t) => match spec_check_u16(WireField::AffixId, a.affix_id) {
            Err(e) => Err(e),
            Ok(id) => match spec_check_u8(WireField::TierTier, t.tier) {
                Err(e) => Err(e),
                Ok(tier) => match spec_bounds_from_wire(t.bounds) {
                    Err(e) => Err(e),
                    Ok(bounds) => Ok(AffixSpecifier {
                        affix: AffixId(id),
                        fractured: a.fractured,
                        tier: AffixTierConstraints { tier: AffixTierLevel(tier), bounds },
                    }),
                },
            },
        },
    }
}

impl WireAffixSpecifier {
    /// Wire form of a domain affix specifier.
    pub fn from_domain(a: &AffixSpecifier) -> (r: WireAffixSpecifier)
        ensures
            r == spec_affix_to_wire(*a),
    {
        let bounds = match a.tier.bounds {
            AffixTierLevelBoundsEnum::Exact => WireTierBounds::Exact,
            AffixTierLevelBoundsEnum::Minimum => WireTierBounds::Minimum,
        };
        WireAffixSpecifier {
            affix_id: a.affix.0 as u32,
            fractured: a.fractured,
            tier: Some(WireAffixTierConstraints { tier: a.tier.tier.0 as u32, bounds }),
        }
    }

    /// Checked domain form.
    pub fn to_domain(&self) -> (r: Result<AffixSpecifier, ConvertError>)
        ensures
            r == spec_affix_from_wire(*self),
    {
        let t = match self.tier {
            Some(t) => t,
            None => return Err(ConvertError::UnspecifiedEnum(WireField::AffixTier)),
        };
        let id = check_u16(WireField::AffixId, self.affix_id)?;
        let tier = check_u8(WireField::TierTier, t.tier)?;
        let bounds = match t.bounds {
            WireTierBounds::Exact => AffixTierLevelBoundsEnum::Exact,
            WireTierBounds::Minimum => AffixTierLevelBoundsEnum::Minimum,
            WireTierBounds::Unspecified => return Err(ConvertError::UnspecifiedEnum(WireField::TierBounds)),
        };
        Ok(AffixSpecifier { affix: AffixId(id), fractured: self.fractured, tier: AffixTierConstraints { tier: AffixTierLevel(tier), bounds } })
    }
}

pub open spec fn wire_affixes(s: Seq<AffixSpecifier>) -> Seq<WireAffixSpecifier> {
    s.map_values(|a: AffixSpecifier| spec_affix_to_wire(a))
}

/// Checked conversion of a wire affix list into a set: the first failing
/// entry decides the error; repeated entries collapse.
pub open spec fn spec_affixes_from_wire(w: Seq<WireAffixSpecifier>) -> Result<Seq<AffixSpecifier>, ConvertError>
    decreases w.len(),
{
    if w.len() == 0 {
        Ok(Seq::empty())
    } else {
        match spec_affixes_from_wire(w.drop_last()) {
            Err(e) => Err(e),
            Ok(prev) => match spec_affix_from_wire(w.last()) {
                Err(e) => Err(e),
                Ok(a) => Ok(if prev.contains(a) { prev } else { prev.push(a) }),
            },
        }
    }
}

/// The wire tier bound and the domain bound of the same name.
pub open spec fn same_bounds_name(w: WireTierBounds, b: AffixTierLevelBoundsEnum) -> bool {
    ||| w == WireTierBounds::Exact && b == AffixTierLevelBoundsEnum::Exact
    ||| w == WireTierBounds::Minimum && b == AffixTierLevelBoundsEnum::Minimum
}

/// Tier bounds cross the wire under their own names.
pub proof fn law_bounds_keep_their_name(w: WireTierBounds, b: AffixTierLevelBoundsEnum)
    ensures
        spec_bounds_from_wire(w) matches Ok(r) ==> same_bounds_name(w, r),
        w != WireTierBounds::Unspecified <==> spec_bounds_from_wire(w) is Ok,
        same_bounds_name(spec_bounds_to_wire(b), b),
{
}

/// A converted affix keeps its id, fracture mark, tier and tier bound,
/// and an affix goes out on the wire with them.
pub proof fn law_affix_keeps_its_fields(w: WireAffixSpecifier, a: AffixSpecifier)
    ensures
        spec_affix_from_wire(w) matches Ok(r) ==> {
            &&& r.affix.0 as u32 == w.affix_id
            &&& r.fractured == w.fractured
            &&& w.tier matches Some(t) && r.tier.tier.0 as u32 == t.tier && same_bounds_name(t.bounds, r.tier.bounds)
        },
        spec_affix_to_wire(a).affix_id == a.affix.0 as u32,
        spec_affix_to_wire(a).fractured == a.fractured,
        spec_affix_to_wire(a).tier matches Some(t) && t.tier == a.tier.tier.0 as u32 && same_bounds_name(t.bounds, a.tier.bounds),
{
    law_bounds_keep_their_name(w.tier->Some_0.bounds, a.tier.bounds);
}

/// The wire rarity and the domain rarity of the same name.
pub open spec fn same_rarity_name(w: WireItemRarity, d: ItemRarityEnum) -> bool {
    ||| w == WireItemRarity::Normal && d == ItemRarityEnum::Normal
    ||| w == WireItemRarity::Magic && d == ItemRarityEnum::Magic
    ||| w == WireItemRarity::Rare && d == ItemRarityEnum::Rare
    ||| w == WireItemRarity::Unique && d == ItemRarityEnum::Unique
}

/// Every rarity crosses the wire under its own name: each named wire
/// rarity converts to the domain rarity of that name, the unspecified one
/// is refused, and each domain rarity goes out as the wire rarity of its
/// name.
pub proof fn law_rarity_keeps_its_name(w: WireItemRarity, d: ItemRarityEnum)
    ensures
        spec_rarity_from_wire(w) matches Ok(r) ==> same_rarity_name(w, r),
        w != WireItemRarity::Unspecified <==> spec_rarity_from_wire(w) is Ok,
        same_rarity_name(spec_rarity_to_wire(d), d),
{
}

/// A converted snapshot keeps the rarity of its wire form by name, and a
/// snapshot goes out on the wire with the rarity of its name.
pub proof fn law_snapshot_keeps_rarity_name(w: WireItemSnapshot, s: SnapshotView)
    ensures
        spec_snapshot_from_wire(w) matches Ok(v) ==> same_rarity_name(w.rarity, v.rarity),
        same_rarity_name(spec_snapshot_to_wire(s).1, s.rarity),
{
    law_rarity_keeps_its_name(w.rarity, s.rarity);
}

/// Wire form of a snapshot.
pub open spec fn spec_snapshot_to_wire(s: SnapshotView) -> (u32, WireItemRarity, u32, Seq<WireAffixSpecifier>, bool, u32, Seq<WireAffixSpecifier>) {
    (
        s.item_level.0 as u32,
        spec_rarity_to_wire(s.rarity),
        s.base_id.0 as u32,
        wire_affixes(s.affixes),
        s.corrupted,
        s.allowed_sockets as u32,
        wire_affixes(s.sockets),
    )
}

impl WireItemSnapshot {
    pub open spec fn fields(&self) -> (u32, WireItemRarity, u32, Seq<WireAffixSpecifier>, bool, u32, Seq<WireAffixSpecifier>) {
        (self.item_level, self.rarity, self.base_id, self.affixes@, self.corrupted, self.allowed_sockets, self.sockets@)
    }
}

/// Checked domain form of a wire snapshot: affixes, then sockets, then the
/// item level, rarity, base id and socket count, in that order.
pub open spec fn spec_snapshot_from_wire(w: WireItemSnapshot) -> Result<SnapshotView, ConvertError> {
    match spec_affixes_from_wire(w.affixes@) {
        Err(e) => Err(e),
        Ok(affixes) => match spec_affixes_from_wire(w.sockets@) {
            Err(e) => Err(e),
            Ok(sockets) => match spec_check_u8(WireField::ItemLevel, w.item_level) {
                Err(e) => Err(e),
                Ok(ilvl) => match spec_rarity_from_wire(w.rarity) {
                    Err(e) => Err(e),
                    Ok(rarity) => match spec_check_u16(WireField::BaseId, w.base_id) {
                        Err(e) => Err(e),
                        Ok(base) => match spec_check_u8(WireField::AllowedSockets, w.allowed_sockets) {
                            Err(e) => Err(e),
                            Ok(sock) => Ok(SnapshotView {
                                item_level: ItemLevel(ilvl),
                                rarity,
                                base_id: BaseItemId(base),
                                affixes,
                                corrupted: w.corrupted,
                                allowed_sockets: sock,
                                sockets,
                            }),
                        },
                    },
                },
            },
        },
    }
}

fn affixes_to_wire(v: &Vec<AffixSpecifier>) -> (r: Vec<WireAffixSpecifier>)
    ensures
        r@ == wire_affixes(v@),
{
    let mut r: Vec<WireAffixSpecifier> = Vec::new();
    let mut i: usize = 0;
    while i < v.len()
        invariant
            i <= v@.len(),
            r@ == wire_affixes(v@.take(i as int)),
        decreases v.len() - i,
    {
        r.push(WireAffixSpecifier::from_domain(&v[i]));
        i += 1;
        assert(r@ =~= wire_affixes(v@.take(i as int)));
    }
    assert(v@.take(v@.len() as int) =~= v@);
    r
}

/// Once a prefix fails, the whole list fails the same way.
pub proof fn lemma_affixes_from_wire_err(w: Seq<WireAffixSpecifier>, n: int)
    requires
        0 <= n <= w.len(),
        spec_affixes_from_wire(w.take(n)) is Err,
    ensures
        spec_affixes_from_wire(w) == spec_affixes_from_wire(w.take(n)),
    decreases w.len() - n,
{
    if n < w.len() {
        assert(w.take(n + 1).drop_last() =~= w.take(n));
        lemma_affixes_from_wire_err(w, n + 1);
    } else {
        assert(w.take(n) =~= w);
    }
}

fn affixes_from_wire(w: &Vec<WireAffixSpecifier>) -> (r: Result<Vec<AffixSpecifier>, ConvertError>)
    ensures
        match r {
            Ok(v) => spec_affixes_from_wire(w@) == Ok::<Seq<AffixSpecifier>, ConvertError>(v@),
            Err(e) => spec_affixes_from_wire(w@) == Err::<Seq<AffixSpecifier>, ConvertError>(e),
        },
{
    let mut out: Vec<AffixSpecifier> = Vec::new();
    let mut i: usize = 0;
    assert(w@.take(0) =~= Seq::<WireAffixSpecifier>::empty());
    while i < w.len()
        invariant
            i <= w@.len(),
            spec_affixes_from_wire(w@.take(i as int)) == Ok::<Seq<AffixSpecifier>, ConvertError>(out@),
        decreases w.len() - i,
    {
        assert(w@.take(i + 1).drop_last() =~= w@.take(i as int));
        match w[i].to_domain() {
            Err(e) => {
                proof {
                    lemma_affixes_from_wire_err(w@, i + 1);
                }
                return Err(e);
            },
            Ok(a) => insert_specifier(&mut out, a),
        }
        i += 1;
    }
    assert(w@.take(w@.len() as int) =~= w@);
    Ok(out)
}

impl WireItemSnapshot {
    /// An exact copy.
    pub fn duplicate(&self) -> (r: WireItemSnapshot)
        ensures
            r.fields() == self.fields(),
    {
        let mut affixes: Vec<WireAffixSpecifier> = Vec::new();
        let mut i: usize = 0;
        while i < self.affixes.len()
            invariant
                i <= self.affixes@.len(),
                affixes@ == self.affixes@.take(i as int),
            decreases self.affixes.len() - i,
        {
            affixes.push(self.affixes[i]);
            i += 1;
            assert(affixes@ =~= self.affixes@.take(i as int));
        }
        let mut sockets: Vec<WireAffixSpecifier> = Vec::new();
        let mut j: usize = 0;
        while j < self.sockets.len()
            invariant
                j <= self.sockets@.len(),
                sockets@ == self.sockets@.take(j as int),
            decreases self.sockets.len() - j,
        {
            sockets.push(self.sockets[j]);
            j += 1;
            assert(sockets@ =~= self.sockets@.take(j as int));
        }
        assert(self.affixes@.take(self.affixes@.len() as int) =~= self.affixes@);
        assert(self.sockets@.take(self.sockets@.len() as int) =~= self.sockets@);
        WireItemSnapshot {
            item_level: self.item_level,
            rarity: self.rarity,
            base_id: self.base_id,
            affixes,
            corrupted: self.corrupted,
            allowed_sockets: self.allowed_sockets,
            sockets,
        }
    }

    /// Wire form of a domain snapshot.
    pub fn from_domain(s: &ItemSnapshot) -> (r: WireItemSnapshot)
        ensures
            r.fields() == spec_snapshot_to_wire(s@),
    {
        WireItemSnapshot {
            item_level: s.item_level.0 as u32,
            rarity: rarity_to_wire(&s.rarity),
            base_id: s.base_id.0 as u32,
            affixes: affixes_to_wire(&s.affixes),
            corrupted: s.corrupted,
            allowed_sockets: s.allowed_sockets as u32,
            sockets: affixes_to_wire(&s.sockets),
        }
    }

    /// Checked domain form.
    pub fn to_domain(&self) -> (r: Result<ItemSnapshot, ConvertError>)
        ensures
            match r {
                Ok(s) => spec_snapshot_from_wire(*self) == Ok::<SnapshotView, ConvertError>(s@) && s.wf(),
                Err(e) => spec_snapshot_from_wire(*self) == Err::<SnapshotView, ConvertError>(e),
            },
    {
        let affixes = affixes_from_wire(&self.affixes)?;
        let sockets = affixes_from_wire(&self.sockets)?;
        proof {
            lemma_affixes_from_wire_set(self.affixes@);
            lemma_affixes_from_wire_set(self.sockets@);
        }
        let item_level = check_u8(WireField::ItemLevel, self.item_level)?;
        let rarity = rarity_from_wire(self.rarity)?;
        let base_id = check_u16(WireField::BaseId, self.base_id)?;
        let allowed_sockets = check_u8(WireField::AllowedSockets, self.allowed_sockets)?;
        Ok(ItemSnapshot {
            item_level: ItemLevel(item_level),
            rarity,
            base_id: BaseItemId(base_id),
            affixes,
            corrupted: self.corrupted,
            allowed_sockets,
            sockets,
        })
    }
}

/// A converted affix list is a set.
pub proof fn lemma_affixes_from_wire_set(w: Seq<WireAffixSpecifier>)
    ensures
        spec_affixes_from_wire(w) matches Ok(s) ==> s.no_duplicates(),
    decreases w.len(),
{
    if w.len() > 0 {
        lemma_affixes_from_wire_set(w.drop_last());
        if let Ok(prev) = spec_affixes_from_wire(w.drop_last()) {
            if let Ok(a) = spec_affix_from_wire(w.last()) {
                if !prev.contains(a) {
                    assert forall|i: int, j: int| 0 <= i < j < prev.push(a).len() implies prev.push(a)[i] != prev.push(a)[j] by {
                        if j == prev.len() {
                            assert(prev[i] != a);
                        }
                    }
                }
            }
        }
    }
}

/// Domain to wire and back gives the same affix specifier.
pub proof fn lemma_affix_roundtrip(a: AffixSpecifier)
    ensures
        spec_affix_from_wire(spec_affix_to_wire(a)) == Ok::<AffixSpecifier, ConvertError>(a),
{
    match a.tier.bounds {
        AffixTierLevelBoundsEnum::Exact => {},
        AffixTierLevelBoundsEnum::Minimum => {},
    }
}

/// A duplicate-free affix list survives the wire round trip unchanged.
pub proof fn lemma_affixes_roundtrip(s: Seq<AffixSpecifier>)
    requires
        s.no_duplicates(),
    ensures
        spec_affixes_from_wire(wire_affixes(s)) == Ok::<Seq<AffixSpecifier>, ConvertError>(s),
    decreases s.len(),
{
    if s.len() == 0 {
        assert(wire_affixes(s) =~= Seq::<WireAffixSpecifier>::empty());
        assert(s =~= Seq::<AffixSpecifier>::empty());
    } else {
        let d = s.drop_last();
        assert(d.no_duplicates());
        assert(wire_affixes(s).drop_last() =~= wire_affixes(d));
        assert(wire_affixes(s).last() == spec_affix_to_wire(s.last()));
        lemma_affixes_roundtrip(d);
        lemma_affix_roundtrip(s.last());
        if d.contains(s.last()) {
            let i = choose|i: int| 0 <= i < d.len() && d[i] == s.last();
            assert(s[i] == s[s.len() - 1]);
        }
        assert(d.push(s.last()) =~= s);
    }
}

/// A well-formed snapshot (its affix and socket lists are sets) survives
/// the wire round trip unchanged.
pub proof fn lemma_snapshot_roundtrip(s: ItemSnapshot, w: WireItemSnapshot)
    requires
        s.wf(),
        w.fields() == spec_snapshot_to_wire(s@),
    ensures
        spec_snapshot_from_wire(w) == Ok::<SnapshotView, ConvertError>(s@),
{
    lemma_affixes_roundtrip(s.affixes@);
    lemma_affixes_roundtrip(s.sockets@);
    match s.rarity {
        ItemRarityEnum::Normal => {},
        ItemRarityEnum::Magic => {},
        ItemRarityEnum::Rare => {},
        ItemRarityEnum::Unique => {},
    }
}

/// Wire kind of a craft currency.
#[derive(Clone, Copy, Debug, PartialEq, Eq, Structural)]
pub enum WireCurrencyKind {
    Unspecified,
    OrbOfTransmutationNormal,
    OrbOfTransmutationGreater,
    OrbOfTransmutationPerfect,
    OrbOfAugmentationNormal,
    OrbOfAugmentationGreater,
    OrbOfAugmentationPerfect,
    RegalOrbNormal,
    RegalOrbGreater,
    RegalOrbPerfect,
    ExaltedOrbNormal,
    ExaltedOrbGreater,
    ExaltedOrbPerfect,
    OrbOfAnnulment,
    ChaosOrbNormal,
    ChaosOrbGreater,
    ChaosOrbPerfect,
    ArtificersOrb,
    VaalOrb,
    OmenOfCorruption,
    FracturingOrb,
    Desecrator,
    AbyssalEchoes,
    TheBlackblooded,
    TheSovereign,
    TheLiege,
    DextralNecromancy,
    SinistralNecromancy,
    HomogenisingCoronation,
    HomogenisingExaltation,
    DextralExaltation,
    SinistralExaltation,
    DextralAnnulment,
    SinistralAnnulment,
    DextralErasure,
    SinistralErasure,
    Whittling,
    OmenOfGreaterExaltation,
    OmenOfLight,
    Essence,
    DextralCrystallisation,
    SinistralCrystallisation,
}

/// Payload of the `Desecrator` kind.
#[derive(Clone, Copy, Debug, PartialEq, Eq, Structural)]
pub struct WireDesecratorPayload {
    pub base_item_id: u32,
    pub base_group_id: u32,
}

/// Wire form of a craft currency, with its resolved display name.
#[derive(Clone, Debug)]
pub struct WireCraftCurrency {
    pub kind: WireCurrencyKind,
    pub desecrator: Option<WireDesecratorPayload>,
    pub essence_id: Option<u32>,
    pub display_name: String,
}

/// The wire kind of a currency.
pub open spec fn spec_currency_kind(c: CraftCurrencyEnum) -> WireCurrencyKind {
    match c {
        CraftCurrencyEnum::OrbOfTransmutationNormal() => WireCurrencyKind::OrbOfTransmutationNormal,
        CraftCurrencyEnum::OrbOfTransmutationGreater() => WireCurrencyKind::OrbOfTransmutationGreater,
        CraftCurrencyEnum::OrbOfTransmutationPerfect() => WireCurrencyKind::OrbOfTransmutationPerfect,
        CraftCurrencyEnum::OrbOfAugmentationNormal() => WireCurrencyKind::OrbOfAugmentationNormal,
        CraftCurrencyEnum::OrbOfAugmentationGreater() => WireCurrencyKind::OrbOfAugmentationGreater,
        CraftCurrencyEnum::OrbOfAugmentationPerfect() => WireCurrencyKind::OrbOfAugmentationPerfect,
        CraftCurrencyEnum::RegalOrbNormal() => WireCurrencyKind::RegalOrbNormal,
        CraftCurrencyEnum::RegalOrbGreater() => WireCurrencyKind::RegalOrbGreater,
        CraftCurrencyEnum::RegalOrbPerfect() => WireCurrencyKind::RegalOrbPerfect,
        CraftCurrencyEnum::ExaltedOrbNormal() => WireCurrencyKind::ExaltedOrbNormal,
        CraftCurrencyEnum::ExaltedOrbGreater() => WireCurrencyKind::ExaltedOrbGreater,
        CraftCurrencyEnum::ExaltedOrbPerfect() => WireCurrencyKind::ExaltedOrbPerfect,
        CraftCurrencyEnum::OrbOfAnnulment() => WireCurrencyKind::OrbOfAnnulment,
        CraftCurrencyEnum::ChaosOrbNormal() => WireCurrencyKind::ChaosOrbNormal,
        CraftCurrencyEnum::ChaosOrbGreater() => WireCurrencyKind::ChaosOrbGreater,
        CraftCurrencyEnum::ChaosOrbPerfect() => WireCurrencyKind::ChaosOrbPerfect,
        CraftCurrencyEnum::ArtificersOrb() => WireCurrencyKind::ArtificersOrb,
        CraftCurrencyEnum::VaalOrb() => WireCurrencyKind::VaalOrb,
        CraftCurrencyEnum::OmenOfCorruption() => WireCurrencyKind::OmenOfCorruption,
        CraftCurrencyEnum::FracturingOrb() => WireCurrencyKind::FracturingOrb,
        CraftCurrencyEnum::AbyssalEchoes() => WireCurrencyKind::AbyssalEchoes,
        CraftCurrencyEnum::TheBlackblooded() => WireCurrencyKind::TheBlackblooded,
        CraftCurrencyEnum::TheSovereign() => WireCurrencyKind::TheSovereign,
        CraftCurrencyEnum::TheLiege() => WireCurrencyKind::TheLiege,
        CraftCurrencyEnum::DextralNecromancy() => WireCurrencyKind::DextralNecromancy,
        CraftCurrencyEnum::SinistralNecromancy() => WireCurrencyKind::SinistralNecromancy,
        CraftCurrencyEnum::HomogenisingCoronation() => WireCurrencyKind::HomogenisingCoronation,
        CraftCurrencyEnum::HomogenisingExaltation() => WireCurrencyKind::HomogenisingExaltation,
        CraftCurrencyEnum::DextralExaltation() => WireCurrencyKind::DextralExaltation,
        CraftCurrencyEnum::SinistralExaltation() => WireCurrencyKind::SinistralExaltation,
        CraftCurrencyEnum::DextralAnnulment() => WireCurrencyKind::DextralAnnulment,
        CraftCurrencyEnum::SinistralAnnulment() => WireCurrencyKind::SinistralAnnulment,
        CraftCurrencyEnum::DextralErasure() => WireCurrencyKind::DextralErasure,
        CraftCurrencyEnum::SinistralErasure() => WireCurrencyKind::SinistralErasure,
        CraftCurrencyEnum::Whittling() => WireCurrencyKind::Whittling,
        CraftCurrencyEnum::OmenOfGreaterExaltation() => WireCurrencyKind::OmenOfGreaterExaltation,
        CraftCurrencyEnum::OmenOfLight() => WireCurrencyKind::OmenOfLight,
        CraftCurrencyEnum::DextralCrystallisation() => WireCurrencyKind::DextralCrystallisation,
        CraftCurrencyEnum::SinistralCrystallisation() => WireCurrencyKind::SinistralCrystallisation,
        CraftCurrencyEnum::Desecrator(_, _) => WireCurrencyKind::Desecrator,
        CraftCurrencyEnum::Essence(_) => WireCurrencyKind::Essence,
    }
}

/// The payloads of a currency: the desecrator's base item and group, or
/// the essence id.
pub open spec fn spec_currency_payloads(c: CraftCurrencyEnum) -> (Option<WireDesecratorPayload>, Option<u32>) {
    match c {
        CraftCurrencyEnum::Desecrator(b, g) => (Some(WireDesecratorPayload { base_item_id: b.0 as u32, base_group_id: g.0 as u32 }), None),
        CraftCurrencyEnum::Essence(e) => (None, Some(e.0 as u32)),
        _ => (None, None),
    }
}

/// Checked domain form of a wire currency.
pub open spec fn spec_currency_from_wire(kind: WireCurrencyKind, desecrator: Option<WireDesecratorPayload>, essence_id: Option<u32>) -> Result<CraftCurrencyEnum, ConvertError> {
    match kind {
        WireCurrencyKind::Unspecified => Err(ConvertError::UnspecifiedEnum(WireField::CurrencyKind)),
        WireCurrencyKind::OrbOfTransmutationNormal => Ok(CraftCurrencyEnum::OrbOfTransmutationNormal()),
        WireCurrencyKind::OrbOfTransmutationGreater => Ok(CraftCurrencyEnum::OrbOfTransmutationGreater()),
        WireCurrencyKind::OrbOfTransmutationPerfect => Ok(CraftCurrencyEnum::OrbOfTransmutationPerfect()),
        WireCurrencyKind::OrbOfAugmentationNormal => Ok(CraftCurrencyEnum::OrbOfAugmentationNormal()),
        WireCurrencyKind::OrbOfAugmentationGreater => Ok(CraftCurrencyEnum::OrbOfAugmentationGreater()),
        WireCurrencyKind::OrbOfAugmentationPerfect => Ok(CraftCurrencyEnum::OrbOfAugmentationPerfect()),
        WireCurrencyKind::RegalOrbNormal => Ok(CraftCurrencyEnum::RegalOrbNormal()),
        WireCurrencyKind::RegalOrbGreater => Ok(CraftCurrencyEnum::RegalOrbGreater()),
        WireCurrencyKind::RegalOrbPerfect => Ok(CraftCurrencyEnum::RegalOrbPerfect()),
        WireCurrencyKind::ExaltedOrbNormal => Ok(CraftCurrencyEnum::ExaltedOrbNormal()),
        WireCurrencyKind::ExaltedOrbGreater => Ok(CraftCurrencyEnum::ExaltedOrbGreater()),
        WireCurrencyKind::ExaltedOrbPerfect => Ok(CraftCurrencyEnum::ExaltedOrbPerfect()),
        WireCurrencyKind::OrbOfAnnulment => Ok(CraftCurrencyEnum::OrbOfAnnulment()),
        WireCurrencyKind::ChaosOrbNormal => Ok(CraftCurrencyEnum::ChaosOrbNormal()),
        WireCurrencyKind::ChaosOrbGreater => Ok(CraftCurrencyEnum::ChaosOrbGreater()),
        WireCurrencyKind::ChaosOrbPerfect => Ok(CraftCurrencyEnum::ChaosOrbPerfect()),
        WireCurrencyKind::ArtificersOrb => Ok(CraftCurrencyEnum::ArtificersOrb()),
        WireCurrencyKind::VaalOrb => Ok(CraftCurrencyEnum::VaalOrb()),
        WireCurrencyKind::OmenOfCorruption => Ok(CraftCurrencyEnum::OmenOfCorruption()),
        WireCurrencyKind::FracturingOrb => Ok(CraftCurrencyEnum::FracturingOrb()),
        WireCurrencyKind::AbyssalEchoes => Ok(CraftCurrencyEnum::AbyssalEchoes()),
        WireCurrencyKind::TheBlackblooded => Ok(CraftCurrencyEnum::TheBlackblooded()),
        WireCurrencyKind::TheSovereign => Ok(CraftCurrencyEnum::TheSovereign()),
        WireCurrencyKind::TheLiege => Ok(CraftCurrencyEnum::TheLiege()),
        WireCurrencyKind::DextralNecromancy => Ok(CraftCurrencyEnum::DextralNecromancy()),
        WireCurrencyKind::SinistralNecromancy => Ok(CraftCurrencyEnum::SinistralNecromancy()),
        WireCurrencyKind::HomogenisingCoronation => Ok(CraftCurrencyEnum::HomogenisingCoronation()),
        WireCurrencyKind::HomogenisingExaltation => Ok(CraftCurrencyEnum::HomogenisingExaltation()),
        WireCurrencyKind::DextralExaltation => Ok(CraftCurrencyEnum::DextralExaltation()),
        WireCurrencyKind::SinistralExaltation => Ok(CraftCurrencyEnum::SinistralExaltation()),
        WireCurrencyKind::DextralAnnulment => Ok(CraftCurrencyEnum::DextralAnnulment()),
        WireCurrencyKind::SinistralAnnulment => Ok(CraftCurrencyEnum::SinistralAnnulment()),
        WireCurrencyKind::DextralErasure => Ok(CraftCurrencyEnum::DextralErasure()),
        WireCurrencyKind::SinistralErasure => Ok(CraftCurrencyEnum::SinistralErasure()),
        WireCurrencyKind::Whittling => Ok(CraftCurrencyEnum::Whittling()),
        WireCurrencyKind::OmenOfGreaterExaltation => Ok(CraftCurrencyEnum::OmenOfGreaterExaltation()),
        WireCurrencyKind::OmenOfLight => Ok(CraftCurrencyEnum::OmenOfLight()),
        WireCurrencyKind::DextralCrystallisation => Ok(CraftCurrencyEnum::DextralCrystallisation()),
        WireCurrencyKind::SinistralCrystallisation => Ok(CraftCurrencyEnum::SinistralCrystallisation()),
        WireCurrencyKind::Desecrator => match desecrator {
            None => Err(ConvertError::MissingPayload(PayloadKind::Desecrator)),
            Some(p) => match spec_check_u16(WireField::DesecratorBaseItemId, p.base_item_id) {
                Err(e) => Err(e),
                Ok(b) => match spec_check_u16(WireField::DesecratorBaseGroupId, p.base_group_id) {
                    Err(e) => Err(e),
                    Ok(g) => Ok(CraftCurrencyEnum::Desecrator(BaseItemId(b), BaseGroupId(g))),
                },
            },
        },
        WireCurrencyKind::Essence => match essence_id {
            None => Err(ConvertError::MissingPayload(PayloadKind::Essence)),
            Some(e) => match spec_check_u16(WireField::EssenceId, e) {
                Err(err) => Err(err),
                Ok(id) => Ok(CraftCurrencyEnum::Essence(EssenceId(id))),
            },
        },
    }
}

/// The wire currency kind and the currency of the same name.
pub open spec fn same_currency_name(k: WireCurrencyKind, c: CraftCurrencyEnum) -> bool {
    match c {
        CraftCurrencyEnum::OrbOfTransmutationNormal() => k == WireCurrencyKind::OrbOfTransmutationNormal,
        CraftCurrencyEnum::OrbOfTransmutationGreater() => k == WireCurrencyKind::OrbOfTransmutationGreater,
        CraftCurrencyEnum::OrbOfTransmutationPerfect() => k == WireCurrencyKind::OrbOfTransmutationPerfect,
        CraftCurrencyEnum::OrbOfAugmentationNormal() => k == WireCurrencyKind::OrbOfAugmentationNormal,
        CraftCurrencyEnum::OrbOfAugmentationGreater() => k == WireCurrencyKind::OrbOfAugmentationGreater,
        CraftCurrencyEnum::OrbOfAugmentationPerfect() => k == WireCurrencyKind::OrbOfAugmentationPerfect,
        CraftCurrencyEnum::RegalOrbNormal() => k == WireCurrencyKind::RegalOrbNormal,
        CraftCurrencyEnum::RegalOrbGreater() => k == WireCurrencyKind::RegalOrbGreater,
        CraftCurrencyEnum::RegalOrbPerfect() => k == WireCurrencyKind::RegalOrbPerfect,
        CraftCurrencyEnum::ExaltedOrbNormal() => k == WireCurrencyKind::ExaltedOrbNormal,
        CraftCurrencyEnum::ExaltedOrbGreater() => k == WireCurrencyKind::ExaltedOrbGreater,
        CraftCurrencyEnum::ExaltedOrbPerfect() => k == WireCurrencyKind::ExaltedOrbPerfect,
        CraftCurrencyEnum::OrbOfAnnulment() => k == WireCurrencyKind::OrbOfAnnulment,
        CraftCurrencyEnum::ChaosOrbNormal() => k == WireCurrencyKind::ChaosOrbNormal,
        CraftCurrencyEnum::ChaosOrbGreater() => k == WireCurrencyKind::ChaosOrbGreater,
        CraftCurrencyEnum::ChaosOrbPerfect() => k == WireCurrencyKind::ChaosOrbPerfect,
        CraftCurrencyEnum::ArtificersOrb() => k == WireCurrencyKind::ArtificersOrb,
        CraftCurrencyEnum::VaalOrb() => k == WireCurrencyKind::VaalOrb,
        CraftCurrencyEnum::OmenOfCorruption() => k == WireCurrencyKind::OmenOfCorruption,
        CraftCurrencyEnum::FracturingOrb() => k == WireCurrencyKind::FracturingOrb,
        CraftCurrencyEnum::Desecrator(_, _) => k == WireCurrencyKind::Desecrator,
        CraftCurrencyEnum::AbyssalEchoes() => k == WireCurrencyKind::AbyssalEchoes,
        CraftCurrencyEnum::TheBlackblooded() => k == WireCurrencyKind::TheBlackblooded,
        CraftCurrencyEnum::TheSovereign() => k == WireCurrencyKind::TheSovereign,
        CraftCurrencyEnum::TheLiege() => k == WireCurrencyKind::TheLiege,
        CraftCurrencyEnum::DextralNecromancy() => k == WireCurrencyKind::DextralNecromancy,
        CraftCurrencyEnum::SinistralNecromancy() => k == WireCurrencyKind::SinistralNecromancy,
        CraftCurrencyEnum::HomogenisingCoronation() => k == WireCurrencyKind::HomogenisingCoronation,
        CraftCurrencyEnum::HomogenisingExaltation() => k == WireCurrencyKind::HomogenisingExaltation,
        CraftCurrencyEnum::DextralExaltation() => k == WireCurrencyKind::DextralExaltation,
        CraftCurrencyEnum::SinistralExaltation() => k == WireCurrencyKind::SinistralExaltation,
        CraftCurrencyEnum::DextralAnnulment() => k == WireCurrencyKind::DextralAnnulment,
        CraftCurrencyEnum::SinistralAnnulment() => k == WireCurrencyKind::SinistralAnnulment,
        CraftCurrencyEnum::DextralErasure() => k == WireCurrencyKind::DextralErasure,
        CraftCurrencyEnum::SinistralErasure() => k == WireCurrencyKind::SinistralErasure,
        CraftCurrencyEnum::Whittling() => k == WireCurrencyKind::Whittling,
        CraftCurrencyEnum::OmenOfGreaterExaltation() => k == WireCurrencyKind::OmenOfGreaterExaltation,
        CraftCurrencyEnum::OmenOfLight() => k == WireCurrencyKind::OmenOfLight,
        CraftCurrencyEnum::Essence(_) => k == WireCurrencyKind::Essence,
        CraftCurrencyEnum::DextralCrystallisation() => k == WireCurrencyKind::DextralCrystallisation,
        CraftCurrencyEnum::SinistralCrystallisation() => k == WireCurrencyKind::SinistralCrystallisation,
    }
}

/// Every currency crosses the wire under its own name: a currency goes out
/// with the kind of its name, and a converted kind gives the currency of
/// that name; only the unspecified kind is refused for want of a name.
pub proof fn law_currency_keeps_its_name(c: CraftCurrencyEnum, k: WireCurrencyKind, d: Option<WireDesecratorPayload>, e: Option<u32>)
    ensures
        same_currency_name(spec_currency_kind(c), c),
        spec_currency_from_wire(k, d, e) matches Ok(r) ==> same_currency_name(k, r),
        k == WireCurrencyKind::Unspecified ==> spec_currency_from_wire(k, d, e) is Err,
{
}

/// Wire form of a currency; with game data the in-game display name is
/// resolved so clients need none, without it the name is empty.
pub fn craft_currency_to_proto(c: &CraftCurrencyEnum, item_info: Option<&ItemInfoProvider>) -> (r: WireCraftCurrency)
    ensures
        r.kind == spec_currency_kind(*c),
        (r.desecrator, r.essence_id) == spec_currency_payloads(*c),
        r.display_name@ == match item_info {
            Some(p) => spec_item_name(*c, *p),
            None => Seq::<char>::empty(),
        },
{
    let (kind, desecrator, essence_id): (WireCurrencyKind, Option<WireDesecratorPayload>, Option<u32>) = match c {
        CraftCurrencyEnum::OrbOfTransmutationNormal() => (WireCurrencyKind::OrbOfTransmutationNormal, None, None),
        CraftCurrencyEnum::OrbOfTransmutationGreater() => (WireCurrencyKind::OrbOfTransmutationGreater, None, None),
        CraftCurrencyEnum::OrbOfTransmutationPerfect() => (WireCurrencyKind::OrbOfTransmutationPerfect, None, None),
        CraftCurrencyEnum::OrbOfAugmentationNormal() => (WireCurrencyKind::OrbOfAugmentationNormal, None, None),
        CraftCurrencyEnum::OrbOfAugmentationGreater() => (WireCurrencyKind::OrbOfAugmentationGreater, None, None),
        CraftCurrencyEnum::OrbOfAugmentationPerfect() => (WireCurrencyKind::OrbOfAugmentationPerfect, None, None),
        CraftCurrencyEnum::RegalOrbNormal() => (WireCurrencyKind::RegalOrbNormal, None, None),
        CraftCurrencyEnum::RegalOrbGreater() => (WireCurrencyKind::RegalOrbGreater, None, None),
        CraftCurrencyEnum::RegalOrbPerfect() => (WireCurrencyKind::RegalOrbPerfect, None, None),
        CraftCurrencyEnum::ExaltedOrbNormal() => (WireCurrencyKind::ExaltedOrbNormal, None, None),
        CraftCurrencyEnum::ExaltedOrbGreater() => (WireCurrencyKind::ExaltedOrbGreater, None, None),
        CraftCurrencyEnum::ExaltedOrbPerfect() => (WireCurrencyKind::ExaltedOrbPerfect, None, None),
        CraftCurrencyEnum::OrbOfAnnulment() => (WireCurrencyKind::OrbOfAnnulment, None, None),
        CraftCurrencyEnum::ChaosOrbNormal() => (WireCurrencyKind::ChaosOrbNormal, None, None),
        CraftCurrencyEnum::ChaosOrbGreater() => (WireCurrencyKind::ChaosOrbGreater, None, None),
        CraftCurrencyEnum::ChaosOrbPerfect() => (WireCurrencyKind::ChaosOrbPerfect, None, None),
        CraftCurrencyEnum::ArtificersOrb() => (WireCurrencyKind::ArtificersOrb, None, None),
        CraftCurrencyEnum::VaalOrb() => (WireCurrencyKind::VaalOrb, None, None),
        CraftCurrencyEnum::OmenOfCorruption() => (WireCurrencyKind::OmenOfCorruption, None, None),
        CraftCurrencyEnum::FracturingOrb() => (WireCurrencyKind::FracturingOrb, None, None),
        CraftCurrencyEnum::AbyssalEchoes() => (WireCurrencyKind::AbyssalEchoes, None, None),
        CraftCurrencyEnum::TheBlackblooded() => (WireCurrencyKind::TheBlackblooded, None, None),
        CraftCurrencyEnum::TheSovereign() => (WireCurrencyKind::TheSovereign, None, None),
        CraftCurrencyEnum::TheLiege() => (WireCurrencyKind::TheLiege, None, None),
        CraftCurrencyEnum::DextralNecromancy() => (WireCurrencyKind::DextralNecromancy, None, None),
        CraftCurrencyEnum::SinistralNecromancy() => (WireCurrencyKind::SinistralNecromancy, None, None),
        CraftCurrencyEnum::HomogenisingCoronation() => (WireCurrencyKind::HomogenisingCoronation, None, None),
        CraftCurrencyEnum::HomogenisingExaltation() => (WireCurrencyKind::HomogenisingExaltation, None, None),
        CraftCurrencyEnum::DextralExaltation() => (WireCurrencyKind::DextralExaltation, None, None),
        CraftCurrencyEnum::SinistralExaltation() => (WireCurrencyKind::SinistralExaltation, None, None),
        CraftCurrencyEnum::DextralAnnulment() => (WireCurrencyKind::DextralAnnulment, None, None),
        CraftCurrencyEnum::SinistralAnnulment() => (WireCurrencyKind::SinistralAnnulment, None, None),
        CraftCurrencyEnum::DextralErasure() => (WireCurrencyKind::DextralErasure, None, None),
        CraftCurrencyEnum::SinistralErasure() => (WireCurrencyKind::SinistralErasure, None, None),
        CraftCurrencyEnum::Whittling() => (WireCurrencyKind::Whittling, None, None),
        CraftCurrencyEnum::OmenOfGreaterExaltation() => (WireCurrencyKind::OmenOfGreaterExaltation, None, None),
        CraftCurrencyEnum::OmenOfLight() => (WireCurrencyKind::OmenOfLight, None, None),
        CraftCurrencyEnum::DextralCrystallisation() => (WireCurrencyKind::DextralCrystallisation, None, None),
        CraftCurrencyEnum::SinistralCrystallisation() => (WireCurrencyKind::SinistralCrystallisation, None, None),
        CraftCurrencyEnum::Desecrator(b, g) => (
            WireCurrencyKind::Desecrator,
            Some(WireDesecratorPayload { base_item_id: b.0 as u32, base_group_id: g.0 as u32 }),
            None,
        ),
        CraftCurrencyEnum::Essence(e) => (WireCurrencyKind::Essence, None, Some(e.0 as u32)),
    };
    let display_name = match item_info {
        Some(info) => c.get_item_name(info),
        None => String::new(),
    };
    WireCraftCurrency { kind, desecrator, essence_id, display_name }
}

impl WireCraftCurrency {
    /// Checked domain form.
    pub fn to_domain(&self) -> (r: Result<CraftCurrencyEnum, ConvertError>)
        ensures
            r == spec_currency_from_wire(self.kind, self.desecrator, self.essence_id),
    {
        match self.kind {
            WireCurrencyKind::Unspecified => Err(ConvertError::UnspecifiedEnum(WireField::CurrencyKind)),
            WireCurrencyKind::OrbOfTransmutationNormal => Ok(CraftCurrencyEnum::OrbOfTransmutationNormal()),
            WireCurrencyKind::OrbOfTransmutationGreater => Ok(CraftCurrencyEnum::OrbOfTransmutationGreater()),
            WireCurrencyKind::OrbOfTransmutationPerfect => Ok(CraftCurrencyEnum::OrbOfTransmutationPerfect()),
            WireCurrencyKind::OrbOfAugmentationNormal => Ok(CraftCurrencyEnum::OrbOfAugmentationNormal()),
            WireCurrencyKind::OrbOfAugmentationGreater => Ok(CraftCurrencyEnum::OrbOfAugmentationGreater()),
            WireCurrencyKind::OrbOfAugmentationPerfect => Ok(CraftCurrencyEnum::OrbOfAugmentationPerfect()),
            WireCurrencyKind::RegalOrbNormal => Ok(CraftCurrencyEnum::RegalOrbNormal()),
            WireCurrencyKind::RegalOrbGreater => Ok(CraftCurrencyEnum::RegalOrbGreater()),
            WireCurrencyKind::RegalOrbPerfect => Ok(CraftCurrencyEnum::RegalOrbPerfect()),
            WireCurrencyKind::ExaltedOrbNormal => Ok(CraftCurrencyEnum::ExaltedOrbNormal()),
            WireCurrencyKind::ExaltedOrbGreater => Ok(CraftCurrencyEnum::ExaltedOrbGreater()),
            WireCurrencyKind::ExaltedOrbPerfect => Ok(CraftCurrencyEnum::ExaltedOrbPerfect()),
            WireCurrencyKind::OrbOfAnnulment => Ok(CraftCurrencyEnum::OrbOfAnnulment()),
            WireCurrencyKind::ChaosOrbNormal => Ok(CraftCurrencyEnum::ChaosOrbNormal()),
            WireCurrencyKind::ChaosOrbGreater => Ok(CraftCurrencyEnum::ChaosOrbGreater()),
            WireCurrencyKind::ChaosOrbPerfect => Ok(CraftCurrencyEnum::ChaosOrbPerfect()),
            WireCurrencyKind::ArtificersOrb => Ok(CraftCurrencyEnum::ArtificersOrb()),
            WireCurrencyKind::VaalOrb => Ok(CraftCurrencyEnum::VaalOrb()),
            WireCurrencyKind::OmenOfCorruption => Ok(CraftCurrencyEnum::OmenOfCorruption()),
            WireCurrencyKind::FracturingOrb => Ok(CraftCurrencyEnum::FracturingOrb()),
            WireCurrencyKind::AbyssalEchoes => Ok(CraftCurrencyEnum::AbyssalEchoes()),
            WireCurrencyKind::TheBlackblooded => Ok(CraftCurrencyEnum::TheBlackblooded()),
            WireCurrencyKind::TheSovereign => Ok(CraftCurrencyEnum::TheSovereign()),
            WireCurrencyKind::TheLiege => Ok(CraftCurrencyEnum::TheLiege()),
            WireCurrencyKind::DextralNecromancy => Ok(CraftCurrencyEnum::DextralNecromancy()),
            WireCurrencyKind::SinistralNecromancy => Ok(CraftCurrencyEnum::SinistralNecromancy()),
            WireCurrencyKind::HomogenisingCoronation => Ok(CraftCurrencyEnum::HomogenisingCoronation()),
            WireCurrencyKind::HomogenisingExaltation => Ok(CraftCurrencyEnum::HomogenisingExaltation()),
            WireCurrencyKind::DextralExaltation => Ok(CraftCurrencyEnum::DextralExaltation()),
            WireCurrencyKind::SinistralExaltation => Ok(CraftCurrencyEnum::SinistralExaltation()),
            WireCurrencyKind::DextralAnnulment => Ok(CraftCurrencyEnum::DextralAnnulment()),
            WireCurrencyKind::SinistralAnnulment => Ok(CraftCurrencyEnum::SinistralAnnulment()),
            WireCurrencyKind::DextralErasure => Ok(CraftCurrencyEnum::DextralErasure()),
            WireCurrencyKind::SinistralErasure => Ok(CraftCurrencyEnum::SinistralErasure()),
            WireCurrencyKind::Whittling => Ok(CraftCurrencyEnum::Whittling()),
            WireCurrencyKind::OmenOfGreaterExaltation => Ok(CraftCurrencyEnum::OmenOfGreaterExaltation()),
            WireCurrencyKind::OmenOfLight => Ok(CraftCurrencyEnum::OmenOfLight()),
            WireCurrencyKind::DextralCrystallisation => Ok(CraftCurrencyEnum::DextralCrystallisation()),
            WireCurrencyKind::SinistralCrystallisation => Ok(CraftCurrencyEnum::SinistralCrystallisation()),
            WireCurrencyKind::Desecrator => {
                let p = match self.desecrator {
                    Some(p) => p,
                    None => return Err(ConvertError::MissingPayload(PayloadKind::Desecrator)),
                };
                let b = check_u16(WireField::DesecratorBaseItemId, p.base_item_id)?;
                let g = check_u16(WireField::DesecratorBaseGroupId, p.base_group_id)?;
                Ok(CraftCurrencyEnum::Desecrator(BaseItemId(b), BaseGroupId(g)))
            },
            WireCurrencyKind::Essence => {
                let e = match self.essence_id {
                    Some(e) => e,
                    None => return Err(ConvertError::MissingPayload(PayloadKind::Essence)),
                };
                let id = check_u16(WireField::EssenceId, e)?;
                Ok(CraftCurrencyEnum::Essence(EssenceId(id)))
            },
        }
    }
}

/// Every currency survives the wire round trip unchanged.
pub proof fn lemma_currency_roundtrip(c: CraftCurrencyEnum)
    ensures
        spec_currency_from_wire(spec_currency_kind(c), spec_currency_payloads(c).0, spec_currency_payloads(c).1)
            == Ok::<CraftCurrencyEnum, ConvertError>(c),
{
}

/// Wire form of a currency list.
pub fn craft_currency_list_to_proto(list: &Vec<CraftCurrencyEnum>, item_info: Option<&ItemInfoProvider>) -> (r: Vec<WireCraftCurrency>)
    ensures
        r@.len() == list@.len(),
        forall|i: int| 0 <= i < list@.len() ==> {
            &&& (#[trigger] r@[i]).kind == spec_currency_kind(list@[i])
            &&& (r@[i].desecrator, r@[i].essence_id) == spec_currency_payloads(list@[i])
            &&& r@[i].display_name@ == match item_info {
                Some(p) => spec_item_name(list@[i], *p),
                None => Seq::<char>::empty(),
            }
        },
{
    let mut r: Vec<WireCraftCurrency> = Vec::new();
    let mut i: usize = 0;
    while i < list.len()
        invariant
            i <= list@.len(),
            r@.len() == i,
            forall|k: int| 0 <= k < i ==> {
                &&& (#[trigger] r@[k]).kind == spec_currency_kind(list@[k])
                &&& (r@[k].desecrator, r@[k].essence_id) == spec_currency_payloads(list@[k])
                &&& r@[k].display_name@ == match item_info {
                    Some(p) => spec_item_name(list@[k], *p),
                    None => Seq::<char>::empty(),
                }
            },
        decreases list.len() - i,
    {
        r.push(craft_currency_to_proto(&list[i], item_info));
        i += 1;
    }
    r
}

/// The matrix builder presets.
#[derive(Clone, Copy, Debug, PartialEq, Eq, Structural)]
pub enum MatrixBuilderPreset {
    HappyPathMatrixBuilder,
}

/// The path analyzer presets.
#[derive(Clone, Copy, Debug, PartialEq, Eq, Structural)]
pub enum StatisticAnalyzerPathPreset {
    UniquePathChance,
    UniquePathEfficiency,
    UniquePathCost,
    UniquePathChanceMemoryHeavy,
}

/// The currency group analyzer presets.
#[derive(Clone, Copy, Debug, PartialEq, Eq, Structural)]
pub enum StatisticAnalyzerCurrencyGroupPreset {
    CurrencyGroupChance,
    CurrencyGroupChanceMemoryHeavy,
}

/// Wire form of the matrix builder preset.
#[derive(Clone, Copy, Debug, PartialEq, Eq, Structural)]
pub enum WireMatrixBuilderPreset {
    Unspecified,
    HappyPath,
}

/// Wire form of a path analyzer preset.
#[derive(Clone, Copy, Debug, PartialEq, Eq, Structural)]
pub enum WirePathPreset {
    Unspecified,
    UniquePathChance,
    UniquePathEfficiency,
    UniquePathCost,
    UniquePathChanceMemoryHeavy,
}

/// Wire form of a currency group analyzer preset.
#[derive(Clone, Copy, Debug, PartialEq, Eq, Structural)]
pub enum WireGroupPreset {
    Unspecified,
    CurrencyGroupChance,
    CurrencyGroupChanceMemoryHeavy,
}

pub open spec fn spec_matrix_preset_from_wire(p: WireMatrixBuilderPreset) -> Result<MatrixBuilderPreset, ConvertError> {
    match p {
        WireMatrixBuilderPreset::HappyPath => Ok(MatrixBuilderPreset::HappyPathMatrixBuilder),
        WireMatrixBuilderPreset::Unspecified => Err(ConvertError::UnspecifiedEnum(WireField::MatrixBuilder)),
    }
}

pub open spec fn spec_path_preset_to_wire(p: StatisticAnalyzerPathPreset) -> WirePathPreset {
    match p {
        StatisticAnalyzerPathPreset::UniquePathChance => WirePathPreset::UniquePathChance,
        StatisticAnalyzerPathPreset::UniquePathEfficiency => WirePathPreset::UniquePathEfficiency,
        StatisticAnalyzerPathPreset::UniquePathCost => WirePathPreset::UniquePathCost,
        StatisticAnalyzerPathPreset::UniquePathChanceMemoryHeavy => WirePathPreset::UniquePathChanceMemoryHeavy,
    }
}

pub open spec fn spec_path_preset_from_wire(p: WirePathPreset) -> Result<StatisticAnalyzerPathPreset, ConvertError> {
    match p {
        WirePathPreset::UniquePathChance => Ok(StatisticAnalyzerPathPreset::UniquePathChance),
        WirePathPreset::UniquePathEfficiency => Ok(StatisticAnalyzerPathPreset::UniquePathEfficiency),
        WirePathPreset::UniquePathCost => Ok(StatisticAnalyzerPathPreset::UniquePathCost),
        WirePathPreset::UniquePathChanceMemoryHeavy => Ok(StatisticAnalyzerPathPreset::UniquePathChanceMemoryHeavy),
        WirePathPreset::Unspecified => Err(ConvertError::UnspecifiedEnum(WireField::PathAnalyzers)),
    }
}

pub open spec fn spec_group_preset_to_wire(p: StatisticAnalyzerCurrencyGroupPreset) -> WireGroupPreset {
    match p {
        StatisticAnalyzerCurrencyGroupPreset::CurrencyGroupChance => WireGroupPreset::CurrencyGroupChance,
        StatisticAnalyzerCurrencyGroupPreset::CurrencyGroupChanceMemoryHeavy => WireGroupPreset::CurrencyGroupChanceMemoryHeavy,
    }
}

pub open spec fn spec_group_preset_from_wire(p: WireGroupPreset) -> Result<StatisticAnalyzerCurrencyGroupPreset, ConvertError> {
    match p {
        WireGroupPreset::CurrencyGroupChance => Ok(StatisticAnalyzerCurrencyGroupPreset::CurrencyGroupChance),
        WireGroupPreset::CurrencyGroupChanceMemoryHeavy => Ok(StatisticAnalyzerCurrencyGroupPreset::CurrencyGroupChanceMemoryHeavy),
        WireGroupPreset::Unspecified => Err(ConvertError::UnspecifiedEnum(WireField::GroupAnalyzers)),
    }
}

/// The wire analyzer preset and the domain preset of the same name.
pub open spec fn same_path_preset_name(w: WirePathPreset, p: StatisticAnalyzerPathPreset) -> bool {
    ||| w == WirePathPreset::UniquePathChance && p == StatisticAnalyzerPathPreset::UniquePathChance
    ||| w == WirePathPreset::UniquePathEfficiency && p == StatisticAnalyzerPathPreset::UniquePathEfficiency
    ||| w == WirePathPreset::UniquePathCost && p == StatisticAnalyzerPathPreset::UniquePathCost
    ||| w == WirePathPreset::UniquePathChanceMemoryHeavy && p == StatisticAnalyzerPathPreset::UniquePathChanceMemoryHeavy
}

pub open spec fn same_group_preset_name(w: WireGroupPreset, p: StatisticAnalyzerCurrencyGroupPreset) -> bool {
    ||| w == WireGroupPreset::CurrencyGroupChance && p == StatisticAnalyzerCurrencyGroupPreset::CurrencyGroupChance
    ||| w == WireGroupPreset::CurrencyGroupChanceMemoryHeavy
        && p == StatisticAnalyzerCurrencyGroupPreset::CurrencyGroupChanceMemoryHeavy
}

/// Analyzer presets cross the wire under their own names; only the
/// unspecified ones are refused.
pub proof fn law_presets_keep_their_name(
    w: WirePathPreset,
    p: StatisticAnalyzerPathPreset,
    wg: WireGroupPreset,
    g: StatisticAnalyzerCurrencyGroupPreset,
)
    ensures
        spec_path_preset_from_wire(w) matches Ok(r) ==> same_path_preset_name(w, r),
        w != WirePathPreset::Unspecified <==> spec_path_preset_from_wire(w) is Ok,
        same_path_preset_name(spec_path_preset_to_wire(p), p),
        spec_group_preset_from_wire(wg) matches Ok(r) ==> same_group_preset_name(wg, r),
        wg != WireGroupPreset::Unspecified <==> spec_group_preset_from_wire(wg) is Ok,
        same_group_preset_name(spec_group_preset_to_wire(g), g),
{
}

impl MatrixBuilderPreset {
    pub fn to_wire(&self) -> (r: WireMatrixBuilderPreset)
        ensures
            r == WireMatrixBuilderPreset::HappyPath,
    {
        match self {
            MatrixBuilderPreset::HappyPathMatrixBuilder => WireMatrixBuilderPreset::HappyPath,
        }
    }

    pub fn try_from_wire(p: WireMatrixBuilderPreset) -> (r: Result<MatrixBuilderPreset, ConvertError>)
        ensures
            r == spec_matrix_preset_from_wire(p),
    {
        match p {
            WireMatrixBuilderPreset::HappyPath => Ok(MatrixBuilderPreset::HappyPathMatrixBuilder),
            WireMatrixBuilderPreset::Unspecified => Err(ConvertError::UnspecifiedEnum(WireField::MatrixBuilder)),
        }
    }
}

impl StatisticAnalyzerPathPreset {
    pub fn to_wire(&self) -> (r: WirePathPreset)
        ensures
            r == spec_path_preset_to_wire(*self),
    {
        match self {
            StatisticAnalyzerPathPreset::UniquePathChance => WirePathPreset::UniquePathChance,
            StatisticAnalyzerPathPreset::UniquePathEfficiency => WirePathPreset::UniquePathEfficiency,
            StatisticAnalyzerPathPreset::UniquePathCost => WirePathPreset::UniquePathCost,
            StatisticAnalyzerPathPreset::UniquePathChanceMemoryHeavy => WirePathPreset::UniquePathChanceMemoryHeavy,
        }
    }

    pub fn try_from_wire(p: WirePathPreset) -> (r: Result<StatisticAnalyzerPathPreset, ConvertError>)
        ensures
            r == spec_path_preset_from_wire(p),
    {
        match p {
            WirePathPreset::UniquePathChance => Ok(StatisticAnalyzerPathPreset::UniquePathChance),
            WirePathPreset::UniquePathEfficiency => Ok(StatisticAnalyzerPathPreset::UniquePathEfficiency),
            WirePathPreset::UniquePathCost => Ok(StatisticAnalyzerPathPreset::UniquePathCost),
            WirePathPreset::UniquePathChanceMemoryHeavy => Ok(StatisticAnalyzerPathPreset::UniquePathChanceMemoryHeavy),
            WirePathPreset::Unspecified => Err(ConvertError::UnspecifiedEnum(WireField::PathAnalyzers)),
        }
    }
}

impl StatisticAnalyzerCurrencyGroupPreset {
    pub fn to_wire(&self) -> (r: WireGroupPreset)
        ensures
            r == spec_group_preset_to_wire(*self),
    {
        match self {
            StatisticAnalyzerCurrencyGroupPreset::CurrencyGroupChance => WireGroupPreset::CurrencyGroupChance,
            StatisticAnalyzerCurrencyGroupPreset::CurrencyGroupChanceMemoryHeavy => WireGroupPreset::CurrencyGroupChanceMemoryHeavy,
        }
    }

    pub fn try_from_wire(p: WireGroupPreset) -> (r: Result<StatisticAnalyzerCurrencyGroupPreset, ConvertError>)
        ensures
            r == spec_group_preset_from_wire(p),
    {
        match p {
            WireGroupPreset::CurrencyGroupChance => Ok(StatisticAnalyzerCurrencyGroupPreset::CurrencyGroupChance),
            WireGroupPreset::CurrencyGroupChanceMemoryHeavy => Ok(StatisticAnalyzerCurrencyGroupPreset::CurrencyGroupChanceMemoryHeavy),
            WireGroupPreset::Unspecified => Err(ConvertError::UnspecifiedEnum(WireField::GroupAnalyzers)),
        }
    }
}

/// Every preset survives the wire round trip unchanged.
pub proof fn lemma_presets_roundtrip(p: StatisticAnalyzerPathPreset, g: StatisticAnalyzerCurrencyGroupPreset)
    ensures
        spec_path_preset_from_wire(spec_path_preset_to_wire(p)) == Ok::<StatisticAnalyzerPathPreset, ConvertError>(p),
        spec_group_preset_from_wire(spec_group_preset_to_wire(g)) == Ok::<StatisticAnalyzerCurrencyGroupPreset, ConvertError>(g),
        spec_matrix_preset_from_wire(WireMatrixBuilderPreset::HappyPath) == Ok::<MatrixBuilderPreset, ConvertError>(MatrixBuilderPreset::HappyPathMatrixBuilder),
{
}

} // verus!
