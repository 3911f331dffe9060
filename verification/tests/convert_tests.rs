use craftpath::convert::{
    check_u16, check_u8, craft_currency_to_proto, ConvertError, MatrixBuilderPreset, PayloadKind,
    StatisticAnalyzerCurrencyGroupPreset, StatisticAnalyzerPathPreset, WireCraftCurrency,
    WireCurrencyKind, WireField, WireItemRarity, WireItemSnapshot, WirePathPreset,
};
use craftpath::currency::CraftCurrencyEnum;
use craftpath::item::ItemSnapshot;
use craftpath::types::{
    AffixId, AffixSpecifier, AffixTierConstraints, AffixTierLevel, AffixTierLevelBoundsEnum,
    BaseGroupId, BaseItemId, EssenceId, ItemLevel, ItemRarityEnum,
};

fn sample_snapshot() -> ItemSnapshot {
    ItemSnapshot {
        item_level: ItemLevel::from(81),
        rarity: ItemRarityEnum::Rare,
        base_id: BaseItemId::from(20),
        affixes: vec![
            AffixSpecifier {
                affix: AffixId::from(5119),
                fractured: true,
                tier: AffixTierConstraints { tier: AffixTierLevel::from(3), bounds: AffixTierLevelBoundsEnum::Minimum },
            },
            AffixSpecifier {
                affix: AffixId::from(42),
                fractured: false,
                tier: AffixTierConstraints { tier: AffixTierLevel::from(1), bounds: AffixTierLevelBoundsEnum::Exact },
            },
        ],
        corrupted: false,
        allowed_sockets: 2,
        sockets: Vec::new(),
    }
}

#[test]
fn test_item_snapshot_roundtrip_through_proto_binary_and_json() {
    let original = sample_snapshot();
    let wire = WireItemSnapshot::from_domain(&original);
    let roundtripped = wire.to_domain().unwrap();
    assert_eq!(original, roundtripped);
}

#[test]
fn test_item_snapshot_rejects_out_of_range_values() {
    let mut proto = WireItemSnapshot::from_domain(&sample_snapshot());
    proto.item_level = 300; // > u8::MAX
    let err = proto.to_domain().unwrap_err();
    assert!(err.message().contains("item_level"), "got: {}", err.message());

    let mut proto = WireItemSnapshot::from_domain(&sample_snapshot());
    proto.rarity = WireItemRarity::Unspecified;
    assert!(proto.to_domain().is_err());
}

#[test]
fn test_all_craft_currency_variants_roundtrip() {
    let variants = vec![
        CraftCurrencyEnum::OrbOfTransmutationNormal(),
        CraftCurrencyEnum::OrbOfTransmutationGreater(),
        CraftCurrencyEnum::OrbOfTransmutationPerfect(),
        CraftCurrencyEnum::OrbOfAugmentationNormal(),
        CraftCurrencyEnum::OrbOfAugmentationGreater(),
        CraftCurrencyEnum::OrbOfAugmentationPerfect(),
        CraftCurrencyEnum::RegalOrbNormal(),
        CraftCurrencyEnum::RegalOrbGreater(),
        CraftCurrencyEnum::RegalOrbPerfect(),
        CraftCurrencyEnum::ExaltedOrbNormal(),
        CraftCurrencyEnum::ExaltedOrbGreater(),
        CraftCurrencyEnum::ExaltedOrbPerfect(),
        CraftCurrencyEnum::OrbOfAnnulment(),
        CraftCurrencyEnum::ChaosOrbNormal(),
        CraftCurrencyEnum::ChaosOrbGreater(),
        CraftCurrencyEnum::ChaosOrbPerfect(),
        CraftCurrencyEnum::ArtificersOrb(),
        CraftCurrencyEnum::VaalOrb(),
        CraftCurrencyEnum::OmenOfCorruption(),
        CraftCurrencyEnum::FracturingOrb(),
        CraftCurrencyEnum::Desecrator(BaseItemId::from(7), BaseGroupId::from(9)),
        CraftCurrencyEnum::AbyssalEchoes(),
        CraftCurrencyEnum::TheBlackblooded(),
        CraftCurrencyEnum::TheSovereign(),
        CraftCurrencyEnum::TheLiege(),
        CraftCurrencyEnum::DextralNecromancy(),
        CraftCurrencyEnum::SinistralNecromancy(),
        CraftCurrencyEnum::HomogenisingCoronation(),
        CraftCurrencyEnum::HomogenisingExaltation(),
        CraftCurrencyEnum::DextralExaltation(),
        CraftCurrencyEnum::SinistralExaltation(),
        CraftCurrencyEnum::DextralAnnulment(),
        CraftCurrencyEnum::SinistralAnnulment(),
        CraftCurrencyEnum::DextralErasure(),
        CraftCurrencyEnum::SinistralErasure(),
        CraftCurrencyEnum::Whittling(),
        CraftCurrencyEnum::Essence(EssenceId::from(11)),
        CraftCurrencyEnum::DextralCrystallisation(),
        CraftCurrencyEnum::SinistralCrystallisation(),
        CraftCurrencyEnum::OmenOfGreaterExaltation(),
        CraftCurrencyEnum::OmenOfLight(),
    ];

    for original in variants {
        let proto = craft_currency_to_proto(&original, None);
        let roundtripped = proto
            .to_domain()
            .unwrap_or_else(|e| panic!("failed for {original:?}: {}", e.message()));
        assert_eq!(original, roundtripped);
    }
}

#[test]
fn test_currency_payload_validation() {
    // DESECRATOR without payload must be rejected
    let proto = WireCraftCurrency {
        kind: WireCurrencyKind::Desecrator,
        desecrator: None,
        essence_id: None,
        display_name: String::new(),
    };
    assert!(proto.to_domain().is_err());

    // ESSENCE without payload must be rejected
    let proto = WireCraftCurrency {
        kind: WireCurrencyKind::Essence,
        desecrator: None,
        essence_id: None,
        display_name: String::new(),
    };
    assert!(proto.to_domain().is_err());
}

#[test]
fn test_preset_enums_roundtrip() {
    for p in [
        StatisticAnalyzerPathPreset::UniquePathChance,
        StatisticAnalyzerPathPreset::UniquePathEfficiency,
        StatisticAnalyzerPathPreset::UniquePathCost,
        StatisticAnalyzerPathPreset::UniquePathChanceMemoryHeavy,
    ] {
        let proto = p.to_wire();
        assert_eq!(StatisticAnalyzerPathPreset::try_from_wire(proto).unwrap(), p);
    }

    for p in [
        StatisticAnalyzerCurrencyGroupPreset::CurrencyGroupChance,
        StatisticAnalyzerCurrencyGroupPreset::CurrencyGroupChanceMemoryHeavy,
    ] {
        let proto = p.to_wire();
        assert_eq!(StatisticAnalyzerCurrencyGroupPreset::try_from_wire(proto).unwrap(), p);
    }

    let proto = MatrixBuilderPreset::HappyPathMatrixBuilder.to_wire();
    assert_eq!(MatrixBuilderPreset::try_from_wire(proto).unwrap(), MatrixBuilderPreset::HappyPathMatrixBuilder);
}

#[test]
fn test_range_checks_and_messages() {
    assert_eq!(check_u8(WireField::ItemLevel, 255), Ok(255));
    assert_eq!(check_u8(WireField::ItemLevel, 256), Err(ConvertError::OutOfRange(WireField::ItemLevel, 256, 255)));
    assert_eq!(check_u16(WireField::BaseId, 65535), Ok(65535));
    assert_eq!(check_u16(WireField::BaseId, 70000), Err(ConvertError::OutOfRange(WireField::BaseId, 70000, 65535)));
    assert_eq!(
        ConvertError::OutOfRange(WireField::ItemLevel, 300, 255).message(),
        "field 'item_level': value 300 exceeds the allowed maximum of 255"
    );
    assert_eq!(
        ConvertError::UnspecifiedEnum(WireField::Rarity).message(),
        "field 'rarity': enum value is unspecified or unknown"
    );
    assert_eq!(
        ConvertError::MissingPayload(PayloadKind::Essence).message(),
        "craft currency kind 'ESSENCE' requires the payload field 'essence_id'"
    );
    assert_eq!(
        StatisticAnalyzerPathPreset::try_from_wire(WirePathPreset::Unspecified),
        Err(ConvertError::UnspecifiedEnum(WireField::PathAnalyzers))
    );
}

#[test]
fn test_duplicate_wire_affixes_collapse_to_a_set() {
    let mut wire = WireItemSnapshot::from_domain(&sample_snapshot());
    let first = wire.affixes[0];
    wire.affixes.push(first);
    let back = wire.to_domain().unwrap();
    assert_eq!(back.affixes.len(), 2);
    let mut bad = WireItemSnapshot::from_domain(&sample_snapshot());
    bad.affixes[1].tier = None;
    assert_eq!(bad.to_domain().unwrap_err(), ConvertError::UnspecifiedEnum(WireField::AffixTier));
}
