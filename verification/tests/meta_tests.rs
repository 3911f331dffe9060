use craftpath::meta::{filter_archetypes, MetaArchetype, MetaCatalog};

fn archetype(slot: &str, item_class: &str, classes: &[&str], bracket: &str, name: &str) -> MetaArchetype {
    MetaArchetype {
        slot: slot.to_string(),
        item_class: item_class.to_string(),
        char_classes: classes.iter().map(|c| c.to_string()).collect(),
        level_bracket: bracket.to_string(),
        archetype: name.to_string(),
        affixes: vec!["+# to Level of all Projectile Skills".to_string()],
        craft_spec: Some("PPSS".to_string()),
        notes: None,
    }
}

fn catalog() -> MetaCatalog {
    MetaCatalog {
        source: "curated-static".to_string(),
        updated: "2025".to_string(),
        game_patch: "0.5".to_string(),
        disclaimer: "".to_string(),
        archetypes: vec![
            archetype("weapon", "Bow", &["Amazon", "Deadeye"], "endgame", "crit bow"),
            archetype("weapon", "Crossbow", &["Any"], "any", "bolt"),
            archetype("body", "Body Armour", &["Warrior"], "leveling", "tank"),
        ],
    }
}

#[test]
fn test_filters_by_class_bracket_and_item() {
    let c = catalog();
    let bows = filter_archetypes(&c, Some("bow"), None, None);
    assert_eq!(bows.len(), 2);
    assert!(bows.iter().all(|a| a.item_class.to_lowercase().contains("bow") || a.slot.to_lowercase().contains("bow")));
    let amazon = filter_archetypes(&c, Some("bow"), Some("Amazon"), Some("endgame"));
    assert_eq!(amazon.len(), 2);
    assert_eq!(amazon[0].archetype, "crit bow");
    let warriors = filter_archetypes(&c, None, Some(" warrior "), Some("Endgame"));
    assert_eq!(warriors.len(), 1);
    assert_eq!(warriors[0].archetype, "bolt");
    assert!(filter_archetypes(&c, Some("flask"), None, None).is_empty());
    assert_eq!(filter_archetypes(&c, Some("  "), Some(""), None).len(), 3);
    assert_eq!(filter_archetypes(&c, Some("WEAPON"), None, None).len(), 2);
}
